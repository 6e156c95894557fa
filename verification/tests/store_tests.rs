use weather_alerts::db::Database;
use weather_alerts::error::ErrorKind;
use weather_alerts::models::{CreateUserRequest, UpdatePreferencesRequest, WeatherData};

fn request(email: &str, city: &str, country: &str) -> CreateUserRequest {
    CreateUserRequest {
        email: email.to_string(),
        city: city.to_string(),
        country: country.to_string(),
    }
}

fn observation(city: &str, country: &str, temperature: i64, fetched_at: i64) -> WeatherData {
    WeatherData {
        id: 77,
        city: city.to_string(),
        country: country.to_string(),
        temperature,
        feels_like: temperature - 120,
        conditions: "Clouds".to_string(),
        description: "scattered clouds".to_string(),
        humidity: 61,
        wind_speed: 410,
        pressure: 1009,
        fetched_at,
    }
}

fn no_change() -> UpdatePreferencesRequest {
    UpdatePreferencesRequest {
        min_temp: None,
        max_temp: None,
        alert_on_rain: None,
        alert_on_snow: None,
        alert_on_storm: None,
    }
}

#[test]
fn new_user_gets_default_preferences() {
    let mut db = Database::new();
    let user = db
        .create_user_at(&request("ana@example.org", "Porto", "pt"), 11, 1_000)
        .unwrap();
    assert_eq!(user.id, 11);
    assert_eq!(user.email, "ana@example.org");
    assert_eq!(user.city, "Porto");
    assert_eq!(user.country, "PT");
    assert_eq!(user.created_at, 1_000);
    let prefs = db.get_user_preferences(11).unwrap().unwrap();
    assert_eq!(prefs.user_id, 11);
    assert_eq!(prefs.min_temp, None);
    assert_eq!(prefs.max_temp, None);
    assert!(!prefs.alert_on_rain);
    assert!(!prefs.alert_on_snow);
    assert!(!prefs.alert_on_storm);
    assert_eq!(prefs.created_at, 1_000);
    assert_eq!(prefs.updated_at, 1_000);
    assert_eq!(db.get_all_users().unwrap().len(), 1);
}

#[test]
fn every_user_has_preferences_and_unknown_users_have_none() {
    let mut db = Database::new();
    for (n, email) in ["a@example.org", "b@example.org", "c@example.org"].iter().enumerate() {
        db.create_user_at(&request(email, "Graz", "AT"), n as u128 + 1, n as i64).unwrap();
    }
    for id in 1..=3u128 {
        assert_eq!(db.get_user_preferences(id).unwrap().unwrap().user_id, id);
    }
    assert_eq!(db.get_user_preferences(9).unwrap(), None);
}

#[test]
fn duplicate_email_in_any_case_is_a_conflict() {
    let mut db = Database::new();
    db.create_user_at(&request("Ana@Example.org", "Porto", "PT"), 1, 10).unwrap();
    for email in ["Ana@Example.org", "ana@example.org", "ANA@EXAMPLE.ORG"] {
        let err = db.create_user_at(&request(email, "Faro", "PT"), 2, 20).unwrap_err();
        assert_eq!(err.kind(), ErrorKind::Conflict);
        assert_eq!(err.message(), "User with this email already exists");
        assert_eq!(err.status_code(), 409);
    }
    assert_eq!(db.get_all_users().unwrap().len(), 1);
    assert_eq!(db.get_user_preferences(2).unwrap(), None);
}

#[test]
fn invalid_requests_are_turned_down_before_anything_is_stored() {
    let mut db = Database::new();
    let cases = [
        (request("not-an-email", "Porto", "PT"), "email: not a valid email address"),
        (request("", "Porto", "PT"), "email: not a valid email address"),
        (request("a@example.org", "", "PT"), "city: must be 1 to 100 characters long"),
        (
            request("a@example.org", &"x".repeat(101), "PT"),
            "city: must be 1 to 100 characters long",
        ),
        (request("a@example.org", "Porto", "P"), "country: must be a two-letter country code"),
        (request("a@example.org", "Porto", "PRT"), "country: must be a two-letter country code"),
        (request("a@example.org", "Porto", "X1"), "country: must be a two-letter country code"),
    ];
    for (req, message) in cases {
        let err = db.create_user_at(&req, 1, 10).unwrap_err();
        assert_eq!(err.kind(), ErrorKind::Validation);
        assert_eq!(err.message(), message);
        assert_eq!(err.status_code(), 400);
    }
    assert!(db.get_all_users().unwrap().is_empty());
    assert!(db.create_user_at(&request("a@example.org", &"x".repeat(100), "pt"), 1, 10).is_ok());
}

#[test]
fn identifier_in_use_is_a_database_error() {
    let mut db = Database::new();
    db.create_user_at(&request("a@example.org", "Porto", "PT"), 1, 10).unwrap();
    let err = db.create_user_at(&request("b@example.org", "Porto", "PT"), 1, 20).unwrap_err();
    assert_eq!(err.kind(), ErrorKind::Database);
    assert_eq!(err.status_code(), 500);
}

#[test]
fn create_user_draws_a_new_identifier_each_time() {
    let mut db = Database::new();
    let a = db.create_user(&request("a@example.org", "Porto", "PT")).unwrap();
    let b = db.create_user(&request("b@example.org", "Porto", "PT")).unwrap();
    assert_ne!(a.id, b.id);
    assert_eq!((a.id >> 76) & 0xf, 4);
    assert_eq!((a.id >> 62) & 0x3, 2);
    assert!(a.created_at > 0);
    assert_eq!(db.get_user_by_id(a.id).unwrap().unwrap().email, "a@example.org");
    assert_eq!(db.get_user_preferences(b.id).unwrap().unwrap().user_id, b.id);
}

#[test]
fn users_are_found_by_id_and_by_email_in_any_case() {
    let mut db = Database::new();
    db.create_user_at(&request("Ana@Example.org", "Porto", "PT"), 5, 10).unwrap();
    assert_eq!(db.get_user_by_id(5).unwrap().unwrap().email, "Ana@Example.org");
    assert!(db.get_user_by_id(6).unwrap().is_none());
    assert_eq!(db.get_user_by_email("ana@example.ORG").unwrap().unwrap().id, 5);
    assert!(db.get_user_by_email("bob@example.org").unwrap().is_none());
}

#[test]
fn users_are_listed_newest_first() {
    let mut db = Database::new();
    db.create_user_at(&request("b@example.org", "Porto", "PT"), 2, 200).unwrap();
    db.create_user_at(&request("a@example.org", "Porto", "PT"), 1, 100).unwrap();
    db.create_user_at(&request("c@example.org", "Porto", "PT"), 3, 300).unwrap();
    db.create_user_at(&request("d@example.org", "Porto", "PT"), 4, 200).unwrap();
    let ids: Vec<u128> = db.get_all_users().unwrap().iter().map(|u| u.id).collect();
    assert_eq!(ids, vec![3, 4, 2, 1]);
}

#[test]
fn users_of_a_city_are_found_in_any_case() {
    let mut db = Database::new();
    db.create_user_at(&request("a@example.org", "Porto", "PT"), 1, 100).unwrap();
    db.create_user_at(&request("b@example.org", "PORTO", "PT"), 2, 200).unwrap();
    db.create_user_at(&request("c@example.org", "Faro", "PT"), 3, 300).unwrap();
    let found: Vec<u128> = db.get_users_by_city("porto").unwrap().iter().map(|u| u.id).collect();
    assert_eq!(found, vec![2, 1]);
    let kept: Vec<String> =
        db.get_users_by_city("pOrTo").unwrap().iter().map(|u| u.city.clone()).collect();
    assert_eq!(kept, vec!["PORTO".to_string(), "Porto".to_string()]);
    assert!(db.get_users_by_city("Lisboa").unwrap().is_empty());
}

#[test]
fn cities_are_distinct_and_in_ascending_order() {
    let mut db = Database::new();
    let rows = [
        ("a@example.org", "Porto", "pt"),
        ("b@example.org", "Faro", "PT"),
        ("c@example.org", "Porto", "PT"),
        ("d@example.org", "Zagreb", "HR"),
        ("e@example.org", "porto", "PT"),
        ("f@example.org", "Faro", "ES"),
        ("g@example.org", "Far", "PT"),
    ];
    for (n, (email, city, country)) in rows.iter().enumerate() {
        db.create_user_at(&request(email, city, country), n as u128 + 1, n as i64).unwrap();
    }
    let cities: Vec<(String, String)> = db
        .get_all_user_cities()
        .unwrap()
        .iter()
        .map(|c| (c.city.clone(), c.country.clone()))
        .collect();
    let expected: Vec<(String, String)> = [
        ("Far", "PT"),
        ("Faro", "ES"),
        ("Faro", "PT"),
        ("Porto", "PT"),
        ("Zagreb", "HR"),
        ("porto", "PT"),
    ]
    .iter()
    .map(|(c, k)| (c.to_string(), k.to_string()))
    .collect();
    assert_eq!(cities, expected);
    assert!(Database::new().get_all_user_cities().unwrap().is_empty());
}

#[test]
fn partial_update_keeps_what_it_does_not_set() {
    let mut db = Database::new();
    db.create_user_at(&request("a@example.org", "Porto", "PT"), 1, 100).unwrap();
    let first = UpdatePreferencesRequest {
        min_temp: Some(5),
        max_temp: Some(30),
        alert_on_rain: Some(true),
        ..no_change()
    };
    let stored = db.update_user_preferences_at(1, &first, 200).unwrap();
    assert_eq!(stored.min_temp, Some(5));
    assert_eq!(stored.max_temp, Some(30));
    assert!(stored.alert_on_rain);
    assert!(!stored.alert_on_snow);
    assert_eq!(stored.updated_at, 200);

    let second = UpdatePreferencesRequest { alert_on_snow: Some(true), ..no_change() };
    let merged = db.update_user_preferences_at(1, &second, 300).unwrap();
    assert_eq!(merged.user_id, 1);
    assert_eq!(merged.min_temp, Some(5));
    assert_eq!(merged.max_temp, Some(30));
    assert!(merged.alert_on_rain);
    assert!(merged.alert_on_snow);
    assert!(!merged.alert_on_storm);
    assert_eq!(merged.created_at, 100);
    assert_eq!(merged.updated_at, 300);
    assert_eq!(db.get_user_preferences(1).unwrap(), Some(merged));

    let off = UpdatePreferencesRequest { alert_on_rain: Some(false), ..no_change() };
    let last = db.update_user_preferences_at(1, &off, 400).unwrap();
    assert!(!last.alert_on_rain);
    assert!(last.alert_on_snow);
    assert_eq!(last.min_temp, Some(5));
}

#[test]
fn update_touches_one_user_only() {
    let mut db = Database::new();
    db.create_user_at(&request("a@example.org", "Porto", "PT"), 1, 100).unwrap();
    db.create_user_at(&request("b@example.org", "Porto", "PT"), 2, 200).unwrap();
    let before = db.get_user_preferences(2).unwrap();
    let patch = UpdatePreferencesRequest { max_temp: Some(12), ..no_change() };
    db.update_user_preferences_at(1, &patch, 300).unwrap();
    assert_eq!(db.get_user_preferences(2).unwrap(), before);
    assert_eq!(db.get_user_preferences(1).unwrap().unwrap().max_temp, Some(12));
}

#[test]
fn update_for_an_unknown_user_is_not_found() {
    let mut db = Database::new();
    let err = db.update_user_preferences_at(1, &no_change(), 10).unwrap_err();
    assert_eq!(err.kind(), ErrorKind::NotFound);
    assert_eq!(err.message(), "Preferences not found");
    assert_eq!(err.status_code(), 404);
    assert!(db.update_user_preferences(1, &no_change()).is_err());
}

#[test]
fn observations_keep_their_spelling_and_are_found_in_any_case() {
    let mut db = Database::new();
    db.store_weather_data(&observation("São Paulo", "br", 2510, 100)).unwrap();
    let latest = db.get_latest_weather("SÃO PAULO").unwrap().unwrap();
    assert_eq!(latest.city, "São Paulo");
    assert_eq!(latest.country, "br");
    assert_eq!(latest.id, 77);
    assert_eq!(latest.temperature, 2510);
    assert_eq!(latest.feels_like, 2390);
    assert_eq!(latest.conditions, "Clouds");
    assert_eq!(latest.description, "scattered clouds");
    assert_eq!(latest.humidity, 61);
    assert_eq!(latest.wind_speed, 410);
    assert_eq!(latest.pressure, 1009);
    assert_eq!(latest.fetched_at, 100);
    assert_eq!(db.get_latest_weather("são paulo").unwrap().unwrap().city, "São Paulo");
    assert!(db.get_latest_weather("Santos").unwrap().is_none());
}

#[test]
fn history_is_newest_first_and_limited() {
    let mut db = Database::new();
    db.store_weather_data(&observation("Porto", "PT", 1000, 200)).unwrap();
    db.store_weather_data(&observation("porto", "PT", 1100, 400)).unwrap();
    db.store_weather_data(&observation("Faro", "PT", 1200, 500)).unwrap();
    db.store_weather_data(&observation("PORTO", "PT", 1300, 300)).unwrap();
    db.store_weather_data(&observation("Porto", "PT", 1400, 100)).unwrap();
    let temps = |limit: i64| -> Vec<i64> {
        db.get_weather_history("Porto", limit).unwrap().iter().map(|w| w.temperature).collect()
    };
    assert_eq!(temps(24), vec![1100, 1300, 1000, 1400]);
    assert_eq!(temps(4), vec![1100, 1300, 1000, 1400]);
    assert_eq!(temps(2), vec![1100, 1300]);
    assert_eq!(temps(0), Vec::<i64>::new());
    assert_eq!(db.get_latest_weather("Porto").unwrap().unwrap().temperature, 1100);
    let err = db.get_weather_history("Porto", -1).unwrap_err();
    assert_eq!(err.kind(), ErrorKind::Database);
    assert_eq!(err.message(), "LIMIT must not be negative");
}

#[test]
fn alerts_are_logged_for_known_users_only() {
    let mut db = Database::new();
    db.create_user_at(&request("a@example.org", "Porto", "PT"), 1, 100).unwrap();
    db.create_user_at(&request("b@example.org", "Porto", "PT"), 2, 100).unwrap();
    db.log_alert_at(1, "temperature", "first", 10).unwrap();
    db.log_alert_at(2, "temperature", "second", 30).unwrap();
    db.log_alert_at(1, "temperature", "third", 20).unwrap();
    let err = db.log_alert_at(3, "temperature", "lost", 40).unwrap_err();
    assert_eq!(err.kind(), ErrorKind::Database);
    assert!(db.log_alert(3, "temperature", "lost").is_err());

    let all: Vec<String> = db.get_all_alerts(100).unwrap().iter().map(|a| a.message.clone()).collect();
    assert_eq!(all, vec!["second", "third", "first"]);
    let two: Vec<String> = db.get_all_alerts(2).unwrap().iter().map(|a| a.message.clone()).collect();
    assert_eq!(two, vec!["second", "third"]);
    let mine: Vec<String> =
        db.get_user_alerts(1, 50).unwrap().iter().map(|a| a.message.clone()).collect();
    assert_eq!(mine, vec!["third", "first"]);
    let one = db.get_user_alerts(1, 1).unwrap();
    assert_eq!(one.len(), 1);
    assert_eq!(one[0].user_id, 1);
    assert_eq!(one[0].alert_type, "temperature");
    assert_eq!(one[0].message, "third");
    assert_eq!(one[0].sent_at, 20);
    assert!(db.get_user_alerts(1, 0).unwrap().is_empty());
    assert!(db.get_user_alerts(1, -5).is_err());
    assert!(db.get_all_alerts(-1).is_err());

    db.log_alert(1, "temperature", "now").unwrap();
    assert_eq!(db.get_all_alerts(1).unwrap()[0].message, "now");
}
