use weather_alerts::config::Config;
use weather_alerts::db::Database;
use weather_alerts::email::EmailClient;
use weather_alerts::error::ErrorKind;
use weather_alerts::handlers::{
    create_user, get_all_alerts, get_all_users, get_current_weather, get_preferences, get_user,
    get_user_alerts, get_weather_history, health_at, health_check, manual_fetch_weather,
    update_preferences, ApiResponse, AppState,
};
use weather_alerts::models::{CreateUserRequest, UpdatePreferencesRequest, WeatherData};
use weather_alerts::weather::WeatherClient;

fn state() -> AppState {
    AppState {
        db: Database::new(),
        config: Config {
            database_url: "postgres://localhost/weather".to_string(),
            weather_api_key: "key".to_string(),
            smtp_host: "smtp.example.org".to_string(),
            smtp_port: 587,
            smtp_username: "alerts@example.org".to_string(),
            smtp_password: "secret".to_string(),
        },
        weather_client: WeatherClient::new("key".to_string()),
        email_client: EmailClient::new("alerts@example.org"),
    }
}

fn request(email: &str, city: &str, country: &str) -> CreateUserRequest {
    CreateUserRequest {
        email: email.to_string(),
        city: city.to_string(),
        country: country.to_string(),
    }
}

fn patch(min_temp: Option<i32>, max_temp: Option<i32>) -> UpdatePreferencesRequest {
    UpdatePreferencesRequest {
        min_temp,
        max_temp,
        alert_on_rain: None,
        alert_on_snow: None,
        alert_on_storm: None,
    }
}

fn observation(city: &str, temperature: i64, fetched_at: i64) -> WeatherData {
    WeatherData {
        id: 1,
        city: city.to_string(),
        country: "PT".to_string(),
        temperature,
        feels_like: temperature,
        conditions: "Clear".to_string(),
        description: "clear sky".to_string(),
        humidity: 40,
        wind_speed: 200,
        pressure: 1020,
        fetched_at,
    }
}

#[test]
fn test_health_check() {
    let health = health_check();
    assert_eq!(health.status, "healthy");
    assert_eq!(health.service, "Weather Alert System");
    let stamp = chrono::DateTime::parse_from_rfc3339(&health.timestamp).unwrap();
    assert!(stamp.timestamp() > 1_600_000_000);
}

#[test]
fn health_answer_repeats_the_time_it_is_given() {
    let health = health_at("2024-05-01T10:00:00+00:00");
    assert_eq!(health.status, "healthy");
    assert_eq!(health.service, "Weather Alert System");
    assert_eq!(health.timestamp, "2024-05-01T10:00:00+00:00");
}

#[test]
fn registration_answers_201_and_hands_back_the_welcome_email() {
    let mut state = state();
    let done = create_user(&mut state, &request("ana@example.org", "Porto", "pt")).unwrap();
    assert_eq!(done.reply.status, 201);
    assert!(done.reply.body.success);
    assert_eq!(done.reply.body.message, "User registered successfully. Welcome email sent!");
    let user = done.reply.body.data.unwrap();
    assert_eq!(user.email, "ana@example.org");
    assert_eq!(user.city, "Porto");
    assert_eq!(user.country, "PT");
    assert_eq!(done.welcome.from, "alerts@example.org");
    assert_eq!(done.welcome.to, "ana@example.org");
    assert_eq!(done.welcome.subject, "Welcome to Weather Alert System! 🌤️");
    assert!(done.welcome.html_body.contains("<strong>Your Location:</strong> Porto</p>"));
    let prefs = state.db.get_user_preferences(user.id).unwrap().unwrap();
    assert_eq!(prefs.min_temp, None);
    assert!(!prefs.alert_on_rain);
}

#[test]
fn registration_is_turned_down_as_the_store_says() {
    let mut state = state();
    create_user(&mut state, &request("ana@example.org", "Porto", "PT")).unwrap();
    let err = create_user(&mut state, &request("ANA@example.org", "Faro", "PT")).unwrap_err();
    assert_eq!(err.kind(), ErrorKind::Conflict);
    assert_eq!(err.error_response().status, 409);
    let err = create_user(&mut state, &request("nobody", "Faro", "PT")).unwrap_err();
    assert_eq!(err.kind(), ErrorKind::Validation);
    assert_eq!(err.error_response().status, 400);
    assert_eq!(state.db.get_all_users().unwrap().len(), 1);
}

#[test]
fn users_are_listed_and_shown() {
    let mut state = state();
    state.db.create_user_at(&request("a@example.org", "Porto", "PT"), 1, 10).unwrap();
    state.db.create_user_at(&request("b@example.org", "Faro", "PT"), 2, 20).unwrap();
    let all = get_all_users(&state).unwrap();
    assert_eq!(all.status, 200);
    assert!(all.body.success);
    assert_eq!(all.body.message, "Users fetched successfully");
    let ids: Vec<u128> = all.body.data.unwrap().iter().map(|u| u.id).collect();
    assert_eq!(ids, vec![2, 1]);

    let one = get_user(&state, 1).unwrap();
    assert_eq!(one.status, 200);
    assert_eq!(one.body.message, "User fetched successfully");
    let shown = one.body.data.unwrap();
    assert_eq!(shown.user.email, "a@example.org");
    assert_eq!(shown.preferences.unwrap().user_id, 1);

    let err = get_user(&state, 3).unwrap_err();
    assert_eq!(err.kind(), ErrorKind::NotFound);
    assert_eq!(err.message(), "User not found");
    assert_eq!(err.status_code(), 404);
}

#[test]
fn preferences_are_shown_or_not_found() {
    let mut state = state();
    state.db.create_user_at(&request("a@example.org", "Porto", "PT"), 1, 10).unwrap();
    let reply = get_preferences(&state, 1).unwrap();
    assert_eq!(reply.status, 200);
    assert_eq!(reply.body.message, "Preferences fetched");
    assert_eq!(reply.body.data.unwrap().user_id, 1);
    let err = get_preferences(&state, 2).unwrap_err();
    assert_eq!(err.kind(), ErrorKind::NotFound);
    assert_eq!(err.message(), "Preferences not found");
}

#[test]
fn update_answers_with_the_merged_preferences() {
    let mut state = state();
    state.db.create_user_at(&request("a@example.org", "Porto", "PT"), 1, 10).unwrap();
    let first = UpdatePreferencesRequest {
        alert_on_rain: Some(true),
        ..patch(Some(5), Some(30))
    };
    update_preferences(&mut state, 1, &first).unwrap();
    let second = UpdatePreferencesRequest { alert_on_snow: Some(true), ..patch(None, None) };
    let reply = update_preferences(&mut state, 1, &second).unwrap();
    assert_eq!(reply.status, 200);
    assert!(reply.body.success);
    assert_eq!(reply.body.message, "Preferences updated successfully");
    let merged = reply.body.data.unwrap();
    assert_eq!(merged.min_temp, Some(5));
    assert_eq!(merged.max_temp, Some(30));
    assert!(merged.alert_on_rain);
    assert!(merged.alert_on_snow);
    assert!(!merged.alert_on_storm);
    assert!(merged.updated_at >= merged.created_at);
}

#[test]
fn update_keeps_the_bounds_in_order() {
    let mut state = state();
    state.db.create_user_at(&request("a@example.org", "Porto", "PT"), 1, 10).unwrap();
    let err = update_preferences(&mut state, 1, &patch(Some(10), Some(5))).unwrap_err();
    assert_eq!(err.kind(), ErrorKind::Validation);
    assert_eq!(err.message(), "max_temp: must not be below min_temp");

    update_preferences(&mut state, 1, &patch(Some(5), Some(30))).unwrap();
    let err = update_preferences(&mut state, 1, &patch(Some(31), None)).unwrap_err();
    assert_eq!(err.kind(), ErrorKind::Validation);
    let err = update_preferences(&mut state, 1, &patch(None, Some(4))).unwrap_err();
    assert_eq!(err.kind(), ErrorKind::Validation);
    let kept = state.db.get_user_preferences(1).unwrap().unwrap();
    assert_eq!((kept.min_temp, kept.max_temp), (Some(5), Some(30)));
    assert!(update_preferences(&mut state, 1, &patch(Some(30), None)).is_ok());

    let err = update_preferences(&mut state, 2, &patch(None, Some(4))).unwrap_err();
    assert_eq!(err.kind(), ErrorKind::NotFound);
}

#[test]
fn current_weather_is_the_newest_or_not_found() {
    let mut state = state();
    state.db.store_weather_data(&observation("Porto", 1500, 10)).unwrap();
    state.db.store_weather_data(&observation("Porto", 1700, 20)).unwrap();
    let reply = get_current_weather(&state, "porto").unwrap();
    assert_eq!(reply.status, 200);
    assert_eq!(reply.body.message, "Weather data fetched");
    assert_eq!(reply.body.data.unwrap().temperature, 1700);
    let err = get_current_weather(&state, "Faro").unwrap_err();
    assert_eq!(err.kind(), ErrorKind::NotFound);
    assert_eq!(err.message(), "No weather data found for Faro");
}

#[test]
fn history_defaults_to_24_rows() {
    let mut state = state();
    for n in 0..30 {
        state.db.store_weather_data(&observation("Porto", n, n)).unwrap();
    }
    let reply = get_weather_history(&state, "Porto", None).unwrap();
    assert_eq!(reply.status, 200);
    assert_eq!(reply.body.message, "Weather history fetched");
    let rows = reply.body.data.unwrap();
    assert_eq!(rows.len(), 24);
    assert_eq!(rows[0].temperature, 29);
    assert_eq!(rows[23].temperature, 6);
    assert_eq!(get_weather_history(&state, "Porto", Some(3)).unwrap().body.data.unwrap().len(), 3);
    assert_eq!(
        get_weather_history(&state, "Porto", Some(100)).unwrap().body.data.unwrap().len(),
        30
    );
    let err = get_weather_history(&state, "Porto", Some(-1)).unwrap_err();
    assert_eq!(err.kind(), ErrorKind::Database);
    assert_eq!(err.status_code(), 500);
}

#[test]
fn alerts_default_to_50_for_a_user_and_100_for_all() {
    let mut state = state();
    state.db.create_user_at(&request("a@example.org", "Porto", "PT"), 1, 10).unwrap();
    state.db.create_user_at(&request("b@example.org", "Porto", "PT"), 2, 20).unwrap();
    for n in 0..120 {
        state.db.log_alert_at(1 + (n % 2) as u128, "temperature", "hot", n).unwrap();
    }
    let mine = get_user_alerts(&state, 1, None).unwrap();
    assert_eq!(mine.status, 200);
    assert_eq!(mine.body.message, "Alerts fetched");
    let rows = mine.body.data.unwrap();
    assert_eq!(rows.len(), 50);
    assert!(rows.iter().all(|a| a.user_id == 1));
    assert_eq!(rows[0].sent_at, 118);
    assert_eq!(get_user_alerts(&state, 1, Some(60)).unwrap().body.data.unwrap().len(), 60);
    assert_eq!(get_user_alerts(&state, 3, None).unwrap().body.data.unwrap().len(), 0);

    let all = get_all_alerts(&state, None).unwrap();
    assert_eq!(all.body.message, "All alerts fetched");
    let rows = all.body.data.unwrap();
    assert_eq!(rows.len(), 100);
    assert_eq!(rows[0].sent_at, 119);
    assert_eq!(get_all_alerts(&state, Some(7)).unwrap().body.data.unwrap().len(), 7);
    assert!(get_all_alerts(&state, Some(-7)).is_err());
    assert!(get_user_alerts(&state, 1, Some(-7)).is_err());
}

#[test]
fn manual_fetch_is_accepted_at_once() {
    let reply = manual_fetch_weather();
    assert_eq!(reply.status, 202);
    assert!(reply.body.success);
    assert!(reply.body.data.is_none());
    assert_eq!(reply.body.message, "Weather fetch started in background");
}

#[test]
fn success_envelope_wraps_its_payload() {
    let envelope = ApiResponse::success(7u8, "done");
    assert!(envelope.success);
    assert_eq!(envelope.data, Some(7));
    assert_eq!(envelope.message, "done");
}
