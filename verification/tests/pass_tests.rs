use weather_alerts::db::Database;
use weather_alerts::error::ErrorKind;
use weather_alerts::models::{CreateUserRequest, UpdatePreferencesRequest, WeatherData};
use weather_alerts::pass::answer_from_store;
use weather_alerts::pipeline::{Action, Event, Pipeline};
use weather_alerts::schedule::{list_jobs, WEATHER_FETCH_SCHEDULE};

fn request(email: &str, city: &str) -> CreateUserRequest {
    CreateUserRequest {
        email: email.to_string(),
        city: city.to_string(),
        country: "PT".to_string(),
    }
}

fn weather(city: &str, temperature: i64, conditions: &str) -> WeatherData {
    WeatherData {
        id: 5,
        city: city.to_string(),
        country: "PT".to_string(),
        temperature,
        feels_like: temperature,
        conditions: conditions.to_string(),
        description: "text".to_string(),
        humidity: 50,
        wind_speed: 100,
        pressure: 1000,
        fetched_at: 1_000,
    }
}

fn store() -> Database {
    let mut db = Database::new();
    db.create_user_at(&request("a@example.org", "Aveiro"), 1, 10).unwrap();
    db.create_user_at(&request("b@example.org", "Braga"), 2, 20).unwrap();
    db.create_user_at(&request("c@example.org", "Braga"), 3, 30).unwrap();
    db.create_user_at(&request("d@example.org", "Braga"), 4, 40).unwrap();
    let hot = UpdatePreferencesRequest {
        min_temp: None,
        max_temp: Some(30),
        alert_on_rain: None,
        alert_on_snow: None,
        alert_on_storm: None,
    };
    db.update_user_preferences_at(1, &hot, 50).unwrap();
    db.update_user_preferences_at(2, &hot, 50).unwrap();
    db.update_user_preferences_at(4, &hot, 50).unwrap();
    db
}

#[test]
fn store_answers_its_five_actions() {
    let mut db = store();
    match answer_from_store(&mut db, &Action::ListCities) {
        Some(Event::Cities(cities)) => {
            let names: Vec<&str> = cities.iter().map(|c| c.city.as_str()).collect();
            assert_eq!(names, vec!["Aveiro", "Braga"]);
        }
        other => panic!("unexpected answer {:?}", other),
    }
    match answer_from_store(&mut db, &Action::ListUsers { city: "BRAGA".to_string() }) {
        Some(Event::Users(users)) => {
            let ids: Vec<u128> = users.iter().map(|u| u.id).collect();
            assert_eq!(ids, vec![4, 3, 2]);
        }
        other => panic!("unexpected answer {:?}", other),
    }
    match answer_from_store(&mut db, &Action::GetPreferences { user_id: 2 }) {
        Some(Event::Preferences(Some(prefs))) => assert_eq!(prefs.max_temp, Some(30)),
        other => panic!("unexpected answer {:?}", other),
    }
    assert!(matches!(
        answer_from_store(&mut db, &Action::GetPreferences { user_id: 9 }),
        Some(Event::Preferences(None))
    ));
    let stored = answer_from_store(&mut db, &Action::StoreWeather(weather("Braga", 3100, "Clear")));
    assert!(matches!(stored, Some(Event::Stored)));
    assert_eq!(db.get_latest_weather("braga").unwrap().unwrap().temperature, 3100);
    let log = Action::LogAlert {
        user_id: 2,
        alert_type: "temperature".to_string(),
        message: "hot".to_string(),
    };
    assert!(matches!(answer_from_store(&mut db, &log), Some(Event::Logged)));
    assert_eq!(db.get_user_alerts(2, 10).unwrap()[0].message, "hot");
    let lost = Action::LogAlert {
        user_id: 9,
        alert_type: "temperature".to_string(),
        message: "hot".to_string(),
    };
    match answer_from_store(&mut db, &lost) {
        Some(Event::Failed(e)) => assert_eq!(e.kind(), ErrorKind::Database),
        other => panic!("unexpected answer {:?}", other),
    }
}

#[test]
fn store_leaves_the_other_actions_to_the_driver() {
    let mut db = store();
    let outside = [
        Action::FetchWeather { city: "Braga".to_string(), country: "PT".to_string() },
        Action::SendAlert {
            to: "a@example.org".to_string(),
            city: "Braga".to_string(),
            message: "hot".to_string(),
        },
        Action::Pause { seconds: 1 },
        Action::Finish(Ok(())),
    ];
    for action in outside.iter() {
        assert!(answer_from_store(&mut db, action).is_none());
    }
    assert!(db.get_all_alerts(10).unwrap().is_empty());
    assert!(db.get_latest_weather("Braga").unwrap().is_none());
}

/// Runs a whole pass against the store, with a provider that fails for the
/// cities named and a relay that accepts every email.
fn run(db: &mut Database, failing: &[&str]) -> Vec<(String, String)> {
    let mut sent = Vec::new();
    let (mut pipeline, mut action) = Pipeline::new().step(Event::Start);
    loop {
        let event = match &action {
            Action::Finish(result) => {
                assert!(result.is_ok());
                return sent;
            }
            Action::FetchWeather { city, .. } => {
                if failing.contains(&city.as_str()) {
                    Event::Failed(weather_alerts::error::AppError::WeatherApi("down".to_string()))
                } else {
                    Event::Weather(weather(city, 3250, "Clear"))
                }
            }
            Action::SendAlert { to, city, .. } => {
                sent.push((to.clone(), city.clone()));
                Event::Sent
            }
            Action::Pause { seconds } => {
                assert_eq!(*seconds, 1);
                Event::Paused
            }
            other => answer_from_store(db, other).unwrap(),
        };
        let (next, then) = pipeline.step(event);
        pipeline = next;
        action = then;
    }
}

#[test]
fn failed_city_takes_nothing_from_the_others() {
    let pair = |to: &str, city: &str| (to.to_string(), city.to_string());
    let mut db = store();
    let all = run(&mut db, &[]);
    assert_eq!(
        all,
        vec![
            pair("a@example.org", "Aveiro"),
            pair("d@example.org", "Braga"),
            pair("b@example.org", "Braga")
        ]
    );
    assert_eq!(db.get_all_alerts(10).unwrap().len(), 3);
    assert_eq!(db.get_weather_history("Aveiro", 10).unwrap().len(), 1);
    assert_eq!(db.get_weather_history("Braga", 10).unwrap().len(), 1);

    let mut db = store();
    let without_aveiro = run(&mut db, &["Aveiro"]);
    assert_eq!(
        without_aveiro,
        vec![pair("d@example.org", "Braga"), pair("b@example.org", "Braga")]
    );
    let logged: Vec<u128> = db.get_all_alerts(10).unwrap().iter().map(|a| a.user_id).collect();
    assert_eq!(logged.len(), 2);
    assert!(logged.contains(&2) && logged.contains(&4));
    assert!(db.get_weather_history("Aveiro", 10).unwrap().is_empty());
    assert_eq!(db.get_weather_history("Braga", 10).unwrap().len(), 1);

    let mut db = store();
    assert_eq!(run(&mut db, &["Braga"]), vec![pair("a@example.org", "Aveiro")]);
    let mut db = store();
    assert!(run(&mut db, &["Aveiro", "Braga"]).is_empty());
    assert!(db.get_all_alerts(10).unwrap().is_empty());
}

#[test]
fn schedule_has_a_seconds_field() {
    assert_eq!(WEATHER_FETCH_SCHEDULE, "0 0 */2 * * *");
    assert_eq!(WEATHER_FETCH_SCHEDULE.split(' ').count(), 6);
}

#[test]
fn job_listing_names_the_schedule_and_the_commands() {
    let text = list_jobs();
    assert!(text.starts_with("📋 Scheduled CRON Jobs:\n"));
    assert!(text.contains("  ⏰ Weather Fetch: Every 2 hours (0 0 */2 * * *)\n"));
    assert!(text.contains("\n🔧 Manual Commands:\n"));
    assert!(text.contains("  cargo run -- fetch-weather    (Manually fetch weather now)\n"));
    assert!(text.contains("  cargo run -- init-db          (Initialize database)\n"));
    assert!(text.ends_with("  cargo run -- test-email       (Send test email)\n"));
    assert_eq!(text.lines().count(), 7);
}
