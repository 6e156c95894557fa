use weather_alerts::alerts::{check_alert_conditions, evaluate, render_alert, select_rule, AlertRule};
use weather_alerts::models::{UserPreferences, WeatherData};

fn observation(temperature: i64, conditions: &str) -> WeatherData {
    WeatherData {
        id: 1,
        city: "Lyon".to_string(),
        country: "FR".to_string(),
        temperature,
        feels_like: temperature,
        conditions: conditions.to_string(),
        description: "entry".to_string(),
        humidity: 40,
        wind_speed: 350,
        pressure: 1013,
        fetched_at: 0,
    }
}

fn silent() -> UserPreferences {
    UserPreferences {
        user_id: 3,
        min_temp: None,
        max_temp: None,
        alert_on_rain: false,
        alert_on_snow: false,
        alert_on_storm: false,
        created_at: 0,
        updated_at: 0,
    }
}

#[test]
fn upper_bound_wins_over_rain() {
    let prefs = UserPreferences { max_temp: Some(30), alert_on_rain: true, ..silent() };
    let message = check_alert_conditions(&observation(3200, "Rain"), &prefs).unwrap();
    assert!(message.starts_with("🌡️ High temperature alert!"));
    assert!(message.contains("32.0"));
    assert!(message.contains("30"));
    assert!(!message.contains("Rain alert"));
    assert_eq!(
        message,
        "🌡️ High temperature alert! Current: 32.0°C (Your limit: 30°C)"
    );
}

#[test]
fn lower_bound_message_shows_one_decimal() {
    let prefs = UserPreferences { min_temp: Some(5), ..silent() };
    let message = check_alert_conditions(&observation(-140, "Clear"), &prefs).unwrap();
    assert!(message.contains("-1.4°C"));
    assert!(message.contains("5°C"));
    assert_eq!(
        message,
        "🥶 Low temperature alert! Current: -1.4°C (Your limit: 5°C)"
    );
}

#[test]
fn storm_matches_inside_the_category_whatever_its_case() {
    let prefs = UserPreferences { alert_on_storm: true, ..silent() };
    let message = check_alert_conditions(&observation(2000, "Thunderstorm"), &prefs);
    assert_eq!(
        message,
        Some("⚡ Storm alert! Current conditions: Thunderstorm".to_string())
    );
    let shouted = check_alert_conditions(&observation(2000, "THUNDER"), &prefs);
    assert_eq!(
        shouted,
        Some("⚡ Storm alert! Current conditions: THUNDER".to_string())
    );
}

#[test]
fn clear_sky_raises_no_rain_alert() {
    let prefs = UserPreferences { alert_on_rain: true, ..silent() };
    assert_eq!(check_alert_conditions(&observation(2000, "Clear"), &prefs), None);
}

#[test]
fn rain_and_snow_alerts_quote_the_category() {
    let rain = UserPreferences { alert_on_rain: true, ..silent() };
    assert_eq!(
        check_alert_conditions(&observation(1000, "Light Rain"), &rain),
        Some("☔ Rain alert! Current conditions: Light Rain".to_string())
    );
    let snow = UserPreferences { alert_on_snow: true, ..silent() };
    assert_eq!(
        check_alert_conditions(&observation(-300, "Snow"), &snow),
        Some("❄️ Snow alert! Current conditions: Snow".to_string())
    );
}

#[test]
fn rules_fire_in_their_fixed_order() {
    let all = UserPreferences {
        min_temp: Some(0),
        max_temp: Some(10),
        alert_on_rain: true,
        alert_on_snow: true,
        alert_on_storm: true,
        ..silent()
    };
    let lowered = "rain snow storm";
    assert_eq!(
        select_rule(1001, lowered, &all),
        Some(AlertRule::HighTemperature { limit: 10 })
    );
    assert_eq!(select_rule(1000, lowered, &all), Some(AlertRule::Rain));
    assert_eq!(
        select_rule(-1, lowered, &all),
        Some(AlertRule::LowTemperature { limit: 0 })
    );
    assert_eq!(select_rule(500, "snow storm", &all), Some(AlertRule::Snow));
    assert_eq!(select_rule(500, "storm", &all), Some(AlertRule::Storm));
    assert_eq!(select_rule(500, "thunder", &all), Some(AlertRule::Storm));
    assert_eq!(select_rule(500, "clear", &all), None);
}

#[test]
fn bound_that_is_met_exactly_does_not_alert() {
    let prefs = UserPreferences { min_temp: Some(5), max_temp: Some(30), ..silent() };
    assert_eq!(check_alert_conditions(&observation(3000, "Clear"), &prefs), None);
    assert_eq!(check_alert_conditions(&observation(500, "Clear"), &prefs), None);
    assert!(check_alert_conditions(&observation(3001, "Clear"), &prefs).is_some());
    assert!(check_alert_conditions(&observation(499, "Clear"), &prefs).is_some());
}

#[test]
fn evaluation_is_repeatable() {
    let prefs = UserPreferences { max_temp: Some(25), alert_on_storm: true, ..silent() };
    let obs = observation(2610, "Thunderstorm");
    let first = check_alert_conditions(&obs, &prefs);
    let second = check_alert_conditions(&obs, &prefs);
    assert_eq!(first, second);
    assert_eq!(first, evaluate(&obs, &prefs, "thunderstorm"));
}

#[test]
fn evaluate_reads_the_lowered_category_it_is_given() {
    let prefs = UserPreferences { alert_on_rain: true, ..silent() };
    let obs = observation(1500, "Rain");
    assert_eq!(evaluate(&obs, &prefs, "Rain"), None);
    assert_eq!(
        evaluate(&obs, &prefs, "rain"),
        Some("☔ Rain alert! Current conditions: Rain".to_string())
    );
}

#[test]
fn temperatures_round_to_the_even_tenth_on_a_tie() {
    let high = AlertRule::HighTemperature { limit: -5 };
    assert_eq!(
        render_alert(high, &observation(3225, "Clear")),
        "🌡️ High temperature alert! Current: 32.2°C (Your limit: -5°C)"
    );
    assert_eq!(
        render_alert(high, &observation(3235, "Clear")),
        "🌡️ High temperature alert! Current: 32.4°C (Your limit: -5°C)"
    );
    assert_eq!(
        render_alert(high, &observation(3236, "Clear")),
        "🌡️ High temperature alert! Current: 32.4°C (Your limit: -5°C)"
    );
    assert_eq!(
        render_alert(high, &observation(-4, "Clear")),
        "🌡️ High temperature alert! Current: -0.0°C (Your limit: -5°C)"
    );
    assert_eq!(
        render_alert(high, &observation(995, "Clear")),
        "🌡️ High temperature alert! Current: 10.0°C (Your limit: -5°C)"
    );
}
