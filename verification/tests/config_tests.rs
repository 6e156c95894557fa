use weather_alerts::config::{Config, Environment};
use weather_alerts::error::{AppError, ErrorKind};

fn full() -> Environment {
    Environment {
        database_url: Some("postgres://localhost/weather".to_string()),
        weather_api_key: Some("key".to_string()),
        smtp_host: Some("mail.example.org".to_string()),
        smtp_port: Some("2525".to_string()),
        smtp_username: Some("alerts@example.org".to_string()),
        smtp_password: Some("secret".to_string()),
    }
}

fn message_of(r: Result<Config, AppError>) -> String {
    match r {
        Ok(_) => panic!("expected an error"),
        Err(e) => {
            assert_eq!(e.kind(), ErrorKind::Config);
            e.message().clone()
        }
    }
}

#[test]
fn all_variables_set() {
    let config = Config::from_env(&full()).unwrap();
    assert_eq!(config.database_url, "postgres://localhost/weather");
    assert_eq!(config.weather_api_key, "key");
    assert_eq!(config.smtp_host, "mail.example.org");
    assert_eq!(config.smtp_port, 2525);
    assert_eq!(config.smtp_username, "alerts@example.org");
    assert_eq!(config.smtp_password, "secret");
}

#[test]
fn host_and_port_fall_back() {
    let env = Environment { smtp_host: None, smtp_port: None, ..full() };
    let config = Config::from_env(&env).unwrap();
    assert_eq!(config.smtp_host, "smtp.gmail.com");
    assert_eq!(config.smtp_port, 587);
}

#[test]
fn a_port_that_is_no_number_falls_back() {
    for bad in ["", "smtp", "70000", "-1", " 25"] {
        let env = Environment { smtp_port: Some(bad.to_string()), ..full() };
        assert_eq!(Config::from_env(&env).unwrap().smtp_port, 587);
    }
}

#[test]
fn missing_variables_are_named_in_order() {
    let env = Environment { database_url: None, weather_api_key: None, ..full() };
    assert_eq!(message_of(Config::from_env(&env)), "DATABASE_URL not set");
    let env = Environment { weather_api_key: None, smtp_password: None, ..full() };
    assert_eq!(message_of(Config::from_env(&env)), "WEATHER_API_KEY not set");
    let env = Environment { smtp_username: None, smtp_password: None, ..full() };
    assert_eq!(message_of(Config::from_env(&env)), "SMTP_USERNAME not set");
    let env = Environment { smtp_password: None, ..full() };
    assert_eq!(message_of(Config::from_env(&env)), "SMTP_PASSWORD not set");
}
