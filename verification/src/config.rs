//! The settings of the service, resolved from the process environment.
use crate::error::{AppError, ErrorKind};
use crate::models::text_of;
use crate::text::{parse_u16, u16_of};
use vstd::prelude::*;

verus! {

/// The settings of the service.
#[derive(Debug)]
pub struct Config {
    pub database_url: String,
    pub weather_api_key: String,
    pub smtp_host: String,
    pub smtp_port: u16,
    pub smtp_username: String,
    pub smtp_password: String,
}

/// The settings as contracts speak of them.
pub struct ConfigView {
    pub database_url: Seq<char>,
    pub weather_api_key: Seq<char>,
    pub smtp_host: Seq<char>,
    pub smtp_port: u16,
    pub smtp_username: Seq<char>,
    pub smtp_password: Seq<char>,
}

impl View for Config {
    type V = ConfigView;

    open spec fn view(&self) -> ConfigView {
        ConfigView {
            database_url: self.database_url@,
            weather_api_key: self.weather_api_key@,
            smtp_host: self.smtp_host@,
            smtp_port: self.smtp_port,
            smtp_username: self.smtp_username@,
            smtp_password: self.smtp_password@,
        }
    }
}

impl Clone for Config {
    fn clone(&self) -> (r: Self)
        ensures
            r@ == self@,
    {
        Config {
            database_url: self.database_url.clone(),
            weather_api_key: self.weather_api_key.clone(),
            smtp_host: self.smtp_host.clone(),
            smtp_port: self.smtp_port,
            smtp_username: self.smtp_username.clone(),
            smtp_password: self.smtp_password.clone(),
        }
    }
}

/// The values of the six variables that the service reads, each `None` where
/// the variable is not set: `DATABASE_URL`, `WEATHER_API_KEY`, `SMTP_HOST`,
/// `SMTP_PORT`, `SMTP_USERNAME`, `SMTP_PASSWORD`.
#[derive(Debug)]
pub struct Environment {
    pub database_url: Option<String>,
    pub weather_api_key: Option<String>,
    pub smtp_host: Option<String>,
    pub smtp_port: Option<String>,
    pub smtp_username: Option<String>,
    pub smtp_password: Option<String>,
}

/// The environment as contracts speak of it.
pub struct EnvironmentView {
    pub database_url: Option<Seq<char>>,
    pub weather_api_key: Option<Seq<char>>,
    pub smtp_host: Option<Seq<char>>,
    pub smtp_port: Option<Seq<char>>,
    pub smtp_username: Option<Seq<char>>,
    pub smtp_password: Option<Seq<char>>,
}

impl View for Environment {
    type V = EnvironmentView;

    open spec fn view(&self) -> EnvironmentView {
        EnvironmentView {
            database_url: text_of(self.database_url),
            weather_api_key: text_of(self.weather_api_key),
            smtp_host: text_of(self.smtp_host),
            smtp_port: text_of(self.smtp_port),
            smtp_username: text_of(self.smtp_username),
            smtp_password: text_of(self.smtp_password),
        }
    }
}

/// The SMTP port used where `SMTP_PORT` is not set or is no port number.
pub const DEFAULT_SMTP_PORT: u16 = 587;

/// The SMTP port that a value of `SMTP_PORT` selects.
pub open spec fn port_of(value: Option<Seq<char>>) -> u16 {
    match value {
        Some(text) => match u16_of(text) {
            Some(port) => port,
            None => DEFAULT_SMTP_PORT,
        },
        None => DEFAULT_SMTP_PORT,
    }
}

/// The SMTP host that a value of `SMTP_HOST` selects.
pub open spec fn host_of(value: Option<Seq<char>>) -> Seq<char> {
    match value {
        Some(text) => text,
        None => "smtp.gmail.com"@,
    }
}

/// The first required variable that is not set, as the message that names
/// it; `None` where all four are set.
pub open spec fn missing_variable(env: EnvironmentView) -> Option<Seq<char>> {
    if env.database_url is None {
        Some("DATABASE_URL not set"@)
    } else if env.weather_api_key is None {
        Some("WEATHER_API_KEY not set"@)
    } else if env.smtp_username is None {
        Some("SMTP_USERNAME not set"@)
    } else if env.smtp_password is None {
        Some("SMTP_PASSWORD not set"@)
    } else {
        None
    }
}

/// The settings that an environment with all required variables gives.
pub open spec fn settings_of(env: EnvironmentView) -> ConfigView {
    ConfigView {
        database_url: env.database_url.unwrap(),
        weather_api_key: env.weather_api_key.unwrap(),
        smtp_host: host_of(env.smtp_host),
        smtp_port: port_of(env.smtp_port),
        smtp_username: env.smtp_username.unwrap(),
        smtp_password: env.smtp_password.unwrap(),
    }
}

impl Config {
    /// Resolves the settings from the environment. Fails with a `Config`
    /// error that names the first required variable that is not set; the
    /// SMTP host and port fall back to their defaults.
    pub fn from_env(env: &Environment) -> (r: Result<Config, AppError>)
        ensures
            match r {
                Ok(config) => missing_variable(env@) is None && config@ == settings_of(env@),
                Err(e) => missing_variable(env@) == Some(e@.1) && e@.0 == ErrorKind::Config,
            },
    {
        let database_url = match &env.database_url {
            Some(v) => v.clone(),
            None => {
                return Err(AppError::Config(String::from_str("DATABASE_URL not set")));
            },
        };
        let weather_api_key = match &env.weather_api_key {
            Some(v) => v.clone(),
            None => {
                return Err(AppError::Config(String::from_str("WEATHER_API_KEY not set")));
            },
        };
        let smtp_host = match &env.smtp_host {
            Some(v) => v.clone(),
            None => String::from_str("smtp.gmail.com"),
        };
        let smtp_port = match &env.smtp_port {
            Some(v) => match parse_u16(v.as_str()) {
                Some(port) => port,
                None => DEFAULT_SMTP_PORT,
            },
            None => DEFAULT_SMTP_PORT,
        };
        let smtp_username = match &env.smtp_username {
            Some(v) => v.clone(),
            None => {
                return Err(AppError::Config(String::from_str("SMTP_USERNAME not set")));
            },
        };
        let smtp_password = match &env.smtp_password {
            Some(v) => v.clone(),
            None => {
                return Err(AppError::Config(String::from_str("SMTP_PASSWORD not set")));
            },
        };
        Ok(
            Config {
                database_url,
                weather_api_key,
                smtp_host,
                smtp_port,
                smtp_username,
                smtp_password,
            },
        )
    }
}

} // verus!
