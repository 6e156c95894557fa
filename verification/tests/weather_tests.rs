use weather_alerts::error::ErrorKind;
use weather_alerts::weather::{
    OpenWeatherCondition, OpenWeatherMain, OpenWeatherResponse, OpenWeatherSys, OpenWeatherWind,
    ReplyBody, WeatherClient, WeatherReply,
};

fn answer(status: u16, body: ReplyBody) -> WeatherReply {
    WeatherReply::Answer { status, body }
}

fn refused(status: u16, body: Option<&str>) -> WeatherReply {
    answer(status, ReplyBody::Text(body.map(|b| b.to_string())))
}

fn document(conditions: Vec<(&str, &str)>) -> OpenWeatherResponse {
    OpenWeatherResponse {
        name: "Porto".to_string(),
        sys: OpenWeatherSys { country: "PT".to_string() },
        main: OpenWeatherMain { temp: 1834, feels_like: 1790, humidity: 72, pressure: 1016 },
        wind: OpenWeatherWind { speed: 514 },
        weather: conditions
            .into_iter()
            .map(|(main, description)| OpenWeatherCondition {
                main: main.to_string(),
                description: description.to_string(),
            })
            .collect(),
    }
}

#[test]
fn request_url_names_city_country_key_and_units() {
    let client = WeatherClient::new("k3y".to_string());
    assert_eq!(
        client.request_url("Porto", "PT"),
        "https://api.openweathermap.org/data/2.5/weather?q=Porto,PT&appid=k3y&units=metric"
    );
}

#[test]
fn success_is_any_status_from_200_to_299() {
    assert!(!WeatherClient::is_success(199));
    assert!(WeatherClient::is_success(200));
    assert!(WeatherClient::is_success(204));
    assert!(WeatherClient::is_success(299));
    assert!(!WeatherClient::is_success(300));
    assert!(!WeatherClient::is_success(404));
    assert!(!WeatherClient::is_success(0));
}

#[test]
fn document_becomes_an_observation() {
    let reply = answer(
        200,
        ReplyBody::Document(document(vec![("Rain", "light rain"), ("Mist", "mist")])),
    );
    let obs = WeatherClient::read_reply(reply, 42, 1_700_000_000_000_000).unwrap();
    assert_eq!(obs.id, 42);
    assert_eq!(obs.city, "Porto");
    assert_eq!(obs.country, "PT");
    assert_eq!(obs.temperature, 1834);
    assert_eq!(obs.feels_like, 1790);
    assert_eq!(obs.conditions, "Rain");
    assert_eq!(obs.description, "light rain");
    assert_eq!(obs.humidity, 72);
    assert_eq!(obs.wind_speed, 514);
    assert_eq!(obs.pressure, 1016);
    assert_eq!(obs.fetched_at, 1_700_000_000_000_000);
}

#[test]
fn document_without_conditions_gets_the_fallback_words() {
    let reply = answer(204, ReplyBody::Document(document(vec![])));
    let obs = WeatherClient::read_reply(reply, 1, 2).unwrap();
    assert_eq!(obs.conditions, "Unknown");
    assert_eq!(obs.description, "No description");
}

#[test]
fn refused_answer_carries_status_and_body() {
    let reply = refused(404, Some("city not found"));
    let err = WeatherClient::read_reply(reply, 1, 2).unwrap_err();
    assert_eq!(err.kind(), ErrorKind::WeatherApi);
    assert_eq!(err.message(), "API returned status 404 Not Found: city not found");
    assert_eq!(
        err.to_string(),
        "Weather API error: API returned status 404 Not Found: city not found"
    );
    assert_eq!(err.status_code(), 500);

    let reply = refused(401, None);
    let err = WeatherClient::read_reply(reply, 1, 2).unwrap_err();
    assert_eq!(err.message(), "API returned status 401 Unauthorized: Unknown error");

    let reply = refused(799, Some(""));
    let err = WeatherClient::read_reply(reply, 1, 2).unwrap_err();
    assert_eq!(err.message(), "API returned status 799 <unknown status code>: ");

    let reply = refused(42, Some("odd"));
    let err = WeatherClient::read_reply(reply, 1, 2).unwrap_err();
    assert_eq!(err.message(), "API returned status 42: odd");
}

#[test]
fn transport_and_parse_failures_are_weather_api_errors() {
    let reply = WeatherReply::NoAnswer { cause: "connection refused".to_string() };
    let err = WeatherClient::read_reply(reply, 1, 2).unwrap_err();
    assert_eq!(err.kind(), ErrorKind::WeatherApi);
    assert_eq!(err.message(), "Request failed: connection refused");

    let reply = answer(200, ReplyBody::Unreadable { cause: "missing field `main`".to_string() });
    let err = WeatherClient::read_reply(reply, 1, 2).unwrap_err();
    assert_eq!(err.kind(), ErrorKind::WeatherApi);
    assert_eq!(err.message(), "Failed to parse response: missing field `main`");
}

#[test]
fn get_weather_stamps_the_observation() {
    let client = WeatherClient::new("k".to_string());
    let first = client
        .get_weather(answer(200, ReplyBody::Document(document(vec![("Clear", "clear sky")]))))
        .unwrap();
    let second = client
        .get_weather(answer(200, ReplyBody::Document(document(vec![("Clear", "clear sky")]))))
        .unwrap();
    assert_ne!(first.id, second.id);
    assert_eq!((first.id >> 76) & 0xf, 4);
    assert!(first.fetched_at > 1_600_000_000_000_000);
    assert!(second.fetched_at >= first.fetched_at - 1_000_000);
    assert_eq!(first.city, "Porto");
    assert_eq!(first.conditions, "Clear");
    let err = client
        .get_weather(WeatherReply::NoAnswer { cause: "timeout".to_string() })
        .unwrap_err();
    assert_eq!(err.message(), "Request failed: timeout");
}

#[test]
fn status_decides_before_the_body_is_looked_at() {
    let reply = answer(500, ReplyBody::Document(document(vec![("Clear", "clear sky")])));
    let err = WeatherClient::read_reply(reply, 1, 2).unwrap_err();
    assert_eq!(err.kind(), ErrorKind::WeatherApi);
    assert_eq!(err.message(), "API returned status 500 Internal Server Error: Unknown error");

    let reply = answer(301, ReplyBody::Unreadable { cause: "eof".to_string() });
    let err = WeatherClient::read_reply(reply, 1, 2).unwrap_err();
    assert_eq!(err.message(), "API returned status 301 Moved Permanently: Unknown error");

    let err = WeatherClient::read_reply(refused(200, Some("{}")), 1, 2).unwrap_err();
    assert_eq!(
        err.message(),
        "Failed to parse response: the body was not read as a document"
    );
    assert!(WeatherClient::read_reply(refused(299, None), 1, 2).is_err());
}
