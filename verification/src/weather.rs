//! The client side of the current-conditions API: the request to make and
//! what an answer means.
//!
//! The HTTP exchange itself happens outside the library. The library says
//! which URL to ask, which status is a success, and turns whatever came back
//! into an observation or an error.
use crate::error::{viewed, AppError, ErrorKind};
use crate::fresh::{new_identifier, now_micros};
use crate::models::{WeatherData, WeatherDataView};
use crate::text::{decimal, push_decimal};
use vstd::prelude::*;

verus! {

/// One entry of the answer's condition list.
#[derive(Debug)]
pub struct OpenWeatherCondition {
    pub main: String,
    pub description: String,
}

/// The readings of the answer: temperatures in hundredths of a degree
/// Celsius, humidity in percent, pressure in hectopascal.
#[derive(Clone, Copy, Debug, PartialEq, Eq, Structural)]
pub struct OpenWeatherMain {
    pub temp: i64,
    pub feels_like: i64,
    pub humidity: i32,
    pub pressure: i32,
}

/// The wind of the answer, in hundredths of a metre per second.
#[derive(Clone, Copy, Debug, PartialEq, Eq, Structural)]
pub struct OpenWeatherWind {
    pub speed: i64,
}

/// The `sys` part of the answer.
#[derive(Debug)]
pub struct OpenWeatherSys {
    pub country: String,
}

/// The document that the API answers with, as far as the service reads it.
#[derive(Debug)]
pub struct OpenWeatherResponse {
    pub name: String,
    pub sys: OpenWeatherSys,
    pub main: OpenWeatherMain,
    pub wind: OpenWeatherWind,
    pub weather: Vec<OpenWeatherCondition>,
}

/// The answer's document as contracts speak of it. `first` is the first
/// entry of the condition list, category and description, where there is one.
pub struct OpenWeatherResponseView {
    pub name: Seq<char>,
    pub country: Seq<char>,
    pub main: OpenWeatherMain,
    pub wind: OpenWeatherWind,
    pub first: Option<(Seq<char>, Seq<char>)>,
}

impl View for OpenWeatherResponse {
    type V = OpenWeatherResponseView;

    open spec fn view(&self) -> OpenWeatherResponseView {
        OpenWeatherResponseView {
            name: self.name@,
            country: self.sys.country@,
            main: self.main,
            wind: self.wind,
            first: if self.weather@.len() > 0 {
                Some((self.weather@[0].main@, self.weather@[0].description@))
            } else {
                None
            },
        }
    }
}

/// The body of an answer, as far as it was read.
#[derive(Debug)]
pub enum ReplyBody {
    /// The body as text, `None` where the text could not be read.
    Text(Option<String>),
    /// The body as the document of the API.
    Document(OpenWeatherResponse),
    /// The body is not a document of the API; `cause` says why.
    Unreadable { cause: String },
}

/// What came back from one request to the API.
#[derive(Debug)]
pub enum WeatherReply {
    /// The request failed before any answer came; `cause` says why.
    NoAnswer { cause: String },
    /// An answer came, with this status and this body.
    Answer { status: u16, body: ReplyBody },
}

/// The text of a status as `http::StatusCode` displays it: the number, a
/// space, and the canonical reason phrase of that status.
pub uninterp spec fn status_text(code: u16) -> Seq<char>;

/// The display text of `http::StatusCode::from_u16(code)`. `from_u16` accepts
/// exactly the codes from 100 to 999, which `requires` leaves in.
#[verifier::external_body]
fn status_to_text(code: u16) -> (text: String)
    requires
        100 <= code <= 999,
    ensures
        text@ == status_text(code),
{
    match http::StatusCode::from_u16(code) {
        Ok(status) => status.to_string(),
        Err(_) => String::new(),
    }
}

/// How a status reads in an error message: as a status line where the code
/// is one that HTTP allows, as the bare number otherwise.
pub open spec fn status_label(code: u16) -> Seq<char> {
    if 100 <= code <= 999 {
        status_text(code)
    } else {
        decimal(code as nat)
    }
}

/// The URL that asks for the current conditions of a city in metric units.
pub open spec fn url_of(city: Seq<char>, country: Seq<char>, api_key: Seq<char>) -> Seq<char> {
    "https://api.openweathermap.org/data/2.5/weather?q="@ + city + ","@ + country + "&appid="@
        + api_key + "&units=metric"@
}

/// A status from 200 to 299.
pub open spec fn success_status(status: u16) -> bool {
    200 <= status <= 299
}

/// The observation that a document gives, with the identifier and the
/// instant to record it under. Category and description come from the first
/// entry of the condition list.
pub open spec fn observation_of(
    document: OpenWeatherResponseView,
    id: u128,
    fetched_at: i64,
) -> WeatherDataView {
    WeatherDataView {
        id,
        city: document.name,
        country: document.country,
        temperature: document.main.temp,
        feels_like: document.main.feels_like,
        conditions: match document.first {
            Some(entry) => entry.0,
            None => "Unknown"@,
        },
        description: match document.first {
            Some(entry) => entry.1,
            None => "No description"@,
        },
        humidity: document.main.humidity,
        wind_speed: document.wind.speed,
        pressure: document.main.pressure,
        fetched_at,
    }
}

/// The body of an answer as contracts speak of it.
pub enum ReplyBodyView {
    Text(Option<Seq<char>>),
    Document(OpenWeatherResponseView),
    Unreadable { cause: Seq<char> },
}

impl View for ReplyBody {
    type V = ReplyBodyView;

    open spec fn view(&self) -> ReplyBodyView {
        match self {
            ReplyBody::Text(text) => ReplyBodyView::Text(
                match text {
                    Some(t) => Some(t@),
                    None => None,
                },
            ),
            ReplyBody::Document(document) => ReplyBodyView::Document(document@),
            ReplyBody::Unreadable { cause } => ReplyBodyView::Unreadable { cause: cause@ },
        }
    }
}

/// A reply as contracts speak of it.
pub enum WeatherReplyView {
    NoAnswer { cause: Seq<char> },
    Answer { status: u16, body: ReplyBodyView },
}

impl View for WeatherReply {
    type V = WeatherReplyView;

    open spec fn view(&self) -> WeatherReplyView {
        match self {
            WeatherReply::NoAnswer { cause } => WeatherReplyView::NoAnswer { cause: cause@ },
            WeatherReply::Answer { status, body } => WeatherReplyView::Answer {
                status: *status,
                body: body@,
            },
        }
    }
}

/// The text of a body in an error message: the text itself where it was
/// read as text, a fixed phrase otherwise.
pub open spec fn body_text(body: ReplyBodyView) -> Seq<char> {
    match body {
        ReplyBodyView::Text(Some(text)) => text,
        _ => "Unknown error"@,
    }
}

/// Why the body of a successful answer gives no observation.
pub open spec fn parse_fault(body: ReplyBodyView) -> Seq<char> {
    match body {
        ReplyBodyView::Unreadable { cause } => "Failed to parse response: "@ + cause,
        _ => "Failed to parse response: the body was not read as a document"@,
    }
}

/// What a reply means: the observation of its document, recorded under `id`
/// and `fetched_at`, where the status is a success and the body is a
/// document; a `WeatherApi` error otherwise. An answer with any other
/// status is an error whatever its body holds.
pub open spec fn reading_of(reply: WeatherReplyView, id: u128, fetched_at: i64) -> Result<
    WeatherDataView,
    (ErrorKind, Seq<char>),
> {
    match reply {
        WeatherReplyView::NoAnswer { cause } => Err(
            (ErrorKind::WeatherApi, "Request failed: "@ + cause),
        ),
        WeatherReplyView::Answer { status, body } => if !success_status(status) {
            Err(
                (
                    ErrorKind::WeatherApi,
                    "API returned status "@ + status_label(status) + ": "@ + body_text(body),
                ),
            )
        } else {
            match body {
                ReplyBodyView::Document(document) => Ok(
                    observation_of(document, id, fetched_at),
                ),
                _ => Err((ErrorKind::WeatherApi, parse_fault(body))),
            }
        },
    }
}

/// The client of the current-conditions API.
#[derive(Debug)]
pub struct WeatherClient {
    api_key: String,
}

impl Clone for WeatherClient {
    fn clone(&self) -> (r: Self)
        ensures
            r.key() == self.key(),
    {
        WeatherClient { api_key: self.api_key.clone() }
    }
}

impl WeatherClient {
    /// The API key that this client sends.
    pub closed spec fn key(&self) -> Seq<char> {
        self.api_key@
    }

    /// A client that sends `api_key`.
    pub fn new(api_key: String) -> (client: Self)
        ensures
            client.key() == api_key@,
    {
        WeatherClient { api_key }
    }

    /// The URL to ask for the current conditions of `city` in `country`.
    pub fn request_url(&self, city: &str, country: &str) -> (url: String)
        ensures
            url@ == url_of(city@, country@, self.key()),
    {
        let mut url = String::from_str("https://api.openweathermap.org/data/2.5/weather?q=");
        url.append(city);
        url.append(",");
        url.append(country);
        url.append("&appid=");
        url.append(self.api_key.as_str());
        url.append("&units=metric");
        url
    }

    /// Whether an answer with this status is a success, so that its body is
    /// to be read as a document.
    pub fn is_success(status: u16) -> (ok: bool)
        ensures
            ok == success_status(status),
    {
        200 <= status && status <= 299
    }

    /// Turns a reply into the observation or the error it stands for, the
    /// observation recorded under the given identifier and instant.
    pub fn read_reply(reply: WeatherReply, id: u128, fetched_at: i64) -> (r: Result<
        WeatherData,
        AppError,
    >)
        ensures
            viewed(r) == reading_of(reply@, id, fetched_at),
    {
        match reply {
            WeatherReply::NoAnswer { cause } => {
                let mut text = String::from_str("Request failed: ");
                text.append(cause.as_str());
                Err(AppError::WeatherApi(text))
            },
            WeatherReply::Answer { status, body } => {
                if !Self::is_success(status) {
                    let mut text = String::from_str("API returned status ");
                    if 100 <= status && status <= 999 {
                        let label = status_to_text(status);
                        text.append(label.as_str());
                    } else {
                        push_decimal(&mut text, status as u64);
                    }
                    text.append(": ");
                    match body {
                        ReplyBody::Text(Some(b)) => text.append(b.as_str()),
                        _ => text.append("Unknown error"),
                    }
                    return Err(AppError::WeatherApi(text));
                }
                match body {
                    ReplyBody::Document(document) => {
                        let (conditions, description) = if document.weather.len() > 0 {
                            (
                                document.weather[0].main.clone(),
                                document.weather[0].description.clone(),
                            )
                        } else {
                            (String::from_str("Unknown"), String::from_str("No description"))
                        };
                        Ok(
                            WeatherData {
                                id,
                                city: document.name,
                                country: document.sys.country,
                                temperature: document.main.temp,
                                feels_like: document.main.feels_like,
                                conditions,
                                description,
                                humidity: document.main.humidity,
                                wind_speed: document.wind.speed,
                                pressure: document.main.pressure,
                                fetched_at,
                            },
                        )
                    },
                    ReplyBody::Unreadable { cause } => {
                        let mut text = String::from_str("Failed to parse response: ");
                        text.append(cause.as_str());
                        Err(AppError::WeatherApi(text))
                    },
                    ReplyBody::Text(_) => Err(
                        AppError::WeatherApi(
                            String::from_str(
                                "Failed to parse response: the body was not read as a document",
                            ),
                        ),
                    ),
                }
            },
        }
    }

    /// Turns a reply into the observation or the error it stands for. An
    /// observation gets a new identifier and the current time; everything
    /// else is as `read_reply` says.
    pub fn get_weather(&self, reply: WeatherReply) -> (r: Result<WeatherData, AppError>)
        ensures
            exists|id: u128, fetched_at: i64|
                viewed(r) == reading_of(reply@, id, fetched_at),
    {
        let id = new_identifier();
        let fetched_at = now_micros();
        Self::read_reply(reply, id, fetched_at)
    }
}

} // verus!
