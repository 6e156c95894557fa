//! What the API answers to each request.
//!
//! Every function here takes the state of the service and the values of one
//! request, and gives the status and the envelope to answer with, or the
//! error. Reading the request and writing the answer happen outside the
//! library.
use crate::config::Config;
use crate::db::Database;
use crate::store::{bound_after, limited, negative_limit, registered, updated, DatabaseView};
use crate::email::{welcome_body, welcome_subject, EmailClient, OutgoingEmail, OutgoingEmailView};
use crate::error::{plain, viewed, AppError, ErrorKind};
use crate::fresh::now_rfc3339;
use crate::models::{
    alerts_view, observations_view, users_view, AlertLog, CreateUserRequest,
    UpdatePreferencesRequest, User, UserPreferences, UserView, UserWithPreferences, WeatherData,
};
use crate::validation::bounds_in_order;
use crate::weather::WeatherClient;
use vstd::prelude::*;

verus! {

/// The number of alerts of one user that are listed where the request names
/// no limit.
pub const DEFAULT_USER_ALERTS: i64 = 50;

/// The number of observations that are listed where the request names no
/// limit.
pub const DEFAULT_HISTORY: i64 = 24;

/// The number of alerts of all users that are listed where the request names
/// no limit.
pub const DEFAULT_ALL_ALERTS: i64 = 100;

/// What the handlers work on.
#[derive(Debug)]
pub struct AppState {
    pub db: Database,
    pub config: Config,
    pub weather_client: WeatherClient,
    pub email_client: EmailClient,
}

/// The envelope of a successful answer.
#[derive(Debug)]
pub struct ApiResponse<T> {
    pub success: bool,
    pub data: Option<T>,
    pub message: String,
}

/// A successful answer: the HTTP status and the envelope.
#[derive(Debug)]
pub struct Reply<T> {
    pub status: u16,
    pub body: ApiResponse<T>,
}

/// The answer to a health check.
#[derive(Debug)]
pub struct Health {
    pub status: String,
    pub service: String,
    pub timestamp: String,
}

/// The answer to a registration: the reply for the client, and the welcome
/// email to send. The reply does not wait for the email, and a failure to
/// send it changes nothing for the client.
#[derive(Debug)]
pub struct Registration {
    pub reply: Reply<User>,
    pub welcome: OutgoingEmail,
}

impl<T> Reply<T> {
    /// The answer has the given status, a success envelope with the given
    /// message, and some payload.
    pub open spec fn carries(self, status: u16, message: Seq<char>) -> bool {
        &&& self.status == status
        &&& self.body.success
        &&& self.body.message@ == message
        &&& self.body.data is Some
    }

    /// The payload of the answer.
    pub open spec fn payload(self) -> T {
        self.body.data->Some_0
    }
}

impl<T> ApiResponse<T> {
    /// A success envelope around a payload.
    pub fn success(data: T, message: &str) -> (r: Self)
        ensures
            r.success,
            r.data == Some(data),
            r.message@ == message@,
    {
        ApiResponse { success: true, data: Some(data), message: String::from_str(message) }
    }
}

/// The payload of a successful answer, or the error.
pub open spec fn payload_outcome<T>(r: Result<Reply<T>, AppError>) -> Result<
    T,
    (ErrorKind, Seq<char>),
> {
    match r {
        Ok(reply) => Ok(reply.payload()),
        Err(e) => Err(e@),
    }
}

/// The user of a successful registration, or the error.
pub open spec fn registration_outcome(r: Result<Registration, AppError>) -> Result<
    UserView,
    (ErrorKind, Seq<char>),
> {
    match r {
        Ok(done) => Ok(done.reply.payload()@),
        Err(e) => Err(e@),
    }
}

/// The limit to list under: the one that the request names, or the default.
pub open spec fn limit_or(asked: Option<i64>, default: i64) -> i64 {
    match asked {
        Some(limit) => limit,
        None => default,
    }
}

/// The error for preferences whose bounds would be out of order.
pub open spec fn bounds_fault() -> (ErrorKind, Seq<char>) {
    (ErrorKind::Validation, "max_temp: must not be below min_temp"@)
}

fn answer<T>(status: u16, data: T, message: &str) -> (r: Reply<T>)
    ensures
        r.carries(status, message@),
        r.payload() == data,
{
    Reply { status, body: ApiResponse::success(data, message) }
}

/// Answers a health check with the given time.
pub fn health_at(timestamp: &str) -> (r: Health)
    ensures
        r.status@ == "healthy"@,
        r.service@ == "Weather Alert System"@,
        r.timestamp@ == timestamp@,
{
    Health {
        status: String::from_str("healthy"),
        service: String::from_str("Weather Alert System"),
        timestamp: String::from_str(timestamp),
    }
}

/// Answers a health check with the current time.
pub fn health_check() -> (r: Health)
    ensures
        r.status@ == "healthy"@,
        r.service@ == "Weather Alert System"@,
{
    let timestamp = now_rfc3339();
    health_at(timestamp.as_str())
}

/// Registers a user. Answers 201 with the new user and hands back the
/// welcome email; turns the request down as the store does.
pub fn create_user(state: &mut AppState, req: &CreateUserRequest) -> (r: Result<
    Registration,
    AppError,
>)
    ensures
        exists|id: u128, now: i64|
            registered(
                old(state).db@,
                req@,
                id,
                now,
                registration_outcome(r),
                final(state).db@,
            ),
        r matches Ok(done) ==> {
            &&& done.reply.carries(201, "User registered successfully. Welcome email sent!"@)
            &&& done.welcome@ == (OutgoingEmailView {
                from: old(state).email_client.sender(),
                to: done.reply.payload()@.email,
                subject: welcome_subject(),
                html_body: welcome_body(done.reply.payload()@.city),
            })
        },
        final(state).email_client == old(state).email_client,
        final(state).config == old(state).config,
        final(state).weather_client == old(state).weather_client,
{
    let created = state.db.create_user(req);
    let ghost witness = choose|id: u128, now: i64|
        registered(old(state).db@, req@, id, now, viewed(created), state.db@);
    let r = match created {
        Ok(user) => {
            let welcome = state.email_client.welcome(user.email.as_str(), user.city.as_str());
            Ok(
                Registration {
                    reply: answer(201, user, "User registered successfully. Welcome email sent!"),
                    welcome,
                },
            )
        },
        Err(e) => Err(e),
    };
    assert(registration_outcome(r) == viewed(created));
    assert(registered(
        old(state).db@,
        req@,
        witness.0,
        witness.1,
        registration_outcome(r),
        state.db@,
    ));
    r
}

/// Lists all users, newest first.
pub fn get_all_users(state: &AppState) -> (r: Result<Reply<Vec<User>>, AppError>)
    ensures
        r is Ok,
        r->Ok_0.carries(200, "Users fetched successfully"@),
        users_view(r->Ok_0.payload()@) == state.db@.users,
{
    match state.db.get_all_users() {
        Ok(users) => Ok(answer(200, users, "Users fetched successfully")),
        Err(e) => Err(e),
    }
}

/// Shows one user with its preferences; `NotFound` where the user is
/// unknown.
pub fn get_user(state: &AppState, user_id: u128) -> (r: Result<
    Reply<UserWithPreferences>,
    AppError,
>)
    ensures
        match r {
            Ok(reply) => {
                &&& state.db@.has_user(user_id)
                &&& reply.carries(200, "User fetched successfully"@)
                &&& reply.payload().user@ == state.db@.users[state.db@.index_of(user_id)]
                &&& reply.payload().preferences == state.db@.preferences_of(user_id)
            },
            Err(e) => !state.db@.has_user(user_id) && e@ == (
                ErrorKind::NotFound,
                "User not found"@,
            ),
        },
{
    let user = match state.db.get_user_by_id(user_id) {
        Ok(Some(user)) => user,
        _ => {
            return Err(AppError::NotFound(String::from_str("User not found")));
        },
    };
    let preferences = match state.db.get_user_preferences(user_id) {
        Ok(found) => found,
        Err(_) => None,
    };
    Ok(answer(200, UserWithPreferences { user, preferences }, "User fetched successfully"))
}

/// Shows the preferences of one user; `NotFound` where there are none.
pub fn get_preferences(state: &AppState, user_id: u128) -> (r: Result<
    Reply<UserPreferences>,
    AppError,
>)
    ensures
        match r {
            Ok(reply) => reply.carries(200, "Preferences fetched"@) && Some(reply.payload())
                == state.db@.preferences_of(user_id),
            Err(e) => state.db@.preferences_of(user_id) is None && e@ == (
                ErrorKind::NotFound,
                "Preferences not found"@,
            ),
        },
{
    match state.db.get_user_preferences(user_id) {
        Ok(Some(preferences)) => Ok(answer(200, preferences, "Preferences fetched")),
        _ => Err(AppError::NotFound(String::from_str("Preferences not found"))),
    }
}

/// What an update of preferences is turned down for before the store sees
/// it: bounds that the update itself sets out of order, or bounds that would
/// be out of order once merged with the stored ones.
pub open spec fn update_fault(
    db: DatabaseView,
    user_id: u128,
    patch: UpdatePreferencesRequest,
) -> bool {
    ||| !bounds_in_order(patch.min_temp, patch.max_temp)
    ||| (db.preferences_of(user_id) matches Some(stored) && !bounds_in_order(
        bound_after(patch.min_temp, stored.min_temp),
        bound_after(patch.max_temp, stored.max_temp),
    ))
}

/// Updates the preferences of one user. The update is turned down with a
/// `Validation` error where it would leave the upper bound below the lower;
/// otherwise it is answered as the store answers it.
pub fn update_preferences(
    state: &mut AppState,
    user_id: u128,
    req: &UpdatePreferencesRequest,
) -> (r: Result<Reply<UserPreferences>, AppError>)
    ensures
        update_fault(old(state).db@, user_id, *req) ==> r is Err && r->Err_0@ == bounds_fault()
            && final(state).db@ == old(state).db@,
        !update_fault(old(state).db@, user_id, *req) ==> exists|now: i64|
            updated(
                old(state).db@,
                user_id,
                *req,
                now,
                payload_outcome(r),
                final(state).db@,
            ),
        r matches Ok(reply) ==> reply.carries(200, "Preferences updated successfully"@)
            && bounds_in_order(reply.payload().min_temp, reply.payload().max_temp),
        final(state).email_client == old(state).email_client,
        final(state).config == old(state).config,
        final(state).weather_client == old(state).weather_client,
{
    match req.validate() {
        Err(e) => {
            return Err(e);
        },
        Ok(_) => {},
    }
    let stored = match state.db.get_user_preferences(user_id) {
        Ok(found) => found,
        Err(_) => None,
    };
    if let Some(current) = stored {
        let low = if req.min_temp.is_some() {
            req.min_temp
        } else {
            current.min_temp
        };
        let high = if req.max_temp.is_some() {
            req.max_temp
        } else {
            current.max_temp
        };
        if let (Some(l), Some(h)) = (low, high) {
            if h < l {
                return Err(
                    AppError::Validation(String::from_str("max_temp: must not be below min_temp")),
                );
            }
        }
    }
    let stored_now = state.db.update_user_preferences(user_id, req);
    let ghost now = choose|now: i64|
        updated(old(state).db@, user_id, *req, now, plain(stored_now), state.db@);
    let r = match stored_now {
        Ok(preferences) => Ok(answer(200, preferences, "Preferences updated successfully")),
        Err(e) => Err(e),
    };
    assert(payload_outcome(r) == plain(stored_now));
    assert(updated(
        old(state).db@,
        user_id,
        *req,
        now,
        payload_outcome(r),
        state.db@,
    ));
    r
}

/// The message of the error for a city without observations.
pub open spec fn no_weather_text(city: Seq<char>) -> Seq<char> {
    "No weather data found for "@ + city
}

/// Shows the newest observation of a city; `NotFound` where none is stored.
pub fn get_current_weather(state: &AppState, city: &str) -> (r: Result<
    Reply<WeatherData>,
    AppError,
>)
    ensures
        match r {
            Ok(reply) => {
                &&& reply.carries(200, "Weather data fetched"@)
                &&& state.db@.observations_in(city@).len() > 0
                &&& reply.payload()@ == state.db@.observations_in(city@)[0]
            },
            Err(e) => state.db@.observations_in(city@).len() == 0 && e@ == (
                ErrorKind::NotFound,
                no_weather_text(city@),
            ),
        },
{
    match state.db.get_latest_weather(city) {
        Ok(Some(weather)) => Ok(answer(200, weather, "Weather data fetched")),
        _ => {
            let mut text = String::from_str("No weather data found for ");
            text.append(city);
            Err(AppError::NotFound(text))
        },
    }
}

/// Lists the newest observations of a city, 24 where the request names no
/// limit.
pub fn get_weather_history(state: &AppState, city: &str, limit: Option<i64>) -> (r: Result<
    Reply<Vec<WeatherData>>,
    AppError,
>)
    ensures
        match r {
            Ok(reply) => {
                &&& limit_or(limit, DEFAULT_HISTORY) >= 0
                &&& reply.carries(200, "Weather history fetched"@)
                &&& observations_view(reply.payload()@) == limited(
                    state.db@.observations_in(city@),
                    limit_or(limit, DEFAULT_HISTORY) as int,
                )
            },
            Err(e) => limit_or(limit, DEFAULT_HISTORY) < 0 && e@ == negative_limit(),
        },
{
    let limit = match limit {
        Some(asked) => asked,
        None => DEFAULT_HISTORY,
    };
    match state.db.get_weather_history(city, limit) {
        Ok(history) => Ok(answer(200, history, "Weather history fetched")),
        Err(e) => Err(e),
    }
}

/// Answers the request to fetch the weather now: 202, with no payload. The
/// pass itself runs apart from the request.
pub fn manual_fetch_weather() -> (r: Reply<()>)
    ensures
        r.status == 202,
        r.body.success,
        r.body.data is None,
        r.body.message@ == "Weather fetch started in background"@,
{
    Reply {
        status: 202,
        body: ApiResponse {
            success: true,
            data: None,
            message: String::from_str("Weather fetch started in background"),
        },
    }
}

/// Lists the newest alerts of one user, 50 where the request names no limit.
pub fn get_user_alerts(state: &AppState, user_id: u128, limit: Option<i64>) -> (r: Result<
    Reply<Vec<AlertLog>>,
    AppError,
>)
    ensures
        match r {
            Ok(reply) => {
                &&& limit_or(limit, DEFAULT_USER_ALERTS) >= 0
                &&& reply.carries(200, "Alerts fetched"@)
                &&& alerts_view(reply.payload()@) == limited(
                    state.db@.alerts_of(user_id),
                    limit_or(limit, DEFAULT_USER_ALERTS) as int,
                )
            },
            Err(e) => limit_or(limit, DEFAULT_USER_ALERTS) < 0 && e@
                == negative_limit(),
        },
{
    let limit = match limit {
        Some(asked) => asked,
        None => DEFAULT_USER_ALERTS,
    };
    match state.db.get_user_alerts(user_id, limit) {
        Ok(alerts) => Ok(answer(200, alerts, "Alerts fetched")),
        Err(e) => Err(e),
    }
}

/// Lists the newest alerts of all users, 100 where the request names no
/// limit.
pub fn get_all_alerts(state: &AppState, limit: Option<i64>) -> (r: Result<
    Reply<Vec<AlertLog>>,
    AppError,
>)
    ensures
        match r {
            Ok(reply) => {
                &&& limit_or(limit, DEFAULT_ALL_ALERTS) >= 0
                &&& reply.carries(200, "All alerts fetched"@)
                &&& alerts_view(reply.payload()@) == limited(
                    state.db@.alerts,
                    limit_or(limit, DEFAULT_ALL_ALERTS) as int,
                )
            },
            Err(e) => limit_or(limit, DEFAULT_ALL_ALERTS) < 0 && e@ == negative_limit(),
        },
{
    let limit = match limit {
        Some(asked) => asked,
        None => DEFAULT_ALL_ALERTS,
    };
    match state.db.get_all_alerts(limit) {
        Ok(alerts) => Ok(answer(200, alerts, "All alerts fetched")),
        Err(e) => Err(e),
    }
}

} // verus!
