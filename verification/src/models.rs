//! The records of the service.
//!
//! Identifiers are the 128 bits of a UUID. Instants are microseconds since
//! the Unix epoch. Temperatures are hundredths of a degree Celsius and wind
//! speeds hundredths of a metre per second, so that the rules compare and
//! print exact decimal values.
use vstd::prelude::*;

verus! {

/// A registered user.
#[derive(Debug)]
pub struct User {
    pub id: u128,
    pub email: String,
    pub city: String,
    pub country: String,
    pub created_at: i64,
}

/// A user as contracts speak of it.
pub struct UserView {
    pub id: u128,
    pub email: Seq<char>,
    pub city: Seq<char>,
    pub country: Seq<char>,
    pub created_at: i64,
}

impl View for User {
    type V = UserView;

    open spec fn view(&self) -> UserView {
        UserView {
            id: self.id,
            email: self.email@,
            city: self.city@,
            country: self.country@,
            created_at: self.created_at,
        }
    }
}

impl Clone for User {
    fn clone(&self) -> (r: Self)
        ensures
            r@ == self@,
    {
        User {
            id: self.id,
            email: self.email.clone(),
            city: self.city.clone(),
            country: self.country.clone(),
            created_at: self.created_at,
        }
    }
}

/// What a client sends to register.
#[derive(Debug)]
pub struct CreateUserRequest {
    pub email: String,
    pub city: String,
    pub country: String,
}

/// A registration request as contracts speak of it.
pub struct CreateUserRequestView {
    pub email: Seq<char>,
    pub city: Seq<char>,
    pub country: Seq<char>,
}

impl View for CreateUserRequest {
    type V = CreateUserRequestView;

    open spec fn view(&self) -> CreateUserRequestView {
        CreateUserRequestView { email: self.email@, city: self.city@, country: self.country@ }
    }
}

impl Clone for CreateUserRequest {
    fn clone(&self) -> (r: Self)
        ensures
            r@ == self@,
    {
        CreateUserRequest {
            email: self.email.clone(),
            city: self.city.clone(),
            country: self.country.clone(),
        }
    }
}

/// The alerting preferences of one user. A bound that is `None` is not
/// set; bounds are whole degrees Celsius.
#[derive(Clone, Copy, Debug, PartialEq, Eq, Structural)]
pub struct UserPreferences {
    pub user_id: u128,
    pub min_temp: Option<i32>,
    pub max_temp: Option<i32>,
    pub alert_on_rain: bool,
    pub alert_on_snow: bool,
    pub alert_on_storm: bool,
    pub created_at: i64,
    pub updated_at: i64,
}

/// A partial update of preferences: a field that is `None` leaves the stored
/// value as it is.
#[derive(Clone, Copy, Debug, PartialEq, Eq, Structural)]
pub struct UpdatePreferencesRequest {
    pub min_temp: Option<i32>,
    pub max_temp: Option<i32>,
    pub alert_on_rain: Option<bool>,
    pub alert_on_snow: Option<bool>,
    pub alert_on_storm: Option<bool>,
}

/// One weather observation.
#[derive(Debug)]
pub struct WeatherData {
    pub id: u128,
    pub city: String,
    pub country: String,
    pub temperature: i64,
    pub feels_like: i64,
    pub conditions: String,
    pub description: String,
    pub humidity: i32,
    pub wind_speed: i64,
    pub pressure: i32,
    pub fetched_at: i64,
}

/// An observation as contracts speak of it.
pub struct WeatherDataView {
    pub id: u128,
    pub city: Seq<char>,
    pub country: Seq<char>,
    pub temperature: i64,
    pub feels_like: i64,
    pub conditions: Seq<char>,
    pub description: Seq<char>,
    pub humidity: i32,
    pub wind_speed: i64,
    pub pressure: i32,
    pub fetched_at: i64,
}

impl View for WeatherData {
    type V = WeatherDataView;

    open spec fn view(&self) -> WeatherDataView {
        WeatherDataView {
            id: self.id,
            city: self.city@,
            country: self.country@,
            temperature: self.temperature,
            feels_like: self.feels_like,
            conditions: self.conditions@,
            description: self.description@,
            humidity: self.humidity,
            wind_speed: self.wind_speed,
            pressure: self.pressure,
            fetched_at: self.fetched_at,
        }
    }
}

impl Clone for WeatherData {
    fn clone(&self) -> (r: Self)
        ensures
            r@ == self@,
    {
        WeatherData {
            id: self.id,
            city: self.city.clone(),
            country: self.country.clone(),
            temperature: self.temperature,
            feels_like: self.feels_like,
            conditions: self.conditions.clone(),
            description: self.description.clone(),
            humidity: self.humidity,
            wind_speed: self.wind_speed,
            pressure: self.pressure,
            fetched_at: self.fetched_at,
        }
    }
}

/// A city with at least one registered user.
#[derive(Debug)]
pub struct CityInfo {
    pub city: String,
    pub country: String,
}

/// A city as contracts speak of it.
pub struct CityInfoView {
    pub city: Seq<char>,
    pub country: Seq<char>,
}

impl View for CityInfo {
    type V = CityInfoView;

    open spec fn view(&self) -> CityInfoView {
        CityInfoView { city: self.city@, country: self.country@ }
    }
}

impl Clone for CityInfo {
    fn clone(&self) -> (r: Self)
        ensures
            r@ == self@,
    {
        CityInfo { city: self.city.clone(), country: self.country.clone() }
    }
}

/// One entry of the alert log.
#[derive(Debug)]
pub struct AlertLog {
    pub user_id: u128,
    pub alert_type: String,
    pub message: String,
    pub sent_at: i64,
}

/// An alert log entry as contracts speak of it.
pub struct AlertLogView {
    pub user_id: u128,
    pub alert_type: Seq<char>,
    pub message: Seq<char>,
    pub sent_at: i64,
}

impl View for AlertLog {
    type V = AlertLogView;

    open spec fn view(&self) -> AlertLogView {
        AlertLogView {
            user_id: self.user_id,
            alert_type: self.alert_type@,
            message: self.message@,
            sent_at: self.sent_at,
        }
    }
}

impl Clone for AlertLog {
    fn clone(&self) -> (r: Self)
        ensures
            r@ == self@,
    {
        AlertLog {
            user_id: self.user_id,
            alert_type: self.alert_type.clone(),
            message: self.message.clone(),
            sent_at: self.sent_at,
        }
    }
}

/// A user together with the preferences stored for it.
#[derive(Debug)]
pub struct UserWithPreferences {
    pub user: User,
    pub preferences: Option<UserPreferences>,
}

/// The view of an optional text.
pub open spec fn text_of(o: Option<String>) -> Option<Seq<char>> {
    match o {
        Some(s) => Some(s@),
        None => None,
    }
}

/// The views of a run of users, in order.
pub open spec fn users_view(users: Seq<User>) -> Seq<UserView> {
    users.map_values(|u: User| u@)
}

/// The views of a run of cities, in order.
pub open spec fn cities_view(cities: Seq<CityInfo>) -> Seq<CityInfoView> {
    cities.map_values(|c: CityInfo| c@)
}

/// The views of a run of observations, in order.
pub open spec fn observations_view(rows: Seq<WeatherData>) -> Seq<WeatherDataView> {
    rows.map_values(|w: WeatherData| w@)
}

/// The views of a run of alert log entries, in order.
pub open spec fn alerts_view(rows: Seq<AlertLog>) -> Seq<AlertLogView> {
    rows.map_values(|a: AlertLog| a@)
}

} // verus!
