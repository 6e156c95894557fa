//! One pass of the service over the cities of its users, as a machine that
//! is driven from outside.
//!
//! A pass asks for the cities, then for each city in turn: fetches the
//! weather, stores it, lists the users of the city and, for each user, reads
//! the preferences, evaluates the alert rules and, where a rule fires, sends
//! the alert and logs it. After every city the pass pauses. The machine never
//! does any of this itself. It answers each event with the next action to
//! perform, and whoever drives it performs the action and hands back what
//! came of it.
//!
//! A failed fetch, a failed store of the observation, a user without
//! preferences and a refused email end the work on that city or that user
//! only. A failure to list cities or users, to read preferences or to write
//! the alert log ends the pass with that error.
use crate::alerts::{alert_text, check_alert_conditions};
use crate::error::{AppError, ErrorKind};
use crate::models::{
    cities_view, users_view, CityInfo, CityInfoView, User, UserPreferences, UserView,
    WeatherData, WeatherDataView,
};
use crate::text::lowercase_of;
use vstd::prelude::*;

verus! {

/// The seconds to pause after every city.
pub const CITY_PAUSE_SECONDS: u64 = 1;

/// The kind under which every alert is logged, whichever rule fired.
pub const LOGGED_ALERT_KIND: &'static str = "temperature";

/// What the pass is waiting for.
#[derive(Clone, Copy, Debug, PartialEq, Eq, Structural)]
pub enum Stage {
    /// Not started.
    Idle,
    /// Asked for the cities.
    ListingCities,
    /// Asked for the weather of the current city.
    Fetching,
    /// Asked to store the observation of the current city.
    Storing,
    /// Asked for the users of the current city.
    ListingUsers,
    /// Asked for the preferences of the current user.
    ReadingPreferences,
    /// Asked to send the alert to the current user.
    Sending,
    /// Asked to log the alert of the current user.
    Logging,
    /// Asked to pause after the current city.
    Pausing,
    /// The pass is over.
    Done,
}

/// What came of the last action.
#[derive(Debug)]
pub enum Event {
    /// Nothing yet: this starts the pass.
    Start,
    /// The cities that have users, in the order to visit them.
    Cities(Vec<CityInfo>),
    /// The weather that was fetched.
    Weather(WeatherData),
    /// The observation was stored.
    Stored,
    /// The users of the city.
    Users(Vec<User>),
    /// The preferences of the user, `None` where none are stored.
    Preferences(Option<UserPreferences>),
    /// The alert was accepted for delivery.
    Sent,
    /// The alert was logged.
    Logged,
    /// The pause is over.
    Paused,
    /// The action failed with this error.
    Failed(AppError),
}

/// An event as contracts speak of it.
pub enum EventView {
    Start,
    Cities(Seq<CityInfoView>),
    Weather(WeatherDataView),
    Stored,
    Users(Seq<UserView>),
    Preferences(Option<UserPreferences>),
    Sent,
    Logged,
    Paused,
    Failed((ErrorKind, Seq<char>)),
}

impl View for Event {
    type V = EventView;

    open spec fn view(&self) -> EventView {
        match self {
            Event::Start => EventView::Start,
            Event::Cities(cities) => EventView::Cities(cities_view(cities@)),
            Event::Weather(weather) => EventView::Weather(weather@),
            Event::Stored => EventView::Stored,
            Event::Users(users) => EventView::Users(users_view(users@)),
            Event::Preferences(prefs) => EventView::Preferences(*prefs),
            Event::Sent => EventView::Sent,
            Event::Logged => EventView::Logged,
            Event::Paused => EventView::Paused,
            Event::Failed(e) => EventView::Failed(e@),
        }
    }
}

/// What to do next.
#[derive(Debug)]
pub enum Action {
    /// List the distinct cities of the users.
    ListCities,
    /// Fetch the current weather of a city.
    FetchWeather { city: String, country: String },
    /// Store an observation.
    StoreWeather(WeatherData),
    /// List the users of a city.
    ListUsers { city: String },
    /// Read the preferences of a user.
    GetPreferences { user_id: u128 },
    /// Send an alert email.
    SendAlert { to: String, city: String, message: String },
    /// Append to the alert log.
    LogAlert { user_id: u128, alert_type: String, message: String },
    /// Wait before the next city.
    Pause { seconds: u64 },
    /// The pass is over, with this result.
    Finish(Result<(), AppError>),
}

/// An action as contracts speak of it.
pub enum ActionView {
    ListCities,
    FetchWeather { city: Seq<char>, country: Seq<char> },
    StoreWeather(WeatherDataView),
    ListUsers { city: Seq<char> },
    GetPreferences { user_id: u128 },
    SendAlert { to: Seq<char>, city: Seq<char>, message: Seq<char> },
    LogAlert { user_id: u128, alert_type: Seq<char>, message: Seq<char> },
    Pause { seconds: u64 },
    Finish(Result<(), (ErrorKind, Seq<char>)>),
}

impl View for Action {
    type V = ActionView;

    open spec fn view(&self) -> ActionView {
        match self {
            Action::ListCities => ActionView::ListCities,
            Action::FetchWeather { city, country } => ActionView::FetchWeather {
                city: city@,
                country: country@,
            },
            Action::StoreWeather(weather) => ActionView::StoreWeather(weather@),
            Action::ListUsers { city } => ActionView::ListUsers { city: city@ },
            Action::GetPreferences { user_id } => ActionView::GetPreferences { user_id: *user_id },
            Action::SendAlert { to, city, message } => ActionView::SendAlert {
                to: to@,
                city: city@,
                message: message@,
            },
            Action::LogAlert { user_id, alert_type, message } => ActionView::LogAlert {
                user_id: *user_id,
                alert_type: alert_type@,
                message: message@,
            },
            Action::Pause { seconds } => ActionView::Pause { seconds: *seconds },
            Action::Finish(result) => ActionView::Finish(
                match result {
                    Ok(_) => Ok(()),
                    Err(e) => Err(e@),
                },
            ),
        }
    }
}

/// The state of a pass as contracts speak of it: the stage, the cities and
/// the current one, and, while a city is worked on, its observation, its
/// users, the current user and the alert message for that user.
pub struct PipelineView {
    pub stage: Stage,
    pub cities: Seq<CityInfoView>,
    pub city: int,
    pub weather: Option<WeatherDataView>,
    pub users: Seq<UserView>,
    pub user: int,
    pub message: Option<Seq<char>>,
}

impl PipelineView {
    /// The state holds exactly what its stage needs, and nothing left over
    /// from an earlier city or user.
    pub open spec fn wf(self) -> bool {
        match self.stage {
            Stage::Idle | Stage::ListingCities | Stage::Done => self == PipelineView {
                stage: self.stage,
                ..blank()
            },
            Stage::Fetching | Stage::Pausing => {
                &&& 0 <= self.city < self.cities.len()
                &&& self == PipelineView {
                    stage: self.stage,
                    cities: self.cities,
                    city: self.city,
                    ..blank()
                }
            },
            Stage::Storing | Stage::ListingUsers => {
                &&& 0 <= self.city < self.cities.len()
                &&& self.weather is Some
                &&& self == PipelineView {
                    stage: self.stage,
                    cities: self.cities,
                    city: self.city,
                    weather: self.weather,
                    ..blank()
                }
            },
            Stage::ReadingPreferences => {
                &&& 0 <= self.city < self.cities.len()
                &&& self.weather is Some
                &&& 0 <= self.user < self.users.len()
                &&& self.message is None
            },
            Stage::Sending | Stage::Logging => {
                &&& 0 <= self.city < self.cities.len()
                &&& self.weather is Some
                &&& 0 <= self.user < self.users.len()
                &&& self.message is Some
            },
        }
    }
}

/// The state before a pass, with nothing in it.
pub open spec fn blank() -> PipelineView {
    PipelineView {
        stage: Stage::Idle,
        cities: Seq::empty(),
        city: 0,
        weather: None,
        users: Seq::empty(),
        user: 0,
        message: None,
    }
}

/// The end of the pass with the given result.
pub open spec fn finish(result: Result<(), (ErrorKind, Seq<char>)>) -> (PipelineView, ActionView) {
    (PipelineView { stage: Stage::Done, ..blank() }, ActionView::Finish(result))
}

/// The message of the error that ends a pass on an event that does not
/// answer the action asked for.
pub open spec fn unexpected() -> (ErrorKind, Seq<char>) {
    (ErrorKind::Internal, "unexpected event"@)
}

/// The start of the work on city `i`: its weather is asked for. Past the
/// last city the pass ends well.
pub open spec fn enter_city(cities: Seq<CityInfoView>, i: int) -> (PipelineView, ActionView) {
    if 0 <= i < cities.len() {
        (
            PipelineView { stage: Stage::Fetching, cities, city: i, ..blank() },
            ActionView::FetchWeather { city: cities[i].city, country: cities[i].country },
        )
    } else {
        finish(Ok(()))
    }
}

/// The end of the work on city `city`: the pause. What the city left in the
/// state is dropped.
pub open spec fn leave_city(cities: Seq<CityInfoView>, city: int) -> (PipelineView, ActionView) {
    (
        PipelineView { stage: Stage::Pausing, cities, city, ..blank() },
        ActionView::Pause { seconds: CITY_PAUSE_SECONDS },
    )
}

/// The start of the work on user `j` of city `city`: the preferences are
/// asked for. Past the last user the city is left.
pub open spec fn enter_user(
    cities: Seq<CityInfoView>,
    city: int,
    weather: WeatherDataView,
    users: Seq<UserView>,
    j: int,
) -> (PipelineView, ActionView) {
    if 0 <= j < users.len() {
        (
            PipelineView {
                stage: Stage::ReadingPreferences,
                cities,
                city,
                weather: Some(weather),
                users,
                user: j,
                message: None,
            },
            ActionView::GetPreferences { user_id: users[j].id },
        )
    } else {
        leave_city(cities, city)
    }
}

/// The turn to the user after the current one.
pub open spec fn next_user(s: PipelineView) -> (PipelineView, ActionView) {
    enter_user(s.cities, s.city, s.weather.unwrap(), s.users, s.user + 1)
}

/// The alert for the current user under the given preferences, if a rule
/// fires for the observation of the current city.
pub open spec fn alert_for(s: PipelineView, prefs: UserPreferences) -> Option<Seq<char>> {
    alert_text(s.weather.unwrap(), lowercase_of(s.weather.unwrap().conditions), prefs)
}

/// The next state and the next action for an event.
pub open spec fn transition(s: PipelineView, e: EventView) -> (PipelineView, ActionView) {
    match (s.stage, e) {
        (Stage::Idle, EventView::Start) => (
            PipelineView { stage: Stage::ListingCities, ..s },
            ActionView::ListCities,
        ),
        (Stage::ListingCities, EventView::Cities(cities)) => enter_city(cities, 0),
        (Stage::ListingCities, EventView::Failed(error)) => finish(Err(error)),
        (Stage::Fetching, EventView::Weather(weather)) => (
            PipelineView { stage: Stage::Storing, weather: Some(weather), ..s },
            ActionView::StoreWeather(weather),
        ),
        (Stage::Fetching, EventView::Failed(_)) => leave_city(s.cities, s.city),
        (Stage::Storing, EventView::Stored) => (
            PipelineView { stage: Stage::ListingUsers, ..s },
            ActionView::ListUsers { city: s.cities[s.city].city },
        ),
        (Stage::Storing, EventView::Failed(_)) => leave_city(s.cities, s.city),
        (Stage::ListingUsers, EventView::Users(users)) => enter_user(
            s.cities,
            s.city,
            s.weather.unwrap(),
            users,
            0,
        ),
        (Stage::ListingUsers, EventView::Failed(error)) => finish(Err(error)),
        (Stage::ReadingPreferences, EventView::Preferences(Some(prefs))) => match alert_for(
            s,
            prefs,
        ) {
            Some(message) => (
                PipelineView { stage: Stage::Sending, message: Some(message), ..s },
                ActionView::SendAlert {
                    to: s.users[s.user].email,
                    city: s.cities[s.city].city,
                    message,
                },
            ),
            None => next_user(s),
        },
        (Stage::ReadingPreferences, EventView::Preferences(None)) => next_user(s),
        (Stage::ReadingPreferences, EventView::Failed(error)) => finish(Err(error)),
        (Stage::Sending, EventView::Sent) => (
            PipelineView { stage: Stage::Logging, ..s },
            ActionView::LogAlert {
                user_id: s.users[s.user].id,
                alert_type: LOGGED_ALERT_KIND@,
                message: s.message.unwrap(),
            },
        ),
        (Stage::Sending, EventView::Failed(_)) => next_user(s),
        (Stage::Logging, EventView::Logged) => next_user(s),
        (Stage::Logging, EventView::Failed(error)) => finish(Err(error)),
        (Stage::Pausing, EventView::Paused) => enter_city(s.cities, s.city + 1),
        _ => finish(Err(unexpected())),
    }
}

/// The state that a run of events leaves a pass in, and the actions that the
/// pass asks for on the way, in order.
pub open spec fn run(s: PipelineView, events: Seq<EventView>) -> (PipelineView, Seq<ActionView>)
    decreases events.len(),
{
    if events.len() == 0 {
        (s, Seq::empty())
    } else {
        let first = transition(s, events[0]);
        let rest = run(first.0, events.drop_first());
        (rest.0, seq![first.1] + rest.1)
    }
}

/// A city is being worked on: the pass waits for its weather, its store, its
/// users, or for the preferences, the email or the log entry of one user.
pub open spec fn within_city(stage: Stage) -> bool {
    stage == Stage::Fetching || stage == Stage::Storing || stage == Stage::ListingUsers || stage
        == Stage::ReadingPreferences || stage == Stage::Sending || stage == Stage::Logging
}

/// Every event leaves a well-formed state well-formed.
pub proof fn lemma_transition_keeps_well_formed(s: PipelineView, e: EventView)
    requires
        s.wf(),
    ensures
        transition(s, e).0.wf(),
{
}

/// While a city is worked on, an event does one of three things: the pass
/// stays with the city, it leaves the city through the pause, or it ends.
/// Nothing that happens within a city changes the list of cities or turns to
/// another city.
pub proof fn lemma_city_is_left_through_the_pause(s: PipelineView, e: EventView)
    requires
        s.wf(),
        within_city(s.stage),
    ensures
        ({
            let next = transition(s, e);
            ||| next.0.stage == Stage::Done && next.1 is Finish
            ||| next == leave_city(s.cities, s.city)
            ||| within_city(next.0.stage) && next.0.stage != Stage::Fetching && next.0.cities
                == s.cities && next.0.city == s.city
        }),
{
}

/// After the pause the pass turns to the next city, or ends well after the
/// last one, whatever the city before came to.
pub proof fn lemma_pause_leads_to_the_next_city(s: PipelineView)
    requires
        s.wf(),
        s.stage == Stage::Pausing,
    ensures
        transition(s, EventView::Paused) == enter_city(s.cities, s.city + 1),
        s.city + 1 < s.cities.len() ==> transition(s, EventView::Paused).1 == (
        ActionView::FetchWeather {
            city: s.cities[s.city + 1].city,
            country: s.cities[s.city + 1].country,
        }),
        s.city + 1 == s.cities.len() ==> transition(s, EventView::Paused).1
            == ActionView::Finish(Ok(())),
{
}

/// A failed fetch costs the other cities nothing. The pass answers it with
/// the pause, and from there on it asks for exactly the actions that it asks
/// for after any other way in which the work on that city may have ended:
/// `other` is any state of the pause after the same city.
pub proof fn lemma_failed_fetch_is_isolated(
    s: PipelineView,
    error: (ErrorKind, Seq<char>),
    other: PipelineView,
    later: Seq<EventView>,
)
    requires
        s.wf(),
        s.stage == Stage::Fetching,
        other.wf(),
        other.stage == Stage::Pausing,
        other.cities == s.cities,
        other.city == s.city,
    ensures
        transition(s, EventView::Failed(error)).1 == (ActionView::Pause {
            seconds: CITY_PAUSE_SECONDS,
        }),
        transition(s, EventView::Failed(error)).0 == other,
        run(transition(s, EventView::Failed(error)).0, later) == run(other, later),
{
}

/// A refused email costs the other users nothing: the pass turns to the next
/// user exactly as it does after an alert that was sent and logged.
pub proof fn lemma_refused_email_is_isolated(s: PipelineView, error: (ErrorKind, Seq<char>))
    requires
        s.wf(),
        s.stage == Stage::Sending,
    ensures
        transition(s, EventView::Failed(error)) == next_user(s),
        transition(transition(s, EventView::Sent).0, EventView::Logged) == next_user(s),
{
}

/// A user without preferences is passed over: the pass turns to the next
/// user and asks for no email.
pub proof fn lemma_missing_preferences_are_passed_over(s: PipelineView)
    requires
        s.wf(),
        s.stage == Stage::ReadingPreferences,
    ensures
        transition(s, EventView::Preferences(None)) == next_user(s),
{
}

/// An email is asked for only for a user whose preferences were just read and
/// for whom a rule fires, and it carries that rule's message, the user's
/// address and the city as the users table names it.
pub proof fn lemma_email_only_where_a_rule_fires(s: PipelineView, e: EventView)
    requires
        s.wf(),
    ensures
        transition(s, e).1 is SendAlert <==> (s.stage == Stage::ReadingPreferences && (e matches
        EventView::Preferences(Some(prefs)) && alert_for(s, prefs) is Some)),
        transition(s, e).1 is SendAlert ==> transition(s, e).1 == (ActionView::SendAlert {
            to: s.users[s.user].email,
            city: s.cities[s.city].city,
            message: alert_for(s, e->Preferences_0.unwrap()).unwrap(),
        }),
{
}

/// The alert log is written only after the email was accepted, with the
/// message that was sent.
pub proof fn lemma_log_only_after_accepted_email(s: PipelineView, e: EventView)
    requires
        s.wf(),
    ensures
        transition(s, e).1 is LogAlert <==> s.stage == Stage::Sending && e == EventView::Sent,
        transition(s, e).1 is LogAlert ==> transition(s, e).1 == (ActionView::LogAlert {
            user_id: s.users[s.user].id,
            alert_type: LOGGED_ALERT_KIND@,
            message: s.message.unwrap(),
        }),
{
}

/// One pass over the cities.
#[derive(Debug)]
pub struct Pipeline {
    stage: Stage,
    cities: Vec<CityInfo>,
    city: usize,
    weather: Option<WeatherData>,
    users: Vec<User>,
    user: usize,
    message: Option<String>,
}

impl View for Pipeline {
    type V = PipelineView;

    closed spec fn view(&self) -> PipelineView {
        PipelineView {
            stage: self.stage,
            cities: cities_view(self.cities@),
            city: self.city as int,
            weather: match self.weather {
                Some(w) => Some(w@),
                None => None,
            },
            users: users_view(self.users@),
            user: self.user as int,
            message: match self.message {
                Some(m) => Some(m@),
                None => None,
            },
        }
    }
}

impl Pipeline {
    #[verifier::type_invariant]
    spec fn well_formed(&self) -> bool {
        self@.wf()
    }

    /// A pass that has not started.
    pub fn new() -> (pipeline: Self)
        ensures
            pipeline@ == blank(),
    {
        Self::empty(Stage::Idle)
    }

    /// The stage of the pass.
    pub fn stage(&self) -> (stage: Stage)
        ensures
            stage == self@.stage,
    {
        self.stage
    }

    /// Whether the pass is over.
    pub fn is_done(&self) -> (done: bool)
        ensures
            done == (self@.stage == Stage::Done),
    {
        match self.stage {
            Stage::Done => true,
            _ => false,
        }
    }

    fn empty(stage: Stage) -> (pipeline: Self)
        requires
            stage == Stage::Idle || stage == Stage::ListingCities || stage == Stage::Done,
        ensures
            pipeline@ == (PipelineView { stage, ..blank() }),
    {
        let cities: Vec<CityInfo> = Vec::new();
        let users: Vec<User> = Vec::new();
        assert(cities_view(cities@) =~= Seq::empty());
        assert(users_view(users@) =~= Seq::empty());
        Pipeline { stage, cities, city: 0, weather: None, users, user: 0, message: None }
    }

    fn done(result: Result<(), AppError>) -> (next: (Pipeline, Action))
        ensures
            (next.0@, next.1@) == finish(
                match result {
                    Ok(_) => Ok(()),
                    Err(e) => Err(e@),
                },
            ),
    {
        (Self::empty(Stage::Done), Action::Finish(result))
    }

    fn unexpected_event() -> (next: (Pipeline, Action))
        ensures
            (next.0@, next.1@) == finish(Err(unexpected())),
    {
        Self::done(Err(AppError::Internal(String::from_str("unexpected event"))))
    }

    fn begin_city(cities: Vec<CityInfo>, i: usize) -> (next: (Pipeline, Action))
        ensures
            (next.0@, next.1@) == enter_city(cities_view(cities@), i as int),
    {
        if i < cities.len() {
            let action = Action::FetchWeather {
                city: cities[i].city.clone(),
                country: cities[i].country.clone(),
            };
            let users: Vec<User> = Vec::new();
            assert(users_view(users@) =~= Seq::empty());
            let pipeline = Pipeline {
                stage: Stage::Fetching,
                cities,
                city: i,
                weather: None,
                users,
                user: 0,
                message: None,
            };
            (pipeline, action)
        } else {
            Self::done(Ok(()))
        }
    }

    fn end_city(cities: Vec<CityInfo>, city: usize) -> (next: (Pipeline, Action))
        requires
            city < cities.len(),
        ensures
            (next.0@, next.1@) == leave_city(cities_view(cities@), city as int),
    {
        let users: Vec<User> = Vec::new();
        assert(users_view(users@) =~= Seq::empty());
        let pipeline = Pipeline {
            stage: Stage::Pausing,
            cities,
            city,
            weather: None,
            users,
            user: 0,
            message: None,
        };
        (pipeline, Action::Pause { seconds: CITY_PAUSE_SECONDS })
    }

    fn begin_user(
        cities: Vec<CityInfo>,
        city: usize,
        weather: WeatherData,
        users: Vec<User>,
        j: usize,
    ) -> (next: (Pipeline, Action))
        requires
            city < cities.len(),
        ensures
            (next.0@, next.1@) == enter_user(
                cities_view(cities@),
                city as int,
                weather@,
                users_view(users@),
                j as int,
            ),
    {
        if j < users.len() {
            let action = Action::GetPreferences { user_id: users[j].id };
            let pipeline = Pipeline {
                stage: Stage::ReadingPreferences,
                cities,
                city,
                weather: Some(weather),
                users,
                user: j,
                message: None,
            };
            (pipeline, action)
        } else {
            Self::end_city(cities, city)
        }
    }

    /// Takes what came of the last action and says what to do next.
    pub fn step(self, event: Event) -> (next: (Pipeline, Action))
        ensures
            (next.0@, next.1@) == transition(self@, event@),
    {
        proof {
            use_type_invariant(&self);
        }
        let ghost before = self@;
        let Pipeline { stage, cities, city, weather, users, user, message } = self;
        assert(before.users.len() == users@.len());
        assert(before.cities.len() == cities@.len());
        assert(before.user == user && before.city == city);
        assert(before.stage == stage);
        assert(stage == Stage::ReadingPreferences || stage == Stage::Sending || stage
            == Stage::Logging ==> user < users.len());
        assert(stage == Stage::Pausing ==> city < cities.len());
        match (stage, event, weather, message) {
            (Stage::Idle, Event::Start, _, _) => (
                Self::empty(Stage::ListingCities),
                Action::ListCities,
            ),
            (Stage::ListingCities, Event::Cities(found), _, _) => Self::begin_city(found, 0),
            (Stage::ListingCities, Event::Failed(error), _, _) => Self::done(Err(error)),
            (Stage::Fetching, Event::Weather(fetched), _, _) => {
                let action = Action::StoreWeather(fetched.clone());
                let pipeline = Pipeline {
                    stage: Stage::Storing,
                    cities,
                    city,
                    weather: Some(fetched),
                    users,
                    user,
                    message: None,
                };
                (pipeline, action)
            },
            (Stage::Fetching, Event::Failed(_), _, _) => Self::end_city(cities, city),
            (Stage::Storing, Event::Stored, Some(stored), _) => {
                let action = Action::ListUsers { city: cities[city].city.clone() };
                let pipeline = Pipeline {
                    stage: Stage::ListingUsers,
                    cities,
                    city,
                    weather: Some(stored),
                    users,
                    user,
                    message: None,
                };
                (pipeline, action)
            },
            (Stage::Storing, Event::Failed(_), _, _) => Self::end_city(cities, city),
            (Stage::ListingUsers, Event::Users(found), Some(stored), _) => Self::begin_user(
                cities,
                city,
                stored,
                found,
                0,
            ),
            (Stage::ListingUsers, Event::Failed(error), _, _) => Self::done(Err(error)),
            (Stage::ReadingPreferences, Event::Preferences(Some(prefs)), Some(stored), _) => {
                match check_alert_conditions(&stored, &prefs) {
                    Some(text) => {
                        let action = Action::SendAlert {
                            to: users[user].email.clone(),
                            city: cities[city].city.clone(),
                            message: text.clone(),
                        };
                        let pipeline = Pipeline {
                            stage: Stage::Sending,
                            cities,
                            city,
                            weather: Some(stored),
                            users,
                            user,
                            message: Some(text),
                        };
                        (pipeline, action)
                    },
                    None => Self::begin_user(cities, city, stored, users, user + 1),
                }
            },
            (Stage::ReadingPreferences, Event::Preferences(None), Some(stored), _) => {
                Self::begin_user(cities, city, stored, users, user + 1)
            },
            (Stage::ReadingPreferences, Event::Failed(error), _, _) => Self::done(Err(error)),
            (Stage::Sending, Event::Sent, Some(stored), Some(text)) => {
                let action = Action::LogAlert {
                    user_id: users[user].id,
                    alert_type: String::from_str(LOGGED_ALERT_KIND),
                    message: text.clone(),
                };
                let pipeline = Pipeline {
                    stage: Stage::Logging,
                    cities,
                    city,
                    weather: Some(stored),
                    users,
                    user,
                    message: Some(text),
                };
                (pipeline, action)
            },
            (Stage::Sending, Event::Failed(_), Some(stored), _) => Self::begin_user(
                cities,
                city,
                stored,
                users,
                user + 1,
            ),
            (Stage::Logging, Event::Logged, Some(stored), _) => Self::begin_user(
                cities,
                city,
                stored,
                users,
                user + 1,
            ),
            (Stage::Logging, Event::Failed(error), _, _) => Self::done(Err(error)),
            (Stage::Pausing, Event::Paused, _, _) => Self::begin_city(cities, city + 1),
            _ => Self::unexpected_event(),
        }
    }
}

} // verus!
