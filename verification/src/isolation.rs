//! What a pass sends, and that a failed fetch takes nothing from it.
//!
//! This file holds no code that runs. It plays a pass against an outside
//! that answers every action, and proves which emails the pass asks for:
//! for every city in turn whose weather is fetched and stored, one email
//! for every user of the city for whom a rule fires. From that it follows
//! that a city whose fetch fails costs the users of all other cities
//! nothing.
use crate::alerts::alert_text;
use crate::store::{ascending, cities_of, city_precedes, DatabaseView};
use crate::error::ErrorKind;
use crate::models::{CityInfoView, UserPreferences, UserView, WeatherDataView};
use crate::pipeline::{
    blank, enter_city, enter_user, leave_city, next_user, transition, ActionView, EventView,
    PipelineView, Stage, CITY_PAUSE_SECONDS,
};
use crate::text::{lemma_precedes_is_strict, lowercase_of};
use vstd::prelude::*;

verus! {

/// The outside of a pass: what each action comes to. A question that is
/// asked twice gets the same answer twice.
pub struct Outside {
    /// The cities that the store lists.
    pub cities: Seq<CityInfoView>,
    /// The weather that the provider gives for a city and country, `None`
    /// where the fetch fails.
    pub weather: spec_fn(Seq<char>, Seq<char>) -> Option<WeatherDataView>,
    /// Whether the store takes an observation.
    pub stored: spec_fn(WeatherDataView) -> bool,
    /// The users that the store lists for a city.
    pub users: spec_fn(Seq<char>) -> Seq<UserView>,
    /// The preferences that the store holds for a user.
    pub preferences: spec_fn(u128) -> Option<UserPreferences>,
    /// Whether the relay accepts an email, given recipient, city and
    /// message.
    pub accepted: spec_fn(Seq<char>, Seq<char>, Seq<char>) -> bool,
}

/// The error that stands for a failure of the outside. Which error it is
/// makes no difference to a pass.
pub open spec fn outage() -> (ErrorKind, Seq<char>) {
    (ErrorKind::Internal, "outage"@)
}

/// The event with which the outside answers an action.
pub open spec fn respond(o: Outside, a: ActionView) -> EventView {
    match a {
        ActionView::ListCities => EventView::Cities(o.cities),
        ActionView::FetchWeather { city, country } => match (o.weather)(city, country) {
            Some(weather) => EventView::Weather(weather),
            None => EventView::Failed(outage()),
        },
        ActionView::StoreWeather(weather) => if (o.stored)(weather) {
            EventView::Stored
        } else {
            EventView::Failed(outage())
        },
        ActionView::ListUsers { city } => EventView::Users((o.users)(city)),
        ActionView::GetPreferences { user_id } => EventView::Preferences((o.preferences)(user_id)),
        ActionView::SendAlert { to, city, message } => if (o.accepted)(to, city, message) {
            EventView::Sent
        } else {
            EventView::Failed(outage())
        },
        ActionView::LogAlert { .. } => EventView::Logged,
        ActionView::Pause { .. } => EventView::Paused,
        ActionView::Finish(_) => EventView::Start,
    }
}

/// How far a pass is from its end, first part: before the cities are known,
/// while cities are worked on, or over.
pub open spec fn phase_left(s: PipelineView) -> nat {
    match s.stage {
        Stage::Idle => 3,
        Stage::ListingCities => 2,
        Stage::Done => 0,
        _ => 1,
    }
}

/// How far a pass is from its end, second part: twice the cities that are
/// left, less one during the pause.
pub open spec fn cities_left(s: PipelineView) -> nat {
    match s.stage {
        Stage::Idle | Stage::ListingCities | Stage::Done => 0,
        Stage::Pausing => (2 * (s.cities.len() - s.city) - 1) as nat,
        _ => (2 * (s.cities.len() - s.city)) as nat,
    }
}

/// How far a pass is from its end, third part: the steps left before the
/// users of the city are gone through.
pub open spec fn steps_left(s: PipelineView) -> nat {
    match s.stage {
        Stage::Fetching => 4,
        Stage::Storing => 3,
        Stage::ListingUsers => 2,
        Stage::ReadingPreferences | Stage::Sending | Stage::Logging => 1,
        _ => 0,
    }
}

/// How far a pass is from its end, fourth part: three for every user that
/// is left, less the steps done for the current one.
pub open spec fn users_left(s: PipelineView) -> nat {
    match s.stage {
        Stage::ReadingPreferences => (3 * (s.users.len() - s.user) + 2) as nat,
        Stage::Sending => (3 * (s.users.len() - s.user) + 1) as nat,
        Stage::Logging => (3 * (s.users.len() - s.user)) as nat,
        _ => 0,
    }
}

/// Every event brings a pass that is not over closer to its end: no pass
/// goes on for ever.
pub proof fn lemma_every_event_brings_the_end_closer(s: PipelineView, e: EventView)
    requires
        s.wf(),
        s.stage != Stage::Done,
    ensures
        transition(s, e).0.wf(),
        decreases_to!(
            phase_left(s), cities_left(s), steps_left(s), users_left(s) =>
            phase_left(transition(s, e).0), cities_left(transition(s, e).0),
            steps_left(transition(s, e).0), users_left(transition(s, e).0)
        ),
{
}

/// The email that an action asks for, if it asks for one.
pub open spec fn email_of(a: ActionView) -> Seq<ActionView> {
    if a is SendAlert {
        seq![a]
    } else {
        Seq::empty()
    }
}

/// The emails that a pass asks for from the action `a` on, which it asked
/// for on reaching the state `s`, when the outside `o` answers every action.
pub open spec fn sent(s: PipelineView, a: ActionView, o: Outside) -> Seq<ActionView>
    decreases phase_left(s), cities_left(s), steps_left(s), users_left(s),
    when s.wf()
    via sent_ends
{
    if a is Finish || s.stage == Stage::Done {
        Seq::empty()
    } else {
        let next = transition(s, respond(o, a));
        email_of(a) + sent(next.0, next.1, o)
    }
}

#[via_fn]
proof fn sent_ends(s: PipelineView, a: ActionView, o: Outside) {
    if !(a is Finish || s.stage == Stage::Done) {
        lemma_every_event_brings_the_end_closer(s, respond(o, a));
    }
}

/// The emails of a whole pass against the outside `o`.
pub open spec fn emails_of_run(o: Outside) -> Seq<ActionView> {
    let first = transition(blank(), EventView::Start);
    sent(first.0, first.1, o)
}

/// The alert for a user under the observation `weather`, if the user has
/// preferences and a rule fires.
pub open spec fn alert_of(o: Outside, weather: WeatherDataView, user: UserView) -> Option<
    Seq<char>,
> {
    match (o.preferences)(user.id) {
        Some(prefs) => alert_text(weather, lowercase_of(weather.conditions), prefs),
        None => None,
    }
}

/// The emails owed to the users of a city from user `j` on.
pub open spec fn emails_from(
    o: Outside,
    city: Seq<char>,
    weather: WeatherDataView,
    users: Seq<UserView>,
    j: int,
) -> Seq<ActionView>
    decreases users.len() - j,
{
    if 0 <= j < users.len() {
        let first = match alert_of(o, weather, users[j]) {
            Some(message) => seq![ActionView::SendAlert { to: users[j].email, city, message }],
            None => Seq::empty(),
        };
        first + emails_from(o, city, weather, users, j + 1)
    } else {
        Seq::empty()
    }
}

/// The emails owed to the users of a city: none where the fetch fails or
/// the observation is not stored, otherwise one for every user for whom a
/// rule fires.
pub open spec fn emails_in(o: Outside, city: CityInfoView) -> Seq<ActionView> {
    match (o.weather)(city.city, city.country) {
        Some(weather) => if (o.stored)(weather) {
            emails_from(o, city.city, weather, (o.users)(city.city), 0)
        } else {
            Seq::empty()
        },
        None => Seq::empty(),
    }
}

/// The emails owed to the users of the cities from city `i` on.
pub open spec fn emails_of_pass(o: Outside, i: int) -> Seq<ActionView>
    decreases o.cities.len() - i,
{
    if 0 <= i < o.cities.len() {
        emails_in(o, o.cities[i]) + emails_of_pass(o, i + 1)
    } else {
        Seq::empty()
    }
}

/// The emails owed to the users of the cities from city `i` on, those of
/// city `a` left out.
pub open spec fn emails_except(o: Outside, a: int, i: int) -> Seq<ActionView>
    decreases o.cities.len() - i,
{
    if 0 <= i < o.cities.len() {
        let here = if i == a { Seq::empty() } else { emails_in(o, o.cities[i]) };
        here + emails_except(o, a, i + 1)
    } else {
        Seq::empty()
    }
}

/// The outside `o`, but with the fetch for city `a` failing.
pub open spec fn failing(o: Outside, a: int) -> Outside {
    Outside {
        weather: |city: Seq<char>, country: Seq<char>|
            if city == o.cities[a].city && country == o.cities[a].country {
                None
            } else {
                (o.weather)(city, country)
            },
        ..o
    }
}

/// No two cities of the list are the same city of the same country.
pub open spec fn distinct(cities: Seq<CityInfoView>) -> bool {
    forall|i: int, j: int| 0 <= i < j < cities.len() ==> cities[i] != cities[j]
}

/// The list of cities that the store gives is one of distinct cities.
pub proof fn lemma_ascending_cities_are_distinct(cities: Seq<CityInfoView>)
    requires
        ascending(cities),
    ensures
        distinct(cities),
{
    assert forall|i: int, j: int| 0 <= i < j < cities.len() implies cities[i] != cities[j] by {
        assert(city_precedes(cities[i], cities[j]));
        lemma_precedes_is_strict(cities[i].city);
        lemma_precedes_is_strict(cities[i].country);
    }
}

/// The state of the pause after city `i`.
pub open spec fn pausing(cities: Seq<CityInfoView>, i: int) -> PipelineView {
    leave_city(cities, i).0
}

/// The pause itself.
pub open spec fn pause() -> ActionView {
    ActionView::Pause { seconds: CITY_PAUSE_SECONDS }
}

/// From the question for the preferences of user `j` on, a pass asks for
/// the emails owed to the users from `j` on, then pauses.
proof fn lemma_users_get_their_emails(s: PipelineView, o: Outside)
    requires
        s.wf(),
        s.stage == Stage::ReadingPreferences,
    ensures
        sent(s, ActionView::GetPreferences { user_id: s.users[s.user].id }, o) == emails_from(
            o,
            s.cities[s.city].city,
            s.weather.unwrap(),
            s.users,
            s.user,
        ) + sent(pausing(s.cities, s.city), pause(), o),
    decreases s.users.len() - s.user,
{
    let ask = ActionView::GetPreferences { user_id: s.users[s.user].id };
    let city = s.cities[s.city].city;
    let weather = s.weather.unwrap();
    let rest = emails_from(o, city, weather, s.users, s.user + 1);
    let after = sent(pausing(s.cities, s.city), pause(), o);
    let on = next_user(s);
    // What follows once the pass turns to the next user.
    assert(sent(on.0, on.1, o) == rest + after) by {
        if s.user + 1 < s.users.len() {
            lemma_users_get_their_emails(on.0, o);
        } else {
            assert(rest =~= Seq::empty());
            assert(rest + after =~= after);
        }
    }
    let first = transition(s, respond(o, ask));
    assert(sent(s, ask, o) == email_of(ask) + sent(first.0, first.1, o));
    assert(email_of(ask) + sent(first.0, first.1, o) =~= sent(first.0, first.1, o));
    match alert_of(o, weather, s.users[s.user]) {
        None => {
            assert(first == on);
            assert(emails_from(o, city, weather, s.users, s.user) =~= rest);
        },
        Some(message) => {
            let email = ActionView::SendAlert { to: s.users[s.user].email, city, message };
            assert(first.1 == email);
            let second = transition(first.0, respond(o, email));
            assert(sent(first.0, email, o) == email_of(email) + sent(second.0, second.1, o));
            if (o.accepted)(s.users[s.user].email, city, message) {
                let third = transition(second.0, respond(o, second.1));
                assert(third == on);
                assert(sent(second.0, second.1, o) == email_of(second.1) + sent(
                    third.0,
                    third.1,
                    o,
                ));
                assert(email_of(second.1) + sent(third.0, third.1, o) =~= sent(on.0, on.1, o));
            } else {
                assert(second == on);
            }
            assert(emails_from(o, city, weather, s.users, s.user) == seq![email] + rest);
            assert(seq![email] + (rest + after) =~= (seq![email] + rest) + after);
        },
    }
}

/// From the fetch for a city on, a pass asks for the emails owed to the
/// users of that city, then pauses.
proof fn lemma_city_gets_its_emails(s: PipelineView, o: Outside)
    requires
        s.wf(),
        s.stage == Stage::Fetching,
    ensures
        sent(
            s,
            ActionView::FetchWeather {
                city: s.cities[s.city].city,
                country: s.cities[s.city].country,
            },
            o,
        ) == emails_in(o, s.cities[s.city]) + sent(pausing(s.cities, s.city), pause(), o),
{
    let here = s.cities[s.city];
    let fetch = ActionView::FetchWeather { city: here.city, country: here.country };
    let after = sent(pausing(s.cities, s.city), pause(), o);
    let first = transition(s, respond(o, fetch));
    assert(sent(s, fetch, o) == email_of(fetch) + sent(first.0, first.1, o));
    assert(email_of(fetch) + sent(first.0, first.1, o) =~= sent(first.0, first.1, o));
    assert(Seq::<ActionView>::empty() + after =~= after);
    match (o.weather)(here.city, here.country) {
        None => {
            assert(first == leave_city(s.cities, s.city));
        },
        Some(weather) => {
            let second = transition(first.0, respond(o, first.1));
            assert(sent(first.0, first.1, o) == email_of(first.1) + sent(second.0, second.1, o));
            assert(email_of(first.1) + sent(second.0, second.1, o) =~= sent(
                second.0,
                second.1,
                o,
            ));
            if (o.stored)(weather) {
                let users = (o.users)(here.city);
                let third = transition(second.0, respond(o, second.1));
                assert(sent(second.0, second.1, o) == email_of(second.1) + sent(
                    third.0,
                    third.1,
                    o,
                ));
                assert(email_of(second.1) + sent(third.0, third.1, o) =~= sent(
                    third.0,
                    third.1,
                    o,
                ));
                assert(third == enter_user(s.cities, s.city, weather, users, 0));
                if users.len() > 0 {
                    lemma_users_get_their_emails(third.0, o);
                } else {
                    assert(emails_from(o, here.city, weather, users, 0) =~= Seq::empty());
                }
            } else {
                assert(second == leave_city(s.cities, s.city));
            }
        },
    }
}

/// From the turn to city `i` on, a pass asks for the emails owed to the
/// users of the cities from `i` on.
proof fn lemma_cities_get_their_emails(o: Outside, i: int)
    requires
        0 <= i <= o.cities.len(),
    ensures
        sent(enter_city(o.cities, i).0, enter_city(o.cities, i).1, o) == emails_of_pass(o, i),
    decreases o.cities.len() - i,
{
    let start = enter_city(o.cities, i);
    if i < o.cities.len() {
        lemma_city_gets_its_emails(start.0, o);
        let rest = pausing(o.cities, i);
        let next = transition(rest, respond(o, pause()));
        assert(sent(rest, pause(), o) == email_of(pause()) + sent(next.0, next.1, o));
        assert(email_of(pause()) + sent(next.0, next.1, o) =~= sent(next.0, next.1, o));
        assert(next == enter_city(o.cities, i + 1));
        lemma_cities_get_their_emails(o, i + 1);
    }
}

/// A pass asks for exactly the emails that are owed: for every city in
/// turn whose weather is fetched and stored, one email for every user of
/// the city who has preferences under which a rule fires, in the order of
/// the users.
pub proof fn lemma_pass_sends_what_is_owed(o: Outside)
    ensures
        emails_of_run(o) == emails_of_pass(o, 0),
{
    let first = transition(blank(), EventView::Start);
    let second = transition(first.0, respond(o, first.1));
    assert(sent(first.0, first.1, o) == email_of(first.1) + sent(second.0, second.1, o));
    assert(email_of(first.1) + sent(second.0, second.1, o) =~= sent(second.0, second.1, o));
    assert(second == enter_city(o.cities, 0));
    lemma_cities_get_their_emails(o, 0);
}

/// A failed fetch changes what is owed to no other city.
proof fn lemma_other_cities_are_owed_the_same(o: Outside, a: int, i: int)
    requires
        0 <= a < o.cities.len(),
        0 <= i <= o.cities.len(),
        distinct(o.cities),
    ensures
        emails_of_pass(failing(o, a), i) == emails_except(o, a, i),
    decreases o.cities.len() - i,
{
    let f = failing(o, a);
    if i < o.cities.len() {
        lemma_other_cities_are_owed_the_same(o, a, i + 1);
        let here = o.cities[i];
        if i == a {
            assert(emails_in(f, here) =~= Seq::empty());
        } else {
            if i < a {
                assert(o.cities[i] != o.cities[a]);
            } else {
                assert(o.cities[a] != o.cities[i]);
            }
            assert(!(here.city == o.cities[a].city && here.country == o.cities[a].country));
            assert((f.weather)(here.city, here.country) == (o.weather)(here.city, here.country));
            match (o.weather)(here.city, here.country) {
                Some(weather) => {
                    lemma_same_users_same_emails(o, f, here.city, weather, (o.users)(here.city), 0);
                },
                None => {},
            }
            assert(emails_in(f, here) == emails_in(o, here));
        }
    }
}

/// What is owed to the users of a city depends on the preferences alone,
/// once the observation and the users are given.
proof fn lemma_same_users_same_emails(
    o: Outside,
    f: Outside,
    city: Seq<char>,
    weather: WeatherDataView,
    users: Seq<UserView>,
    j: int,
)
    requires
        f.preferences == o.preferences,
        0 <= j <= users.len(),
    ensures
        emails_from(f, city, weather, users, j) == emails_from(o, city, weather, users, j),
    decreases users.len() - j,
{
    if j < users.len() {
        lemma_same_users_same_emails(o, f, city, weather, users, j + 1);
    }
}

/// One failing city fetch does not reduce the emails for the users of other
/// cities by even one. Where the fetch for city `a` fails and all else is
/// as before, the pass asks for exactly the emails of all other cities, the
/// same emails in the same order as without the failure.
pub proof fn lemma_failed_fetch_costs_no_other_city(o: Outside, a: int)
    requires
        0 <= a < o.cities.len(),
        distinct(o.cities),
    ensures
        emails_of_run(o) == emails_of_pass(o, 0),
        emails_of_run(failing(o, a)) == emails_except(o, a, 0),
        forall|i: int|
            0 <= i < o.cities.len() && i != a ==> emails_in(failing(o, a), #[trigger] o.cities[i])
                == emails_in(o, o.cities[i]),
{
    lemma_pass_sends_what_is_owed(o);
    lemma_pass_sends_what_is_owed(failing(o, a));
    lemma_other_cities_are_owed_the_same(o, a, 0);
    let f = failing(o, a);
    assert forall|i: int| 0 <= i < o.cities.len() && i != a implies emails_in(
        f,
        #[trigger] o.cities[i],
    ) == emails_in(o, o.cities[i]) by {
        let here = o.cities[i];
        if i < a {
            assert(o.cities[i] != o.cities[a]);
        } else {
            assert(o.cities[a] != o.cities[i]);
        }
        assert(!(here.city == o.cities[a].city && here.country == o.cities[a].country));
        match (o.weather)(here.city, here.country) {
            Some(weather) => {
                lemma_same_users_same_emails(o, f, here.city, weather, (o.users)(here.city), 0);
            },
            None => {},
        }
    }
}

/// The outside of a pass that is driven against a store: the store lists
/// the cities, takes every observation, lists the users and gives the
/// preferences, while `weather` and `accepted` stand for the provider and
/// the relay.
pub open spec fn outside_of(
    db: DatabaseView,
    cities: Seq<CityInfoView>,
    weather: spec_fn(Seq<char>, Seq<char>) -> Option<WeatherDataView>,
    accepted: spec_fn(Seq<char>, Seq<char>, Seq<char>) -> bool,
) -> Outside {
    Outside {
        cities,
        weather,
        stored: |w: WeatherDataView| true,
        users: |city: Seq<char>| db.users_in(city),
        preferences: |id: u128| db.preferences_of(id),
        accepted,
    }
}

/// A pass over the cities of a store loses nothing to a failed fetch: with
/// the fetch for city `a` failing, the users of every other city of the
/// store get exactly the emails that they get without the failure.
pub proof fn lemma_store_pass_is_isolated(
    db: DatabaseView,
    cities: Seq<CityInfoView>,
    weather: spec_fn(Seq<char>, Seq<char>) -> Option<WeatherDataView>,
    accepted: spec_fn(Seq<char>, Seq<char>, Seq<char>) -> bool,
    a: int,
)
    requires
        db.wf(),
        cities_of(db.users, cities),
        0 <= a < cities.len(),
    ensures
        ({
            let o = outside_of(db, cities, weather, accepted);
            &&& emails_of_run(o) == emails_of_pass(o, 0)
            &&& emails_of_run(failing(o, a)) == emails_except(o, a, 0)
            &&& forall|i: int|
                0 <= i < cities.len() && i != a ==> emails_in(failing(o, a), #[trigger] cities[i])
                    == emails_in(o, cities[i])
        }),
{
    lemma_ascending_cities_are_distinct(cities);
    lemma_failed_fetch_costs_no_other_city(outside_of(db, cities, weather, accepted), a);
}

} // verus!
