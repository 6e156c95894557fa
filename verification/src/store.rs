//! The store as contracts speak of it: its tables, what it keeps true of
//! them, what each operation owes, and the laws that follow.
//!
//! This file holds no code that runs. `Database` is the store that runs;
//! its contracts are stated over what stands here.
use crate::error::ErrorKind;
use crate::models::{
    AlertLogView, CityInfoView, CreateUserRequestView, UpdatePreferencesRequest, UserPreferences,
    UserView, WeatherDataView,
};
use crate::text::{
    lemma_precedes_chains, lemma_precedes_is_strict, precedes, same_ignoring_case,
};
use crate::validation::{
    capital_of, normalized_country, registration_fault, stored_country, valid_city,
    valid_country, valid_email,
};
use vstd::prelude::*;

verus! {

/// The store as contracts speak of it: four tables, each newest first. The
/// preferences of `users[i]` are `preferences[i]`.
pub struct DatabaseView {
    pub users: Seq<UserView>,
    pub preferences: Seq<UserPreferences>,
    pub weather: Seq<WeatherDataView>,
    pub alerts: Seq<AlertLogView>,
}

/// The position at which a row of the instant `now` enters a table that is
/// newest first: before the first row that is not newer.
pub open spec fn slot_of(times: Seq<i64>, now: i64) -> int
    decreases times.len(),
{
    if times.len() == 0 || times[0] <= now {
        0
    } else {
        1 + slot_of(times.drop_first(), now)
    }
}

/// A run of instants in which none is followed by a later one.
pub open spec fn newest_first(times: Seq<i64>) -> bool {
    forall|i: int, j: int| 0 <= i < j < times.len() ==> times[i] >= times[j]
}

/// The creation instants of a run of users.
pub open spec fn user_times(users: Seq<UserView>) -> Seq<i64> {
    users.map_values(|u: UserView| u.created_at)
}

/// The instants of a run of observations.
pub open spec fn weather_times(rows: Seq<WeatherDataView>) -> Seq<i64> {
    rows.map_values(|w: WeatherDataView| w.fetched_at)
}

/// The instants of a run of alert log entries.
pub open spec fn alert_times(rows: Seq<AlertLogView>) -> Seq<i64> {
    rows.map_values(|a: AlertLogView| a.sent_at)
}

/// A user as the store holds it: a valid email, a valid city, a country in
/// capitals.
pub open spec fn stored_user(user: UserView) -> bool {
    &&& valid_email(user.email)
    &&& valid_city(user.city)
    &&& stored_country(user.country)
}

impl DatabaseView {
    /// Some user has this identifier.
    pub open spec fn has_user(self, id: u128) -> bool {
        exists|i: int| 0 <= i < self.users.len() && (#[trigger] self.users[i]).id == id
    }

    /// Some user has this email, up to letter case.
    pub open spec fn has_email(self, email: Seq<char>) -> bool {
        exists|i: int|
            0 <= i < self.users.len() && same_ignoring_case(
                (#[trigger] self.users[i]).email,
                email,
            )
    }

    /// The position of the user with this identifier, where there is one.
    pub open spec fn index_of(self, id: u128) -> int {
        choose|i: int| 0 <= i < self.users.len() && (#[trigger] self.users[i]).id == id
    }

    /// The preferences of the user with this identifier.
    pub open spec fn preferences_of(self, id: u128) -> Option<UserPreferences> {
        if self.has_user(id) {
            Some(self.preferences[self.index_of(id)])
        } else {
            None
        }
    }

    /// The users of a city, newest first.
    pub open spec fn users_in(self, city: Seq<char>) -> Seq<UserView> {
        self.users.filter(lives_in(city))
    }

    /// The observations of a city, newest first.
    pub open spec fn observations_in(self, city: Seq<char>) -> Seq<WeatherDataView> {
        self.weather.filter(observed_in(city))
    }

    /// The alerts of a user, newest first.
    pub open spec fn alerts_of(self, user_id: u128) -> Seq<AlertLogView> {
        self.alerts.filter(sent_to(user_id))
    }

    /// What the store keeps true of its tables.
    pub open spec fn wf(self) -> bool {
        &&& self.preferences.len() == self.users.len()
        &&& forall|i: int|
            0 <= i < self.users.len() ==> (#[trigger] self.preferences[i]).user_id
                == self.users[i].id
        &&& forall|i: int, j: int|
            0 <= i < j < self.users.len() ==> (#[trigger] self.users[i]).id != (
            #[trigger] self.users[j]).id
        &&& forall|i: int, j: int|
            0 <= i < j < self.users.len() ==> !same_ignoring_case(
                (#[trigger] self.users[i]).email,
                (#[trigger] self.users[j]).email,
            )
        &&& forall|i: int| 0 <= i < self.users.len() ==> stored_user(#[trigger] self.users[i])
        &&& newest_first(user_times(self.users))
        &&& newest_first(weather_times(self.weather))
        &&& newest_first(alert_times(self.alerts))
        &&& forall|k: int|
            0 <= k < self.alerts.len() ==> self.has_user((#[trigger] self.alerts[k]).user_id)
    }
}

/// The store with no rows.
pub open spec fn empty_store() -> DatabaseView {
    DatabaseView {
        users: Seq::empty(),
        preferences: Seq::empty(),
        weather: Seq::empty(),
        alerts: Seq::empty(),
    }
}

/// The user that a registration creates.
pub open spec fn created_user(req: CreateUserRequestView, id: u128, now: i64) -> UserView {
    UserView {
        id,
        email: req.email,
        city: req.city,
        country: normalized_country(req.country),
        created_at: now,
    }
}

/// The preferences that a new user starts with: no bound, no category.
pub open spec fn default_preferences(user_id: u128, now: i64) -> UserPreferences {
    UserPreferences {
        user_id,
        min_temp: None,
        max_temp: None,
        alert_on_rain: false,
        alert_on_snow: false,
        alert_on_storm: false,
        created_at: now,
        updated_at: now,
    }
}

/// Why a registration is turned down: the request is not valid, the email is
/// taken, or the identifier is in use. `None` where the user is created.
pub open spec fn creation_fault(db: DatabaseView, req: CreateUserRequestView, id: u128) -> Option<
    (ErrorKind, Seq<char>),
> {
    if registration_fault(req) is Some {
        Some((ErrorKind::Validation, registration_fault(req).unwrap()))
    } else if db.has_email(req.email) {
        Some((ErrorKind::Conflict, "User with this email already exists"@))
    } else if db.has_user(id) {
        Some((ErrorKind::Database, "users.id: identifier already in use"@))
    } else {
        None
    }
}

/// The store after a user and its preferences entered it.
pub open spec fn with_user(db: DatabaseView, user: UserView, prefs: UserPreferences) -> DatabaseView {
    let k = slot_of(user_times(db.users), user.created_at);
    DatabaseView {
        users: db.users.insert(k, user),
        preferences: db.preferences.insert(k, prefs),
        ..db
    }
}

/// A registration under the identifier `id` at the instant `now` came to
/// what it owes: the error that turns it down, with the store as it was, or
/// the new user, with the store holding it and its default preferences.
pub open spec fn registered(
    before: DatabaseView,
    req: CreateUserRequestView,
    id: u128,
    now: i64,
    r: Result<UserView, (ErrorKind, Seq<char>)>,
    after: DatabaseView,
) -> bool {
    match creation_fault(before, req, id) {
        Some(fault) => r == Err::<UserView, (ErrorKind, Seq<char>)>(fault) && after == before,
        None => r == Ok::<UserView, (ErrorKind, Seq<char>)>(created_user(req, id, now)) && after
            == with_user(before, created_user(req, id, now), default_preferences(id, now)),
    }
}

/// A bound after a partial update: the new bound where the update sets one,
/// the stored bound otherwise.
pub open spec fn bound_after(set: Option<i32>, stored: Option<i32>) -> Option<i32> {
    if set is Some {
        set
    } else {
        stored
    }
}

/// Preferences after a partial update at the instant `now`: a field that the
/// update sets takes the new value, every other field stays.
pub open spec fn merged(
    prefs: UserPreferences,
    patch: UpdatePreferencesRequest,
    now: i64,
) -> UserPreferences {
    UserPreferences {
        user_id: prefs.user_id,
        min_temp: bound_after(patch.min_temp, prefs.min_temp),
        max_temp: bound_after(patch.max_temp, prefs.max_temp),
        alert_on_rain: match patch.alert_on_rain {
            Some(on) => on,
            None => prefs.alert_on_rain,
        },
        alert_on_snow: match patch.alert_on_snow {
            Some(on) => on,
            None => prefs.alert_on_snow,
        },
        alert_on_storm: match patch.alert_on_storm {
            Some(on) => on,
            None => prefs.alert_on_storm,
        },
        created_at: prefs.created_at,
        updated_at: now,
    }
}

/// The store after the preferences of a user were replaced.
pub open spec fn with_preferences(db: DatabaseView, user_id: u128, prefs: UserPreferences) -> DatabaseView {
    DatabaseView { preferences: db.preferences.update(db.index_of(user_id), prefs), ..db }
}

/// A partial update at the instant `now` came to what it owes: `NotFound`
/// where the user is unknown, with the store as it was; otherwise the merged
/// preferences, with the store holding them.
pub open spec fn updated(
    before: DatabaseView,
    user_id: u128,
    patch: UpdatePreferencesRequest,
    now: i64,
    r: Result<UserPreferences, (ErrorKind, Seq<char>)>,
    after: DatabaseView,
) -> bool {
    match before.preferences_of(user_id) {
        None => r == Err::<UserPreferences, (ErrorKind, Seq<char>)>(
            (ErrorKind::NotFound, "Preferences not found"@),
        ) && after == before,
        Some(prefs) => r == Ok::<UserPreferences, (ErrorKind, Seq<char>)>(
            merged(prefs, patch, now),
        ) && after == with_preferences(before, user_id, merged(prefs, patch, now)),
    }
}

/// The store after an observation entered it.
pub open spec fn with_observation(db: DatabaseView, weather: WeatherDataView) -> DatabaseView {
    DatabaseView {
        weather: db.weather.insert(
            slot_of(weather_times(db.weather), weather.fetched_at),
            weather,
        ),
        ..db
    }
}

/// The store after an alert was logged.
pub open spec fn with_alert(db: DatabaseView, alert: AlertLogView) -> DatabaseView {
    DatabaseView {
        alerts: db.alerts.insert(slot_of(alert_times(db.alerts), alert.sent_at), alert),
        ..db
    }
}

/// An alert for `user_id` logged at the instant `now` came to what it owes:
/// a `Database` error where the user is unknown, with the store as it was;
/// otherwise the store holds the entry.
pub open spec fn logged(
    before: DatabaseView,
    user_id: u128,
    alert_type: Seq<char>,
    message: Seq<char>,
    now: i64,
    r: Result<(), (ErrorKind, Seq<char>)>,
    after: DatabaseView,
) -> bool {
    if before.has_user(user_id) {
        r is Ok && after == with_alert(
            before,
            AlertLogView { user_id, alert_type, message, sent_at: now },
        )
    } else {
        r == Err::<(), (ErrorKind, Seq<char>)>(
            (ErrorKind::Database, "alert_logs.user_id: no such user"@),
        ) && after == before
    }
}

/// The test that picks the users of a city, whatever the letter case of its
/// name.
pub open spec fn lives_in(city: Seq<char>) -> spec_fn(UserView) -> bool {
    |u: UserView| same_ignoring_case(u.city, city)
}

/// The test that picks the observations of a city, whatever the letter case
/// of its name.
pub open spec fn observed_in(city: Seq<char>) -> spec_fn(WeatherDataView) -> bool {
    |w: WeatherDataView| same_ignoring_case(w.city, city)
}

/// The test that picks the alerts of a user.
pub open spec fn sent_to(user_id: u128) -> spec_fn(AlertLogView) -> bool {
    |a: AlertLogView| a.user_id == user_id
}

/// The first `limit` rows of a run, or all of them where there are fewer.
pub open spec fn limited<A>(rows: Seq<A>, limit: int) -> Seq<A> {
    if 0 <= limit < rows.len() {
        rows.take(limit)
    } else {
        rows
    }
}

/// The error for a limit below zero.
pub open spec fn negative_limit() -> (ErrorKind, Seq<char>) {
    (ErrorKind::Database, "LIMIT must not be negative"@)
}

/// The city and country of a user.
pub open spec fn city_of(user: UserView) -> CityInfoView {
    CityInfoView { city: user.city, country: user.country }
}

/// One city comes before another: by name in dictionary order, and by
/// country where the names are the same.
pub open spec fn city_precedes(x: CityInfoView, y: CityInfoView) -> bool {
    precedes(x.city, y.city) || (x.city == y.city && precedes(x.country, y.country))
}

/// A run of cities in which each comes before all that follow it. No city
/// occurs twice in such a run.
pub open spec fn ascending(cities: Seq<CityInfoView>) -> bool {
    forall|i: int, j: int| 0 <= i < j < cities.len() ==> city_precedes(cities[i], cities[j])
}

/// Some user lives in this city, name and country in this very spelling.
pub open spec fn inhabited(users: Seq<UserView>, city: CityInfoView) -> bool {
    exists|i: int| 0 <= i < users.len() && city_of(#[trigger] users[i]) == city
}

/// A run of cities is the list of the cities of the given users: ascending,
/// so that no city occurs twice, with every city in which a user lives and
/// no other.
pub open spec fn cities_of(users: Seq<UserView>, cities: Seq<CityInfoView>) -> bool {
    &&& ascending(cities)
    &&& forall|city: CityInfoView| cities.contains(city) <==> inhabited(users, city)
}

/// Every user has exactly one row of preferences: the row at the user's own
/// position belongs to the user, and no other row does.
pub proof fn lemma_one_preferences_row_per_user(db: DatabaseView, i: int)
    requires
        db.wf(),
        0 <= i < db.users.len(),
    ensures
        db.preferences.len() == db.users.len(),
        db.preferences[i].user_id == db.users[i].id,
        db.preferences_of(db.users[i].id) == Some(db.preferences[i]),
        forall|j: int|
            0 <= j < db.preferences.len() && (#[trigger] db.preferences[j]).user_id
                == db.users[i].id ==> j == i,
{
    lemma_index_of(db, db.users[i].id, i);
    assert forall|j: int|
        0 <= j < db.preferences.len() && (#[trigger] db.preferences[j]).user_id
            == db.users[i].id implies j == i by {
        if j < i {
            assert(db.users[j].id != db.users[i].id);
        } else if i < j {
            assert(db.users[i].id != db.users[j].id);
        }
    }
}

/// A registration that is not turned down leaves a well-formed store in
/// which the new user stands with exactly one row of preferences, the
/// default ones, and in which every earlier user and its preferences stand
/// as before.
pub proof fn lemma_registration_adds_one_user(
    db: DatabaseView,
    req: CreateUserRequestView,
    id: u128,
    now: i64,
)
    requires
        db.wf(),
        creation_fault(db, req, id) is None,
    ensures
        ({
            let user = created_user(req, id, now);
            let after = with_user(db, user, default_preferences(id, now));
            &&& after.wf()
            &&& after.users.len() == db.users.len() + 1
            &&& after.preferences.len() == after.users.len()
            &&& after.users.contains(user)
            &&& after.preferences_of(id) == Some(default_preferences(id, now))
            &&& forall|j: int|
                0 <= j < after.preferences.len() && (#[trigger] after.preferences[j]).user_id
                    == id ==> j == after.index_of(id)
            &&& forall|other: u128|
                db.has_user(other) ==> after.has_user(other) && after.preferences_of(other)
                    == db.preferences_of(other)
        }),
{
    let user = created_user(req, id, now);
    let prefs = default_preferences(id, now);
    let after = with_user(db, user, prefs);
    lemma_normalized_country_is_stored(req.country);
    lemma_with_user_is_well_formed(db, user, prefs);
    let k = slot_of(user_times(db.users), now);
    lemma_slot_keeps_order(user_times(db.users), now);
    assert(after.users[k] == user);
    lemma_index_of(after, id, k);
    lemma_one_preferences_row_per_user(after, k);
    assert forall|other: u128| db.has_user(other) implies after.has_user(other)
        && after.preferences_of(other) == db.preferences_of(other) by {
        let i = db.index_of(other);
        let moved = if i < k { i } else { i + 1 };
        assert(after.users[moved] == db.users[i]);
        lemma_index_of(after, other, moved);
    }
}

/// A second registration with the email of a registered user, in whatever
/// letter case, is a conflict, provided the request itself is valid.
pub proof fn lemma_duplicate_email_is_a_conflict(
    db: DatabaseView,
    first: CreateUserRequestView,
    first_id: u128,
    first_now: i64,
    second: CreateUserRequestView,
    second_id: u128,
)
    requires
        db.wf(),
        creation_fault(db, first, first_id) is None,
        registration_fault(second) is None,
        same_ignoring_case(first.email, second.email),
    ensures
        creation_fault(
            with_user(
                db,
                created_user(first, first_id, first_now),
                default_preferences(first_id, first_now),
            ),
            second,
            second_id,
        ) == Some((ErrorKind::Conflict, "User with this email already exists"@)),
{
    let user = created_user(first, first_id, first_now);
    let after = with_user(db, user, default_preferences(first_id, first_now));
    let k = slot_of(user_times(db.users), first_now);
    lemma_slot_keeps_order(user_times(db.users), first_now);
    assert(after.users[k] == user);
    assert(same_ignoring_case(after.users[k].email, second.email));
}

/// A registered email stays taken: once a user holds it, every valid
/// registration with that email, in whatever letter case, is a conflict.
pub proof fn lemma_registered_email_is_taken(
    db: DatabaseView,
    i: int,
    req: CreateUserRequestView,
    id: u128,
)
    requires
        db.wf(),
        0 <= i < db.users.len(),
        registration_fault(req) is None,
        same_ignoring_case(db.users[i].email, req.email),
    ensures
        creation_fault(db, req, id) == Some(
            (ErrorKind::Conflict, "User with this email already exists"@),
        ),
{
}

/// A partial update leaves every field that it does not set as it was, and
/// gives every field that it sets the new value. The user and the instant of
/// creation never change.
pub proof fn lemma_update_keeps_unset_fields(
    prefs: UserPreferences,
    patch: UpdatePreferencesRequest,
    now: i64,
)
    ensures
        ({
            let next = merged(prefs, patch, now);
            &&& next.user_id == prefs.user_id
            &&& next.created_at == prefs.created_at
            &&& next.updated_at == now
            &&& patch.min_temp is None ==> next.min_temp == prefs.min_temp
            &&& patch.max_temp is None ==> next.max_temp == prefs.max_temp
            &&& patch.alert_on_rain is None ==> next.alert_on_rain == prefs.alert_on_rain
            &&& patch.alert_on_snow is None ==> next.alert_on_snow == prefs.alert_on_snow
            &&& patch.alert_on_storm is None ==> next.alert_on_storm == prefs.alert_on_storm
            &&& patch.min_temp is Some ==> next.min_temp == patch.min_temp
            &&& patch.max_temp is Some ==> next.max_temp == patch.max_temp
            &&& patch.alert_on_rain is Some ==> next.alert_on_rain == patch.alert_on_rain.unwrap()
            &&& patch.alert_on_snow is Some ==> next.alert_on_snow == patch.alert_on_snow.unwrap()
            &&& patch.alert_on_storm is Some ==> next.alert_on_storm
                == patch.alert_on_storm.unwrap()
        }),
{
}

/// An update of one user's preferences changes that user's row and nothing
/// else in the store.
pub proof fn lemma_update_touches_one_row(
    db: DatabaseView,
    user_id: u128,
    patch: UpdatePreferencesRequest,
    now: i64,
)
    requires
        db.wf(),
        db.has_user(user_id),
    ensures
        ({
            let next = merged(db.preferences_of(user_id).unwrap(), patch, now);
            let after = with_preferences(db, user_id, next);
            &&& after.wf()
            &&& after.users == db.users
            &&& after.weather == db.weather
            &&& after.alerts == db.alerts
            &&& after.preferences_of(user_id) == Some(next)
            &&& forall|other: u128|
                other != user_id ==> after.preferences_of(other) == db.preferences_of(other)
        }),
{
    let i = db.index_of(user_id);
    let next = merged(db.preferences_of(user_id).unwrap(), patch, now);
    let after = with_preferences(db, user_id, next);
    assert(db.preferences[i].user_id == db.users[i].id);
    assert(after.users == db.users);
    assert forall|n: int| 0 <= n < after.alerts.len() implies after.has_user(
        (#[trigger] after.alerts[n]).user_id,
    ) by {
        assert(db.has_user(db.alerts[n].user_id));
        lemma_users_decide(db, after, db.alerts[n].user_id);
    }
    assert forall|j: int| 0 <= j < after.users.len() implies (
    #[trigger] after.preferences[j]).user_id == after.users[j].id by {
        assert(db.preferences[j].user_id == db.users[j].id);
    }
    lemma_users_decide(db, after, user_id);
    assert forall|other: u128| other != user_id implies after.preferences_of(other)
        == db.preferences_of(other) by {
        lemma_users_decide(db, after, other);
        if db.has_user(other) {
            let j = db.index_of(other);
            assert(db.users[j].id == other);
            assert(j != i);
        }
    }
}

/// A lookup by city does not see letter case: two names that are the same up
/// to letter case find the same users and the same observations.
pub proof fn lemma_lookup_ignores_case(db: DatabaseView, a: Seq<char>, b: Seq<char>)
    requires
        same_ignoring_case(a, b),
    ensures
        db.users_in(a) == db.users_in(b),
        db.observations_in(a) == db.observations_in(b),
{
    assert(lives_in(a) =~= lives_in(b));
    assert(observed_in(a) =~= observed_in(b));
}

/// An observation goes through the store unchanged: once stored, it is found
/// under every spelling of its city, with city and country letter for letter
/// as they were given.
pub proof fn lemma_stored_observation_is_found(
    db: DatabaseView,
    weather: WeatherDataView,
    asked: Seq<char>,
)
    requires
        db.wf(),
        same_ignoring_case(weather.city, asked),
    ensures
        with_observation(db, weather).wf(),
        with_observation(db, weather).observations_in(asked).contains(weather),
        with_observation(db, weather).observations_in(weather.city).contains(weather),
        forall|i: int|
            0 <= i < db.weather.len() ==> with_observation(db, weather).weather.contains(
                #[trigger] db.weather[i],
            ),
{
    let times = weather_times(db.weather);
    let k = slot_of(times, weather.fetched_at);
    lemma_slot_keeps_order(times, weather.fetched_at);
    let after = with_observation(db, weather);
    assert(weather_times(after.weather) =~= times.insert(k, weather.fetched_at));
    assert(after.weather[k] == weather);
    after.weather.lemma_filter_contains(observed_in(asked), k);
    after.weather.lemma_filter_contains(observed_in(weather.city), k);
    assert forall|i: int| 0 <= i < db.weather.len() implies after.weather.contains(
        #[trigger] db.weather[i],
    ) by {
        let moved = if i < k { i } else { i + 1 };
        assert(after.weather[moved] == db.weather[i]);
    }
    assert(after.users == db.users);
    assert forall|n: int| 0 <= n < after.alerts.len() implies after.has_user(
        (#[trigger] after.alerts[n]).user_id,
    ) by {
        assert(db.has_user(db.alerts[n].user_id));
        lemma_users_decide(db, after, db.alerts[n].user_id);
    }
}

/// An observation that is not older than any stored one is the latest of its
/// city from then on.
pub proof fn lemma_newest_observation_is_latest(
    db: DatabaseView,
    weather: WeatherDataView,
    asked: Seq<char>,
)
    requires
        db.wf(),
        same_ignoring_case(weather.city, asked),
        forall|i: int| 0 <= i < db.weather.len() ==> (#[trigger] db.weather[i]).fetched_at
            <= weather.fetched_at,
    ensures
        with_observation(db, weather).observations_in(asked).len() > 0,
        with_observation(db, weather).observations_in(asked)[0] == weather,
{
    let times = weather_times(db.weather);
    assert(times.len() > 0 ==> times[0] == db.weather[0].fetched_at);
    assert(slot_of(times, weather.fetched_at) == 0);
    let after = with_observation(db, weather);
    assert(after.weather[0] == weather);
    let keep = observed_in(asked);
    lemma_filter_next(after.weather, keep, 0);
    assert(after.weather.take(0).filter(keep) =~= Seq::empty()) by {
        reveal(Seq::filter);
    }
    lemma_filter_of_prefix(after.weather, keep, 1);
    assert(after.weather.take(1).filter(keep) == seq![weather]);
    assert(after.weather.filter(keep).take(1)[0] == weather);
}

/// The list of the cities of the users is one list only: two ascending runs
/// that hold the same cities are the same run.
pub proof fn lemma_city_list_is_unique(a: Seq<CityInfoView>, b: Seq<CityInfoView>)
    requires
        ascending(a),
        ascending(b),
        forall|city: CityInfoView| a.contains(city) <==> b.contains(city),
    ensures
        a == b,
    decreases a.len(),
{
    if a.len() == 0 {
        if b.len() > 0 {
            assert(b.contains(b[0]));
            assert(a.contains(b[0]));
        }
        assert(a =~= b);
    } else {
        assert(a.contains(a[0]));
        assert(b.contains(a[0]));
        let k = choose|k: int| 0 <= k < b.len() && b[k] == a[0];
        assert(b.contains(b[0]));
        assert(a.contains(b[0]));
        let m = choose|m: int| 0 <= m < a.len() && a[m] == b[0];
        lemma_city_does_not_precede_itself(a[0]);
        if k > 0 {
            assert(city_precedes(b[0], b[k]));
            if m > 0 {
                assert(city_precedes(a[0], a[m]));
                lemma_city_precedes_chains(a[0], b[0], a[0]);
            }
        }
        assert(a[0] == b[0]);
        let x = a.drop_first();
        let y = b.drop_first();
        assert(ascending(x)) by {
            assert forall|i: int, j: int| 0 <= i < j < x.len() implies city_precedes(
                x[i],
                x[j],
            ) by {
                assert(city_precedes(a[i + 1], a[j + 1]));
            }
        }
        assert(ascending(y)) by {
            assert forall|i: int, j: int| 0 <= i < j < y.len() implies city_precedes(
                y[i],
                y[j],
            ) by {
                assert(city_precedes(b[i + 1], b[j + 1]));
            }
        }
        assert forall|city: CityInfoView| x.contains(city) <==> y.contains(city) by {
            if x.contains(city) {
                let i = choose|i: int| 0 <= i < x.len() && x[i] == city;
                assert(a[i + 1] == city);
                assert(city_precedes(a[0], a[i + 1]));
                assert(a.contains(city));
                assert(b.contains(city));
                let j = choose|j: int| 0 <= j < b.len() && b[j] == city;
                lemma_city_does_not_precede_itself(city);
                assert(j > 0);
                assert(y[j - 1] == city);
            }
            if y.contains(city) {
                let i = choose|i: int| 0 <= i < y.len() && y[i] == city;
                assert(b[i + 1] == city);
                assert(city_precedes(b[0], b[i + 1]));
                assert(b.contains(city));
                assert(a.contains(city));
                let j = choose|j: int| 0 <= j < a.len() && a[j] == city;
                lemma_city_does_not_precede_itself(city);
                assert(j > 0);
                assert(x[j - 1] == city);
            }
        }
        lemma_city_list_is_unique(x, y);
        assert(a =~= seq![a[0]] + x);
        assert(b =~= seq![b[0]] + y);
    }
}

/// No city comes before itself.
pub proof fn lemma_city_does_not_precede_itself(city: CityInfoView)
    ensures
        !city_precedes(city, city),
{
    lemma_precedes_is_strict(city.city);
    lemma_precedes_is_strict(city.country);
}

/// Every list that the store gives is newest first: all users, the users of
/// a city, the observations of a city, all alerts and the alerts of a user.
/// So the first observation of a city is its latest.
pub proof fn lemma_lists_are_newest_first(db: DatabaseView, city: Seq<char>, user_id: u128)
    requires
        db.wf(),
    ensures
        newest_first(user_times(db.users)),
        newest_first(user_times(db.users_in(city))),
        newest_first(weather_times(db.observations_in(city))),
        newest_first(alert_times(db.alerts)),
        newest_first(alert_times(db.alerts_of(user_id))),
        forall|i: int|
            0 <= i < db.observations_in(city).len() ==> db.observations_in(city)[0].fetched_at >= (
            #[trigger] db.observations_in(city)[i]).fetched_at,
{
    lemma_filter_keeps_order(db.users, lives_in(city), |u: UserView| u.created_at);
    lemma_filter_keeps_order(db.weather, observed_in(city), |w: WeatherDataView| w.fetched_at);
    lemma_filter_keeps_order(db.alerts, sent_to(user_id), |a: AlertLogView| a.sent_at);
    assert(user_times(db.users) =~= db.users.map_values(|u: UserView| u.created_at));
    assert(user_times(db.users_in(city)) =~= db.users.filter(lives_in(city)).map_values(
        |u: UserView| u.created_at,
    ));
    assert(weather_times(db.weather) =~= db.weather.map_values(
        |w: WeatherDataView| w.fetched_at,
    ));
    assert(weather_times(db.observations_in(city)) =~= db.weather.filter(
        observed_in(city),
    ).map_values(|w: WeatherDataView| w.fetched_at));
    assert(alert_times(db.alerts) =~= db.alerts.map_values(|a: AlertLogView| a.sent_at));
    assert(alert_times(db.alerts_of(user_id)) =~= db.alerts.filter(sent_to(user_id)).map_values(
        |a: AlertLogView| a.sent_at,
    ));
    let found = db.observations_in(city);
    assert forall|i: int| 0 <= i < found.len() implies found[0].fetched_at >= (
    #[trigger] found[i]).fetched_at by {
        if i > 0 {
            assert(weather_times(found)[0] >= weather_times(found)[i]);
        }
    }
}

/// A limit cuts a list at its end: what is listed under a limit is the start
/// of the full list, of the length of the limit at most.
pub proof fn lemma_limit_keeps_the_newest<A>(rows: Seq<A>, limit: int)
    requires
        limit >= 0,
    ensures
        limited(rows, limit).len() == if limit < rows.len() { limit } else { rows.len() as int },
        forall|i: int| 0 <= i < limited(rows, limit).len() ==> limited(rows, limit)[i] == rows[i],
{
}

/// The countries of all users are kept in capitals, two letters each.
pub proof fn lemma_countries_are_kept_in_capitals(db: DatabaseView, i: int)
    requires
        db.wf(),
        0 <= i < db.users.len(),
    ensures
        stored_country(db.users[i].country),
        valid_city(db.users[i].city),
        valid_email(db.users[i].email),
{
    assert(stored_user(db.users[i]));
}

/// A valid country code in capitals is a country code as the store holds it.
pub proof fn lemma_normalized_country_is_stored(country: Seq<char>)
    requires
        valid_country(country),
    ensures
        stored_country(normalized_country(country)),
{
    let out = normalized_country(country);
    assert(out.len() == 2);
    assert(out[0] == capital_of(country[0]));
    assert(out[1] == capital_of(country[1]));
}

/// Whether a user is known, and at which position, depends on the table of
/// users alone.
pub proof fn lemma_users_decide(db: DatabaseView, after: DatabaseView, id: u128)
    requires
        after.users == db.users,
    ensures
        after.has_user(id) == db.has_user(id),
        after.index_of(id) == db.index_of(id),
{
    if db.has_user(id) {
        let i = choose|i: int| 0 <= i < db.users.len() && (#[trigger] db.users[i]).id == id;
        assert(after.users[i].id == id);
    }
    if after.has_user(id) {
        let i = choose|i: int| 0 <= i < after.users.len() && (#[trigger] after.users[i]).id == id;
        assert(db.users[i].id == id);
    }
}

/// In a well-formed store the position of a user is the one position at
/// which its identifier stands.
pub proof fn lemma_index_of(db: DatabaseView, id: u128, i: int)
    requires
        db.wf(),
        0 <= i < db.users.len(),
        db.users[i].id == id,
    ensures
        db.has_user(id),
        db.index_of(id) == i,
{
    let j = db.index_of(id);
    if j < i {
        assert(db.users[j].id != db.users[i].id);
    } else if i < j {
        assert(db.users[i].id != db.users[j].id);
    }
}

/// A user that enters a store in which neither its identifier nor its email
/// is known leaves the store well-formed.
pub proof fn lemma_with_user_is_well_formed(
    db: DatabaseView,
    user: UserView,
    prefs: UserPreferences,
)
    requires
        db.wf(),
        stored_user(user),
        prefs.user_id == user.id,
        !db.has_user(user.id),
        !db.has_email(user.email),
    ensures
        with_user(db, user, prefs).wf(),
{
    let times = user_times(db.users);
    let k = slot_of(times, user.created_at);
    lemma_slot_keeps_order(times, user.created_at);
    let after = with_user(db, user, prefs);
    assert(user_times(after.users) =~= times.insert(k, user.created_at));
    assert forall|i: int, j: int| 0 <= i < j < after.users.len() implies (
    #[trigger] after.users[i]).id != (#[trigger] after.users[j]).id by {
        let a = if i < k { i } else { i - 1 };
        let b = if j < k { j } else { j - 1 };
        if i == k {
            assert(db.users[b].id != user.id);
        } else if j == k {
            assert(db.users[a].id != user.id);
        } else {
            assert(db.users[a].id != db.users[b].id);
        }
    }
    assert forall|i: int, j: int| 0 <= i < j < after.users.len() implies !same_ignoring_case(
        (#[trigger] after.users[i]).email,
        (#[trigger] after.users[j]).email,
    ) by {
        let a = if i < k { i } else { i - 1 };
        let b = if j < k { j } else { j - 1 };
        if i == k {
            assert(!same_ignoring_case(db.users[b].email, user.email));
        } else if j == k {
            assert(!same_ignoring_case(db.users[a].email, user.email));
        } else {
            assert(!same_ignoring_case(db.users[a].email, db.users[b].email));
        }
    }
    assert forall|i: int| 0 <= i < after.users.len() implies stored_user(
        #[trigger] after.users[i],
    ) by {
        if i < k {
            assert(stored_user(db.users[i]));
        } else if i > k {
            assert(stored_user(db.users[i - 1]));
        }
    }
    assert forall|i: int| 0 <= i < after.users.len() implies (
    #[trigger] after.preferences[i]).user_id == after.users[i].id by {
        if i < k {
            assert(db.preferences[i].user_id == db.users[i].id);
        } else if i > k {
            assert(db.preferences[i - 1].user_id == db.users[i - 1].id);
        }
    }
    assert forall|n: int| 0 <= n < after.alerts.len() implies after.has_user(
        (#[trigger] after.alerts[n]).user_id,
    ) by {
        assert(db.has_user(db.alerts[n].user_id));
        let i = choose|i: int|
            0 <= i < db.users.len() && (#[trigger] db.users[i]).id == db.alerts[n].user_id;
        let moved = if i < k { i } else { i + 1 };
        assert(after.users[moved].id == db.alerts[n].user_id);
    }
}

/// The position that a scan from the newest row finds is the slot of the new
/// row.
pub proof fn lemma_slot_found(times: Seq<i64>, now: i64, k: int)
    requires
        0 <= k <= times.len(),
        forall|i: int| 0 <= i < k ==> times[i] > now,
        k == times.len() || times[k] <= now,
    ensures
        slot_of(times, now) == k,
    decreases times.len(),
{
    if k > 0 {
        let rest = times.drop_first();
        assert forall|i: int| 0 <= i < k - 1 implies rest[i] > now by {
            assert(rest[i] == times[i + 1]);
        }
        lemma_slot_found(rest, now, k - 1);
    }
}

/// A row that enters at its slot leaves the table newest first.
pub proof fn lemma_slot_keeps_order(times: Seq<i64>, now: i64)
    requires
        newest_first(times),
    ensures
        0 <= slot_of(times, now) <= times.len(),
        newest_first(times.insert(slot_of(times, now), now)),
        forall|i: int| 0 <= i < slot_of(times, now) ==> times[i] > now,
        forall|i: int| slot_of(times, now) <= i < times.len() ==> times[i] <= now,
    decreases times.len(),
{
    if times.len() == 0 || times[0] <= now {
        assert forall|i: int| 0 <= i < times.len() implies times[i] <= now by {
            if i > 0 {
                assert(times[0] >= times[i]);
            }
        }
    } else {
        let rest = times.drop_first();
        assert(newest_first(rest)) by {
            assert forall|i: int, j: int| 0 <= i < j < rest.len() implies rest[i] >= rest[j] by {
                assert(times[i + 1] >= times[j + 1]);
            }
        }
        lemma_slot_keeps_order(rest, now);
        let k = slot_of(times, now);
        assert forall|i: int| 0 <= i < k implies times[i] > now by {
            if i > 0 {
                assert(rest[i - 1] > now);
            }
        }
        assert forall|i: int| k <= i < times.len() implies times[i] <= now by {
            assert(rest[i - 1] <= now);
        }
    }
    let k = slot_of(times, now);
    let after = times.insert(k, now);
    assert forall|i: int, j: int| 0 <= i < j < after.len() implies after[i] >= after[j] by {
        if j < k {
            assert(times[i] >= times[j]);
        } else if j == k {
        } else if i < k {
            assert(times[i] >= times[j - 1]);
        } else if i == k {
        } else {
            assert(times[i - 1] >= times[j - 1]);
        }
    }
}

/// Filtering one row more either adds that row at the end or changes
/// nothing.
pub proof fn lemma_filter_next<A>(rows: Seq<A>, keep: spec_fn(A) -> bool, i: int)
    requires
        0 <= i < rows.len(),
    ensures
        rows.take(i + 1).filter(keep) == if keep(rows[i]) {
            rows.take(i).filter(keep).push(rows[i])
        } else {
            rows.take(i).filter(keep)
        },
{
    reveal(Seq::filter);
    assert(rows.take(i + 1).drop_last() == rows.take(i));
}

/// What a filter keeps of the first rows is the start of what it keeps of
/// all rows.
pub proof fn lemma_filter_of_prefix<A>(rows: Seq<A>, keep: spec_fn(A) -> bool, i: int)
    requires
        0 <= i <= rows.len(),
    ensures
        rows.take(i).filter(keep).len() <= rows.filter(keep).len(),
        rows.take(i).filter(keep) == rows.filter(keep).take(
            rows.take(i).filter(keep).len() as int,
        ),
{
    assert(rows == rows.take(i) + rows.skip(i));
    Seq::filter_distributes_over_add(rows.take(i), rows.skip(i), keep);
    let head = rows.take(i).filter(keep);
    let tail = rows.skip(i).filter(keep);
    assert((head + tail).take(head.len() as int) =~= head);
}

/// What a filter keeps of a table that is newest first is newest first.
pub proof fn lemma_filter_keeps_order<A>(
    rows: Seq<A>,
    keep: spec_fn(A) -> bool,
    instant: spec_fn(A) -> i64,
)
    requires
        newest_first(rows.map_values(instant)),
    ensures
        newest_first(rows.filter(keep).map_values(instant)),
        forall|i: int|
            0 <= i < rows.filter(keep).len() ==> rows.contains(#[trigger] rows.filter(keep)[i]),
    decreases rows.len(),
{
    reveal(Seq::filter);
    let kept = rows.filter(keep);
    if rows.len() > 0 {
        let front = rows.drop_last();
        let last = rows.last();
        assert(newest_first(front.map_values(instant))) by {
            assert forall|i: int, j: int| 0 <= i < j < front.len() implies front.map_values(
                instant,
            )[i] >= front.map_values(instant)[j] by {
                assert(rows.map_values(instant)[i] >= rows.map_values(instant)[j]);
            }
        }
        lemma_filter_keeps_order(front, keep, instant);
        let before = front.filter(keep);
        assert forall|i: int| 0 <= i < kept.len() implies rows.contains(#[trigger] kept[i]) by {
            if i < before.len() {
                assert(front.contains(before[i]));
                let n = choose|n: int| 0 <= n < front.len() && front[n] == before[i];
                assert(rows[n] == kept[i]);
            } else {
                assert(rows[rows.len() - 1] == kept[i]);
            }
        }
        assert forall|i: int, j: int| 0 <= i < j < kept.len() implies kept.map_values(instant)[i]
            >= kept.map_values(instant)[j] by {
            if j < before.len() {
                assert(before.map_values(instant)[i] >= before.map_values(instant)[j]);
            } else {
                assert(front.contains(before[i]));
                let n = choose|n: int| 0 <= n < front.len() && front[n] == before[i];
                assert(rows.map_values(instant)[n] >= rows.map_values(instant)[rows.len() - 1]);
            }
        }
    }
}

/// The order of cities is transitive.
pub proof fn lemma_city_precedes_chains(x: CityInfoView, y: CityInfoView, z: CityInfoView)
    requires
        city_precedes(x, y),
        city_precedes(y, z),
    ensures
        city_precedes(x, z),
{
    if precedes(x.city, y.city) && precedes(y.city, z.city) {
        lemma_precedes_chains(x.city, y.city, z.city);
    }
    if x.city == y.city && y.city == z.city {
        lemma_precedes_chains(x.country, y.country, z.country);
    }
}

/// A city that enters an ascending run behind all that come before it and
/// ahead of the next leaves the run ascending, and adds itself and nothing
/// else to it.
pub proof fn lemma_place_keeps_order(before: Seq<CityInfoView>, added: CityInfoView, k: int)
    requires
        ascending(before),
        0 <= k <= before.len(),
        forall|i: int| 0 <= i < k ==> city_precedes(before[i], added),
        k < before.len() ==> city_precedes(added, before[k]),
    ensures
        ascending(before.insert(k, added)),
        forall|x: CityInfoView|
            before.insert(k, added).contains(x) <==> before.contains(x) || x == added,
{
    let after = before.insert(k, added);
    assert forall|i: int, j: int| 0 <= i < j < after.len() implies city_precedes(
        after[i],
        after[j],
    ) by {
        if j < k {
            assert(city_precedes(before[i], before[j]));
        } else if j == k {
            assert(city_precedes(before[i], added));
        } else if i < k {
            assert(city_precedes(before[i], before[j - 1]));
        } else if i == k {
            if j - 1 > k {
                assert(city_precedes(before[k], before[j - 1]));
                lemma_city_precedes_chains(added, before[k], before[j - 1]);
            }
        } else {
            assert(city_precedes(before[i - 1], before[j - 1]));
        }
    }
    assert forall|x: CityInfoView| after.contains(x) <==> before.contains(x) || x == added by {
        if after.contains(x) {
            let n = choose|n: int| 0 <= n < after.len() && after[n] == x;
            if n < k {
                assert(before[n] == x);
            } else if n > k {
                assert(before[n - 1] == x);
            }
        }
        if before.contains(x) {
            let n = choose|n: int| 0 <= n < before.len() && before[n] == x;
            if n < k {
                assert(after[n] == x);
            } else {
                assert(after[n + 1] == x);
            }
        }
        if x == added {
            assert(after[k] == x);
        }
    }
}

} // verus!
