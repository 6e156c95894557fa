//! The store: users with their preferences, observations and the alert log.
//!
//! The store keeps its tables in memory, each newest first. A user and its
//! preferences are one row of one table, so that a user without preferences
//! cannot exist. Emails are unique up to letter case; cities are kept as
//! given and compared up to letter case; countries are kept in capitals.
use crate::error::{plain, viewed, AppError};
use crate::fresh::{new_identifier, now_micros};
use crate::models::{
    alerts_view, cities_view, observations_view, users_view, AlertLog, CityInfo, CityInfoView,
    CreateUserRequest, UpdatePreferencesRequest, User, UserPreferences, WeatherData,
};
use crate::store::{
    alert_times, ascending, cities_of, city_of, city_precedes, empty_store, inhabited,
    lemma_filter_next, lemma_filter_of_prefix, lemma_index_of, lemma_place_keeps_order,
    lemma_slot_found, lemma_slot_keeps_order, lemma_with_user_is_well_formed, limited,
    lives_in, logged, negative_limit, observed_in, registered, sent_to, stored_user, updated,
    user_times, weather_times, with_alert, with_observation, with_user, DatabaseView,
};
use crate::text::{lemma_precedes_is_strict, lowercase_of, order_of, same_ignoring_case, TextOrder};
use crate::validation::normalize_country;
use vstd::prelude::*;

verus! {

/// A user and the preferences that belong to it.
#[derive(Debug)]
struct Account {
    user: User,
    preferences: UserPreferences,
}

/// The tables of the store.
#[derive(Debug)]
struct Tables {
    accounts: Vec<Account>,
    weather: Vec<WeatherData>,
    alerts: Vec<AlertLog>,
}

impl View for Tables {
    type V = DatabaseView;

    closed spec fn view(&self) -> DatabaseView {
        DatabaseView {
            users: self.accounts@.map_values(|a: Account| a.user@),
            preferences: self.accounts@.map_values(|a: Account| a.preferences),
            weather: self.weather@.map_values(|w: WeatherData| w@),
            alerts: self.alerts@.map_values(|a: AlertLog| a@),
        }
    }
}

/// The store.
#[derive(Debug)]
pub struct Database {
    tables: Tables,
}

impl View for Database {
    type V = DatabaseView;

    closed spec fn view(&self) -> DatabaseView {
        self.tables@
    }
}

impl Tables {
    /// Tables with no rows.
    fn new() -> (tables: Self)
        ensures
            tables@ == empty_store(),
    {
        let accounts: Vec<Account> = Vec::new();
        let weather: Vec<WeatherData> = Vec::new();
        let alerts: Vec<AlertLog> = Vec::new();
        assert(accounts@.map_values(|a: Account| a.user@) =~= Seq::empty());
        assert(accounts@.map_values(|a: Account| a.preferences) =~= Seq::empty());
        assert(weather@.map_values(|w: WeatherData| w@) =~= Seq::empty());
        assert(alerts@.map_values(|a: AlertLog| a@) =~= Seq::empty());
        Tables { accounts, weather, alerts }
    }

    /// The position of the user with this identifier.
    fn find_user(&self, id: u128) -> (r: Option<usize>)
        ensures
            match r {
                Some(i) => i < self@.users.len() && self@.users[i as int].id == id,
                None => !self@.has_user(id),
            },
    {
        let mut i: usize = 0;
        while i < self.accounts.len()
            invariant
                i <= self.accounts.len(),
                forall|k: int| 0 <= k < i ==> self@.users[k].id != id,
            decreases self.accounts.len() - i,
        {
            if self.accounts[i].user.id == id {
                return Some(i);
            }
            i += 1;
        }
        None
    }

    /// The position of the user with this email, up to letter case.
    fn find_email(&self, email: &str) -> (r: Option<usize>)
        ensures
            match r {
                Some(i) => i < self@.users.len() && same_ignoring_case(
                    self@.users[i as int].email,
                    email@,
                ),
                None => !self@.has_email(email@),
            },
    {
        let wanted = email.to_lowercase();
        let mut i: usize = 0;
        while i < self.accounts.len()
            invariant
                i <= self.accounts.len(),
                wanted@ == lowercase_of(email@),
                forall|k: int| 0 <= k < i ==> !same_ignoring_case(self@.users[k].email, email@),
            decreases self.accounts.len() - i,
        {
            let row = self.accounts[i].user.email.as_str().to_lowercase();
            if row == wanted {
                return Some(i);
            }
            i += 1;
        }
        None
    }

    /// Puts a user and its preferences at their slot.
    fn add_account(&mut self, account: Account)
        requires
            old(self)@.wf(),
            stored_user(account.user@),
            account.preferences.user_id == account.user.id,
            !old(self)@.has_user(account.user.id),
            !old(self)@.has_email(account.user@.email),
        ensures
            final(self)@ == with_user(old(self)@, account.user@, account.preferences),
            final(self)@.wf(),
    {
        let now = account.user.created_at;
        let mut k: usize = 0;
        while k < self.accounts.len() && self.accounts[k].user.created_at > now
            invariant
                k <= self.accounts.len(),
                forall|i: int| 0 <= i < k ==> user_times(self@.users)[i] > now,
            decreases self.accounts.len() - k,
        {
            k += 1;
        }
        proof {
            lemma_slot_found(user_times(self@.users), now, k as int);
            lemma_with_user_is_well_formed(self@, account.user@, account.preferences);
            let after = self.accounts@.insert(k as int, account);
            assert(after.map_values(|a: Account| a.user@) =~= self@.users.insert(
                k as int,
                account.user@,
            ));
            assert(after.map_values(|a: Account| a.preferences) =~= self@.preferences.insert(
                k as int,
                account.preferences,
            ));
        }
        self.accounts.insert(k, account);
    }
    /// Puts an observation at its slot.
    fn add_observation(&mut self, weather: WeatherData)
        requires
            old(self)@.wf(),
        ensures
            final(self)@ == with_observation(old(self)@, weather@),
            final(self)@.wf(),
    {
        let now = weather.fetched_at;
        let mut k: usize = 0;
        while k < self.weather.len() && self.weather[k].fetched_at > now
            invariant
                k <= self.weather.len(),
                forall|i: int| 0 <= i < k ==> weather_times(self@.weather)[i] > now,
            decreases self.weather.len() - k,
        {
            k += 1;
        }
        proof {
            let times = weather_times(self@.weather);
            lemma_slot_found(times, now, k as int);
            lemma_slot_keeps_order(times, now);
            let after = self.weather@.insert(k as int, weather);
            assert(after.map_values(|w: WeatherData| w@) =~= self@.weather.insert(
                k as int,
                weather@,
            ));
            assert(weather_times(self@.weather.insert(k as int, weather@)) =~= times.insert(
                k as int,
                now,
            ));
        }
        self.weather.insert(k, weather);
    }

    /// Puts an alert at its slot.
    fn add_alert(&mut self, alert: AlertLog)
        requires
            old(self)@.wf(),
            old(self)@.has_user(alert.user_id),
        ensures
            final(self)@ == with_alert(old(self)@, alert@),
            final(self)@.wf(),
    {
        let now = alert.sent_at;
        let mut k: usize = 0;
        while k < self.alerts.len() && self.alerts[k].sent_at > now
            invariant
                k <= self.alerts.len(),
                forall|i: int| 0 <= i < k ==> alert_times(self@.alerts)[i] > now,
            decreases self.alerts.len() - k,
        {
            k += 1;
        }
        proof {
            let times = alert_times(self@.alerts);
            lemma_slot_found(times, now, k as int);
            lemma_slot_keeps_order(times, now);
            let after = self.alerts@.insert(k as int, alert);
            assert(after.map_values(|a: AlertLog| a@) =~= self@.alerts.insert(k as int, alert@));
            assert(alert_times(self@.alerts.insert(k as int, alert@)) =~= times.insert(
                k as int,
                now,
            ));
            let next = with_alert(self@, alert@);
            assert forall|n: int| 0 <= n < next.alerts.len() implies next.has_user(
                (#[trigger] next.alerts[n]).user_id,
            ) by {
                let id = next.alerts[n].user_id;
                if n < k {
                    assert(self@.has_user(self@.alerts[n].user_id));
                } else if n > k {
                    assert(self@.has_user(self@.alerts[n - 1].user_id));
                }
                assert(self@.has_user(id));
                let i = choose|i: int|
                    0 <= i < self@.users.len() && (#[trigger] self@.users[i]).id == id;
                assert(next.users[i].id == id);
            }
        }
        self.alerts.insert(k, alert);
    }

    /// Replaces the preferences of the user at position `i`.
    fn set_preferences(&mut self, i: usize, preferences: UserPreferences)
        requires
            old(self)@.wf(),
            i < old(self)@.users.len(),
            preferences.user_id == old(self)@.users[i as int].id,
        ensures
            final(self)@ == (DatabaseView {
                preferences: old(self)@.preferences.update(i as int, preferences),
                ..old(self)@
            }),
            final(self)@.wf(),
    {
        let user = self.accounts[i].user.clone();
        proof {
            let after = self.accounts@.update(i as int, Account { user, preferences });
            assert(after.map_values(|a: Account| a.user@) =~= self@.users);
            assert(after.map_values(|a: Account| a.preferences) =~= self@.preferences.update(
                i as int,
                preferences,
            ));
        }
        self.accounts.set(i, Account { user, preferences });
    }
}

impl Database {
    #[verifier::type_invariant]
    spec fn well_formed(&self) -> bool {
        self.tables@.wf()
    }

    /// States what the store keeps true of its tables. It does nothing when
    /// it runs; a caller's proof learns from it that the tables are
    /// well-formed.
    pub fn well_kept(&self)
        ensures
            self@.wf(),
    {
        proof {
            use_type_invariant(self);
        }
    }

    /// A store with no rows.
    pub fn new() -> (db: Self)
        ensures
            db@ == empty_store(),
    {
        Database { tables: Tables::new() }
    }

    /// Registers a user under the given identifier and instant, together with
    /// its default preferences. The request must be valid, the email not
    /// taken in any letter case, the identifier not in use; otherwise the
    /// store is left as it is.
    pub fn create_user_at(&mut self, req: &CreateUserRequest, id: u128, now: i64) -> (r: Result<
        User,
        AppError,
    >)
        ensures
            registered(old(self)@, req@, id, now, viewed(r), final(self)@),
    {
        proof {
            use_type_invariant(&*self);
        }
        match req.validate() {
            Err(e) => {
                return Err(e);
            },
            Ok(_) => {},
        }
        if self.tables.find_email(req.email.as_str()).is_some() {
            return Err(AppError::Conflict(String::from_str("User with this email already exists")));
        }
        if self.tables.find_user(id).is_some() {
            return Err(
                AppError::Database(String::from_str("users.id: identifier already in use")),
            );
        }
        let user = User {
            id,
            email: req.email.clone(),
            city: req.city.clone(),
            country: normalize_country(req.country.as_str()),
            created_at: now,
        };
        let preferences = UserPreferences {
            user_id: id,
            min_temp: None,
            max_temp: None,
            alert_on_rain: false,
            alert_on_snow: false,
            alert_on_storm: false,
            created_at: now,
            updated_at: now,
        };
        let created = user.clone();
        let mut tables = Tables::new();
        core::mem::swap(&mut tables, &mut self.tables);
        tables.add_account(Account { user, preferences });
        core::mem::swap(&mut tables, &mut self.tables);
        Ok(created)
    }

    /// Registers a user, together with its default preferences, under a new
    /// identifier and the current time. Everything else is as
    /// `create_user_at` says.
    pub fn create_user(&mut self, req: &CreateUserRequest) -> (r: Result<User, AppError>)
        ensures
            exists|id: u128, now: i64| registered(old(self)@, req@, id, now, viewed(r), final(self)@),
    {
        let id = new_identifier();
        let now = now_micros();
        self.create_user_at(req, id, now)
    }

    /// The user with this identifier.
    pub fn get_user_by_id(&self, user_id: u128) -> (r: Result<Option<User>, AppError>)
        ensures
            r is Ok,
            match r->Ok_0 {
                Some(user) => self@.has_user(user_id) && user@
                    == self@.users[self@.index_of(user_id)],
                None => !self@.has_user(user_id),
            },
    {
        proof {
            use_type_invariant(self);
        }
        match self.tables.find_user(user_id) {
            Some(i) => {
                let user = self.tables.accounts[i].user.clone();
                proof {
                    assert(self@.users[i as int] == user@);
                    lemma_index_of(self@, user_id, i as int);
                }
                Ok(Some(user))
            },
            None => Ok(None),
        }
    }

    /// The user with this email, whatever the letter case of either.
    pub fn get_user_by_email(&self, email: &str) -> (r: Result<Option<User>, AppError>)
        ensures
            r is Ok,
            match r->Ok_0 {
                Some(user) => same_ignoring_case(user@.email, email@) && self@.users.contains(
                    user@,
                ),
                None => !self@.has_email(email@),
            },
    {
        match self.tables.find_email(email) {
            Some(i) => {
                let user = self.tables.accounts[i].user.clone();
                assert(self@.users[i as int] == user@);
                Ok(Some(user))
            },
            None => Ok(None),
        }
    }

    /// All users, newest first.
    pub fn get_all_users(&self) -> (r: Result<Vec<User>, AppError>)
        ensures
            r is Ok,
            users_view(r->Ok_0@) == self@.users,
    {
        let mut out: Vec<User> = Vec::new();
        let mut i: usize = 0;
        while i < self.tables.accounts.len()
            invariant
                i <= self.tables.accounts.len(),
                users_view(out@) == self@.users.take(i as int),
            decreases self.tables.accounts.len() - i,
        {
            let user = self.tables.accounts[i].user.clone();
            assert(user@ == self@.users[i as int]);
            let ghost before = out@;
            out.push(user);
            assert(users_view(out@) =~= users_view(before).push(user@));
            assert(self@.users.take(i + 1) =~= self@.users.take(i as int).push(
                self@.users[i as int],
            ));
            i += 1;
        }
        assert(self@.users.take(i as int) == self@.users);
        Ok(out)
    }

    /// The users of a city, whatever the letter case of its name, newest
    /// first.
    pub fn get_users_by_city(&self, city: &str) -> (r: Result<Vec<User>, AppError>)
        ensures
            r is Ok,
            users_view(r->Ok_0@) == self@.users_in(city@),
    {
        let wanted = city.to_lowercase();
        let mut out: Vec<User> = Vec::new();
        let mut i: usize = 0;
        assert(users_view(out@) =~= self@.users.take(0).filter(lives_in(city@))) by {
            reveal(Seq::filter);
        }
        while i < self.tables.accounts.len()
            invariant
                i <= self.tables.accounts.len(),
                wanted@ == lowercase_of(city@),
                users_view(out@) == self@.users.take(i as int).filter(lives_in(city@)),
            decreases self.tables.accounts.len() - i,
        {
            let row = self.tables.accounts[i].user.city.as_str().to_lowercase();
            proof {
                lemma_filter_next(self@.users, lives_in(city@), i as int);
            }
            if row == wanted {
                let user = self.tables.accounts[i].user.clone();
                assert(user@ == self@.users[i as int]);
                let ghost before = out@;
                out.push(user);
                assert(users_view(out@) =~= users_view(before).push(user@));
            }
            i += 1;
        }
        assert(self@.users.take(i as int) == self@.users);
        Ok(out)
    }

    /// The preferences of a user, `None` where the user is unknown.
    pub fn get_user_preferences(&self, user_id: u128) -> (r: Result<
        Option<UserPreferences>,
        AppError,
    >)
        ensures
            r is Ok,
            r->Ok_0 == self@.preferences_of(user_id),
    {
        proof {
            use_type_invariant(self);
        }
        match self.tables.find_user(user_id) {
            Some(i) => {
                proof {
                    lemma_index_of(self@, user_id, i as int);
                }
                Ok(Some(self.tables.accounts[i].preferences))
            },
            None => Ok(None),
        }
    }

    /// Updates the preferences of a user at the instant `now`: every field
    /// that the update sets is replaced, every other field stays, and the
    /// instant of the last update becomes `now`.
    pub fn update_user_preferences_at(
        &mut self,
        user_id: u128,
        req: &UpdatePreferencesRequest,
        now: i64,
    ) -> (r: Result<UserPreferences, AppError>)
        ensures
            updated(old(self)@, user_id, *req, now, plain(r), final(self)@),
    {
        proof {
            use_type_invariant(&*self);
        }
        let i = match self.tables.find_user(user_id) {
            Some(i) => i,
            None => {
                return Err(AppError::NotFound(String::from_str("Preferences not found")));
            },
        };
        proof {
            lemma_index_of(self@, user_id, i as int);
        }
        let stored = self.tables.accounts[i].preferences;
        assert(stored == self@.preferences[i as int]);
        assert(stored.user_id == self@.users[i as int].id);
        let next = UserPreferences {
            user_id: stored.user_id,
            min_temp: if req.min_temp.is_some() {
                req.min_temp
            } else {
                stored.min_temp
            },
            max_temp: if req.max_temp.is_some() {
                req.max_temp
            } else {
                stored.max_temp
            },
            alert_on_rain: match req.alert_on_rain {
                Some(on) => on,
                None => stored.alert_on_rain,
            },
            alert_on_snow: match req.alert_on_snow {
                Some(on) => on,
                None => stored.alert_on_snow,
            },
            alert_on_storm: match req.alert_on_storm {
                Some(on) => on,
                None => stored.alert_on_storm,
            },
            created_at: stored.created_at,
            updated_at: now,
        };
        let mut tables = Tables::new();
        core::mem::swap(&mut tables, &mut self.tables);
        tables.set_preferences(i, next);
        core::mem::swap(&mut tables, &mut self.tables);
        Ok(next)
    }

    /// Updates the preferences of a user at the current time. Everything
    /// else is as `update_user_preferences_at` says.
    pub fn update_user_preferences(&mut self, user_id: u128, req: &UpdatePreferencesRequest) -> (r:
        Result<UserPreferences, AppError>)
        ensures
            exists|now: i64| updated(old(self)@, user_id, *req, now, plain(r), final(self)@),
    {
        let now = now_micros();
        self.update_user_preferences_at(user_id, req, now)
    }

    /// Stores an observation as it is given, city and country in the letter
    /// case they came in.
    pub fn store_weather_data(&mut self, weather: &WeatherData) -> (r: Result<(), AppError>)
        ensures
            r is Ok,
            final(self)@ == with_observation(old(self)@, weather@),
    {
        proof {
            use_type_invariant(&*self);
        }
        let row = weather.clone();
        let mut tables = Tables::new();
        core::mem::swap(&mut tables, &mut self.tables);
        tables.add_observation(row);
        core::mem::swap(&mut tables, &mut self.tables);
        Ok(())
    }

    /// The newest observation of a city, whatever the letter case of its
    /// name.
    pub fn get_latest_weather(&self, city: &str) -> (r: Result<Option<WeatherData>, AppError>)
        ensures
            r is Ok,
            match r->Ok_0 {
                Some(weather) => self@.observations_in(city@).len() > 0 && weather@
                    == self@.observations_in(city@)[0],
                None => self@.observations_in(city@).len() == 0,
            },
    {
        let wanted = city.to_lowercase();
        let mut i: usize = 0;
        assert(self@.weather.take(0).filter(observed_in(city@)).len() == 0) by {
            reveal(Seq::filter);
        }
        while i < self.tables.weather.len()
            invariant
                i <= self.tables.weather.len(),
                wanted@ == lowercase_of(city@),
                self@.weather.take(i as int).filter(observed_in(city@)).len() == 0,
            decreases self.tables.weather.len() - i,
        {
            let row = self.tables.weather[i].city.as_str().to_lowercase();
            proof {
                lemma_filter_next(self@.weather, observed_in(city@), i as int);
            }
            if row == wanted {
                let weather = self.tables.weather[i].clone();
                proof {
                    assert(weather@ == self@.weather[i as int]);
                    lemma_filter_of_prefix(self@.weather, observed_in(city@), i + 1);
                    let found = self@.weather.take(i + 1).filter(observed_in(city@));
                    assert(found.len() == 1);
                    assert(found[0] == weather@);
                    assert(self@.observations_in(city@).take(1)[0] == found[0]);
                }
                return Ok(Some(weather));
            }
            i += 1;
        }
        assert(self@.weather.take(i as int) == self@.weather);
        Ok(None)
    }

    /// The newest observations of a city, whatever the letter case of its
    /// name: at most `limit` of them, newest first.
    pub fn get_weather_history(&self, city: &str, limit: i64) -> (r: Result<
        Vec<WeatherData>,
        AppError,
    >)
        ensures
            limit < 0 ==> r is Err && r->Err_0@ == negative_limit(),
            limit >= 0 ==> r is Ok && observations_view(r->Ok_0@) == limited(
                self@.observations_in(city@),
                limit as int,
            ),
    {
        if limit < 0 {
            return Err(AppError::Database(String::from_str("LIMIT must not be negative")));
        }
        let most: u64 = limit as u64;
        let wanted = city.to_lowercase();
        let mut out: Vec<WeatherData> = Vec::new();
        let mut i: usize = 0;
        assert(observations_view(out@) =~= self@.weather.take(0).filter(observed_in(city@))) by {
            reveal(Seq::filter);
        }
        while i < self.tables.weather.len() && (out.len() as u64) < most
            invariant
                i <= self.tables.weather.len(),
                most == limit,
                out.len() <= most,
                wanted@ == lowercase_of(city@),
                observations_view(out@) == self@.weather.take(i as int).filter(
                    observed_in(city@),
                ),
            decreases self.tables.weather.len() - i,
        {
            let row = self.tables.weather[i].city.as_str().to_lowercase();
            proof {
                lemma_filter_next(self@.weather, observed_in(city@), i as int);
            }
            if row == wanted {
                let weather = self.tables.weather[i].clone();
                assert(weather@ == self@.weather[i as int]);
                let ghost before = out@;
                out.push(weather);
                assert(observations_view(out@) =~= observations_view(before).push(weather@));
            }
            i += 1;
        }
        proof {
            lemma_filter_of_prefix(self@.weather, observed_in(city@), i as int);
            if i == self.tables.weather.len() {
                assert(self@.weather.take(i as int) == self@.weather);
            }
            assert(observations_view(out@).len() == out@.len());
        }
        Ok(out)
    }

    /// Appends an alert for a user to the log at the instant `now`.
    pub fn log_alert_at(&mut self, user_id: u128, alert_type: &str, message: &str, now: i64) -> (r:
        Result<(), AppError>)
        ensures
            logged(old(self)@, user_id, alert_type@, message@, now, plain(r), final(self)@),
    {
        proof {
            use_type_invariant(&*self);
        }
        if self.tables.find_user(user_id).is_none() {
            return Err(AppError::Database(String::from_str("alert_logs.user_id: no such user")));
        }
        let alert = AlertLog {
            user_id,
            alert_type: String::from_str(alert_type),
            message: String::from_str(message),
            sent_at: now,
        };
        let mut tables = Tables::new();
        core::mem::swap(&mut tables, &mut self.tables);
        tables.add_alert(alert);
        core::mem::swap(&mut tables, &mut self.tables);
        Ok(())
    }

    /// Appends an alert for a user to the log at the current time.
    /// Everything else is as `log_alert_at` says.
    pub fn log_alert(&mut self, user_id: u128, alert_type: &str, message: &str) -> (r: Result<
        (),
        AppError,
    >)
        ensures
            exists|now: i64|
                logged(old(self)@, user_id, alert_type@, message@, now, plain(r), final(self)@),
    {
        let now = now_micros();
        self.log_alert_at(user_id, alert_type, message, now)
    }

    /// The newest alerts of a user: at most `limit` of them, newest first.
    pub fn get_user_alerts(&self, user_id: u128, limit: i64) -> (r: Result<Vec<AlertLog>, AppError>)
        ensures
            limit < 0 ==> r is Err && r->Err_0@ == negative_limit(),
            limit >= 0 ==> r is Ok && alerts_view(r->Ok_0@) == limited(
                self@.alerts_of(user_id),
                limit as int,
            ),
    {
        if limit < 0 {
            return Err(AppError::Database(String::from_str("LIMIT must not be negative")));
        }
        let most: u64 = limit as u64;
        let mut out: Vec<AlertLog> = Vec::new();
        let mut i: usize = 0;
        assert(alerts_view(out@) =~= self@.alerts.take(0).filter(sent_to(user_id))) by {
            reveal(Seq::filter);
        }
        while i < self.tables.alerts.len() && (out.len() as u64) < most
            invariant
                i <= self.tables.alerts.len(),
                most == limit,
                out.len() <= most,
                alerts_view(out@) == self@.alerts.take(i as int).filter(sent_to(user_id)),
            decreases self.tables.alerts.len() - i,
        {
            proof {
                lemma_filter_next(self@.alerts, sent_to(user_id), i as int);
            }
            if self.tables.alerts[i].user_id == user_id {
                let alert = self.tables.alerts[i].clone();
                assert(alert@ == self@.alerts[i as int]);
                let ghost before = out@;
                out.push(alert);
                assert(alerts_view(out@) =~= alerts_view(before).push(alert@));
            }
            i += 1;
        }
        proof {
            lemma_filter_of_prefix(self@.alerts, sent_to(user_id), i as int);
            if i == self.tables.alerts.len() {
                assert(self@.alerts.take(i as int) == self@.alerts);
            }
            assert(alerts_view(out@).len() == out@.len());
        }
        Ok(out)
    }

    /// The newest alerts of all users: at most `limit` of them, newest first.
    pub fn get_all_alerts(&self, limit: i64) -> (r: Result<Vec<AlertLog>, AppError>)
        ensures
            limit < 0 ==> r is Err && r->Err_0@ == negative_limit(),
            limit >= 0 ==> r is Ok && alerts_view(r->Ok_0@) == limited(
                self@.alerts,
                limit as int,
            ),
    {
        if limit < 0 {
            return Err(AppError::Database(String::from_str("LIMIT must not be negative")));
        }
        let most: u64 = limit as u64;
        let mut out: Vec<AlertLog> = Vec::new();
        let mut i: usize = 0;
        assert(alerts_view(out@) =~= self@.alerts.take(0));
        while i < self.tables.alerts.len() && (i as u64) < most
            invariant
                i <= self.tables.alerts.len(),
                most == limit,
                i <= most,
                alerts_view(out@) == self@.alerts.take(i as int),
            decreases self.tables.alerts.len() - i,
        {
            let alert = self.tables.alerts[i].clone();
            assert(alert@ == self@.alerts[i as int]);
            let ghost before = out@;
            out.push(alert);
            assert(alerts_view(out@) =~= alerts_view(before).push(alert@));
            assert(self@.alerts.take(i + 1) =~= self@.alerts.take(i as int).push(
                self@.alerts[i as int],
            ));
            i += 1;
        }
        proof {
            if i == self.tables.alerts.len() {
                assert(self@.alerts.take(i as int) == self@.alerts);
            }
        }
        Ok(out)
    }

    /// The distinct cities of the users, each with its country: in ascending
    /// order by name, no city twice. Two spellings of one city that differ
    /// in letter case are two cities here.
    pub fn get_all_user_cities(&self) -> (r: Result<Vec<CityInfo>, AppError>)
        ensures
            r is Ok,
            cities_of(self@.users, cities_view(r->Ok_0@)),
    {
        let mut out: Vec<CityInfo> = Vec::new();
        let mut i: usize = 0;
        assert(cities_view(out@) =~= Seq::empty());
        while i < self.tables.accounts.len()
            invariant
                i <= self.tables.accounts.len(),
                cities_of(self@.users.take(i as int), cities_view(out@)),
            decreases self.tables.accounts.len() - i,
        {
            let user = &self.tables.accounts[i].user;
            let ghost before = cities_view(out@);
            let ghost seen = self@.users.take(i as int);
            let ghost next = self@.users.take(i + 1);
            place_city(&mut out, user.city.as_str(), user.country.as_str());
            proof {
                let added = city_of(self@.users[i as int]);
                assert(added == (CityInfoView { city: user.city@, country: user.country@ }));
                assert forall|city: CityInfoView|
                    cities_view(out@).contains(city) <==> inhabited(next, city) by {
                    if inhabited(next, city) {
                        let n = choose|n: int|
                            0 <= n < next.len() && city_of(#[trigger] next[n]) == city;
                        if n < i {
                            assert(city_of(seen[n]) == city);
                            assert(inhabited(seen, city));
                        }
                    }
                    if inhabited(seen, city) {
                        let n = choose|n: int|
                            0 <= n < seen.len() && city_of(#[trigger] seen[n]) == city;
                        assert(city_of(next[n]) == city);
                    }
                    if city == added {
                        assert(city_of(next[i as int]) == city);
                    }
                }
            }
            i += 1;
        }
        assert(self@.users.take(i as int) == self@.users);
        Ok(out)
    }
}

/// How a city stands to the city of the given name and country.
fn order_of_city(entry: &CityInfo, city: &str, country: &str) -> (r: TextOrder)
    ensures
        r == TextOrder::Before <==> city_precedes(
            entry@,
            CityInfoView { city: city@, country: country@ },
        ),
        r == TextOrder::Same <==> entry@ == (CityInfoView { city: city@, country: country@ }),
        r == TextOrder::After <==> city_precedes(
            CityInfoView { city: city@, country: country@ },
            entry@,
        ),
{
    proof {
        lemma_precedes_is_strict(city@);
        lemma_precedes_is_strict(entry@.city);
    }
    match order_of(entry.city.as_str(), city) {
        TextOrder::Before => TextOrder::Before,
        TextOrder::After => TextOrder::After,
        TextOrder::Same => order_of(entry.country.as_str(), country),
    }
}

/// Puts a city into an ascending run at its place, unless the run has it.
fn place_city(out: &mut Vec<CityInfo>, city: &str, country: &str)
    requires
        ascending(cities_view(old(out)@)),
    ensures
        ascending(cities_view(final(out)@)),
        forall|x: CityInfoView|
            cities_view(final(out)@).contains(x) <==> cities_view(old(out)@).contains(x) || x == (
            CityInfoView { city: city@, country: country@ }),
{
    let ghost added = CityInfoView { city: city@, country: country@ };
    let ghost before = cities_view(out@);
    let mut k: usize = 0;
    let mut present = false;
    while k < out.len()
        invariant_except_break
            !present,
        invariant
            k <= out.len(),
            out@ == old(out)@,
            before == cities_view(out@),
            added == (CityInfoView { city: city@, country: country@ }),
            forall|i: int| 0 <= i < k ==> city_precedes(before[i], added),
        ensures
            present ==> k < out.len() && before[k as int] == added,
            !present && k < out.len() ==> city_precedes(added, before[k as int]),
        decreases out.len() - k,
    {
        match order_of_city(&out[k], city, country) {
            TextOrder::Before => {
                k += 1;
            },
            TextOrder::Same => {
                present = true;
                break ;
            },
            TextOrder::After => {
                break ;
            },
        }
    }
    if present {
        assert(before.contains(added));
    } else {
        proof {
            lemma_place_keeps_order(before, added, k as int);
        }
        let entry = CityInfo { city: String::from_str(city), country: String::from_str(country) };
        out.insert(k, entry);
        assert(cities_view(out@) =~= before.insert(k as int, added));
    }
    assert(before == cities_view(old(out)@));
    assert forall|x: CityInfoView|
        cities_view(out@).contains(x) <==> cities_view(old(out)@).contains(x) || x == (
        CityInfoView { city: city@, country: country@ }) by {
        assert(cities_view(out@).contains(x) <==> before.contains(x) || x == added);
    }
}

} // verus!
