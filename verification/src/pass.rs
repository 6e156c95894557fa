//! The store's part of a pass.
//!
//! Of the actions that a pass asks for, five are questions to the store or
//! changes of it. `answer_from_store` performs those on a store of the
//! library and hands back the event for the pass; the other actions, the
//! fetch, the email and the pause, are left to whoever drives the pass.
use crate::db::Database;
use crate::store::{
    alert_times, cities_of, lemma_slot_keeps_order, logged, weather_times, with_observation,
    DatabaseView,
};
use crate::error::{plain, ErrorKind};
use crate::pipeline::{Action, ActionView, Event, EventView};
use vstd::prelude::*;

verus! {

/// The action is one for the store.
pub open spec fn for_store(action: ActionView) -> bool {
    action is ListCities || action is StoreWeather || action is ListUsers
        || action is GetPreferences || action is LogAlert
}

/// The event lists the cities of the users of the store: in ascending
/// order, each city once, and no other city.
pub open spec fn cities_listed(before: DatabaseView, event: EventView) -> bool {
    event is Cities && cities_of(before.users, event->Cities_0)
}

/// The event tells what came of logging an alert at some instant: the store
/// holds the entry, or it turned the entry down because the user is unknown.
pub open spec fn alert_logged(
    before: DatabaseView,
    user_id: u128,
    alert_type: Seq<char>,
    message: Seq<char>,
    event: EventView,
    after: DatabaseView,
) -> bool {
    exists|now: i64|
        logged(before, user_id, alert_type, message, now, log_outcome(event), after)
}

/// The store answered an action as it owes: with the cities of its users,
/// with the observation stored, with the users of the city, with the
/// preferences of the user, or with what came of logging the alert.
pub open spec fn answered(
    before: DatabaseView,
    action: ActionView,
    event: EventView,
    after: DatabaseView,
) -> bool {
    match action {
        ActionView::ListCities => after == before && cities_listed(before, event),
        ActionView::StoreWeather(weather) => {
            &&& after == with_observation(before, weather)
            &&& event == EventView::Stored
        },
        ActionView::ListUsers { city } => {
            &&& after == before
            &&& event == EventView::Users(before.users_in(city))
        },
        ActionView::GetPreferences { user_id } => {
            &&& after == before
            &&& event == EventView::Preferences(before.preferences_of(user_id))
        },
        ActionView::LogAlert { user_id, alert_type, message } => alert_logged(
            before,
            user_id,
            alert_type,
            message,
            event,
            after,
        ),
        _ => false,
    }
}

/// What an event says of an attempt to log an alert.
pub open spec fn log_outcome(event: EventView) -> Result<(), (ErrorKind, Seq<char>)> {
    match event {
        EventView::Failed(e) => Err(e),
        _ => Ok(()),
    }
}

/// A pass reads users and preferences and never writes them: whatever the
/// store answers, its users and their preferences stand as before. Only
/// observations and alerts are added.
pub proof fn lemma_pass_leaves_users_alone(
    before: DatabaseView,
    action: ActionView,
    event: EventView,
    after: DatabaseView,
)
    requires
        before.wf(),
        for_store(action),
        answered(before, action, event, after),
    ensures
        after.users == before.users,
        after.preferences == before.preferences,
        before.weather.len() <= after.weather.len() <= before.weather.len() + 1,
        before.alerts.len() <= after.alerts.len() <= before.alerts.len() + 1,
        !(action is StoreWeather) ==> after.weather == before.weather,
        !(action is LogAlert) ==> after.alerts == before.alerts,
{
    match action {
        ActionView::StoreWeather(weather) => {
            lemma_slot_keeps_order(weather_times(before.weather), weather.fetched_at);
        },
        ActionView::LogAlert { user_id, alert_type, message } => {
            let now = choose|now: i64|
                logged(before, user_id, alert_type, message, now, log_outcome(event), after);
            lemma_slot_keeps_order(alert_times(before.alerts), now);
        },
        _ => {},
    }
}

/// Performs an action on the store where it is one for the store, and hands
/// back the event that tells the pass what came of it. For every other
/// action the store is left as it is and `None` comes back.
pub fn answer_from_store(db: &mut Database, action: &Action) -> (event: Option<Event>)
    ensures
        match event {
            Some(e) => for_store(action@) && answered(old(db)@, action@, e@, final(db)@),
            None => !for_store(action@) && final(db)@ == old(db)@,
        },
{
    match action {
        Action::ListCities => match db.get_all_user_cities() {
            Ok(cities) => {
                let event = Event::Cities(cities);
                assert(cities_listed(old(db)@, event@));
                Some(event)
            },
            Err(e) => Some(Event::Failed(e)),
        },
        Action::StoreWeather(weather) => match db.store_weather_data(weather) {
            Ok(_) => {
                assert(answered(old(db)@, action@, EventView::Stored, db@));
                Some(Event::Stored)
            },
            Err(e) => Some(Event::Failed(e)),
        },
        Action::ListUsers { city } => match db.get_users_by_city(city.as_str()) {
            Ok(users) => {
                let event = Event::Users(users);
                assert(answered(old(db)@, action@, event@, db@));
                Some(event)
            },
            Err(e) => Some(Event::Failed(e)),
        },
        Action::GetPreferences { user_id } => match db.get_user_preferences(*user_id) {
            Ok(preferences) => {
                let event = Event::Preferences(preferences);
                assert(answered(old(db)@, action@, event@, db@));
                Some(event)
            },
            Err(e) => Some(Event::Failed(e)),
        },
        Action::LogAlert { user_id, alert_type, message } => {
            let r = db.log_alert(*user_id, alert_type.as_str(), message.as_str());
            let ghost now = choose|now: i64|
                logged(old(db)@, *user_id, alert_type@, message@, now, plain(r), db@);
            let event = match r {
                Ok(_) => Event::Logged,
                Err(e) => Event::Failed(e),
            };
            assert(log_outcome(event@) == plain(r));
            assert(logged(
                old(db)@,
                *user_id,
                alert_type@,
                message@,
                now,
                log_outcome(event@),
                db@,
            ));
            assert(alert_logged(old(db)@, *user_id, alert_type@, message@, event@, db@));
            Some(event)
        },
        _ => None,
    }
}

} // verus!
