//! The rules that turn an observation and a user's preferences into at most
//! one alert message.
//!
//! The rules are tried in a fixed order and the first that applies decides:
//! the upper temperature bound, the lower temperature bound, rain, snow,
//! storm. The three weather rules look for a word in the lowercased condition
//! category of the observation.
use crate::models::{text_of, UserPreferences, WeatherData, WeatherDataView};
use crate::text::{
    contains, lowercase_of, occurs_in, one_decimal, push_one_decimal, push_signed,
    signed_decimal,
};
use vstd::prelude::*;

verus! {

/// The rule that produced an alert. The temperature rules carry the bound
/// that was crossed, in whole degrees.
#[derive(Clone, Copy, Debug, PartialEq, Eq, Structural)]
pub enum AlertRule {
    HighTemperature { limit: i32 },
    LowTemperature { limit: i32 },
    Rain,
    Snow,
    Storm,
}

/// The lowercased condition category speaks of rain.
pub open spec fn mentions_rain(lowered: Seq<char>) -> bool {
    occurs_in("rain"@, lowered)
}

/// The lowercased condition category speaks of snow.
pub open spec fn mentions_snow(lowered: Seq<char>) -> bool {
    occurs_in("snow"@, lowered)
}

/// The lowercased condition category speaks of a storm.
pub open spec fn mentions_storm(lowered: Seq<char>) -> bool {
    occurs_in("storm"@, lowered) || occurs_in("thunder"@, lowered)
}

/// The first rule that applies to a temperature (in hundredths of a degree)
/// and a lowercased condition category under the given preferences.
pub open spec fn fired_rule(
    temperature: i64,
    lowered: Seq<char>,
    prefs: UserPreferences,
) -> Option<AlertRule> {
    if prefs.max_temp is Some && temperature > prefs.max_temp.unwrap() * 100 {
        Some(AlertRule::HighTemperature { limit: prefs.max_temp.unwrap() })
    } else if prefs.min_temp is Some && temperature < prefs.min_temp.unwrap() * 100 {
        Some(AlertRule::LowTemperature { limit: prefs.min_temp.unwrap() })
    } else if prefs.alert_on_rain && mentions_rain(lowered) {
        Some(AlertRule::Rain)
    } else if prefs.alert_on_snow && mentions_snow(lowered) {
        Some(AlertRule::Snow)
    } else if prefs.alert_on_storm && mentions_storm(lowered) {
        Some(AlertRule::Storm)
    } else {
        None
    }
}

/// The message of an alert that `rule` produced for an observation.
pub open spec fn rule_text(rule: AlertRule, weather: WeatherDataView) -> Seq<char> {
    match rule {
        AlertRule::HighTemperature { limit } => "🌡️ High temperature alert! Current: "@
            + one_decimal(weather.temperature as int) + "°C (Your limit: "@ + signed_decimal(
            limit as int,
        ) + "°C)"@,
        AlertRule::LowTemperature { limit } => "🥶 Low temperature alert! Current: "@
            + one_decimal(weather.temperature as int) + "°C (Your limit: "@ + signed_decimal(
            limit as int,
        ) + "°C)"@,
        AlertRule::Rain => "☔ Rain alert! Current conditions: "@ + weather.conditions,
        AlertRule::Snow => "❄️ Snow alert! Current conditions: "@ + weather.conditions,
        AlertRule::Storm => "⚡ Storm alert! Current conditions: "@ + weather.conditions,
    }
}

/// The alert message for an observation under the given preferences, where
/// `lowered` is the lowercased condition category; `None` where no rule
/// applies.
pub open spec fn alert_text(
    weather: WeatherDataView,
    lowered: Seq<char>,
    prefs: UserPreferences,
) -> Option<Seq<char>> {
    match fired_rule(weather.temperature, lowered, prefs) {
        Some(rule) => Some(rule_text(rule, weather)),
        None => None,
    }
}

/// Picks the first rule that applies.
pub fn select_rule(temperature: i64, lowered: &str, prefs: &UserPreferences) -> (rule: Option<
    AlertRule,
>)
    ensures
        rule == fired_rule(temperature, lowered@, *prefs),
{
    if let Some(limit) = prefs.max_temp {
        if temperature > (limit as i64) * 100 {
            return Some(AlertRule::HighTemperature { limit });
        }
    }
    if let Some(limit) = prefs.min_temp {
        if temperature < (limit as i64) * 100 {
            return Some(AlertRule::LowTemperature { limit });
        }
    }
    if prefs.alert_on_rain && contains(lowered, "rain") {
        return Some(AlertRule::Rain);
    }
    if prefs.alert_on_snow && contains(lowered, "snow") {
        return Some(AlertRule::Snow);
    }
    if prefs.alert_on_storm && (contains(lowered, "storm") || contains(lowered, "thunder")) {
        return Some(AlertRule::Storm);
    }
    None
}

/// Writes the message of an alert that `rule` produced for `weather`.
pub fn render_alert(rule: AlertRule, weather: &WeatherData) -> (message: String)
    ensures
        message@ == rule_text(rule, weather@),
{
    match rule {
        AlertRule::HighTemperature { limit } => {
            let mut message = String::from_str("🌡️ High temperature alert! Current: ");
            push_one_decimal(&mut message, weather.temperature);
            message.append("°C (Your limit: ");
            push_signed(&mut message, limit as i64);
            message.append("°C)");
            message
        },
        AlertRule::LowTemperature { limit } => {
            let mut message = String::from_str("🥶 Low temperature alert! Current: ");
            push_one_decimal(&mut message, weather.temperature);
            message.append("°C (Your limit: ");
            push_signed(&mut message, limit as i64);
            message.append("°C)");
            message
        },
        AlertRule::Rain => {
            let mut message = String::from_str("☔ Rain alert! Current conditions: ");
            message.append(weather.conditions.as_str());
            message
        },
        AlertRule::Snow => {
            let mut message = String::from_str("❄️ Snow alert! Current conditions: ");
            message.append(weather.conditions.as_str());
            message
        },
        AlertRule::Storm => {
            let mut message = String::from_str("⚡ Storm alert! Current conditions: ");
            message.append(weather.conditions.as_str());
            message
        },
    }
}

/// Evaluates the rules for `weather` under `prefs`, given the lowercased
/// condition category of the observation.
pub fn evaluate(weather: &WeatherData, prefs: &UserPreferences, lowered: &str) -> (message: Option<
    String,
>)
    ensures
        text_of(message) == alert_text(weather@, lowered@, *prefs),
{
    match select_rule(weather.temperature, lowered, prefs) {
        Some(rule) => Some(render_alert(rule, weather)),
        None => None,
    }
}

/// The alert to send for `weather` under `prefs`, if any: the message of the
/// first rule that applies to the observation's temperature and to its
/// condition category, lowercased.
pub fn check_alert_conditions(weather: &WeatherData, prefs: &UserPreferences) -> (message: Option<
    String,
>)
    ensures
        text_of(message) == alert_text(weather@, lowercase_of(weather@.conditions), *prefs),
{
    let lowered = weather.conditions.as_str().to_lowercase();
    evaluate(weather, prefs, lowered.as_str())
}

/// The evaluation is a function of what it reads: the temperature and the
/// condition category of the observation, and the two bounds and three
/// switches of the preferences. Two observations and two sets of preferences
/// that agree on these give the same alert, whatever else differs: the city,
/// the user, the instants.
pub proof fn lemma_same_reading_same_alert(
    first: WeatherDataView,
    second: WeatherDataView,
    lowered: Seq<char>,
    one: UserPreferences,
    other: UserPreferences,
)
    requires
        first.temperature == second.temperature,
        first.conditions == second.conditions,
        one.min_temp == other.min_temp,
        one.max_temp == other.max_temp,
        one.alert_on_rain == other.alert_on_rain,
        one.alert_on_snow == other.alert_on_snow,
        one.alert_on_storm == other.alert_on_storm,
    ensures
        alert_text(first, lowered, one) == alert_text(second, lowered, other),
        alert_text(first, lowercase_of(first.conditions), one) == alert_text(
            second,
            lowercase_of(second.conditions),
            other,
        ),
{
}

/// At most one alert comes of an evaluation, and it is the alert of the one
/// rule that fired.
pub proof fn lemma_one_alert_at_most(
    weather: WeatherDataView,
    lowered: Seq<char>,
    prefs: UserPreferences,
)
    ensures
        alert_text(weather, lowered, prefs) is Some <==> fired_rule(
            weather.temperature,
            lowered,
            prefs,
        ) is Some,
        alert_text(weather, lowered, prefs) matches Some(text) ==> text == rule_text(
            fired_rule(weather.temperature, lowered, prefs).unwrap(),
            weather,
        ),
{
}

/// The upper temperature bound comes first: where it is crossed, the alert is
/// the high-temperature alert whatever the other preferences and the
/// condition category are.
pub proof fn lemma_upper_bound_decides_first(
    weather: WeatherDataView,
    lowered: Seq<char>,
    prefs: UserPreferences,
)
    requires
        prefs.max_temp is Some,
        weather.temperature > prefs.max_temp.unwrap() * 100,
    ensures
        alert_text(weather, lowered, prefs) == Some(
            rule_text(AlertRule::HighTemperature { limit: prefs.max_temp.unwrap() }, weather),
        ),
{
}

/// The rules follow their fixed order: a rule fires only where every rule
/// before it does not apply.
pub proof fn lemma_rule_order(temperature: i64, lowered: Seq<char>, prefs: UserPreferences)
    ensures
        ({
            let over = prefs.max_temp is Some && temperature > prefs.max_temp.unwrap() * 100;
            let under = prefs.min_temp is Some && temperature < prefs.min_temp.unwrap() * 100;
            let rain = prefs.alert_on_rain && mentions_rain(lowered);
            let snow = prefs.alert_on_snow && mentions_snow(lowered);
            let storm = prefs.alert_on_storm && mentions_storm(lowered);
            let fired = fired_rule(temperature, lowered, prefs);
            &&& fired is Some <==> over || under || rain || snow || storm
            &&& (fired is Some && fired.unwrap() is HighTemperature) <==> over
            &&& (fired is Some && fired.unwrap() is LowTemperature) <==> !over && under
            &&& fired == Some(AlertRule::Rain) <==> !over && !under && rain
            &&& fired == Some(AlertRule::Snow) <==> !over && !under && !rain && snow
            &&& fired == Some(AlertRule::Storm) <==> !over && !under && !rain && !snow && storm
        }),
{
}

/// Preferences with no bound set and no category switched on never alert.
pub proof fn lemma_default_preferences_are_silent(
    weather: WeatherDataView,
    lowered: Seq<char>,
    prefs: UserPreferences,
)
    requires
        prefs.min_temp is None,
        prefs.max_temp is None,
        !prefs.alert_on_rain,
        !prefs.alert_on_snow,
        !prefs.alert_on_storm,
    ensures
        alert_text(weather, lowered, prefs) is None,
{
}

} // verus!
