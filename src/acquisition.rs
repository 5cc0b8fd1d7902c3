//! From fetch outcomes to display texts.

use vstd::prelude::*;

verus! {

/// Shown for both bounds when no forecast could be had.
pub open spec fn weather_fallback() -> Seq<char> {
    "No weather data available"@
}

/// Shown when no phrase could be had.
pub open spec fn phrase_fallback() -> Seq<char> {
    "No phrase data available"@
}

/// One day's temperature summary: each bound as the decimal text of its reading.
pub struct DailyTemperature {
    pub min: String,
    pub max: String,
}

/// The (maximum, minimum) texts shown for a forecast: those of its first day,
/// or the fallback for both when there is no forecast or it holds no day.
pub open spec fn weather_texts(forecast: Option<Seq<DailyTemperature>>) -> (Seq<char>, Seq<char>) {
    match forecast {
        Some(days) => if days.len() > 0 {
            (days[0].max@, days[0].min@)
        } else {
            (weather_fallback(), weather_fallback())
        },
        None => (weather_fallback(), weather_fallback()),
    }
}

/// The phrase shown for a phrase body: the body itself, or the fallback when
/// none could be read.
pub open spec fn phrase_text(body: Option<Seq<char>>) -> Seq<char> {
    match body {
        Some(b) => b,
        None => phrase_fallback(),
    }
}

pub open spec fn forecast_view(forecast: Option<Vec<DailyTemperature>>) -> Option<Seq<DailyTemperature>> {
    match forecast {
        Some(days) => Some(days@),
        None => None,
    }
}

pub open spec fn body_view(body: Option<String>) -> Option<Seq<char>> {
    match body {
        Some(b) => Some(b@),
        None => None,
    }
}

fn weather_fallback_string() -> (r: String)
    ensures
        r@ == weather_fallback(),
{
    String::from_str("No weather data available")
}

/// The (maximum, minimum) temperature texts for the outcome of the weather
/// fetch. `None` stands for an unreachable endpoint, an unreadable body, or a
/// body that is not a forecast.
pub fn weather_display(forecast: Option<Vec<DailyTemperature>>) -> (r: (String, String))
    ensures
        (r.0@, r.1@) == weather_texts(forecast_view(forecast)),
        forecast is None ==> r.0@ == weather_fallback() && r.1@ == weather_fallback(),
{
    match forecast {
        Some(mut days) => {
            if days.len() > 0 {
                let first = days.remove(0);
                (first.max, first.min)
            } else {
                (weather_fallback_string(), weather_fallback_string())
            }
        },
        None => (weather_fallback_string(), weather_fallback_string()),
    }
}

/// The phrase text for the outcome of the phrase fetch: the body verbatim, or
/// the fallback when the endpoint could not be reached or the body read.
pub fn phrase_display(body: Option<String>) -> (r: String)
    ensures
        r@ == phrase_text(body_view(body)),
        body is None ==> r@ == phrase_fallback(),
{
    match body {
        Some(b) => b,
        None => String::from_str("No phrase data available"),
    }
}

} // verus!
