//! The view model: the three texts that each frame renders.

use vstd::prelude::*;

use crate::acquisition::{
    body_view, forecast_view, phrase_display, phrase_fallback, phrase_text, weather_display,
    weather_fallback, weather_texts,
    DailyTemperature,
};

verus! {

/// What the view shows. Built once, then only read.
pub struct TemplateApp {
    pub max_temperature: String,
    pub min_temperature: String,
    pub phrase: String,
}

/// A persisted text, or the empty text when it was not persisted.
pub open spec fn stored_or_empty(field: Option<String>) -> Seq<char> {
    match field {
        Some(s) => s@,
        None => Seq::empty(),
    }
}

fn stored_or_empty_string(field: Option<String>) -> (r: String)
    ensures
        r@ == stored_or_empty(field),
{
    match field {
        Some(s) => s,
        None => String::new(),
    }
}

impl TemplateApp {
    /// The view model for what the two fetches brought back.
    pub fn from_fetched(
        forecast: Option<Vec<DailyTemperature>>,
        phrase_body: Option<String>,
    ) -> (r: TemplateApp)
        ensures
            (r.max_temperature@, r.min_temperature@) == weather_texts(forecast_view(forecast)),
            r.phrase@ == phrase_text(body_view(phrase_body)),
            forecast is None ==> r.max_temperature@ == weather_fallback()
                && r.min_temperature@ == weather_fallback(),
            phrase_body is None ==> r.phrase@ == phrase_fallback(),
    {
        let (max_temperature, min_temperature) = weather_display(forecast);
        let phrase = phrase_display(phrase_body);
        TemplateApp { max_temperature, min_temperature, phrase }
    }

    /// The view model read back from persisted state; a field that was not
    /// persisted comes back empty.
    pub fn restore(
        max_temperature: Option<String>,
        min_temperature: Option<String>,
        phrase: Option<String>,
    ) -> (r: TemplateApp)
        ensures
            r.max_temperature@ == stored_or_empty(max_temperature),
            r.min_temperature@ == stored_or_empty(min_temperature),
            r.phrase@ == stored_or_empty(phrase),
    {
        TemplateApp {
            max_temperature: stored_or_empty_string(max_temperature),
            min_temperature: stored_or_empty_string(min_temperature),
            phrase: stored_or_empty_string(phrase),
        }
    }

    /// The window's title.
    pub fn name(&self) -> (r: &'static str)
        ensures
            r@ == "Daily Feeling"@,
    {
        "Daily Feeling"
    }

    pub fn max_temperature(&self) -> (r: &str)
        ensures
            r@ == self.max_temperature@,
    {
        self.max_temperature.as_str()
    }

    pub fn min_temperature(&self) -> (r: &str)
        ensures
            r@ == self.min_temperature@,
    {
        self.min_temperature.as_str()
    }

    pub fn phrase(&self) -> (r: &str)
        ensures
            r@ == self.phrase@,
    {
        self.phrase.as_str()
    }

    /// The line that shows the maximum temperature.
    pub fn max_label(&self) -> (r: String)
        ensures
            r@ == "Maximum temperature: "@ + self.max_temperature@,
    {
        String::from_str("Maximum temperature: ").concat(self.max_temperature.as_str())
    }

    /// The line that shows the minimum temperature.
    pub fn min_label(&self) -> (r: String)
        ensures
            r@ == "Minimum temperature: "@ + self.min_temperature@,
    {
        String::from_str("Minimum temperature: ").concat(self.min_temperature.as_str())
    }
}

} // verus!
