//! A "phrase of the day" and the day's temperature range, as shown by a small
//! desktop view.
//!
//! The library decides what the view shows from what the two fetches brought
//! back, with fixed fallback texts for whatever could not be had, and builds
//! the lines that the view renders.

use vstd::prelude::*;

pub mod acquisition;
pub mod view_model;

pub use acquisition::{phrase_display, weather_display, DailyTemperature};
pub use view_model::TemplateApp;
