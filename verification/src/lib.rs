//! Core logic of a terminal weather dashboard: normalising unit-inconsistent
//! forecast payloads into one view model, and computing deterministic screen
//! layout and chart geometry from it.
//!
//! The modules are leaf-first: `text` holds decimal string specifications,
//! `units` the display formatting of temperatures and percentages, `codes`
//! the weather-code table, `date` the calendar and weekday logic, `moon`
//! the moon-phase selection, `normalize` the forecast assembly, `layout`
//! the viewport partitioning, `chart` the scatter projection, `url` the
//! upstream request addresses, `render` the per-frame view composition,
//! and `input` the keypress-to-quit decision.

pub mod chart;
pub mod codes;
pub mod date;
pub mod input;
pub mod layout;
pub mod moon;
pub mod normalize;
pub mod render;
pub mod text;
pub mod units;
pub mod url;
