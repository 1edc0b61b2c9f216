//! Per-frame view composition: the quick-stats rows, the four day cards,
//! and the full frame model the paint backend consumes.
//!
//! Everything here derives from the `Forecast` snapshot and the viewport
//! alone; nothing is mutated in place, a frame is recomputed whole.

use vstd::prelude::*;
use crate::chart::{project, series_ok, window_wf, ChartError, ChartSeries, ChartWindow};
use crate::layout::{layout_matches, partition, region_wf, DashboardLayout, ScreenRegion};
use crate::normalize::{DailyPeriod, Forecast};
use crate::units::{format_temperature, temp_display};

verus! {

/// One day card of the forecast band: a title line and label/value rows.
pub struct DayCard {
    pub title: String,
    pub rows: Vec<(String, String)>,
}

/// Everything one frame paints: the pane rectangles, the quick-stats
/// rows, the four day cards, and both chart geometries.
pub struct FrameModel {
    pub layout: DashboardLayout,
    pub right_now: Vec<(String, String)>,
    pub cards: Vec<DayCard>,
    pub daily_chart: ChartSeries,
    pub fortnight_chart: ChartSeries,
}

/// The quick-stats rows: current and feels-like temperature, today's
/// bounds, summary, and rain chance, in this order.
pub open spec fn right_now_ok(rows: Seq<(String, String)>, f: Forecast) -> bool {
    &&& rows.len() == 6
    &&& rows[0].0@ == "Current Temp:"@ && rows[0].1@ == temp_display(
        f.current.temperature.tenths as int,
    )
    &&& rows[1].0@ == "Feels Like:"@ && rows[1].1@ == temp_display(
        f.current.apparent_temperature.tenths as int,
    )
    &&& rows[2].0@ == "High:"@ && rows[2].1@ == f.periods@[0].temperature_max@
    &&& rows[3].0@ == "Low:"@ && rows[3].1@ == f.periods@[0].temperature_min@
    &&& rows[4].0@ == "Weather Summary:"@ && rows[4].1@ == f.periods@[0].weather@
    &&& rows[5].0@ == "Chance of Rain:"@ && rows[5].1@ == f.periods@[0].precipitation_probability@
}

/// Builds the quick-stats rows from the forecast's first day and current
/// conditions.
pub fn right_now_rows(f: &Forecast) -> (r: Vec<(String, String)>)
    requires
        f.periods@.len() >= 1,
    ensures
        right_now_ok(r@, *f),
{
    let mut rows: Vec<(String, String)> = Vec::new();
    rows.push(
        (String::from_str("Current Temp:"), format_temperature(f.current.temperature)),
    );
    rows.push(
        (String::from_str("Feels Like:"), format_temperature(f.current.apparent_temperature)),
    );
    rows.push((String::from_str("High:"), f.periods[0].temperature_max.clone()));
    rows.push((String::from_str("Low:"), f.periods[0].temperature_min.clone()));
    rows.push((String::from_str("Weather Summary:"), f.periods[0].weather.clone()));
    rows.push(
        (String::from_str("Chance of Rain:"), f.periods[0].precipitation_probability.clone()),
    );
    rows
}

/// A day card's title line: the weekday in parentheses, then the date.
pub open spec fn card_title(p: DailyPeriod) -> Seq<char> {
    " ("@ + p.weekday@ + ") "@ + p.date@ + " "@
}

/// The card of one forecast day: its title and its six rows.
pub open spec fn card_ok(c: DayCard, p: DailyPeriod) -> bool {
    &&& c.title@ == card_title(p)
    &&& c.rows@.len() == 6
    &&& c.rows@[0].0@ == "High:"@ && c.rows@[0].1@ == p.temperature_max@
    &&& c.rows@[1].0@ == "Apparent High:"@ && c.rows@[1].1@ == p.apparent_temperature_max@
    &&& c.rows@[2].0@ == "Low:"@ && c.rows@[2].1@ == p.temperature_min@
    &&& c.rows@[3].0@ == "Apparent Low:"@ && c.rows@[3].1@ == p.apparent_temperature_min@
    &&& c.rows@[4].0@ == "Weather:"@ && c.rows@[4].1@ == p.weather@
    &&& c.rows@[5].0@ == "Chance of Rain:"@ && c.rows@[5].1@ == p.precipitation_probability@
}

/// Builds the card of one forecast day.
pub fn weather_card(p: &DailyPeriod) -> (c: DayCard)
    ensures
        card_ok(c, *p),
{
    let mut title = String::from_str(" (");
    title.append(p.weekday.as_str());
    title.append(") ");
    title.append(p.date.as_str());
    title.append(" ");
    assert(title@ =~= card_title(*p));
    let mut rows: Vec<(String, String)> = Vec::new();
    rows.push((String::from_str("High:"), p.temperature_max.clone()));
    rows.push((String::from_str("Apparent High:"), p.apparent_temperature_max.clone()));
    rows.push((String::from_str("Low:"), p.temperature_min.clone()));
    rows.push((String::from_str("Apparent Low:"), p.apparent_temperature_min.clone()));
    rows.push((String::from_str("Weather:"), p.weather.clone()));
    rows.push((String::from_str("Chance of Rain:"), p.precipitation_probability.clone()));
    DayCard { title, rows }
}

/// Composes the full frame: partitions the viewport, builds the stats
/// rows and the four day cards (days one through four), and projects
/// both charts.  Fails only when a chart sample does not read back.
pub fn render_frame(f: &Forecast, viewport: ScreenRegion) -> (r: Result<FrameModel, ChartError>)
    requires
        region_wf(viewport),
        f.periods@.len() >= 14,
        f.hourly@.len() >= 336,
    ensures
        r is Ok <==> (window_wf(f.hourly@, ChartWindow::Daily) && window_wf(
            f.hourly@,
            ChartWindow::Fortnight,
        )),
        r matches Ok(m) ==> ({
            &&& layout_matches(m.layout, viewport)
            &&& right_now_ok(m.right_now@, *f)
            &&& m.cards@.len() == 4
            &&& forall|i: int| 0 <= i < 4 ==> card_ok(#[trigger] m.cards@[i], f.periods@[i + 1])
            &&& series_ok(m.daily_chart, *f, ChartWindow::Daily)
            &&& series_ok(m.fortnight_chart, *f, ChartWindow::Fortnight)
        }),
        r is Err ==> r == Err::<FrameModel, ChartError>(ChartError::MalformedSample),
{
    let daily_chart = match project(f, ChartWindow::Daily) {
        Ok(s) => s,
        Err(e) => {
            return Err(e);
        },
    };
    let fortnight_chart = match project(f, ChartWindow::Fortnight) {
        Ok(s) => s,
        Err(e) => {
            return Err(e);
        },
    };
    let layout = partition(viewport);
    let right_now = right_now_rows(f);
    let mut cards: Vec<DayCard> = Vec::new();
    cards.push(weather_card(&f.periods[1]));
    cards.push(weather_card(&f.periods[2]));
    cards.push(weather_card(&f.periods[3]));
    cards.push(weather_card(&f.periods[4]));
    Ok(FrameModel { layout, right_now, cards, daily_chart, fortnight_chart })
}

} // verus!
