//! Forecast normalization: zipping the three independently-shaped upstream
//! payloads into one display-ready view model.
//!
//! The daily and hourly payloads are parallel arrays sharing only their
//! index; alignment is an upstream contract, so any length mismatch is a
//! fatal data-integrity error and no partial `Forecast` is built.

use vstd::prelude::*;
use crate::codes::{table_lookup, CodeTable};
use crate::date::{date_value, get_day_from_date, weekday_label_of};
use crate::units::{format_percentage, format_temperature, percent_display, temp_display, Temp};

verus! {

/// The daily payload's parallel arrays, already reduced to plain values:
/// temperatures in tenths of a degree, probabilities in whole percent.
pub struct DailyPayload {
    pub time: Vec<String>,
    pub weather_code: Vec<i32>,
    pub temperature_2m_max: Vec<Temp>,
    pub temperature_2m_min: Vec<Temp>,
    pub apparent_temperature_max: Vec<Temp>,
    pub apparent_temperature_min: Vec<Temp>,
    pub precipitation_probability_mean: Vec<i32>,
}

/// The hourly payload's parallel arrays.
pub struct HourlyPayload {
    pub time: Vec<String>,
    pub weather_code: Vec<i32>,
    pub temperature_2m: Vec<Temp>,
}

/// The single current-conditions snapshot, attached verbatim.
#[derive(Clone, Copy, PartialEq, Eq, Structural, Debug)]
pub struct CurrentConditions {
    pub temperature: Temp,
    pub apparent_temperature: Temp,
    pub weather_code: i32,
}

/// One forecast day, display-ready: every numeric field formatted.
pub struct DailyPeriod {
    pub date: String,
    pub weekday: String,
    pub weather: String,
    pub temperature_max: String,
    pub temperature_min: String,
    pub apparent_temperature_max: String,
    pub apparent_temperature_min: String,
    pub precipitation_probability: String,
}

/// One forecast hour, display-ready.  Order is chronological and is
/// significant for chart projection.
pub struct HourlySample {
    pub datetime: String,
    pub temperature: String,
    pub weather: String,
}

/// The unified view model: chronological days and hours plus the current
/// snapshot.
pub struct Forecast {
    pub periods: Vec<DailyPeriod>,
    pub hourly: Vec<HourlySample>,
    pub current: CurrentConditions,
}

/// Why normalization aborted.
#[derive(Clone, Copy, PartialEq, Eq, Structural, Debug)]
pub enum NormalizeError {
    /// The parallel arrays of one payload differ in length.
    LengthMismatch,
    /// A daily date does not split into three numeric fields.
    MalformedDate,
}

/// Every daily array is as long as the daily time axis.
pub open spec fn daily_lengths_match(d: DailyPayload) -> bool {
    &&& d.weather_code@.len() == d.time@.len()
    &&& d.temperature_2m_max@.len() == d.time@.len()
    &&& d.temperature_2m_min@.len() == d.time@.len()
    &&& d.apparent_temperature_max@.len() == d.time@.len()
    &&& d.apparent_temperature_min@.len() == d.time@.len()
    &&& d.precipitation_probability_mean@.len() == d.time@.len()
}

/// Every hourly array is as long as the hourly time axis.
pub open spec fn hourly_lengths_match(h: HourlyPayload) -> bool {
    &&& h.weather_code@.len() == h.time@.len()
    &&& h.temperature_2m@.len() == h.time@.len()
}

/// Every daily date splits into three numeric fields.
pub open spec fn daily_dates_conform(d: DailyPayload) -> bool {
    forall|i: int| 0 <= i < d.time@.len() ==> date_value(#[trigger] d.time@[i]@) is Some
}

/// The period at index `i` carries exactly the formatted daily fields.
pub open spec fn period_ok(
    p: DailyPeriod,
    d: DailyPayload,
    entries: Seq<(i32, String)>,
    i: int,
) -> bool {
    &&& p.date@ == d.time@[i]@
    &&& p.weekday@ == ({
        let v = date_value(d.time@[i]@)->0;
        weekday_label_of(v.0, v.1, v.2)
    })
    &&& p.weather@ == table_lookup(entries, d.weather_code@[i] as int)
    &&& p.temperature_max@ == temp_display(d.temperature_2m_max@[i].tenths as int)
    &&& p.temperature_min@ == temp_display(d.temperature_2m_min@[i].tenths as int)
    &&& p.apparent_temperature_max@ == temp_display(d.apparent_temperature_max@[i].tenths as int)
    &&& p.apparent_temperature_min@ == temp_display(d.apparent_temperature_min@[i].tenths as int)
    &&& p.precipitation_probability@ == percent_display(
        d.precipitation_probability_mean@[i] as int,
    )
}

/// The sample at index `i` carries exactly the formatted hourly fields.
pub open spec fn sample_ok(
    s: HourlySample,
    h: HourlyPayload,
    entries: Seq<(i32, String)>,
    i: int,
) -> bool {
    &&& s.datetime@ == h.time@[i]@
    &&& s.temperature@ == temp_display(h.temperature_2m@[i].tenths as int)
    &&& s.weather@ == table_lookup(entries, h.weather_code@[i] as int)
}

/// Assembles the `Forecast` view model from the three upstream payloads
/// and the weather-code table.  Produces exactly one period per daily
/// index and one sample per hourly index, in input order, or aborts on
/// the first structural fault.
pub fn normalize_forecast(
    daily: &DailyPayload,
    hourly: &HourlyPayload,
    current: CurrentConditions,
    codes: &CodeTable,
) -> (r: Result<Forecast, NormalizeError>)
    ensures
        r is Ok <==> (daily_lengths_match(*daily) && hourly_lengths_match(*hourly)
            && daily_dates_conform(*daily)),
        (!daily_lengths_match(*daily) || !hourly_lengths_match(*hourly)) ==> r == Err::<
            Forecast,
            NormalizeError,
        >(NormalizeError::LengthMismatch),
        (daily_lengths_match(*daily) && hourly_lengths_match(*hourly) && !daily_dates_conform(
            *daily,
        )) ==> r == Err::<Forecast, NormalizeError>(NormalizeError::MalformedDate),
        r matches Ok(f) ==> ({
            &&& f.periods@.len() == daily.time@.len()
            &&& forall|i: int|
                0 <= i < f.periods@.len() ==> period_ok(
                    #[trigger] f.periods@[i],
                    *daily,
                    codes.entries@,
                    i,
                )
            &&& f.hourly@.len() == hourly.time@.len()
            &&& forall|i: int|
                0 <= i < f.hourly@.len() ==> sample_ok(
                    #[trigger] f.hourly@[i],
                    *hourly,
                    codes.entries@,
                    i,
                )
            &&& f.current == current
        }),
{
    let n = daily.time.len();
    if daily.weather_code.len() != n || daily.temperature_2m_max.len() != n
        || daily.temperature_2m_min.len() != n || daily.apparent_temperature_max.len() != n
        || daily.apparent_temperature_min.len() != n
        || daily.precipitation_probability_mean.len() != n {
        return Err(NormalizeError::LengthMismatch);
    }
    let hn = hourly.time.len();
    if hourly.weather_code.len() != hn || hourly.temperature_2m.len() != hn {
        return Err(NormalizeError::LengthMismatch);
    }
    let mut periods: Vec<DailyPeriod> = Vec::new();
    let mut i: usize = 0;
    while i < n
        invariant
            0 <= i <= n,
            n == daily.time@.len(),
            daily_lengths_match(*daily),
            hourly_lengths_match(*hourly),
            periods@.len() == i,
            forall|j: int|
                0 <= j < i ==> period_ok(#[trigger] periods@[j], *daily, codes.entries@, j),
            forall|j: int| 0 <= j < i ==> date_value(#[trigger] daily.time@[j]@) is Some,
        decreases n - i,
    {
        let weekday = match get_day_from_date(&daily.time[i]) {
            Ok(w) => w,
            Err(_) => {
                assert(date_value(daily.time@[i as int]@) is None);
                return Err(NormalizeError::MalformedDate);
            },
        };
        let period = DailyPeriod {
            date: daily.time[i].clone(),
            weekday,
            weather: codes.resolve(daily.weather_code[i]),
            temperature_max: format_temperature(daily.temperature_2m_max[i]),
            temperature_min: format_temperature(daily.temperature_2m_min[i]),
            apparent_temperature_max: format_temperature(daily.apparent_temperature_max[i]),
            apparent_temperature_min: format_temperature(daily.apparent_temperature_min[i]),
            precipitation_probability: format_percentage(daily.precipitation_probability_mean[i]),
        };
        periods.push(period);
        i = i + 1;
    }
    let mut samples: Vec<HourlySample> = Vec::new();
    let mut k: usize = 0;
    while k < hn
        invariant
            0 <= k <= hn,
            hn == hourly.time@.len(),
            hourly_lengths_match(*hourly),
            samples@.len() == k,
            forall|j: int|
                0 <= j < k ==> sample_ok(#[trigger] samples@[j], *hourly, codes.entries@, j),
        decreases hn - k,
    {
        let sample = HourlySample {
            datetime: hourly.time[k].clone(),
            temperature: format_temperature(hourly.temperature_2m[k]),
            weather: codes.resolve(hourly.weather_code[k]),
        };
        samples.push(sample);
        k = k + 1;
    }
    Ok(Forecast { periods, hourly: samples, current })
}

} // verus!
