//! Chart projection: turning the hourly temperature series into bounded
//! scatter coordinates with auto-scaled axis bounds and tick labels.
//!
//! Two windows exist: the daily window takes the first 24 samples with the
//! parsed hour of day as x, the fortnight window takes the first 336
//! samples with the sample position as x.  The y value is the temperature
//! read back from its display string, in tenths of a degree; axis bounds
//! are whole degrees, padded five degrees past the extremes.

use vstd::prelude::*;
use vstd::arithmetic::div_mod::{
    lemma_fundamental_div_mod, lemma_fundamental_div_mod_converse, lemma_mod_bound,
};
use crate::date::{date_fields, find_first_char, first_index};
use crate::normalize::{Forecast, HourlySample};
use crate::text::{all_digits, digits_val, format_i64, int_rep, parse_u32_digits, push_char};
use crate::units::{parse_temperature, parsed_temp};

verus! {

/// Which slice of the hourly series a chart shows.
#[derive(Clone, Copy, PartialEq, Eq, Structural, Debug)]
pub enum ChartWindow {
    /// The first day: 24 samples on a 0-23 hour axis.
    Daily,
    /// Fourteen days: 336 samples on a position axis.
    Fortnight,
}

/// How many samples the window takes.
pub open spec fn window_len(w: ChartWindow) -> int {
    match w {
        ChartWindow::Daily => 24,
        ChartWindow::Fortnight => 336,
    }
}

/// The temperature of a sample, read back from its display string.
pub open spec fn sample_temp(s: HourlySample) -> Option<int> {
    parsed_temp(s.temperature@)
}

/// The hour field of a `YYYY-MM-DDTHH:MM` timestamp: the characters
/// between the first `T` and the `:` after it (or the end), as digits.
pub open spec fn hour_of(s: Seq<char>) -> Option<int> {
    match first_index(s, 'T') {
        None => None,
        Some(i) => {
            let after = s.subrange(i + 1, s.len() as int);
            let hh = match first_index(after, ':') {
                Some(k) => after.take(k),
                None => after,
            };
            if hh.len() >= 1 && all_digits(hh) && digits_val(hh) <= u32::MAX {
                Some(digits_val(hh))
            } else {
                None
            }
        },
    }
}

/// The smallest sample temperature among the first `n` samples.
pub open spec fn temps_min(samples: Seq<HourlySample>, n: int) -> int
    decreases n,
{
    if n <= 1 {
        sample_temp(samples[0])->0
    } else {
        let prev = temps_min(samples, n - 1);
        let cur = sample_temp(samples[n - 1])->0;
        if cur < prev {
            cur
        } else {
            prev
        }
    }
}

/// The largest sample temperature among the first `n` samples.
pub open spec fn temps_max(samples: Seq<HourlySample>, n: int) -> int
    decreases n,
{
    if n <= 1 {
        sample_temp(samples[0])->0
    } else {
        let prev = temps_max(samples, n - 1);
        let cur = sample_temp(samples[n - 1])->0;
        if cur > prev {
            cur
        } else {
            prev
        }
    }
}

/// The lower y bound in whole degrees: the smallest temperature (tenths)
/// less five degrees, floored.
pub open spec fn y_floor(lo: int) -> int {
    (lo - 50) / 10
}

/// The upper y bound in whole degrees: the largest temperature (tenths)
/// plus five degrees, ceiled.
pub open spec fn y_ceil(hi: int) -> int {
    (hi + 50 + 9) / 10
}

/// A quarter value `q/4` rounded to the nearest whole number, ties to
/// even, as the label formatting of the axis renders it.
pub open spec fn round_q4(q: int) -> int {
    let d = q / 4;
    let r = q % 4;
    if r == 0 || r == 1 {
        d
    } else if r == 3 {
        d + 1
    } else if d % 2 == 0 {
        d
    } else {
        d + 1
    }
}

/// The value of the y-axis tick label at position `i` of five: the bounds
/// interval divided evenly into four parts.
pub open spec fn label_val(ymin: int, ymax: int, i: int) -> int {
    round_q4(4 * ymin + i * (ymax - ymin))
}

/// A day's x-axis label: `MM-DD` when the date splits into three fields,
/// the date unchanged otherwise.
pub open spec fn mmdd_label(s: Seq<char>) -> Seq<char> {
    match date_fields(s) {
        Some(f) => f.1 + seq!['-'] + f.2,
        None => s,
    }
}

/// Every sample the window takes is well formed: its temperature reads
/// back, and for the daily window its hour does too.
pub open spec fn window_wf(samples: Seq<HourlySample>, w: ChartWindow) -> bool {
    forall|i: int|
        0 <= i < window_len(w) ==> {
            let s = #[trigger] samples[i];
            sample_temp(s) is Some && (w is Daily ==> hour_of(s.datetime@) is Some)
        }
}

/// The derived, per-frame chart geometry: scatter points (x position or
/// hour, temperature in tenths), whole-degree axis bounds, and tick
/// labels.
pub struct ChartSeries {
    pub points: Vec<(u32, i32)>,
    pub y_min: i64,
    pub y_max: i64,
    pub y_labels: Vec<String>,
    pub x_labels: Vec<String>,
}

/// A sample the window needs failed to read back as a number.
#[derive(Clone, Copy, PartialEq, Eq, Structural, Debug)]
pub enum ChartError {
    MalformedSample,
}

/// What a projected series holds, as a function of the forecast alone.
pub open spec fn series_ok(s: ChartSeries, f: Forecast, w: ChartWindow) -> bool {
    let n = window_len(w);
    let lo = temps_min(f.hourly@, n);
    let hi = temps_max(f.hourly@, n);
    &&& s.points@.len() == n
    &&& forall|i: int|
        0 <= i < n ==> (#[trigger] s.points@[i]).1 as int == sample_temp(f.hourly@[i])->0
    &&& (w is Daily ==> forall|i: int|
        0 <= i < n ==> (#[trigger] s.points@[i]).0 as int == hour_of(f.hourly@[i].datetime@)->0)
    &&& (w is Fortnight ==> forall|i: int|
        0 <= i < n ==> (#[trigger] s.points@[i]).0 as int == i)
    &&& s.y_min == y_floor(lo)
    &&& s.y_max == y_ceil(hi)
    &&& s.y_labels@.len() == 5
    &&& forall|i: int|
        0 <= i < 5 ==> (#[trigger] s.y_labels@[i])@ == int_rep(label_val(y_floor(lo), y_ceil(hi), i))
    &&& (w is Daily ==> s.x_labels@.len() == 5 && s.x_labels@[0]@ == "00:00"@
        && s.x_labels@[1]@ == "06:00"@ && s.x_labels@[2]@ == "12:00"@ && s.x_labels@[3]@
        == "18:00"@ && s.x_labels@[4]@ == "23:00"@)
    &&& (w is Fortnight ==> s.x_labels@.len() == 14 && forall|i: int|
        0 <= i < 14 ==> (#[trigger] s.x_labels@[i])@ == mmdd_label(f.periods@[i].date@))
}

/// Law: the axis bounds pad the extremes by five degrees: the lower bound
/// is within one degree below `min - 5`, the upper at least `max + 5`
/// and within one degree of it (temperatures in tenths, bounds whole).
pub proof fn lemma_y_bounds(lo: int, hi: int)
    ensures
        10 * y_floor(lo) <= lo - 50 < 10 * (y_floor(lo) + 1),
        10 * y_ceil(hi) >= hi + 50,
        10 * (y_ceil(hi) - 1) < hi + 50,
{
    lemma_fundamental_div_mod(lo - 50, 10);
    lemma_fundamental_div_mod(hi + 50 + 9, 10);
}

/// Floor division of a small signed value by a small positive divisor.
fn floor_div_small(v: i64, d: u64) -> (r: i64)
    requires
        1 <= d <= 1000,
        -0x1000_0000_0000 <= v <= 0x1000_0000_0000,
    ensures
        r as int == (v as int) / (d as int),
{
    if v >= 0 {
        let q = (v as u64) / d;
        q as i64
    } else {
        // -(v + 1) stays in range even for the smallest value.
        let m = ((-(v + 1)) as u64) + 1;
        assert(m as int == -(v as int));
        let a = (m + d - 1) / d;
        proof {
            let x = (m + d - 1) as int;
            let dd = d as int;
            assert(a as int == x / dd);
            lemma_fundamental_div_mod(x, dd);
            lemma_mod_bound(x, dd);
            let rem = x % dd;
            assert(dd * (a as int) == x - rem);
            let rr = (a as int) * dd - (m as int);
            assert(rr == dd - 1 - rem);
            assert(0 <= rr < dd);
            assert((-(a as int)) * dd == -((a as int) * dd)) by (nonlinear_arith);
            assert(v as int == (-(a as int)) * dd + rr);
            lemma_fundamental_div_mod_converse(v as int, dd, -(a as int), rr);
        }
        -(a as i64)
    }
}

/// Rounds a quarter value to the nearest whole number, ties to even.
fn round_quarter(q: i64) -> (r: i64)
    requires
        -0x100_0000_0000 <= q <= 0x100_0000_0000,
    ensures
        r as int == round_q4(q as int),
{
    let d = floor_div_small(q, 4);
    proof {
        lemma_fundamental_div_mod(q as int, 4);
    }
    let rem = q - 4 * d;
    assert(rem as int == (q as int) % 4);
    if rem == 0 || rem == 1 {
        d
    } else if rem == 3 {
        d + 1
    } else {
        let half = floor_div_small(d, 2);
        proof {
            lemma_fundamental_div_mod(d as int, 2);
        }
        let parity = d - 2 * half;
        if parity == 0 {
            d
        } else {
            d + 1
        }
    }
}

/// The hour of a timestamp: the digits between the first `T` and the
/// following `:`.
pub fn parse_hour(s: &str) -> (r: Option<u32>)
    ensures
        r matches Some(h) ==> hour_of(s@) == Some(h as int),
        r is None <==> hour_of(s@) is None,
{
    let len = s.unicode_len();
    let p = match find_first_char(s, 'T') {
        Some(p) => p,
        None => {
            return None;
        },
    };
    let after = s.substring_char(p + 1, len);
    proof {
        assert(after@ =~= s@.subrange(p as int + 1, s@.len() as int));
    }
    let hh = match find_first_char(after, ':') {
        Some(k) => {
            let piece = after.substring_char(0, k);
            proof {
                assert(piece@ =~= after@.take(
                    first_index(s@.subrange(p as int + 1, s@.len() as int), ':')->0,
                ));
            }
            piece
        },
        None => after,
    };
    parse_u32_digits(hh)
}

/// A day's x-axis label: the `MM-DD` part of its date, or the date
/// unchanged when it does not split into three fields.
pub fn mmdd_label_of(date: &String) -> (r: String)
    ensures
        r@ == mmdd_label(date@),
{
    let s = date.as_str();
    let len = s.unicode_len();
    let p0 = match find_first_char(s, '-') {
        Some(p) => p,
        None => {
            return date.clone();
        },
    };
    let rest = s.substring_char(p0 + 1, len);
    proof {
        assert(rest@ =~= s@.subrange(p0 as int + 1, s@.len() as int));
    }
    let rest_len = len - p0 - 1;
    let p1 = match find_first_char(rest, '-') {
        Some(p) => p,
        None => {
            return date.clone();
        },
    };
    let tail = rest.substring_char(p1 + 1, rest_len);
    proof {
        assert(tail@ =~= rest@.subrange(p1 as int + 1, rest@.len() as int));
    }
    match find_first_char(tail, '-') {
        Some(_) => {
            return date.clone();
        },
        None => {},
    }
    let ms = rest.substring_char(0, p1);
    proof {
        assert(ms@ =~= rest@.take(p1 as int));
    }
    let mut out = String::from_str(ms);
    push_char(&mut out, '-');
    out.append(tail);
    assert(out@ =~= mmdd_label(date@));
    out
}

/// Projects the forecast's hourly series into the window's scatter
/// geometry.  The caller guarantees the window is fully populated; a
/// sample that does not read back as a number is an unrecoverable error.
pub fn project(f: &Forecast, window: ChartWindow) -> (r: Result<ChartSeries, ChartError>)
    requires
        f.hourly@.len() >= window_len(window),
        window is Fortnight ==> f.periods@.len() >= 14,
    ensures
        r is Ok <==> window_wf(f.hourly@, window),
        r matches Ok(s) ==> series_ok(s, *f, window),
        r is Err ==> r == Err::<ChartSeries, ChartError>(ChartError::MalformedSample),
{
    let n: usize = match window {
        ChartWindow::Daily => 24,
        ChartWindow::Fortnight => 336,
    };
    let mut points: Vec<(u32, i32)> = Vec::new();
    let mut lo: i32 = 0;
    let mut hi: i32 = 0;
    let mut i: usize = 0;
    while i < n
        invariant
            0 <= i <= n,
            n == window_len(window),
            n <= f.hourly@.len(),
            points@.len() == i,
            forall|j: int|
                0 <= j < i ==> sample_temp(#[trigger] f.hourly@[j]) is Some,
            forall|j: int|
                0 <= j < i ==> (#[trigger] points@[j]).1 as int == sample_temp(f.hourly@[j])->0,
            window is Daily ==> forall|j: int|
                0 <= j < i ==> hour_of((#[trigger] f.hourly@[j]).datetime@) is Some,
            window is Daily ==> forall|j: int|
                0 <= j < i ==> (#[trigger] points@[j]).0 as int == hour_of(
                    f.hourly@[j].datetime@,
                )->0,
            window is Fortnight ==> forall|j: int|
                0 <= j < i ==> (#[trigger] points@[j]).0 as int == j,
            i >= 1 ==> lo as int == temps_min(f.hourly@, i as int),
            i >= 1 ==> hi as int == temps_max(f.hourly@, i as int),
        decreases n - i,
    {
        let x: u32 = match window {
            ChartWindow::Daily => {
                match parse_hour(f.hourly[i].datetime.as_str()) {
                    Some(h) => h,
                    None => {
                        return Err(ChartError::MalformedSample);
                    },
                }
            },
            ChartWindow::Fortnight => i as u32,
        };
        let t = match parse_temperature(f.hourly[i].temperature.as_str()) {
            Some(t) => t.tenths,
            None => {
                return Err(ChartError::MalformedSample);
            },
        };
        if i == 0 {
            lo = t;
            hi = t;
        } else {
            if t < lo {
                lo = t;
            }
            if t > hi {
                hi = t;
            }
        }
        points.push((x, t));
        i = i + 1;
    }
    let y_min = floor_div_small((lo as i64) - 50, 10);
    let y_max = floor_div_small((hi as i64) + 50 + 9, 10);
    assert(y_min as int == y_floor(temps_min(f.hourly@, n as int)));
    assert(y_max as int == y_ceil(temps_max(f.hourly@, n as int)));
    proof {
        lemma_fundamental_div_mod((lo as int) - 50, 10);
        lemma_mod_bound((lo as int) - 50, 10);
        lemma_fundamental_div_mod((hi as int) + 50 + 9, 10);
        lemma_mod_bound((hi as int) + 50 + 9, 10);
    }
    assert(-0x4000_0000 <= y_min <= 0x4000_0000);
    assert(-0x4000_0000 <= y_max <= 0x4000_0000);
    let range = y_max - y_min;
    let mut y_labels: Vec<String> = Vec::new();
    let mut k: usize = 0;
    while k < 5
        invariant
            0 <= k <= 5,
            -0x4000_0000 <= y_min <= 0x4000_0000,
            -0x4000_0000 <= y_max <= 0x4000_0000,
            range == y_max - y_min,
            y_labels@.len() == k,
            forall|j: int|
                0 <= j < k ==> (#[trigger] y_labels@[j])@ == int_rep(
                    label_val(y_min as int, y_max as int, j),
                ),
        decreases 5 - k,
    {
        proof {
            assert(-5 * 0x8000_0000 <= (k as int) * (range as int) <= 5 * 0x8000_0000)
                by (nonlinear_arith)
                requires
                    0 <= k as int <= 4,
                    -0x8000_0000 <= range as int <= 0x8000_0000,
            ;
        }
        let q = 4 * y_min + (k as i64) * range;
        let val = round_quarter(q);
        y_labels.push(format_i64(val));
        k = k + 1;
    }
    let mut x_labels: Vec<String> = Vec::new();
    match window {
        ChartWindow::Daily => {
            x_labels.push(String::from_str("00:00"));
            x_labels.push(String::from_str("06:00"));
            x_labels.push(String::from_str("12:00"));
            x_labels.push(String::from_str("18:00"));
            x_labels.push(String::from_str("23:00"));
        },
        ChartWindow::Fortnight => {
            let mut j: usize = 0;
            while j < 14
                invariant
                    0 <= j <= 14,
                    f.periods@.len() >= 14,
                    x_labels@.len() == j,
                    forall|m: int|
                        0 <= m < j ==> (#[trigger] x_labels@[m])@ == mmdd_label(
                            f.periods@[m].date@,
                        ),
                decreases 14 - j,
            {
                x_labels.push(mmdd_label_of(&f.periods[j].date));
                j = j + 1;
            }
        },
    }
    Ok(ChartSeries { points, y_min, y_max, y_labels, x_labels })
}

} // verus!
