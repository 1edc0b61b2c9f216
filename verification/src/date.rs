//! Calendar dates: parsing `YYYY-MM-DD` strings, proleptic Gregorian
//! validity, and the weekday a date falls on.
//!
//! A date string conforms when it splits on `-` into exactly three numeric
//! fields.  A non-conforming string is a hard error; a conforming but
//! calendar-invalid date only degrades to an empty weekday label, since the
//! label is cosmetic.

use vstd::prelude::*;
use crate::text::{all_digits, digits_val, parse_u32_digits};

verus! {

/// A leap year in the proleptic Gregorian calendar.
pub open spec fn is_leap_year(y: int) -> bool {
    (y % 4 == 0 && y % 100 != 0) || y % 400 == 0
}

/// Number of days of a month, January = 1.
pub open spec fn days_in_month(y: int, m: int) -> int {
    if m == 2 {
        if is_leap_year(y) {
            29
        } else {
            28
        }
    } else if m == 4 || m == 6 || m == 9 || m == 11 {
        30
    } else {
        31
    }
}

/// A valid proleptic Gregorian calendar date.
pub open spec fn valid_ymd(y: int, m: int, d: int) -> bool {
    1 <= m <= 12 && 1 <= d <= days_in_month(y, m)
}

/// Days since 1970-01-01 in the proleptic Gregorian calendar (negative
/// before the epoch).  Integer division here is Euclidean, which for the
/// positive divisors used equals flooring.
pub open spec fn days_from_epoch(y: int, m: int, d: int) -> int {
    let yy = if m <= 2 {
        y - 1
    } else {
        y
    };
    let era = yy / 400;
    let yoe = yy - era * 400;
    let mp = if m <= 2 {
        m + 9
    } else {
        m - 3
    };
    let doy = (153 * mp + 2) / 5 + d - 1;
    let doe = yoe * 365 + yoe / 4 - yoe / 100 + doy;
    era * 146097 + doe - 719468
}

/// The weekday of a date, numbered Monday = 0 through Sunday = 6.
/// The epoch day 1970-01-01 was a Thursday.
pub open spec fn weekday_index(y: int, m: int, d: int) -> int {
    (days_from_epoch(y, m, d) + 3) % 7
}

/// The English name of a weekday numbered from Monday.
pub open spec fn weekday_name(w: int) -> Seq<char> {
    if w == 0 {
        "Monday"@
    } else if w == 1 {
        "Tuesday"@
    } else if w == 2 {
        "Wednesday"@
    } else if w == 3 {
        "Thursday"@
    } else if w == 4 {
        "Friday"@
    } else if w == 5 {
        "Saturday"@
    } else {
        "Sunday"@
    }
}

/// Index of the first occurrence of `c` in the sequence, if any.
pub open spec fn first_index(s: Seq<char>, c: char) -> Option<int>
    decreases s.len(),
{
    if s.len() == 0 {
        None
    } else if s[0] == c {
        Some(0)
    } else {
        match first_index(s.drop_first(), c) {
            None => None,
            Some(i) => Some(i + 1),
        }
    }
}

pub proof fn lemma_first_index_at(s: Seq<char>, c: char, i: int)
    requires
        0 <= i < s.len(),
        s[i] == c,
        forall|j: int| 0 <= j < i ==> s[j] != c,
    ensures
        first_index(s, c) == Some(i),
    decreases s.len(),
{
    if i > 0 {
        let r = s.drop_first();
        assert(forall|j: int| 0 <= j < i - 1 ==> r[j] != c);
        lemma_first_index_at(r, c, i - 1);
    }
}

pub proof fn lemma_first_index_none(s: Seq<char>, c: char)
    requires
        forall|j: int| 0 <= j < s.len() ==> s[j] != c,
    ensures
        first_index(s, c) is None,
    decreases s.len(),
{
    if s.len() > 0 {
        let r = s.drop_first();
        assert(forall|j: int| 0 <= j < r.len() ==> r[j] != c);
        lemma_first_index_none(r, c);
    }
}

/// Finds the position of the first occurrence of `c`, scanning forward.
pub fn find_first_char(s: &str, c: char) -> (r: Option<usize>)
    ensures
        r matches Some(i) ==> i < s@.len() && first_index(s@, c) == Some(i as int),
        r is None ==> first_index(s@, c) is None,
{
    let len = s.unicode_len();
    let mut i: usize = 0;
    while i < len
        invariant
            0 <= i <= len,
            len == s@.len(),
            forall|j: int| 0 <= j < i ==> s@[j] != c,
        decreases len - i,
    {
        if s.get_char(i) == c {
            proof {
                lemma_first_index_at(s@, c, i as int);
            }
            return Some(i);
        }
        i = i + 1;
    }
    proof {
        lemma_first_index_none(s@, c);
    }
    None
}

/// The three fields of a date string, when splitting on `-` gives exactly
/// three of them.
pub open spec fn date_fields(s: Seq<char>) -> Option<(Seq<char>, Seq<char>, Seq<char>)> {
    match first_index(s, '-') {
        None => None,
        Some(i) => {
            let rest = s.subrange(i + 1, s.len() as int);
            match first_index(rest, '-') {
                None => None,
                Some(k) => {
                    let tail = rest.subrange(k + 1, rest.len() as int);
                    if first_index(tail, '-') is None {
                        Some((s.take(i), rest.take(k), tail))
                    } else {
                        None
                    }
                },
            }
        },
    }
}

/// A numeric date field: non-empty, all digits, value within 32 bits.
pub open spec fn field_value(f: Seq<char>) -> Option<int> {
    if f.len() >= 1 && all_digits(f) && digits_val(f) <= u32::MAX {
        Some(digits_val(f))
    } else {
        None
    }
}

/// The year, month and day read from a conforming `YYYY-MM-DD` string.
pub open spec fn date_value(s: Seq<char>) -> Option<(int, int, int)> {
    match date_fields(s) {
        None => None,
        Some(fields) => {
            match (field_value(fields.0), field_value(fields.1), field_value(fields.2)) {
                (Some(y), Some(m), Some(d)) => Some((y, m, d)),
                _ => None,
            }
        },
    }
}

/// The year bound of the calendar backend below.
pub open spec fn backend_max_year() -> int {
    262142
}

/// Relies on `chrono::NaiveDate::from_ymd_opt`, which returns `None`
/// exactly when the date is invalid in the proleptic Gregorian calendar or
/// the year is outside chrono's supported range (at most 262142 for
/// non-negative years), and on `chrono::Datelike::weekday` together with
/// `chrono::Weekday::num_days_from_monday`, which give the proleptic
/// Gregorian day of week numbered Monday = 0 through Sunday = 6.
#[verifier::external_body]
fn chrono_weekday_from_monday(year: i32, month: u32, day: u32) -> (r: Option<u8>)
    requires
        0 <= year,
    ensures
        r is Some <==> (year <= backend_max_year() && valid_ymd(
            year as int,
            month as int,
            day as int,
        )),
        r matches Some(w) ==> w as int == weekday_index(year as int, month as int, day as int),
{
    chrono::NaiveDate::from_ymd_opt(year, month, day).map(
        |d| chrono::Datelike::weekday(&d).num_days_from_monday() as u8,
    )
}

/// The English weekday name for an index numbered from Monday.
pub fn weekday_label(w: u8) -> (r: String)
    requires
        w < 7,
    ensures
        r@ == weekday_name(w as int),
{
    if w == 0 {
        String::from_str("Monday")
    } else if w == 1 {
        String::from_str("Tuesday")
    } else if w == 2 {
        String::from_str("Wednesday")
    } else if w == 3 {
        String::from_str("Thursday")
    } else if w == 4 {
        String::from_str("Friday")
    } else if w == 5 {
        String::from_str("Saturday")
    } else {
        String::from_str("Sunday")
    }
}

/// A date string that does not split into three numeric fields.
#[derive(Clone, Copy, PartialEq, Eq, Structural, Debug)]
pub enum DateError {
    Malformed,
}

/// The weekday label a conforming date shows: the weekday name when the
/// calendar accepts the date, the empty label when it does not.
pub open spec fn weekday_label_of(y: int, m: int, d: int) -> Seq<char> {
    if y <= backend_max_year() && valid_ymd(y, m, d) {
        weekday_name(weekday_index(y, m, d))
    } else {
        Seq::<char>::empty()
    }
}

/// Returns the weekday name (`"Monday"` .. `"Sunday"`) of a `YYYY-MM-DD`
/// date.  A string that does not split into three numeric fields is an
/// error; a conforming but calendar-invalid date gives an empty label.
pub fn get_day_from_date(date: &String) -> (r: Result<String, DateError>)
    ensures
        r is Ok <==> date_value(date@) is Some,
        r matches Ok(name) ==> name@ == weekday_label_of(
            (date_value(date@)->0).0,
            (date_value(date@)->0).1,
            (date_value(date@)->0).2,
        ),
{
    let s = date.as_str();
    let len = s.unicode_len();
    let p0 = match find_first_char(s, '-') {
        Some(p) => p,
        None => {
            return Err(DateError::Malformed);
        },
    };
    let rest = s.substring_char(p0 + 1, len);
    proof {
        assert(rest@ =~= s@.subrange(p0 as int + 1, s@.len() as int));
    }
    let rest_len = len - p0 - 1;
    assert(rest_len == rest@.len());
    let p1 = match find_first_char(rest, '-') {
        Some(p) => p,
        None => {
            return Err(DateError::Malformed);
        },
    };
    let tail = rest.substring_char(p1 + 1, rest_len);
    proof {
        assert(tail@ =~= rest@.subrange(p1 as int + 1, rest@.len() as int));
    }
    match find_first_char(tail, '-') {
        Some(_) => {
            return Err(DateError::Malformed);
        },
        None => {},
    }
    let ys = s.substring_char(0, p0);
    let ms = rest.substring_char(0, p1);
    proof {
        assert(ys@ =~= s@.take(p0 as int));
        assert(ms@ =~= rest@.take(p1 as int));
    }
    let year = match parse_u32_digits(ys) {
        Some(v) => v,
        None => {
            return Err(DateError::Malformed);
        },
    };
    let month = match parse_u32_digits(ms) {
        Some(v) => v,
        None => {
            return Err(DateError::Malformed);
        },
    };
    let day = match parse_u32_digits(tail) {
        Some(v) => v,
        None => {
            return Err(DateError::Malformed);
        },
    };
    if year > 262142 {
        return Ok(String::new());
    }
    match chrono_weekday_from_monday(year as i32, month, day) {
        Some(w) => Ok(weekday_label(w)),
        None => Ok(String::new()),
    }
}

} // verus!
