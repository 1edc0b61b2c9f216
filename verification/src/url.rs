//! The upstream request addresses: the forecast query with its
//! percent-encoded time zone, and the moon-phase query.

use vstd::prelude::*;
use vstd::utf8::is_ascii_chars;
use crate::text::digit_char;

verus! {

/// A character the percent-encoder passes through unchanged: ASCII
/// alphanumerics and `-`, `.`, `_`, `~`.
pub open spec fn is_unreserved(c: char) -> bool {
    ||| '0' as u32 <= c as u32 <= '9' as u32
    ||| 'A' as u32 <= c as u32 <= 'Z' as u32
    ||| 'a' as u32 <= c as u32 <= 'z' as u32
    ||| c == '-'
    ||| c == '.'
    ||| c == '_'
    ||| c == '~'
}

/// The uppercase hexadecimal digit of a value below sixteen.
pub open spec fn hex_digit(d: int) -> char {
    if d < 10 {
        digit_char(d)
    } else if d == 10 {
        'A'
    } else if d == 11 {
        'B'
    } else if d == 12 {
        'C'
    } else if d == 13 {
        'D'
    } else if d == 14 {
        'E'
    } else {
        'F'
    }
}

/// What one ASCII character percent-encodes to.
pub open spec fn enc_char(c: char) -> Seq<char> {
    if is_unreserved(c) {
        seq![c]
    } else {
        seq!['%', hex_digit(c as u32 as int / 16), hex_digit(c as u32 as int % 16)]
    }
}

/// The percent-encoding of an ASCII character sequence.
pub open spec fn percent_encoded(s: Seq<char>) -> Seq<char>
    decreases s.len(),
{
    if s.len() == 0 {
        Seq::<char>::empty()
    } else {
        enc_char(s[0]) + percent_encoded(s.drop_first())
    }
}

/// What `urlencoding::encode` returns on an arbitrary string.
pub uninterp spec fn url_encoded(s: Seq<char>) -> Seq<char>;

/// Relies on `urlencoding::encode`: percent-encodes every byte of the
/// UTF-8 form except ASCII alphanumerics and `-`, `.`, `_`, `~`, with
/// uppercase hexadecimal digits; on an ASCII string, where every
/// character is its own byte, that is exactly the per-character encoding
/// stated here.
#[verifier::external_body]
fn url_encode(s: &str) -> (r: String)
    ensures
        r@ == url_encoded(s@),
        is_ascii_chars(s@) ==> r@ == percent_encoded(s@),
{
    urlencoding::encode(s).into_owned()
}

/// The forecast query address for a location and time zone.
pub open spec fn forecast_url(lat: Seq<char>, lon: Seq<char>, tz: Seq<char>) -> Seq<char> {
    "https://api.open-meteo.com/v1/forecast?latitude="@ + lat + "&longitude="@ + lon
        + "&daily=temperature_2m_max,temperature_2m_min,apparent_temperature_max,apparent_temperature_min,weather_code,precipitation_probability_mean&hourly=temperature_2m,weather_code&current=temperature_2m,apparent_temperature,weather_code&timezone="@
        + url_encoded(tz) + "&forecast_days=14"@
}

/// Builds the forecast query address; only the time zone needs encoding.
pub fn build_forecast_url(latitude: &str, longitude: &str, timezone: &str) -> (r: String)
    ensures
        r@ == forecast_url(latitude@, longitude@, timezone@),
{
    let mut u = String::from_str("https://api.open-meteo.com/v1/forecast?latitude=");
    u.append(latitude);
    u.append("&longitude=");
    u.append(longitude);
    u.append(
        "&daily=temperature_2m_max,temperature_2m_min,apparent_temperature_max,apparent_temperature_min,weather_code,precipitation_probability_mean&hourly=temperature_2m,weather_code&current=temperature_2m,apparent_temperature,weather_code&timezone=",
    );
    let enc = url_encode(timezone);
    u.append(enc.as_str());
    u.append("&forecast_days=14");
    assert(u@ =~= forecast_url(latitude@, longitude@, timezone@));
    u
}

/// The moon-phase query address for a start date.
pub open spec fn moon_url(date: Seq<char>) -> Seq<char> {
    "https://api.viewbits.com/v1/moonphase?startdate="@ + date
}

/// Builds the moon-phase query address; the date goes in as it stands.
pub fn build_moon_url(date: &str) -> (r: String)
    ensures
        r@ == moon_url(date@),
{
    let mut u = String::from_str("https://api.viewbits.com/v1/moonphase?startdate=");
    u.append(date);
    assert(u@ =~= moon_url(date@));
    u
}

} // verus!
