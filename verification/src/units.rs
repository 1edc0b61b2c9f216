//! Display formatting of temperatures and percentages, and the reverse
//! numeric parse used by the chart projection.
//!
//! A temperature is carried as a whole number of tenths of a degree, which
//! is exact for the one-decimal values the upstream forecast provides.  It
//! prints as the plain decimal value (no trailing `.0`) followed by a
//! degree sign; a probability prints as the integer followed by a percent
//! sign.

use vstd::prelude::*;
use crate::text::{
    all_digits, dec_rep, digit_char, digit_to_char, digit_val, digits_val, format_i64, int_rep,
    is_digit_char, lemma_dec_rep, lemma_digits_val_nonneg, parse_u32_digits, push_char,
    push_dec_u64,
};

verus! {

/// A temperature in tenths of a degree.
#[derive(Clone, Copy, PartialEq, Eq, Structural, Debug)]
pub struct Temp {
    pub tenths: i32,
}

/// The digits of a non-negative temperature magnitude in tenths: the whole
/// part, then `.` and one digit only when the tenths are not zero.
pub open spec fn temp_magnitude_rep(m: int) -> Seq<char> {
    if m % 10 == 0 {
        dec_rep((m / 10) as nat)
    } else {
        dec_rep((m / 10) as nat) + seq!['.', digit_char(m % 10)]
    }
}

/// The numeric token of a temperature: sign, whole part, optional tenths.
pub open spec fn temp_rep(t: int) -> Seq<char> {
    if t < 0 {
        seq!['-'] + temp_magnitude_rep(-t)
    } else {
        temp_magnitude_rep(t)
    }
}

/// The full display string of a temperature: the numeric token followed by
/// the degree sign.
pub open spec fn temp_display(t: int) -> Seq<char> {
    temp_rep(t) + seq!['\u{00B0}']
}

/// The full display string of a probability: the integer followed by a
/// percent sign.
pub open spec fn percent_display(p: int) -> Seq<char> {
    int_rep(p) + seq!['%']
}

/// The magnitude read from a numeric token without its sign: either all
/// digits, or digits with a `.` and exactly one digit after it.  The result
/// is in tenths.
pub open spec fn magnitude_value_of(body: Seq<char>) -> Option<int> {
    if body.len() >= 2 && body[body.len() - 2] == '.' {
        let w = body.take(body.len() - 2);
        let f = body.last();
        if w.len() >= 1 && all_digits(w) && is_digit_char(f) {
            Some(digits_val(w) * 10 + digit_val(f))
        } else {
            None
        }
    } else if body.len() >= 1 && all_digits(body) {
        Some(digits_val(body) * 10)
    } else {
        None
    }
}

/// The signed tenths value read from a numeric token, when it is well
/// formed and fits a 32-bit count of tenths.
pub open spec fn temp_value_of(s: Seq<char>) -> Option<int> {
    let neg = s.len() > 0 && s[0] == '-';
    let body = if neg { s.drop_first() } else { s };
    match magnitude_value_of(body) {
        None => None,
        Some(m) => if neg {
            if m <= 0x8000_0000 {
                Some(-m)
            } else {
                None
            }
        } else {
            if m <= 0x7fff_ffff {
                Some(m)
            } else {
                None
            }
        },
    }
}

/// The tenths value read from a display string: one trailing suffix
/// character is stripped, the rest is the numeric token.
pub open spec fn parsed_temp(s: Seq<char>) -> Option<int> {
    if s.len() == 0 {
        None
    } else {
        temp_value_of(s.drop_last())
    }
}

/// Formats a temperature for display: plain decimal value and degree sign.
pub fn format_temperature(t: Temp) -> (r: String)
    ensures
        r@ == temp_display(t.tenths as int),
{
    let v = t.tenths;
    // -(v + 1) stays in range even for the smallest value.
    let mag: u32 = if v < 0 {
        ((-(v + 1)) as u32) + 1
    } else {
        v as u32
    };
    proof {
        assert(mag == (if v < 0 {
            -(v as int)
        } else {
            v as int
        }));
    }
    let mut s = String::new();
    if v < 0 {
        push_char(&mut s, '-');
    }
    let whole = mag / 10;
    let frac = mag % 10;
    push_dec_u64(whole as u64, &mut s);
    if frac != 0 {
        push_char(&mut s, '.');
        push_char(&mut s, digit_to_char(frac as u64));
    }
    push_char(&mut s, '\u{00B0}');
    assert(s@ =~= temp_display(t.tenths as int));
    s
}

/// Formats a probability for display: integer value and percent sign.
pub fn format_percentage(p: i32) -> (r: String)
    ensures
        r@ == percent_display(p as int),
{
    let mut s = format_i64(p as i64);
    push_char(&mut s, '%');
    assert(s@ =~= percent_display(p as int));
    s
}

/// Reads a temperature display string back into tenths of a degree: strips
/// the single trailing suffix character and parses the numeric token.
pub fn parse_temperature(s: &str) -> (r: Option<Temp>)
    ensures
        r matches Some(t) ==> parsed_temp(s@) == Some(t.tenths as int),
        r is None <==> parsed_temp(s@) is None,
{
    let len = s.unicode_len();
    if len == 0 {
        return None;
    }
    let num = s.substring_char(0, len - 1);
    proof {
        assert(num@ =~= s@.drop_last());
    }
    let nlen = len - 1;
    let neg = nlen >= 1 && num.get_char(0) == '-';
    let body = if neg {
        num.substring_char(1, nlen)
    } else {
        num
    };
    proof {
        if neg {
            assert(body@ =~= num@.drop_first());
        }
    }
    let blen = if neg {
        nlen - 1
    } else {
        nlen
    };
    assert(blen == body@.len());
    let m: u64;
    if blen >= 2 && body.get_char(blen - 2) == '.' {
        let w = body.substring_char(0, blen - 2);
        proof {
            assert(w@ =~= body@.take(blen - 2));
        }
        let f = body.get_char(blen - 1);
        proof {
            assert(f == body@.last());
        }
        let fu = f as u32;
        if fu < 48 || fu > 57 {
            assert(!is_digit_char(body@.last()));
            return None;
        }
        match parse_u32_digits(w) {
            None => {
                proof {
                    if w@.len() >= 1 && all_digits(w@) {
                        // The digits were there but the value overflowed,
                        // so the tenths value is out of range either way.
                        lemma_digits_val_nonneg(w@);
                        assert(digits_val(w@) > u32::MAX);
                        assert(digits_val(w@) * 10 + digit_val(body@.last()) > 0x8000_0000);
                    }
                }
                return None;
            },
            Some(w_val) => {
                m = (w_val as u64) * 10 + ((fu - 48) as u64);
                assert(magnitude_value_of(body@) == Some(m as int));
            },
        }
    } else {
        match parse_u32_digits(body) {
            None => {
                proof {
                    if body@.len() >= 1 && all_digits(body@) {
                        lemma_digits_val_nonneg(body@);
                        assert(digits_val(body@) > u32::MAX);
                        assert(digits_val(body@) * 10 > 0x8000_0000);
                    }
                }
                return None;
            },
            Some(v) => {
                m = (v as u64) * 10;
                assert(magnitude_value_of(body@) == Some(m as int));
            },
        }
    }
    if neg {
        if m <= 0x8000_0000 {
            let tenths: i32 = if m == 0x8000_0000 {
                i32::MIN
            } else {
                -(m as i32)
            };
            Some(Temp { tenths })
        } else {
            None
        }
    } else {
        if m <= 0x7fff_ffff {
            Some(Temp { tenths: m as i32 })
        } else {
            None
        }
    }
}

/// Law: formatting a temperature, stripping the trailing degree sign and
/// re-parsing yields the original tenths value exactly.
pub proof fn lemma_temperature_round_trip(t: int)
    requires
        i32::MIN <= t <= i32::MAX,
    ensures
        parsed_temp(temp_display(t)) == Some(t),
{
    let disp = temp_display(t);
    assert(disp.drop_last() =~= temp_rep(t));
    let m = if t < 0 { -t } else { t };
    let w = m / 10;
    let frac = m % 10;
    lemma_dec_rep(w as nat);
    let d = dec_rep(w as nat);
    let magrep = temp_magnitude_rep(m);
    // The magnitude token reads back to m.
    if frac == 0 {
        assert(magrep == d);
        assert(magrep.len() >= 2 ==> is_digit_char(magrep[magrep.len() - 2]));
        assert('.' as u32 == 46);
        assert(magrep.len() >= 2 ==> magrep[magrep.len() - 2] != '.');
        assert(magnitude_value_of(magrep) == Some(digits_val(d) * 10));
        assert(digits_val(d) * 10 == w * 10 + frac);
    } else {
        assert(magrep == d + seq!['.', digit_char(frac)]);
        assert(magrep.len() == d.len() + 2);
        assert(magrep[magrep.len() - 2] == '.');
        assert(magrep.take(magrep.len() - 2) =~= d);
        assert(magrep.last() == digit_char(frac));
        assert(is_digit_char(digit_char(frac)) && digit_val(digit_char(frac)) == frac);
        assert(magnitude_value_of(magrep) == Some(digits_val(d) * 10 + frac));
    }
    assert(magnitude_value_of(magrep) == Some(m));
    // The sign is handled and the bounds hold for any 32-bit tenths value.
    assert(magrep[0] == d[0]);
    assert(is_digit_char(d[0]));
    assert('-' as u32 == 45);
    assert(magrep[0] != '-');
    if t < 0 {
        assert(temp_rep(t) == seq!['-'] + magrep);
        assert(temp_rep(t)[0] == '-');
        assert(temp_rep(t).drop_first() =~= magrep);
        assert(m <= 0x8000_0000);
        assert(temp_value_of(temp_rep(t)) == Some(-m));
    } else {
        assert(temp_rep(t) == magrep);
        assert(m <= 0x7fff_ffff);
        assert(temp_value_of(temp_rep(t)) == Some(m));
    }
}

} // verus!
