//! Decimal digit strings: how integers print and how digit strings read back.

use vstd::prelude::*;

verus! {

/// A decimal digit character.
pub open spec fn is_digit_char(c: char) -> bool {
    '0' as u32 <= c as u32 && c as u32 <= '9' as u32
}

/// Numeric value of a digit character.
pub open spec fn digit_val(c: char) -> int {
    c as u32 - '0' as u32
}

/// The digit character for a value below ten.
pub open spec fn digit_char(d: int) -> char {
    if d == 0 {
        '0'
    } else if d == 1 {
        '1'
    } else if d == 2 {
        '2'
    } else if d == 3 {
        '3'
    } else if d == 4 {
        '4'
    } else if d == 5 {
        '5'
    } else if d == 6 {
        '6'
    } else if d == 7 {
        '7'
    } else if d == 8 {
        '8'
    } else {
        '9'
    }
}

/// The decimal representation of a natural number, most significant digit
/// first, with no sign and no leading zero except for zero itself.
pub open spec fn dec_rep(n: nat) -> Seq<char>
    decreases n,
{
    if n < 10 {
        seq![digit_char(n as int)]
    } else {
        dec_rep(n / 10).push(digit_char((n % 10) as int))
    }
}

/// The decimal representation of an integer: a minus sign for negative
/// values, then the digits of the magnitude.
pub open spec fn int_rep(v: int) -> Seq<char> {
    if v < 0 {
        seq!['-'] + dec_rep((-v) as nat)
    } else {
        dec_rep(v as nat)
    }
}

/// Every character of the sequence is a decimal digit.
pub open spec fn all_digits(s: Seq<char>) -> bool {
    forall|i: int| 0 <= i < s.len() ==> is_digit_char(#[trigger] s[i])
}

/// The value of a digit string, read most significant digit first.
pub open spec fn digits_val(s: Seq<char>) -> int
    decreases s.len(),
{
    if s.len() == 0 {
        0
    } else {
        digits_val(s.drop_last()) * 10 + digit_val(s.last())
    }
}

pub proof fn lemma_digits_val_nonneg(s: Seq<char>)
    requires
        all_digits(s),
    ensures
        digits_val(s) >= 0,
    decreases s.len(),
{
    if s.len() > 0 {
        assert(all_digits(s.drop_last()));
        lemma_digits_val_nonneg(s.drop_last());
    }
}

/// Reading a longer prefix of a digit string never decreases the value.
pub proof fn lemma_digits_val_take_le(s: Seq<char>, i: int)
    requires
        all_digits(s),
        0 <= i <= s.len(),
    ensures
        digits_val(s.take(i)) <= digits_val(s),
    decreases s.len() - i,
{
    if i < s.len() {
        lemma_digits_val_take_le(s, i + 1);
        let t = s.take(i + 1);
        assert(t.drop_last() =~= s.take(i));
        assert(all_digits(s.take(i)));
        lemma_digits_val_nonneg(s.take(i));
        assert(digits_val(t) == digits_val(s.take(i)) * 10 + digit_val(t.last()));
    } else {
        assert(s.take(i) =~= s);
    }
}

/// The printed digits of a natural number are digits and read back to it.
pub proof fn lemma_dec_rep(n: nat)
    ensures
        all_digits(dec_rep(n)),
        digits_val(dec_rep(n)) == n,
        dec_rep(n).len() >= 1,
    decreases n,
{
    if n < 10 {
        let s = seq![digit_char(n as int)];
        assert(dec_rep(n) == s);
        assert(is_digit_char(digit_char(n as int)));
        assert(s.drop_last() =~= Seq::<char>::empty());
        assert(digits_val(s) == digits_val(s.drop_last()) * 10 + digit_val(s.last()));
        assert(digit_val(digit_char(n as int)) == n);
    } else {
        lemma_dec_rep(n / 10);
        let r = dec_rep(n);
        assert(r.drop_last() =~= dec_rep(n / 10));
        assert(digits_val(r) == digits_val(dec_rep(n / 10)) * 10 + digit_val(r.last()));
        assert(digit_val(digit_char((n % 10) as int)) == n % 10);
        assert(digits_val(r) == (n / 10) * 10 + n % 10);
    }
}

/// Relies on `String::push` of std: appends the given character to the
/// end of the string.
#[verifier::external_body]
pub fn push_char(s: &mut String, c: char)
    ensures
        final(s)@ == old(s)@ + seq![c],
{
    s.push(c);
}

/// The digit character for a value below ten.
pub fn digit_to_char(d: u64) -> (c: char)
    requires
        d < 10,
    ensures
        c == digit_char(d as int),
{
    if d == 0 {
        '0'
    } else if d == 1 {
        '1'
    } else if d == 2 {
        '2'
    } else if d == 3 {
        '3'
    } else if d == 4 {
        '4'
    } else if d == 5 {
        '5'
    } else if d == 6 {
        '6'
    } else if d == 7 {
        '7'
    } else if d == 8 {
        '8'
    } else {
        '9'
    }
}

/// Appends the decimal digits of `n` to `out`.
pub fn push_dec_u64(n: u64, out: &mut String)
    ensures
        final(out)@ == old(out)@ + dec_rep(n as nat),
    decreases n,
{
    if n < 10 {
        push_char(out, digit_to_char(n));
    } else {
        push_dec_u64(n / 10, out);
        push_char(out, digit_to_char(n % 10));
        assert(final(out)@ =~= old(out)@ + dec_rep(n as nat));
    }
}

/// The decimal digits of a natural number as a string.
pub fn format_u64(n: u64) -> (r: String)
    ensures
        r@ == dec_rep(n as nat),
{
    let mut s = String::new();
    push_dec_u64(n, &mut s);
    assert(s@ =~= dec_rep(n as nat));
    s
}

/// Appends the decimal representation of `v`, sign included, to `out`.
pub fn push_dec_i64(v: i64, out: &mut String)
    ensures
        final(out)@ == old(out)@ + int_rep(v as int),
{
    if v < 0 {
        // -(v + 1) stays in range even for the smallest value.
        let mag: u64 = ((-(v + 1)) as u64) + 1;
        assert(mag == -(v as int));
        push_char(out, '-');
        push_dec_u64(mag, out);
        assert(final(out)@ =~= old(out)@ + int_rep(v as int));
    } else {
        push_dec_u64(v as u64, out);
    }
}

/// The decimal representation of an integer, sign included, as a string.
pub fn format_i64(v: i64) -> (r: String)
    ensures
        r@ == int_rep(v as int),
{
    let mut s = String::new();
    push_dec_i64(v, &mut s);
    assert(s@ =~= int_rep(v as int));
    s
}

/// Reads a string of decimal digits as a `u32`.  Returns the value exactly
/// when the string is non-empty, all digits, and the value fits.
pub fn parse_u32_digits(s: &str) -> (r: Option<u32>)
    ensures
        r is Some <==> s@.len() >= 1 && all_digits(s@) && digits_val(s@) <= u32::MAX,
        r matches Some(v) ==> v == digits_val(s@),
{
    let len = s.unicode_len();
    if len == 0 {
        return None;
    }
    let mut acc: u64 = 0;
    let mut i: usize = 0;
    while i < len
        invariant
            0 <= i <= len,
            len == s@.len(),
            all_digits(s@.take(i as int)),
            acc == digits_val(s@.take(i as int)),
            acc <= u32::MAX,
        decreases len - i,
    {
        let c = s.get_char(i);
        let u = c as u32;
        if u < 48 || u > 57 {
            assert(!is_digit_char(s@[i as int]));
            return None;
        }
        assert(is_digit_char(s@[i as int]));
        let d = (u - 48) as u64;
        acc = acc * 10 + d;
        assert(s@.take(i + 1).drop_last() =~= s@.take(i as int));
        assert(s@.take(i + 1).last() == s@[i as int]);
        assert(all_digits(s@.take(i + 1)));
        assert(acc == digits_val(s@.take(i + 1)));
        if acc > 0xffff_ffff {
            proof {
                if all_digits(s@) {
                    lemma_digits_val_take_le(s@, i + 1);
                }
            }
            return None;
        }
        i = i + 1;
    }
    assert(s@.take(len as int) =~= s@);
    Some(acc as u32)
}

} // verus!
