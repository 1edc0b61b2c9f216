use raijin::text::{format_i64, format_u64, parse_u32_digits};
use raijin::units::{format_percentage, format_temperature, parse_temperature, Temp};

#[test]
fn whole_temperature_formats_without_decimal() {
    assert_eq!(format_temperature(Temp { tenths: 100 }), "10\u{00B0}");
    assert_eq!(format_temperature(Temp { tenths: 0 }), "0\u{00B0}");
    assert_eq!(format_temperature(Temp { tenths: -200 }), "-20\u{00B0}");
}

#[test]
fn fractional_temperature_keeps_one_digit() {
    assert_eq!(format_temperature(Temp { tenths: 125 }), "12.5\u{00B0}");
    assert_eq!(format_temperature(Temp { tenths: -5 }), "-0.5\u{00B0}");
    assert_eq!(format_temperature(Temp { tenths: 7 }), "0.7\u{00B0}");
}

#[test]
fn percentage_formats_with_sign_and_suffix() {
    assert_eq!(format_percentage(37), "37%");
    assert_eq!(format_percentage(0), "0%");
    assert_eq!(format_percentage(-5), "-5%");
}

#[test]
fn parse_temperature_reads_display_strings() {
    assert_eq!(parse_temperature("12.5\u{00B0}"), Some(Temp { tenths: 125 }));
    assert_eq!(parse_temperature("10\u{00B0}"), Some(Temp { tenths: 100 }));
    assert_eq!(parse_temperature("-0.5\u{00B0}"), Some(Temp { tenths: -5 }));
}

#[test]
fn parse_temperature_rejects_malformed_strings() {
    assert_eq!(parse_temperature(""), None);
    assert_eq!(parse_temperature("\u{00B0}"), None);
    assert_eq!(parse_temperature("abc\u{00B0}"), None);
    assert_eq!(parse_temperature("12.34\u{00B0}"), None);
    assert_eq!(parse_temperature("--5\u{00B0}"), None);
}

#[test]
fn format_then_parse_round_trips() {
    for tenths in [0, 1, -1, 99, -99, 100, 125, -125, 1234567, i32::MAX, i32::MIN] {
        let t = Temp { tenths };
        let shown = format_temperature(t);
        assert_eq!(parse_temperature(&shown), Some(t));
    }
}

#[test]
fn integers_format_in_decimal() {
    assert_eq!(format_u64(0), "0");
    assert_eq!(format_u64(90210), "90210");
    assert_eq!(format_i64(-123), "-123");
    assert_eq!(format_i64(i64::MIN), "-9223372036854775808");
}

#[test]
fn digit_strings_parse_with_bounds() {
    assert_eq!(parse_u32_digits("0042"), Some(42));
    assert_eq!(parse_u32_digits("4294967295"), Some(u32::MAX));
    assert_eq!(parse_u32_digits("4294967296"), None);
    assert_eq!(parse_u32_digits(""), None);
    assert_eq!(parse_u32_digits("12a"), None);
    assert_eq!(parse_u32_digits("-12"), None);
}
