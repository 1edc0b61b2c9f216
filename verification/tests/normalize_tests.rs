use raijin::codes::CodeTable;
use raijin::normalize::{
    normalize_forecast, CurrentConditions, DailyPayload, HourlyPayload, NormalizeError,
};
use raijin::units::Temp;

fn code_table() -> CodeTable {
    CodeTable::new(vec![(0, "Clear".to_string()), (61, "Rain".to_string())])
}

fn two_day_payload() -> DailyPayload {
    DailyPayload {
        time: vec!["2024-01-01".to_string(), "2024-01-02".to_string()],
        weather_code: vec![0, 61],
        temperature_2m_max: vec![Temp { tenths: 100 }, Temp { tenths: 120 }],
        temperature_2m_min: vec![Temp { tenths: 15 }, Temp { tenths: 30 }],
        apparent_temperature_max: vec![Temp { tenths: 95 }, Temp { tenths: 118 }],
        apparent_temperature_min: vec![Temp { tenths: 10 }, Temp { tenths: 25 }],
        precipitation_probability_mean: vec![5, 80],
    }
}

fn one_hour_payload() -> HourlyPayload {
    HourlyPayload {
        time: vec!["2024-01-01T00:00".to_string()],
        weather_code: vec![61],
        temperature_2m: vec![Temp { tenths: 42 }],
    }
}

fn current() -> CurrentConditions {
    CurrentConditions {
        temperature: Temp { tenths: 71 },
        apparent_temperature: Temp { tenths: 65 },
        weather_code: 0,
    }
}

#[test]
fn normalization_zips_daily_arrays_in_order() {
    let f = normalize_forecast(&two_day_payload(), &one_hour_payload(), current(), &code_table())
        .unwrap();
    assert_eq!(f.periods.len(), 2);
    assert_eq!(f.periods[0].date, "2024-01-01");
    assert_eq!(f.periods[0].weather, "Clear");
    assert_eq!(f.periods[0].temperature_max, "10\u{00B0}");
    assert_eq!(f.periods[1].date, "2024-01-02");
    assert_eq!(f.periods[1].weather, "Rain");
    assert_eq!(f.periods[1].temperature_max, "12\u{00B0}");
    assert_eq!(f.periods[0].weekday, "Monday");
    assert_eq!(f.periods[1].weekday, "Tuesday");
    assert_eq!(f.periods[0].temperature_min, "1.5\u{00B0}");
    assert_eq!(f.periods[0].apparent_temperature_max, "9.5\u{00B0}");
    assert_eq!(f.periods[0].apparent_temperature_min, "1\u{00B0}");
    assert_eq!(f.periods[0].precipitation_probability, "5%");
}

#[test]
fn normalization_builds_hourly_samples_and_current() {
    let f = normalize_forecast(&two_day_payload(), &one_hour_payload(), current(), &code_table())
        .unwrap();
    assert_eq!(f.hourly.len(), 1);
    assert_eq!(f.hourly[0].datetime, "2024-01-01T00:00");
    assert_eq!(f.hourly[0].temperature, "4.2\u{00B0}");
    assert_eq!(f.hourly[0].weather, "Rain");
    assert_eq!(f.current.temperature, Temp { tenths: 71 });
    assert_eq!(f.current.weather_code, 0);
}

#[test]
fn unknown_weather_code_resolves_to_fallback() {
    let mut daily = two_day_payload();
    daily.weather_code = vec![0, 999];
    let f = normalize_forecast(&daily, &one_hour_payload(), current(), &code_table()).unwrap();
    assert_eq!(f.periods[1].weather, "Unknown");
}

#[test]
fn daily_length_mismatch_is_fatal() {
    let mut daily = two_day_payload();
    daily.weather_code = vec![0];
    let r = normalize_forecast(&daily, &one_hour_payload(), current(), &code_table());
    assert_eq!(r.err(), Some(NormalizeError::LengthMismatch));
}

#[test]
fn hourly_length_mismatch_is_fatal() {
    let mut hourly = one_hour_payload();
    hourly.temperature_2m = vec![];
    let r = normalize_forecast(&two_day_payload(), &hourly, current(), &code_table());
    assert_eq!(r.err(), Some(NormalizeError::LengthMismatch));
}

#[test]
fn malformed_daily_date_is_fatal() {
    let mut daily = two_day_payload();
    daily.time = vec!["2024-01-01".to_string(), "not a date".to_string()];
    let r = normalize_forecast(&daily, &one_hour_payload(), current(), &code_table());
    assert_eq!(r.err(), Some(NormalizeError::MalformedDate));
}

#[test]
fn calendar_invalid_date_still_normalizes() {
    let mut daily = two_day_payload();
    daily.time = vec!["2024-01-01".to_string(), "2024-02-30".to_string()];
    let f = normalize_forecast(&daily, &one_hour_payload(), current(), &code_table()).unwrap();
    assert_eq!(f.periods[1].weekday, "");
}

#[test]
fn code_resolution_prefers_first_entry() {
    let table = CodeTable::new(vec![(7, "First".to_string()), (7, "Second".to_string())]);
    assert_eq!(table.resolve(7), "First");
    assert_eq!(table.resolve(8), "Unknown");
}
