use raijin::chart::{mmdd_label_of, parse_hour, project, ChartError, ChartWindow};
use raijin::normalize::{CurrentConditions, DailyPeriod, Forecast, HourlySample};
use raijin::units::Temp;

fn sample(datetime: &str, temperature: &str) -> HourlySample {
    HourlySample {
        datetime: datetime.to_string(),
        temperature: temperature.to_string(),
        weather: "Clear".to_string(),
    }
}

fn period(date: &str) -> DailyPeriod {
    DailyPeriod {
        date: date.to_string(),
        weekday: "Monday".to_string(),
        weather: "Clear".to_string(),
        temperature_max: "10\u{00B0}".to_string(),
        temperature_min: "1\u{00B0}".to_string(),
        apparent_temperature_max: "9\u{00B0}".to_string(),
        apparent_temperature_min: "0\u{00B0}".to_string(),
        precipitation_probability: "5%".to_string(),
    }
}

fn forecast_with(hourly: Vec<HourlySample>) -> Forecast {
    let mut periods = Vec::new();
    for day in 1..15 {
        periods.push(period(&format!("2024-01-{:02}", day)));
    }
    Forecast {
        periods,
        hourly,
        current: CurrentConditions {
            temperature: Temp { tenths: 50 },
            apparent_temperature: Temp { tenths: 50 },
            weather_code: 0,
        },
    }
}

fn flat_hourly(n: usize, temperature: &str) -> Vec<HourlySample> {
    let mut v = Vec::new();
    for i in 0..n {
        let day = i / 24 + 1;
        let hour = i % 24;
        v.push(sample(&format!("2024-01-{:02}T{:02}:00", day, hour), temperature));
    }
    v
}

#[test]
fn daily_window_has_24_points_on_the_hour_axis() {
    let f = forecast_with(flat_hourly(336, "5\u{00B0}"));
    let s = project(&f, ChartWindow::Daily).unwrap();
    assert_eq!(s.points.len(), 24);
    for (i, p) in s.points.iter().enumerate() {
        assert_eq!(p.0 as usize, i % 24);
        assert_eq!(p.1, 50);
    }
    assert_eq!(s.x_labels, ["00:00", "06:00", "12:00", "18:00", "23:00"]);
}

#[test]
fn fortnight_window_has_336_points_on_the_position_axis() {
    let f = forecast_with(flat_hourly(336, "5\u{00B0}"));
    let s = project(&f, ChartWindow::Fortnight).unwrap();
    assert_eq!(s.points.len(), 336);
    for (i, p) in s.points.iter().enumerate() {
        assert_eq!(p.0 as usize, i);
    }
    assert_eq!(s.x_labels.len(), 14);
    assert_eq!(s.x_labels[0], "01-01");
    assert_eq!(s.x_labels[13], "01-14");
}

#[test]
fn y_bounds_pad_the_extremes_by_five_degrees() {
    let mut hourly = flat_hourly(336, "10\u{00B0}");
    hourly[3] = sample("2024-01-01T03:00", "-3.2\u{00B0}");
    hourly[7] = sample("2024-01-01T07:00", "25.5\u{00B0}");
    let f = forecast_with(hourly);
    let s = project(&f, ChartWindow::Daily).unwrap();
    // floor(-3.2 - 5) = -9, ceil(25.5 + 5) = 31
    assert_eq!(s.y_min, -9);
    assert_eq!(s.y_max, 31);
    assert_eq!(s.y_labels, ["-9", "1", "11", "21", "31"]);
}

#[test]
fn tick_labels_round_half_to_even() {
    // Bounds 0..10: quarter values 0, 2.5, 5, 7.5, 10.
    let f = forecast_with(flat_hourly(336, "5\u{00B0}"));
    let s = project(&f, ChartWindow::Daily).unwrap();
    assert_eq!(s.y_min, 0);
    assert_eq!(s.y_max, 10);
    assert_eq!(s.y_labels, ["0", "2", "5", "8", "10"]);
}

#[test]
fn malformed_temperature_fails_projection() {
    let mut hourly = flat_hourly(336, "5\u{00B0}");
    hourly[10] = sample("2024-01-01T10:00", "abc");
    let f = forecast_with(hourly);
    assert_eq!(project(&f, ChartWindow::Daily).err(), Some(ChartError::MalformedSample));
}

#[test]
fn malformed_timestamp_fails_the_daily_projection() {
    let mut hourly = flat_hourly(336, "5\u{00B0}");
    hourly[2] = sample("2024-01-01 02:00", "5\u{00B0}");
    let f = forecast_with(hourly);
    assert_eq!(project(&f, ChartWindow::Daily).err(), Some(ChartError::MalformedSample));
    // The fortnight window ignores timestamps.
    assert!(project(&f, ChartWindow::Fortnight).is_ok());
}

#[test]
fn hours_parse_from_timestamps() {
    assert_eq!(parse_hour("2024-01-01T14:00"), Some(14));
    assert_eq!(parse_hour("2024-01-01T07"), Some(7));
    assert_eq!(parse_hour("2024-01-01 14:00"), None);
    assert_eq!(parse_hour("2024-01-01T:00"), None);
}

#[test]
fn fortnight_labels_shorten_dates_to_month_and_day() {
    assert_eq!(mmdd_label_of(&"2024-01-05".to_string()), "01-05");
    assert_eq!(mmdd_label_of(&"odd".to_string()), "odd");
    assert_eq!(mmdd_label_of(&"2024-01-05-xx".to_string()), "2024-01-05-xx");
}
