use raijin::input::quit_requested;
use raijin::layout::ScreenRegion;
use raijin::normalize::{CurrentConditions, DailyPeriod, Forecast, HourlySample};
use raijin::render::{render_frame, weather_card};
use raijin::units::Temp;
use raijin::url::{build_forecast_url, build_moon_url};

fn period(date: &str, weekday: &str) -> DailyPeriod {
    DailyPeriod {
        date: date.to_string(),
        weekday: weekday.to_string(),
        weather: "Clear".to_string(),
        temperature_max: "10\u{00B0}".to_string(),
        temperature_min: "1.5\u{00B0}".to_string(),
        apparent_temperature_max: "9.5\u{00B0}".to_string(),
        apparent_temperature_min: "1\u{00B0}".to_string(),
        precipitation_probability: "5%".to_string(),
    }
}

fn full_forecast() -> Forecast {
    let mut periods = Vec::new();
    for day in 1..15 {
        periods.push(period(&format!("2024-01-{:02}", day), "Monday"));
    }
    let mut hourly = Vec::new();
    for i in 0..336 {
        hourly.push(HourlySample {
            datetime: format!("2024-01-{:02}T{:02}:00", i / 24 + 1, i % 24),
            temperature: "7.1\u{00B0}".to_string(),
            weather: "Clear".to_string(),
        });
    }
    Forecast {
        periods,
        hourly,
        current: CurrentConditions {
            temperature: Temp { tenths: 71 },
            apparent_temperature: Temp { tenths: 65 },
            weather_code: 0,
        },
    }
}

#[test]
fn card_carries_title_and_rows() {
    let c = weather_card(&period("2024-01-02", "Tuesday"));
    assert_eq!(c.title, " (Tuesday) 2024-01-02 ");
    assert_eq!(c.rows.len(), 6);
    assert_eq!(c.rows[0], ("High:".to_string(), "10\u{00B0}".to_string()));
    assert_eq!(c.rows[1], ("Apparent High:".to_string(), "9.5\u{00B0}".to_string()));
    assert_eq!(c.rows[4], ("Weather:".to_string(), "Clear".to_string()));
    assert_eq!(c.rows[5], ("Chance of Rain:".to_string(), "5%".to_string()));
}

#[test]
fn frame_composes_all_panes() {
    let f = full_forecast();
    let viewport = ScreenRegion { x: 0, y: 0, width: 120, height: 40 };
    let m = match render_frame(&f, viewport) {
        Ok(m) => m,
        Err(_) => panic!("frame should compose"),
    };
    assert_eq!(m.right_now.len(), 6);
    assert_eq!(m.right_now[0], ("Current Temp:".to_string(), "7.1\u{00B0}".to_string()));
    assert_eq!(m.right_now[1], ("Feels Like:".to_string(), "6.5\u{00B0}".to_string()));
    assert_eq!(m.cards.len(), 4);
    // The cards show days one through four, not day zero.
    assert_eq!(m.cards[0].title, " (Monday) 2024-01-02 ");
    assert_eq!(m.cards[3].title, " (Monday) 2024-01-05 ");
    assert_eq!(m.daily_chart.points.len(), 24);
    assert_eq!(m.fortnight_chart.points.len(), 336);
    assert_eq!(m.layout.forecast.y, 28);
}

#[test]
fn frame_fails_on_a_malformed_sample() {
    let mut f = full_forecast();
    f.hourly[0].temperature = "?".to_string();
    let viewport = ScreenRegion { x: 0, y: 0, width: 120, height: 40 };
    assert!(render_frame(&f, viewport).is_err());
}

#[test]
fn quit_key_is_q_alone() {
    assert!(quit_requested('q'));
    assert!(!quit_requested('Q'));
    assert!(!quit_requested('x'));
}

#[test]
fn forecast_url_encodes_the_time_zone() {
    let url = build_forecast_url("35.9626444", "-83.9167239", "America/New_York");
    assert!(url.starts_with("https://api.open-meteo.com/v1/forecast?latitude=35.9626444&longitude=-83.9167239&"));
    assert!(url.contains("&timezone=America%2FNew_York&forecast_days=14"));
    assert!(url.contains("&daily=temperature_2m_max,temperature_2m_min,"));
}

#[test]
fn moon_url_takes_the_date_as_given() {
    assert_eq!(
        build_moon_url("2024-01-01"),
        "https://api.viewbits.com/v1/moonphase?startdate=2024-01-01"
    );
}
