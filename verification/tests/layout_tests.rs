use raijin::layout::{partition, ScreenRegion};

fn region(x: u16, y: u16, width: u16, height: u16) -> ScreenRegion {
    ScreenRegion { x, y, width, height }
}

#[test]
fn hundred_by_hundred_viewport_partitions_exactly() {
    let l = partition(region(0, 0, 100, 100));
    assert_eq!(l.quick_stats, region(0, 0, 33, 28));
    assert_eq!(l.moon_pane, region(33, 0, 33, 28));
    assert_eq!(l.fortnight_chart, region(0, 28, 66, 42));
    assert_eq!(l.daily_chart, region(66, 0, 34, 52));
    assert_eq!(l.logo, region(66, 52, 34, 18));
    assert_eq!(l.forecast, region(0, 70, 100, 30));
    assert_eq!(l.forecast_inner, region(1, 72, 98, 27));
    assert_eq!(l.day_cards.len(), 4);
    assert_eq!(l.day_cards[0], region(1, 72, 25, 27));
    assert_eq!(l.day_cards[1], region(26, 72, 25, 27));
    assert_eq!(l.day_cards[2], region(51, 72, 24, 27));
    assert_eq!(l.day_cards[3], region(75, 72, 24, 27));
}

#[test]
fn day_cards_tile_their_strip() {
    for (w, h) in [(80u16, 24u16), (81, 25), (82, 26), (83, 27), (5, 5), (200, 60)] {
        let l = partition(region(0, 0, w, h));
        let total: u16 = l.day_cards.iter().map(|c| c.width).sum();
        assert_eq!(total, l.forecast_inner.width);
        assert_eq!(l.day_cards[0].x, l.forecast_inner.x);
        for i in 0..3 {
            assert_eq!(l.day_cards[i + 1].x, l.day_cards[i].x + l.day_cards[i].width);
        }
        let q = l.forecast_inner.width / 4;
        for c in &l.day_cards {
            assert!(c.width == q || c.width == q + 1);
        }
    }
}

#[test]
fn zero_viewport_collapses_to_empty_regions() {
    let l = partition(region(0, 0, 0, 0));
    assert_eq!(l.forecast, region(0, 0, 0, 0));
    assert_eq!(l.forecast_inner, region(0, 0, 0, 0));
    assert_eq!(l.quick_stats, region(0, 0, 0, 0));
    for c in &l.day_cards {
        assert_eq!(c.width, 0);
        assert_eq!(c.height, 0);
    }
}

#[test]
fn bands_tile_the_viewport() {
    let l = partition(region(3, 7, 91, 53));
    assert_eq!(l.forecast.y, 7 + l.fortnight_chart.y - 7 + l.fortnight_chart.height);
    assert_eq!(l.forecast.height + l.forecast.y - 7, 53);
    assert_eq!(l.fortnight_chart.width + l.daily_chart.width, 91);
    assert_eq!(l.daily_chart.x, 3 + l.fortnight_chart.width);
}
