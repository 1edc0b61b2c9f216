//! Deterministic viewport partitioning: the fixed tree of percentage and
//! ratio splits that places every pane of the dashboard.
//!
//! Everything here is a pure function of the viewport rectangle alone.  A
//! percentage split gives the first child `len * p / 100` cells rounded
//! down and the remainder to the second; a ratio split gives the first
//! child `len * num / den` rounded down.  A degenerate (zero-size)
//! viewport yields a correctly degenerate tree of empty regions.

use vstd::prelude::*;

verus! {

/// A screen rectangle in terminal cells.
#[derive(Clone, Copy, PartialEq, Eq, Structural, Debug)]
pub struct ScreenRegion {
    pub x: u16,
    pub y: u16,
    pub width: u16,
    pub height: u16,
}

/// The rectangle stays within the coordinate space.
pub open spec fn region_wf(r: ScreenRegion) -> bool {
    &&& r.x + r.width <= u16::MAX
    &&& r.y + r.height <= u16::MAX
}

/// Decides well-formedness of a rectangle at run time.
pub fn region_wf_check(r: ScreenRegion) -> (b: bool)
    ensures
        b == region_wf(r),
{
    (r.x as u32) + (r.width as u32) <= 65535 && (r.y as u32) + (r.height as u32) <= 65535
}

/// The share a percentage split grants its first child.
pub open spec fn percent_of(len: int, p: int) -> int {
    len * p / 100
}

/// The share a ratio split grants its first child.
pub open spec fn ratio_of(len: int, num: int, den: int) -> int {
    len * num / den
}

proof fn lemma_share_bounds(len: int, num: int, den: int)
    requires
        0 <= len,
        0 <= num <= den,
        1 <= den,
    ensures
        0 <= len * num / den <= len,
{
    assert(0 <= len * num / den <= len) by (nonlinear_arith)
        requires
            0 <= len,
            0 <= num <= den,
            1 <= den,
    ;
}

/// Splits a region into a top and bottom band, the top getting the given
/// percentage of the height, rounded down.
pub fn vsplit_percent(r: ScreenRegion, p: u16) -> (bands: (ScreenRegion, ScreenRegion))
    requires
        region_wf(r),
        p <= 100,
    ensures
        bands.0.height as int == percent_of(r.height as int, p as int),
        bands.0.x == r.x && bands.0.y == r.y && bands.0.width == r.width,
        bands.1.x == r.x && bands.1.width == r.width,
        bands.1.y == r.y + bands.0.height,
        bands.0.height + bands.1.height == r.height,
        region_wf(bands.0) && region_wf(bands.1),
{
    proof {
        lemma_share_bounds(r.height as int, p as int, 100);
    }
    let top_h: u16 = ((r.height as u32) * (p as u32) / 100) as u16;
    let top = ScreenRegion { x: r.x, y: r.y, width: r.width, height: top_h };
    let bottom = ScreenRegion {
        x: r.x,
        y: r.y + top_h,
        width: r.width,
        height: r.height - top_h,
    };
    (top, bottom)
}

/// Splits a region into a top and bottom band, the top getting
/// `num / den` of the height, rounded down.
pub fn vsplit_ratio(r: ScreenRegion, num: u16, den: u16) -> (bands: (ScreenRegion, ScreenRegion))
    requires
        region_wf(r),
        1 <= den,
        num <= den,
    ensures
        bands.0.height as int == ratio_of(r.height as int, num as int, den as int),
        bands.0.x == r.x && bands.0.y == r.y && bands.0.width == r.width,
        bands.1.x == r.x && bands.1.width == r.width,
        bands.1.y == r.y + bands.0.height,
        bands.0.height + bands.1.height == r.height,
        region_wf(bands.0) && region_wf(bands.1),
{
    proof {
        lemma_share_bounds(r.height as int, num as int, den as int);
        assert((r.height as int) * (num as int) <= 0xffff * 0xffff) by (nonlinear_arith)
            requires
                r.height as int <= 0xffff,
                0 <= num as int <= 0xffff,
        ;
    }
    let top_h: u16 = ((r.height as u64) * (num as u64) / (den as u64)) as u16;
    let top = ScreenRegion { x: r.x, y: r.y, width: r.width, height: top_h };
    let bottom = ScreenRegion {
        x: r.x,
        y: r.y + top_h,
        width: r.width,
        height: r.height - top_h,
    };
    (top, bottom)
}

/// Splits a region into a left and right column, the left getting
/// `num / den` of the width, rounded down.
pub fn hsplit_ratio(r: ScreenRegion, num: u16, den: u16) -> (cols: (ScreenRegion, ScreenRegion))
    requires
        region_wf(r),
        1 <= den,
        num <= den,
    ensures
        cols.0.width as int == ratio_of(r.width as int, num as int, den as int),
        cols.0.x == r.x && cols.0.y == r.y && cols.0.height == r.height,
        cols.1.y == r.y && cols.1.height == r.height,
        cols.1.x == r.x + cols.0.width,
        cols.0.width + cols.1.width == r.width,
        region_wf(cols.0) && region_wf(cols.1),
{
    proof {
        lemma_share_bounds(r.width as int, num as int, den as int);
        assert((r.width as int) * (num as int) <= 0xffff * 0xffff) by (nonlinear_arith)
            requires
                r.width as int <= 0xffff,
                0 <= num as int <= 0xffff,
        ;
    }
    let left_w: u16 = ((r.width as u64) * (num as u64) / (den as u64)) as u16;
    let left = ScreenRegion { x: r.x, y: r.y, width: left_w, height: r.height };
    let right = ScreenRegion {
        x: r.x + left_w,
        y: r.y,
        width: r.width - left_w,
        height: r.height,
    };
    (left, right)
}

/// The interior of a region drawn with a one-cell border on every side
/// and one extra padding row at the top; a region too small for the
/// frame collapses to an empty one.
pub open spec fn inner_of(r: ScreenRegion) -> ScreenRegion {
    ScreenRegion {
        x: if r.width >= 2 {
            (r.x + 1) as u16
        } else {
            r.x
        },
        y: if r.height >= 3 {
            (r.y + 2) as u16
        } else {
            r.y
        },
        width: if r.width >= 2 {
            (r.width - 2) as u16
        } else {
            0
        },
        height: if r.height >= 3 {
            (r.height - 3) as u16
        } else {
            0
        },
    }
}

/// Computes the interior of the framed, top-padded forecast band.
pub fn inner_region(r: ScreenRegion) -> (inner: ScreenRegion)
    requires
        region_wf(r),
    ensures
        inner == inner_of(r),
        region_wf(inner),
{
    let x = if r.width >= 2 {
        r.x + 1
    } else {
        r.x
    };
    let y = if r.height >= 3 {
        r.y + 2
    } else {
        r.y
    };
    let width = if r.width >= 2 {
        r.width - 2
    } else {
        0
    };
    let height = if r.height >= 3 {
        r.height - 3
    } else {
        0
    };
    ScreenRegion { x, y, width, height }
}

/// The computed pane rectangles of one frame.
pub struct DashboardLayout {
    /// The quick-stats table pane, top-left.
    pub quick_stats: ScreenRegion,
    /// The moon-phase pane, beside the quick stats.
    pub moon_pane: ScreenRegion,
    /// The fortnight scatter chart, below the stats strip.
    pub fortnight_chart: ScreenRegion,
    /// The daily scatter chart, top-right.
    pub daily_chart: ScreenRegion,
    /// The logo pane, below the daily chart.
    pub logo: ScreenRegion,
    /// The framed forecast band along the bottom.
    pub forecast: ScreenRegion,
    /// The interior of the forecast band's frame.
    pub forecast_inner: ScreenRegion,
    /// The four equal day-card slots inside the forecast band.
    pub day_cards: Vec<ScreenRegion>,
}

/// The fixed visual contract: how every pane is positioned and sized as a
/// function of the viewport alone.
pub open spec fn layout_matches(l: DashboardLayout, v: ScreenRegion) -> bool {
    let xx = v.x as int;
    let yy = v.y as int;
    let w = v.width as int;
    let h = v.height as int;
    let th = percent_of(h, 70);  // today band height
    let lw = ratio_of(w, 2, 3);  // left column width
    let ih = percent_of(th, 40);  // stats strip height
    let dh = ratio_of(th, 3, 4);  // daily chart height
    let qw = ratio_of(lw, 1, 2);  // quick-stats width
    let inner = inner_of(l.forecast);
    let iq = inner.width as int / 4;
    let ir = inner.width as int % 4;
    &&& region_is(l.quick_stats, xx, yy, qw, ih)
    &&& region_is(l.moon_pane, xx + qw, yy, lw - qw, ih)
    &&& region_is(l.fortnight_chart, xx, yy + ih, lw, th - ih)
    &&& region_is(l.daily_chart, xx + lw, yy, w - lw, dh)
    &&& region_is(l.logo, xx + lw, yy + dh, w - lw, th - dh)
    &&& region_is(l.forecast, xx, yy + th, w, h - th)
    &&& l.forecast_inner == inner
    &&& l.day_cards@.len() == 4
    &&& region_is(
        l.day_cards@[0],
        inner.x as int,
        inner.y as int,
        iq + if 0 < ir {
            1 as int
        } else {
            0 as int
        },
        inner.height as int,
    )
    &&& region_is(
        l.day_cards@[1],
        l.day_cards@[0].x + l.day_cards@[0].width,
        inner.y as int,
        iq + if 1 < ir {
            1 as int
        } else {
            0 as int
        },
        inner.height as int,
    )
    &&& region_is(
        l.day_cards@[2],
        l.day_cards@[1].x + l.day_cards@[1].width,
        inner.y as int,
        iq + if 2 < ir {
            1 as int
        } else {
            0 as int
        },
        inner.height as int,
    )
    &&& region_is(l.day_cards@[3], l.day_cards@[2].x + l.day_cards@[2].width, inner.y as int, iq, inner.height as int)
}

/// The rectangle has exactly these coordinates and sizes.
pub open spec fn region_is(r: ScreenRegion, x: int, y: int, width: int, height: int) -> bool {
    r.x == x && r.y == y && r.width == width && r.height == height
}

/// Partitions the viewport into the dashboard's fixed tree of panes.
pub fn partition(viewport: ScreenRegion) -> (l: DashboardLayout)
    requires
        region_wf(viewport),
    ensures
        layout_matches(l, viewport),
        region_wf(l.quick_stats) && region_wf(l.moon_pane) && region_wf(l.fortnight_chart),
        region_wf(l.daily_chart) && region_wf(l.logo) && region_wf(l.forecast),
        region_wf(l.forecast_inner),
        forall|i: int| 0 <= i < 4 ==> region_wf(#[trigger] l.day_cards@[i]),
{
    let (today_area, forecast_area) = vsplit_percent(viewport, 70);
    let (top_left, top_right) = hsplit_ratio(today_area, 2, 3);
    let (today_info, fortnight_chart) = vsplit_percent(top_left, 40);
    let (daily_chart, logo) = vsplit_ratio(top_right, 3, 4);
    let (quick_stats, moon_pane) = hsplit_ratio(today_info, 1, 2);
    let forecast_inner = inner_region(forecast_area);
    let q = forecast_inner.width / 4;
    let rem = forecast_inner.width % 4;
    let w0 = if rem >= 1 {
        q + 1
    } else {
        q
    };
    let w1 = if rem >= 2 {
        q + 1
    } else {
        q
    };
    let w2 = if rem >= 3 {
        q + 1
    } else {
        q
    };
    let x0 = forecast_inner.x;
    let x1 = x0 + w0;
    let x2 = x1 + w1;
    let x3 = x2 + w2;
    let iy = forecast_inner.y;
    let ih = forecast_inner.height;
    let mut day_cards: Vec<ScreenRegion> = Vec::new();
    day_cards.push(ScreenRegion { x: x0, y: iy, width: w0, height: ih });
    day_cards.push(ScreenRegion { x: x1, y: iy, width: w1, height: ih });
    day_cards.push(ScreenRegion { x: x2, y: iy, width: w2, height: ih });
    day_cards.push(ScreenRegion { x: x3, y: iy, width: q, height: ih });
    DashboardLayout {
        quick_stats,
        moon_pane,
        fortnight_chart,
        daily_chart,
        logo,
        forecast: forecast_area,
        forecast_inner,
        day_cards,
    }
}

/// Law: the four day-card slots are equal in width up to one cell, they
/// tile the forecast interior exactly, and they do not overlap.
pub proof fn lemma_day_cards_tile(l: DashboardLayout, v: ScreenRegion)
    requires
        layout_matches(l, v),
    ensures
        forall|i: int, j: int|
            0 <= i < 4 && 0 <= j < 4 ==> (#[trigger] l.day_cards@[i]).width
                - (#[trigger] l.day_cards@[j]).width <= 1,
        forall|i: int|
            0 <= i < 4 ==> l.forecast_inner.width as int / 4 <= (
            #[trigger] l.day_cards@[i]).width <= l.forecast_inner.width as int / 4 + 1,
        l.day_cards@[0].width + l.day_cards@[1].width + l.day_cards@[2].width
            + l.day_cards@[3].width == l.forecast_inner.width,
        l.day_cards@[0].x == l.forecast_inner.x,
        forall|i: int, j: int|
            0 <= i < j < 4 ==> (#[trigger] l.day_cards@[j]).x >= (#[trigger] l.day_cards@[i]).x
                + l.day_cards@[i].width,
{
    let iw = l.forecast_inner.width as int;
    assert(iw / 4 * 4 + iw % 4 == iw);
}

/// Law: the two top-level bands tile the viewport vertically, and the
/// two columns of the today band tile it horizontally.
pub proof fn lemma_bands_tile(l: DashboardLayout, v: ScreenRegion)
    requires
        layout_matches(l, v),
    ensures
        l.forecast.y == v.y + percent_of(v.height as int, 70),
        percent_of(v.height as int, 70) + l.forecast.height == v.height,
        l.fortnight_chart.width + l.daily_chart.width == v.width,
        l.daily_chart.x == v.x + l.fortnight_chart.width,
{
}

} // verus!
