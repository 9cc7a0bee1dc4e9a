use vstd::prelude::*;
use crate::stats::floor_div;
use crate::atr::HistoricalBar;
use crate::types::PRICE_SCALE;

verus! {

/// Largest magnitude of a viewport coordinate; results beyond it are
/// clamped to it.
pub const COORD_LIMIT: i64 = 10_000_000_000_000;

/// Narrowest view, in bars (fixed-point).
pub const MIN_ZOOM_BARS: i64 = 5 * PRICE_SCALE;

/// Widest view, in bars (fixed-point).
pub const MAX_ZOOM_BARS: i64 = 500 * PRICE_SCALE;

/// Default extent of each axis: 100 (fixed-point).
pub const DEFAULT_EXTENT: i64 = 100 * PRICE_SCALE;

/// Bars shown after a reset, at most.
pub const RESET_BARS: i64 = 100;

/// The visible part of the chart: `x` is a bar index and `y` a price, both
/// fixed-point, so a bar index may be fractional.
#[derive(Debug, Clone, Copy, PartialEq, Eq, Structural)]
pub struct ChartViewport {
    pub x_min: i64,
    pub x_max: i64,
    pub y_min: i64,
    pub y_max: i64,
}

/// The value, clamped to the coordinate range.
pub open spec fn clamp_coord(v: int) -> int {
    if v < -COORD_LIMIT { -COORD_LIMIT as int } else if v > COORD_LIMIT { COORD_LIMIT as int } else { v }
}

/// Every coordinate lies within the coordinate range.
pub open spec fn in_coord_range(v: ChartViewport) -> bool {
    &&& -COORD_LIMIT <= v.x_min <= COORD_LIMIT
    &&& -COORD_LIMIT <= v.x_max <= COORD_LIMIT
    &&& -COORD_LIMIT <= v.y_min <= COORD_LIMIT
    &&& -COORD_LIMIT <= v.y_max <= COORD_LIMIT
}

/// Every bound moved by `(dx, dy)`.
pub open spec fn panned(v: ChartViewport, dx: int, dy: int) -> ChartViewport {
    ChartViewport {
        x_min: clamp_coord(v.x_min + dx) as i64,
        x_max: clamp_coord(v.x_max + dx) as i64,
        y_min: clamp_coord(v.y_min + dy) as i64,
        y_max: clamp_coord(v.y_max + dy) as i64,
    }
}

/// One axis scaled by `factor` (fixed-point) about `center` (taken within
/// the coordinate range), keeping the share of the span that lies left of
/// (below) the center; an empty or reversed span stays as it is.
pub open spec fn zoomed_axis(lo: int, hi: int, factor: int, center: int) -> (int, int) {
    let c = clamp_coord(center);
    let span = hi - lo;
    if span <= 0 {
        (lo, hi)
    } else {
        let new_span = span * PRICE_SCALE / factor;
        let new_lo = c - new_span * (c - lo) / span;
        (clamp_coord(new_lo), clamp_coord(new_lo + new_span))
    }
}

/// The viewport scaled by `factor` about `(cx, cy)`.
pub open spec fn zoomed(v: ChartViewport, factor: int, cx: int, cy: int) -> ChartViewport {
    let x = zoomed_axis(v.x_min as int, v.x_max as int, factor, cx);
    let y = zoomed_axis(v.y_min as int, v.y_max as int, factor, cy);
    ChartViewport { x_min: x.0 as i64, x_max: x.1 as i64, y_min: y.0 as i64, y_max: y.1 as i64 }
}

/// Greatest `x` for `data_length` bars.
pub open spec fn max_x(data_length: int) -> int {
    (data_length - 1) * PRICE_SCALE
}

/// The x bounds with the span brought into the zoom limits about its
/// center.
pub open spec fn span_limited(lo: int, hi: int) -> (int, int) {
    let center = (lo + hi) / 2;
    if hi - lo < MIN_ZOOM_BARS {
        (center - MIN_ZOOM_BARS / 2, center + MIN_ZOOM_BARS / 2)
    } else if hi - lo > MAX_ZOOM_BARS {
        (center - MAX_ZOOM_BARS / 2, center + MAX_ZOOM_BARS / 2)
    } else {
        (lo, hi)
    }
}

/// The x bounds shifted right so they start at 0 or later.
pub open spec fn shifted_right(lo: int, hi: int) -> (int, int) {
    if lo < 0 { (0, hi - lo) } else { (lo, hi) }
}

/// The x bounds shifted left so they end at `top` or earlier; the start
/// stops at 0.
pub open spec fn shifted_left(lo: int, hi: int, top: int) -> (int, int) {
    if hi > top {
        let start = lo - (hi - top);
        (if start < 0 { 0 } else { start }, top)
    } else {
        (lo, hi)
    }
}

/// The viewport kept within the data: span within the zoom limits, then
/// moved (never shrunk) inside `[0, max_x]`, the start stopping at 0.
/// Without data nothing changes.
pub open spec fn constrained(v: ChartViewport, data_length: int) -> ChartViewport {
    if data_length == 0 {
        v
    } else {
        let a = span_limited(v.x_min as int, v.x_max as int);
        let b = shifted_right(a.0, a.1);
        let c = shifted_left(b.0, b.1, max_x(data_length));
        ChartViewport { x_min: c.0 as i64, x_max: c.1 as i64, ..v }
    }
}

/// The viewport shows between the zoom limits of bars, all within the
/// data.
pub open spec fn viewport_ok(v: ChartViewport, data_length: int) -> bool {
    &&& 0 <= v.x_min < v.x_max <= max_x(data_length)
    &&& MIN_ZOOM_BARS <= v.x_max - v.x_min <= MAX_ZOOM_BARS
}

/// The span of the view after a zoom by `factor` (fixed-point).
pub open spec fn zoom_span(v: ChartViewport, factor: int) -> int {
    (v.x_max - v.x_min) * PRICE_SCALE / factor
}

/// The x bounds for `data_length` bars after a reset.
pub open spec fn reset_x_max(data_length: int) -> int {
    if data_length - 1 < RESET_BARS { max_x(data_length) } else { RESET_BARS * PRICE_SCALE }
}

/// The view after a reset over `data_length` bars: from bar 0, at most 100
/// bars wide; without data the view stays.
pub open spec fn reset_view(v: ChartViewport, data_length: int) -> ChartViewport {
    if data_length > 0 {
        ChartViewport { x_min: 0, x_max: reset_x_max(data_length) as i64, ..v }
    } else {
        v
    }
}

fn clamp_wide(v: i128) -> (r: i64)
    ensures
        r == clamp_coord(v as int),
{
    if v < -(COORD_LIMIT as i128) {
        -COORD_LIMIT
    } else if v > COORD_LIMIT as i128 {
        COORD_LIMIT
    } else {
        v as i64
    }
}

fn zoom_axis(lo: i64, hi: i64, factor: i64, c: i64) -> (r: (i64, i64))
    requires
        factor > 0,
        -COORD_LIMIT <= lo <= COORD_LIMIT,
        -COORD_LIMIT <= hi <= COORD_LIMIT,
    ensures
        r.0 == zoomed_axis(lo as int, hi as int, factor as int, c as int).0,
        r.1 == zoomed_axis(lo as int, hi as int, factor as int, c as int).1,
{
    let span = hi as i128 - lo as i128;
    if span <= 0 {
        return (lo, hi);
    }
    assert(0 <= span * PRICE_SCALE <= 2 * COORD_LIMIT * PRICE_SCALE) by (nonlinear_arith)
        requires 0 < span <= 2 * COORD_LIMIT;
    let new_span = floor_div(span * PRICE_SCALE as i128, factor as i128);
    assert(0 <= new_span <= 2 * COORD_LIMIT * PRICE_SCALE) by (nonlinear_arith)
        requires new_span == (span * PRICE_SCALE) / (factor as int), factor >= 1,
            0 <= span * PRICE_SCALE <= 2 * COORD_LIMIT * PRICE_SCALE;
    let center = clamp_wide(c as i128) as i128;
    let offset = center - lo as i128;
    assert(-0x10_0000_0000_0000_0000_0000_0000_0000 <= new_span * offset <= 0x10_0000_0000_0000_0000_0000_0000_0000)
        by (nonlinear_arith)
        requires 0 <= new_span <= 2 * COORD_LIMIT * PRICE_SCALE,
            -2 * COORD_LIMIT <= offset <= 2 * COORD_LIMIT;
    let moved = floor_div(new_span * offset, span);
    assert(-0x10_0000_0000_0000_0000_0000_0000_0000 <= moved <= 0x10_0000_0000_0000_0000_0000_0000_0000)
        by (nonlinear_arith)
        requires moved == (new_span * offset) as int / span as int, span >= 1,
            -0x10_0000_0000_0000_0000_0000_0000_0000 <= new_span * offset <= 0x10_0000_0000_0000_0000_0000_0000_0000;
    let new_lo = center - moved;
    (clamp_wide(new_lo), clamp_wide(new_lo + new_span))
}

/// Lowest low of the bars.
pub open spec fn lowest_low(bars: Seq<HistoricalBar>) -> int
    decreases bars.len(),
{
    if bars.len() <= 1 {
        if bars.len() == 0 { 0 } else { bars[0].low as int }
    } else {
        let rest = lowest_low(bars.drop_last());
        if bars.last().low < rest { bars.last().low as int } else { rest }
    }
}

/// Highest high of the bars.
pub open spec fn highest_high(bars: Seq<HistoricalBar>) -> int
    decreases bars.len(),
{
    if bars.len() <= 1 {
        if bars.len() == 0 { 0 } else { bars[0].high as int }
    } else {
        let rest = highest_high(bars.drop_last());
        if bars.last().high > rest { bars.last().high as int } else { rest }
    }
}

/// The viewport over all bars, prices padded by `padding_percent`
/// (fixed-point) of their range on each side.
pub open spec fn fitted(bars: Seq<HistoricalBar>, padding_percent: int) -> ChartViewport {
    let lo = lowest_low(bars);
    let hi = highest_high(bars);
    let pad = (hi - lo) * padding_percent / (100 * PRICE_SCALE as int);
    ChartViewport {
        x_min: 0,
        x_max: clamp_coord(max_x(bars.len() as int)) as i64,
        y_min: clamp_coord(lo - pad) as i64,
        y_max: clamp_coord(hi + pad) as i64,
    }
}

/// The x bounds moved inside `[0, top]` keeping their span where it fits,
/// then widened to five bars at least.
pub open spec fn x_within(lo: int, hi: int, top: int) -> (int, int) {
    let span = hi - lo;
    let a = if lo < 0 { (0, if span < top { span } else { top }) } else { (lo, hi) };
    let b = if a.1 > top { (if top - span < 0 { 0 } else { top - span }, top) } else { a };
    if b.1 - b.0 < MIN_ZOOM_BARS { (b.0, b.0 + MIN_ZOOM_BARS) } else { b }
}

/// The viewport kept within `data_length` bars and within the price range
/// `[min_y, max_y]` padded by a tenth of its height.
pub open spec fn constrained_to_data(v: ChartViewport, data_length: int, min_y: int, max_y: int) -> ChartViewport {
    let x = x_within(v.x_min as int, v.x_max as int, max_x(data_length));
    let pad = (max_y - min_y) / 10;
    ChartViewport {
        x_min: clamp_coord(x.0) as i64,
        x_max: clamp_coord(x.1) as i64,
        y_min: (if v.y_min < min_y - pad { clamp_coord(min_y - pad) } else { v.y_min as int }) as i64,
        y_max: (if v.y_max > max_y + pad { clamp_coord(max_y + pad) } else { v.y_max as int }) as i64,
    }
}

fn bar_extremes(bars: &Vec<HistoricalBar>) -> (r: (i64, i64))
    requires
        bars@.len() >= 1,
    ensures
        r.0 == lowest_low(bars@),
        r.1 == highest_high(bars@),
{
    let mut lo = bars[0].low;
    let mut hi = bars[0].high;
    let mut i: usize = 1;
    assert(bars@.subrange(0, 1).len() == 1);
    while i < bars.len()
        invariant
            1 <= i <= bars@.len(),
            lo == lowest_low(bars@.subrange(0, i as int)),
            hi == highest_high(bars@.subrange(0, i as int)),
        decreases bars@.len() - i,
    {
        assert(bars@.subrange(0, i as int + 1).drop_last() =~= bars@.subrange(0, i as int));
        if bars[i].low < lo {
            lo = bars[i].low;
        }
        if bars[i].high > hi {
            hi = bars[i].high;
        }
        i = i + 1;
    }
    assert(bars@.subrange(0, i as int) =~= bars@);
    (lo, hi)
}

impl ChartViewport {
    /// The view over all `bars`, with prices padded by `padding_percent`
    /// (fixed-point) of their range; the default view when there are none.
    pub fn fit_to_data(bars: &Vec<HistoricalBar>, padding_percent: i64) -> (r: ChartViewport)
        ensures
            bars@.len() == 0 ==> r == ChartViewport::default_spec(),
            bars@.len() > 0 ==> r == fitted(bars@, padding_percent as int),
    {
        if bars.len() == 0 {
            return ChartViewport::new();
        }
        let (lo, hi) = bar_extremes(bars);
        let height = hi as i128 - lo as i128;
        assert(-0x7FFF_FFFF_FFFF_FFFF_8000_0000_0000_0000 <= height * padding_percent <= 0x7FFF_FFFF_FFFF_FFFF_8000_0000_0000_0000) by (nonlinear_arith)
            requires -0xFFFF_FFFF_FFFF_FFFF <= height <= 0xFFFF_FFFF_FFFF_FFFF,
                -0x8000_0000_0000_0000 <= padding_percent <= 0x8000_0000_0000_0000;
        let pad = floor_div(height * padding_percent as i128, 100 * PRICE_SCALE as i128);
        assert(-0x7FFF_FFFF_FFFF_FFFF_8000_0000_0000_0000 <= pad <= 0x7FFF_FFFF_FFFF_FFFF_8000_0000_0000_0000) by (nonlinear_arith)
            requires pad == (height * padding_percent) as int / (100 * PRICE_SCALE as int),
                -0x7FFF_FFFF_FFFF_FFFF_8000_0000_0000_0000 <= height * padding_percent <= 0x7FFF_FFFF_FFFF_FFFF_8000_0000_0000_0000;
        let top = (bars.len() as i128 - 1) * PRICE_SCALE as i128;
        ChartViewport {
            x_min: 0,
            x_max: clamp_wide(top),
            y_min: clamp_wide(lo as i128 - pad),
            y_max: clamp_wide(hi as i128 + pad),
        }
    }

    /// The default view.
    pub open spec fn default_spec() -> ChartViewport {
        ChartViewport { x_min: 0, x_max: DEFAULT_EXTENT, y_min: 0, y_max: DEFAULT_EXTENT }
    }

    /// Keeps the view within `data_length` bars, at least five bars wide,
    /// and its prices within `[min_y, max_y]` padded by a tenth of that
    /// height.
    pub fn constrain_to_data(&mut self, data_length: usize, min_y: i64, max_y: i64)
        requires
            in_coord_range(*old(self)),
            data_length <= COORD_LIMIT / PRICE_SCALE,
        ensures
            *final(self) == constrained_to_data(*old(self), data_length as int, min_y as int, max_y as int),
            in_coord_range(*final(self)),
    {
        let top = (data_length as i128 - 1) * PRICE_SCALE as i128;
        let mut lo = self.x_min as i128;
        let mut hi = self.x_max as i128;
        let span = hi - lo;
        if lo < 0 {
            lo = 0;
            hi = if span < top { span } else { top };
        }
        if hi > top {
            lo = if top - span < 0 { 0 } else { top - span };
            hi = top;
        }
        if hi - lo < MIN_ZOOM_BARS as i128 {
            hi = lo + MIN_ZOOM_BARS as i128;
        }
        self.x_min = clamp_wide(lo);
        self.x_max = clamp_wide(hi);
        let pad = floor_div(max_y as i128 - min_y as i128, 10);
        if (self.y_min as i128) < min_y as i128 - pad {
            self.y_min = clamp_wide(min_y as i128 - pad);
        }
        if (self.y_max as i128) > max_y as i128 + pad {
            self.y_max = clamp_wide(max_y as i128 + pad);
        }
    }

    /// Bars 0 to 100, prices 0 to 100.
    pub fn new() -> (r: ChartViewport)
        ensures
            r == ChartViewport::default_spec(),
    {
        ChartViewport { x_min: 0, x_max: DEFAULT_EXTENT, y_min: 0, y_max: DEFAULT_EXTENT }
    }

    /// Scales both spans by `factor` about `(center_x, center_y)`.
    pub fn zoom(&mut self, factor: i64, center_x: i64, center_y: i64)
        requires
            factor > 0,
            in_coord_range(*old(self)),
        ensures
            *final(self) == zoomed(*old(self), factor as int, center_x as int, center_y as int),
            in_coord_range(*final(self)),
    {
        let x = zoom_axis(self.x_min, self.x_max, factor, center_x);
        let y = zoom_axis(self.y_min, self.y_max, factor, center_y);
        self.x_min = x.0;
        self.x_max = x.1;
        self.y_min = y.0;
        self.y_max = y.1;
    }

    /// Moves every bound by `(dx, dy)`.
    pub fn pan(&mut self, dx: i64, dy: i64)
        requires
            in_coord_range(*old(self)),
        ensures
            *final(self) == panned(*old(self), dx as int, dy as int),
            in_coord_range(*final(self)),
    {
        self.x_min = clamp_wide(self.x_min as i128 + dx as i128);
        self.x_max = clamp_wide(self.x_max as i128 + dx as i128);
        self.y_min = clamp_wide(self.y_min as i128 + dy as i128);
        self.y_max = clamp_wide(self.y_max as i128 + dy as i128);
    }
}

/// Zoom and pan over a chart of `data_length` bars.
pub struct ViewportController {
    pub viewport: ChartViewport,
    pub min_zoom_bars: i64,
    pub max_zoom_bars: i64,
    pub data_length: usize,
}

impl ViewportController {
    /// The coordinates are in range, the zoom limits are the library's, and
    /// the data length is bounded.
    pub open spec fn wf(&self) -> bool {
        &&& in_coord_range(self.viewport)
        &&& self.min_zoom_bars == MIN_ZOOM_BARS
        &&& self.max_zoom_bars == MAX_ZOOM_BARS
        &&& self.data_length <= COORD_LIMIT / PRICE_SCALE
    }

    /// A controller showing the first bars (at most 100) of `data_length`.
    pub fn new(data_length: usize) -> (r: ViewportController)
        requires
            data_length <= COORD_LIMIT / PRICE_SCALE,
        ensures
            r.wf(),
            r.data_length == data_length,
            data_length > 0 ==> r.viewport == (ChartViewport {
                x_min: 0,
                x_max: reset_x_max(data_length as int) as i64,
                y_min: 0,
                y_max: DEFAULT_EXTENT,
            }),
            data_length == 0 ==> r.viewport == (ChartViewport { x_min: 0, x_max: DEFAULT_EXTENT, y_min: 0, y_max: DEFAULT_EXTENT }),
            data_length > 5 ==> viewport_ok(r.viewport, data_length as int),
    {
        let viewport = if data_length > 0 {
            ChartViewport { x_min: 0, x_max: Self::reset_span(data_length), y_min: 0, y_max: DEFAULT_EXTENT }
        } else {
            ChartViewport::new()
        };
        ViewportController { viewport, min_zoom_bars: MIN_ZOOM_BARS, max_zoom_bars: MAX_ZOOM_BARS, data_length }
    }

    fn reset_span(data_length: usize) -> (r: i64)
        requires
            0 < data_length <= COORD_LIMIT / PRICE_SCALE,
        ensures
            r == reset_x_max(data_length as int),
    {
        if (data_length as i64) - 1 < RESET_BARS {
            (data_length as i64 - 1) * PRICE_SCALE
        } else {
            RESET_BARS * PRICE_SCALE
        }
    }

    /// Takes a new data length; a view now past the last bar ends there.
    pub fn update_data_length(&mut self, new_length: usize)
        requires
            old(self).wf(),
            new_length <= COORD_LIMIT / PRICE_SCALE,
        ensures
            final(self).wf(),
            final(self).data_length == new_length,
            final(self).viewport == (if old(self).viewport.x_max > max_x(new_length as int) {
                ChartViewport {
                    x_max: (if max_x(new_length as int) < 0 { 0 } else { max_x(new_length as int) }) as i64,
                    ..old(self).viewport
                }
            } else {
                old(self).viewport
            }),
    {
        self.data_length = new_length;
        let top = (new_length as i64 - 1) * PRICE_SCALE;
        if self.viewport.x_max > top {
            self.viewport.x_max = if top < 0 { 0 } else { top };
        }
    }

    fn constrain_viewport(&mut self)
        requires
            old(self).wf(),
        ensures
            final(self).wf(),
            final(self).data_length == old(self).data_length,
            final(self).viewport == constrained(old(self).viewport, old(self).data_length as int),
            old(self).data_length > 5 ==> viewport_ok(final(self).viewport, old(self).data_length as int),
    {
        if self.data_length == 0 {
            return;
        }
        let top = (self.data_length as i64 - 1) * PRICE_SCALE;
        let mut lo = self.viewport.x_min;
        let mut hi = self.viewport.x_max;
        let center = floor_div(lo as i128 + hi as i128, 2) as i64;
        if hi - lo < MIN_ZOOM_BARS {
            lo = center - MIN_ZOOM_BARS / 2;
            hi = center + MIN_ZOOM_BARS / 2;
        } else if hi - lo > MAX_ZOOM_BARS {
            lo = center - MAX_ZOOM_BARS / 2;
            hi = center + MAX_ZOOM_BARS / 2;
        }
        if lo < 0 {
            hi = hi - lo;
            lo = 0;
        }
        if hi > top {
            let start = lo - (hi - top);
            lo = if start < 0 { 0 } else { start };
            hi = top;
        }
        self.viewport.x_min = lo;
        self.viewport.x_max = hi;
    }

    /// Zooms by `factor` (fixed-point) about `(center_x, center_y)` and
    /// keeps the view within the data. A zoom by a factor that is not
    /// positive, or whose span would leave the zoom limits, is ignored.
    pub fn zoom(&mut self, factor: i64, center_x: i64, center_y: i64)
        requires
            old(self).wf(),
        ensures
            final(self).wf(),
            final(self).data_length == old(self).data_length,
            final(self).viewport == (if factor <= 0 || zoom_span(old(self).viewport, factor as int) < MIN_ZOOM_BARS
                || zoom_span(old(self).viewport, factor as int) > MAX_ZOOM_BARS {
                old(self).viewport
            } else {
                constrained(zoomed(old(self).viewport, factor as int, center_x as int, center_y as int), old(self).data_length as int)
            }),
            old(self).data_length > 5 && viewport_ok(old(self).viewport, old(self).data_length as int)
                ==> viewport_ok(final(self).viewport, old(self).data_length as int),
            old(self).data_length > 5 && factor > 0 && MIN_ZOOM_BARS <= zoom_span(old(self).viewport, factor as int) <= MAX_ZOOM_BARS
                ==> viewport_ok(final(self).viewport, old(self).data_length as int),
    {
        if factor <= 0 {
            return;
        }
        let span = self.viewport.x_max as i128 - self.viewport.x_min as i128;
        assert(-2 * COORD_LIMIT * PRICE_SCALE <= span * PRICE_SCALE <= 2 * COORD_LIMIT * PRICE_SCALE) by (nonlinear_arith)
            requires -2 * COORD_LIMIT <= span <= 2 * COORD_LIMIT;
        let new_span = floor_div(span * PRICE_SCALE as i128, factor as i128);
        if new_span < MIN_ZOOM_BARS as i128 || new_span > MAX_ZOOM_BARS as i128 {
            return;
        }
        self.viewport.zoom(factor, center_x, center_y);
        self.constrain_viewport();
    }

    /// Moves the view by `(dx, dy)` and keeps it within the data.
    pub fn pan(&mut self, dx: i64, dy: i64)
        requires
            old(self).wf(),
        ensures
            final(self).wf(),
            final(self).data_length == old(self).data_length,
            final(self).viewport == constrained(panned(old(self).viewport, dx as int, dy as int), old(self).data_length as int),
            old(self).data_length > 5 ==> viewport_ok(final(self).viewport, old(self).data_length as int),
    {
        self.viewport.pan(dx, dy);
        self.constrain_viewport();
    }

    /// Shows the first bars again, at most 100.
    pub fn reset_zoom(&mut self)
        requires
            old(self).wf(),
        ensures
            final(self).wf(),
            final(self).data_length == old(self).data_length,
            final(self).viewport == reset_view(old(self).viewport, old(self).data_length as int),
            old(self).data_length > 5 ==> viewport_ok(final(self).viewport, old(self).data_length as int),
    {
        if self.data_length > 0 {
            self.viewport.x_min = 0;
            self.viewport.x_max = Self::reset_span(self.data_length);
        }
    }

    /// Fits the price axis to `[visible_y_min, visible_y_max]` with ten
    /// percent of its height added on each side.
    pub fn fit_y_axis(&mut self, visible_y_min: i64, visible_y_max: i64)
        requires
            old(self).wf(),
        ensures
            final(self).wf(),
            final(self).data_length == old(self).data_length,
            final(self).viewport == (ChartViewport {
                y_min: clamp_coord(visible_y_min - (visible_y_max - visible_y_min) / 10) as i64,
                y_max: clamp_coord(visible_y_max + (visible_y_max - visible_y_min) / 10) as i64,
                ..old(self).viewport
            }),
    {
        let pad = floor_div(visible_y_max as i128 - visible_y_min as i128, 10);
        self.viewport.y_min = clamp_wide(visible_y_min as i128 - pad);
        self.viewport.y_max = clamp_wide(visible_y_max as i128 + pad);
    }

    /// First and last bar index in view, kept within the data.
    pub fn get_visible_bar_range(&self) -> (r: (usize, usize))
        requires
            self.wf(),
        ensures
            r.0 == (if self.viewport.x_min < 0 { 0 } else { self.viewport.x_min as int / (PRICE_SCALE as int) }),
            r.1 == ({
                let last = if self.data_length == 0 { 0 } else { self.data_length - 1 };
                let up = if self.viewport.x_max <= 0 { 0 } else { (self.viewport.x_max + PRICE_SCALE - 1) / (PRICE_SCALE as int) };
                if up < last { up } else { last }
            }),
    {
        let start: usize = if self.viewport.x_min < 0 { 0 } else { (self.viewport.x_min / PRICE_SCALE) as usize };
        let last: usize = if self.data_length == 0 { 0 } else { self.data_length - 1 };
        let up: usize = if self.viewport.x_max <= 0 {
            0
        } else {
            ((self.viewport.x_max + PRICE_SCALE - 1) / PRICE_SCALE) as usize
        };
        (start, if up < last { up } else { last })
    }

    /// The current view.
    pub fn get_viewport(&self) -> (r: ChartViewport)
        ensures
            r == self.viewport,
    {
        self.viewport
    }

    /// Shows `viewport`, kept within the data.
    pub fn set_viewport(&mut self, viewport: ChartViewport)
        requires
            old(self).wf(),
            in_coord_range(viewport),
        ensures
            final(self).wf(),
            final(self).data_length == old(self).data_length,
            final(self).viewport == constrained(viewport, old(self).data_length as int),
            old(self).data_length > 5 ==> viewport_ok(final(self).viewport, old(self).data_length as int),
    {
        self.viewport = viewport;
        self.constrain_viewport();
    }
}

/// Mouse state over a chart of `chart_width` by `chart_height` pixels.
pub struct ChartInteraction {
    pub is_panning: bool,
    pub last_mouse_x: i64,
    pub last_mouse_y: i64,
    pub chart_width: u32,
    pub chart_height: u32,
}

/// The chart point under screen pixel `(sx, sy)`: x grows to the right from
/// `x_min`, y grows upward from the bottom edge at `y_min`.
pub open spec fn screen_point(v: ChartViewport, sx: int, sy: int, width: int, height: int) -> (int, int) {
    (
        clamp_coord(v.x_min + sx * (v.x_max - v.x_min) / width),
        clamp_coord(v.y_max - sy * (v.y_max - v.y_min) / height),
    )
}

/// The viewport move that drags the chart with the mouse from `(lx, ly)`
/// to `(cx, cy)`.
pub open spec fn drag_delta(v: ChartViewport, lx: int, ly: int, cx: int, cy: int, width: int, height: int) -> (int, int) {
    (
        clamp_coord(-(cx - lx) * (v.x_max - v.x_min) / width),
        clamp_coord((cy - ly) * (v.y_max - v.y_min) / height),
    )
}

fn scaled_offset(pixels: i64, span_from: i64, span_to: i64, size: u32) -> (r: i128)
    requires
        size > 0,
        -COORD_LIMIT <= span_from <= COORD_LIMIT,
        -COORD_LIMIT <= span_to <= COORD_LIMIT,
    ensures
        r == pixels * (span_to - span_from) / (size as int),
        -0x8000_0000_0000_0000_0000_0000_0000 <= r <= 0x8000_0000_0000_0000_0000_0000_0000,
{
    let span = span_to as i128 - span_from as i128;
    assert(-0x7FFF_FFFF_FFFF_FFFF_8000_0000_0000_0000 <= pixels * span <= 0x7FFF_FFFF_FFFF_FFFF_8000_0000_0000_0000)
        by (nonlinear_arith)
        requires -0x8000_0000_0000_0000 <= pixels <= 0x8000_0000_0000_0000,
            -0xFFFF_FFFF_FFFF_FFFF <= span <= 0xFFFF_FFFF_FFFF_FFFF;
    let product = pixels as i128 * span;
    assert(-0x8000_0000_0000_0000_0000_0000_0000 <= product <= 0x8000_0000_0000_0000_0000_0000_0000) by (nonlinear_arith)
        requires -0x8000_0000_0000_0000 <= pixels <= 0x8000_0000_0000_0000,
            -2 * COORD_LIMIT <= span <= 2 * COORD_LIMIT, product == pixels * span;
    let r = floor_div(product, size as i128);
    assert(-0x8000_0000_0000_0000_0000_0000_0000 <= r <= 0x8000_0000_0000_0000_0000_0000_0000) by (nonlinear_arith)
        requires r == product as int / size as int, size >= 1,
            -0x8000_0000_0000_0000_0000_0000_0000 <= product <= 0x8000_0000_0000_0000_0000_0000_0000;
    r
}

impl ChartInteraction {
    /// Not panning, mouse at the origin.
    pub fn new(width: u32, height: u32) -> (r: ChartInteraction)
        ensures
            r == (ChartInteraction { is_panning: false, last_mouse_x: 0, last_mouse_y: 0, chart_width: width, chart_height: height }),
    {
        ChartInteraction { is_panning: false, last_mouse_x: 0, last_mouse_y: 0, chart_width: width, chart_height: height }
    }

    /// The chart point under a screen pixel, rounded down.
    pub fn screen_to_chart(&self, screen_x: i64, screen_y: i64, viewport: &ChartViewport) -> (r: (i64, i64))
        requires
            self.chart_width > 0,
            self.chart_height > 0,
            in_coord_range(*viewport),
        ensures
            r.0 == screen_point(*viewport, screen_x as int, screen_y as int, self.chart_width as int, self.chart_height as int).0,
            r.1 == screen_point(*viewport, screen_x as int, screen_y as int, self.chart_width as int, self.chart_height as int).1,
    {
        let dx = scaled_offset(screen_x, viewport.x_min, viewport.x_max, self.chart_width);
        let dy = scaled_offset(screen_y, viewport.y_min, viewport.y_max, self.chart_height);
        (clamp_wide(viewport.x_min as i128 + dx), clamp_wide(viewport.y_max as i128 - dy))
    }

    /// How far to pan so the chart follows the mouse from its last position
    /// to `(current_x, current_y)`, rounded down.
    pub fn calculate_pan_delta(&self, current_x: i64, current_y: i64, viewport: &ChartViewport) -> (r: (i64, i64))
        requires
            self.chart_width > 0,
            self.chart_height > 0,
            in_coord_range(*viewport),
        ensures
            r.0 == drag_delta(*viewport, self.last_mouse_x as int, self.last_mouse_y as int, current_x as int,
                current_y as int, self.chart_width as int, self.chart_height as int).0,
            r.1 == drag_delta(*viewport, self.last_mouse_x as int, self.last_mouse_y as int, current_x as int,
                current_y as int, self.chart_width as int, self.chart_height as int).1,
    {
        let moved_x = self.last_mouse_x as i128 - current_x as i128;
        let moved_y = current_y as i128 - self.last_mouse_y as i128;
        let span_x = viewport.x_max as i128 - viewport.x_min as i128;
        let span_y = viewport.y_max as i128 - viewport.y_min as i128;
        assert(-0x8000_0000_0000_0000_0000_0000_0000 <= moved_x * span_x <= 0x8000_0000_0000_0000_0000_0000_0000) by (nonlinear_arith)
            requires -0x1_0000_0000_0000_0000 <= moved_x <= 0x1_0000_0000_0000_0000,
                -2 * COORD_LIMIT <= span_x <= 2 * COORD_LIMIT;
        assert(-0x8000_0000_0000_0000_0000_0000_0000 <= moved_y * span_y <= 0x8000_0000_0000_0000_0000_0000_0000) by (nonlinear_arith)
            requires -0x1_0000_0000_0000_0000 <= moved_y <= 0x1_0000_0000_0000_0000,
                -2 * COORD_LIMIT <= span_y <= 2 * COORD_LIMIT;
        let dx = floor_div(moved_x * span_x, self.chart_width as i128);
        let dy = floor_div(moved_y * span_y, self.chart_height as i128);
        assert(-(current_x - self.last_mouse_x) == moved_x);
        (clamp_wide(dx), clamp_wide(dy))
    }
}

} // verus!
