use vstd::prelude::*;
use crate::clock::current_unix_time;
use crate::error::AppError;
use crate::stats::{
    ascending, floor_div, floor_sqrt, is_floor_sqrt, mean_of, median_of, scaled_square_deviations,
    sorted_copy, sum_of,
};
use crate::types::PRICE_SCALE;

verus! {

/// Largest magnitude of a price that the engine accepts.
pub const MAX_PRICE: i64 = 1_000_000_000_000;

/// Largest number of bars that one computation accepts.
pub const MAX_BARS: usize = 4096;

/// Bars that earn the full sample-size part of the confidence score.
pub const CONFIDENCE_FULL_SAMPLE: usize = 14;

/// One OHLCV sample; prices are fixed-point, `timestamp` is in seconds
/// since the Unix epoch (UTC).
#[derive(Debug, Clone, Copy, PartialEq, Eq, Structural)]
pub struct HistoricalBar {
    pub timestamp: i64,
    pub open: i64,
    pub high: i64,
    pub low: i64,
    pub close: i64,
    pub volume: i64,
    /// Volume-weighted average price.
    pub wap: i64,
    /// Number of trades.
    pub count: i64,
}

/// A series of bars for one symbol.
pub struct HistoricalData {
    pub symbol: String,
    pub bars: Vec<HistoricalBar>,
    /// For instance "1 day" or "1 hour".
    pub bar_size: String,
    /// For instance "14 D".
    pub duration: String,
}

impl HistoricalData {
    /// An empty series.
    pub fn new(symbol: String, bar_size: String, duration: String) -> (r: HistoricalData)
        ensures
            r.symbol == symbol,
            r.bar_size == bar_size,
            r.duration == duration,
            r.bars@ == Seq::<HistoricalBar>::empty(),
    {
        HistoricalData { symbol, bars: Vec::new(), bar_size, duration }
    }

    /// A series holding `bars` ordered by ascending timestamp.
    pub fn from_bars(symbol: String, bar_size: String, duration: String, bars: Vec<HistoricalBar>) -> (r: HistoricalData)
        ensures
            r.symbol == symbol,
            r.bar_size == bar_size,
            r.duration == duration,
            r.bars@.to_multiset() == bars@.to_multiset(),
            forall|i: int, j: int| 0 <= i < j < r.bars@.len() ==> r.bars@[i].timestamp <= r.bars@[j].timestamp,
    {
        let mut data = HistoricalData { symbol, bars, bar_size, duration };
        data.sort_by_time();
        data
    }

    /// Orders the bars by ascending timestamp, keeping every bar.
    pub fn sort_by_time(&mut self)
        ensures
            final(self).bars@.to_multiset() == old(self).bars@.to_multiset(),
            forall|i: int, j: int| 0 <= i < j < final(self).bars@.len()
                ==> final(self).bars@[i].timestamp <= final(self).bars@[j].timestamp,
            final(self).symbol == old(self).symbol,
            final(self).bar_size == old(self).bar_size,
            final(self).duration == old(self).duration,
    {
        sort_bars_by_timestamp(&mut self.bars);
    }

    /// Appends one bar.
    pub fn add_bar(&mut self, bar: HistoricalBar)
        ensures
            final(self).bars@ == old(self).bars@.push(bar),
            final(self).symbol == old(self).symbol,
            final(self).bar_size == old(self).bar_size,
            final(self).duration == old(self).duration,
    {
        self.bars.push(bar);
    }
}

/// Relies on `slice::sort_by_key`: orders by the key ascending, keeping
/// every element.
#[verifier::external_body]
fn sort_bars_by_timestamp(bars: &mut Vec<HistoricalBar>)
    ensures
        final(bars)@.to_multiset() == old(bars)@.to_multiset(),
        forall|i: int, j: int| 0 <= i < j < final(bars)@.len()
            ==> final(bars)@[i].timestamp <= final(bars)@[j].timestamp,
{
    bars.sort_by_key(|b| b.timestamp);
}

/// Rule that labels a bar's range as an outlier. The parameters are
/// fixed-point: a multiplier of 1.5 is `15_000`, a percentile of 10 is
/// `100_000`.
#[derive(Debug, Clone, Copy, PartialEq, Eq, Structural)]
pub enum OutlierMethod {
    /// Outside `[q1 - k * iqr, q3 + k * iqr]`.
    IQR { multiplier: i64 },
    /// Further than `t` standard deviations from the mean.
    ZScore { threshold: i64 },
    /// Outside the band between two percentiles (in `[0, 100]`).
    Percentile { low: i64, high: i64 },
}

impl Default for OutlierMethod {
    fn default() -> (r: Self)
        ensures
            r == (OutlierMethod::IQR { multiplier: 15_000 }),
    {
        OutlierMethod::IQR { multiplier: 15_000 }
    }
}

/// Side of the band on which an excluded range fell.
#[derive(Debug, Clone, Copy, PartialEq, Eq, Structural)]
pub enum ExclusionReason {
    BelowLowerBound,
    AboveUpperBound,
}

/// A bar left out of the filtered ATR, with the bound it crossed.
#[derive(Debug, Clone, Copy, PartialEq, Eq, Structural)]
pub struct ExcludedBar {
    pub date: i64,
    pub range: i64,
    pub reason: ExclusionReason,
    /// The bound that the range fell beyond.
    pub bound: i128,
    pub high: i64,
    pub low: i64,
}

/// One filtered-ATR computation. Values are fixed-point; the exclusion
/// rate and the percentages are fixed-point fractions and percents.
pub struct ATRResult {
    pub symbol: String,
    pub period_days: usize,
    /// Seconds since the Unix epoch.
    pub calculation_date: i64,
    pub filtered_atr: i64,
    pub regular_atr: i64,
    pub atr_difference: i64,
    pub atr_difference_percent: i64,
    pub total_bars: usize,
    pub used_bars: usize,
    pub excluded_bars: usize,
    pub exclusion_rate: i64,
    pub mean_range: i64,
    pub median_range: i64,
    pub std_dev_range: i64,
    pub q1_range: i64,
    pub q3_range: i64,
    pub iqr: i64,
    pub lower_bound: i128,
    pub upper_bound: i128,
    pub method: OutlierMethod,
    pub excluded_bars_detail: Vec<ExcludedBar>,
    pub used_bars_detail: Vec<HistoricalBar>,
    /// Between 0 and 100 (fixed-point).
    pub confidence_score: i64,
    /// At least `period_days` bars were used.
    pub is_valid: bool,
}

/// Confidence from sample size (up to 40), exclusion rate (a fixed-point
/// fraction; up to 40 for a rate in `[0.1, 0.3)`) and consistency
/// `1 - min(1, std_dev / mean)` (up to 20), fixed-point.
pub open spec fn confidence_of(used: int, exclusion_rate: int, mean: int, std_dev: int) -> int {
    let sample = (if used < 14 { used } else { 14 }) * 40 * PRICE_SCALE / 14;
    let exclusion = if exclusion_rate < PRICE_SCALE / 10 {
        30 * PRICE_SCALE
    } else if exclusion_rate < 3 * PRICE_SCALE / 10 {
        40 * PRICE_SCALE
    } else if exclusion_rate < PRICE_SCALE / 2 {
        20 * PRICE_SCALE
    } else {
        10 * PRICE_SCALE
    };
    let consistency = if mean > 0 {
        20 * PRICE_SCALE * (mean - (if std_dev < mean { std_dev } else { mean })) / mean
    } else {
        0
    };
    sample + exclusion + consistency
}

impl ATRResult {
    /// The confidence score that the result's own figures give.
    pub open spec fn confidence_spec(&self) -> int {
        confidence_of(
            self.used_bars as int,
            self.exclusion_rate as int,
            self.mean_range as int,
            self.std_dev_range as int,
        )
    }

    /// A result with every figure zero, stamped with the current time.
    pub fn new(symbol: String, period_days: usize, method: OutlierMethod) -> (r: ATRResult)
        ensures
            r.symbol == symbol,
            r.period_days == period_days,
            r.method == method,
            r.filtered_atr == 0 && r.regular_atr == 0,
            r.atr_difference == 0 && r.atr_difference_percent == 0,
            r.total_bars == 0 && r.used_bars == 0 && r.excluded_bars == 0,
            r.exclusion_rate == 0,
            r.mean_range == 0 && r.median_range == 0 && r.std_dev_range == 0,
            r.q1_range == 0 && r.q3_range == 0 && r.iqr == 0,
            r.lower_bound == 0 && r.upper_bound == 0,
            r.excluded_bars_detail@.len() == 0,
            r.used_bars_detail@.len() == 0,
            r.confidence_score == 0,
            !r.is_valid,
    {
        ATRResult {
            symbol,
            period_days,
            calculation_date: current_unix_time(),
            filtered_atr: 0,
            regular_atr: 0,
            atr_difference: 0,
            atr_difference_percent: 0,
            total_bars: 0,
            used_bars: 0,
            excluded_bars: 0,
            exclusion_rate: 0,
            mean_range: 0,
            median_range: 0,
            std_dev_range: 0,
            q1_range: 0,
            q3_range: 0,
            iqr: 0,
            lower_bound: 0,
            upper_bound: 0,
            method,
            excluded_bars_detail: Vec::new(),
            used_bars_detail: Vec::new(),
            confidence_score: 0,
            is_valid: false,
        }
    }

    /// Sets `confidence_score` from the sample size, the exclusion rate
    /// and the coefficient of variation of the ranges.
    pub fn calculate_confidence(&mut self)
        requires
            old(self).std_dev_range >= 0,
        ensures
            final(self).confidence_score == old(self).confidence_spec(),
            0 <= final(self).confidence_score <= 100 * PRICE_SCALE,
            *final(self) == (ATRResult { confidence_score: final(self).confidence_score, ..*old(self) }),
    {
        let score = confidence_score_of(
            self.used_bars,
            self.exclusion_rate,
            self.mean_range,
            self.std_dev_range,
        );
        self.confidence_score = score;
    }
}

/// The confidence score lies between 0 and 100 for any sample whose
/// standard deviation is not negative.
pub proof fn lemma_confidence_in_range(used: nat, exclusion_rate: int, mean: int, std_dev: int)
    requires
        std_dev >= 0,
    ensures
        0 <= confidence_of(used as int, exclusion_rate, mean, std_dev) <= 100 * PRICE_SCALE,
{
    let s = if used < 14 { used as int } else { 14 };
    assert(0 <= s * 40 * PRICE_SCALE / 14 <= 40 * PRICE_SCALE) by (nonlinear_arith)
        requires 0 <= s <= 14;
    if mean > 0 {
        let m = if std_dev < mean { std_dev } else { mean };
        assert(0 <= 20 * PRICE_SCALE * (mean - m) / mean <= 20 * PRICE_SCALE) by (nonlinear_arith)
            requires mean > 0, 0 <= m <= mean;
    }
}

fn confidence_score_of(used: usize, exclusion_rate: i64, mean: i64, std_dev: i64) -> (r: i64)
    requires
        std_dev >= 0,
    ensures
        r == confidence_of(used as int, exclusion_rate as int, mean as int, std_dev as int),
        0 <= r <= 100 * PRICE_SCALE,
{
    proof {
        lemma_confidence_in_range(used as nat, exclusion_rate as int, mean as int, std_dev as int);
    }
    let capped: i128 = if used < CONFIDENCE_FULL_SAMPLE { used as i128 } else { 14 };
    let sample: i128 = capped * 40 * PRICE_SCALE as i128 / 14;
    let exclusion: i128 = if exclusion_rate < PRICE_SCALE / 10 {
        30 * PRICE_SCALE as i128
    } else if exclusion_rate < 3 * PRICE_SCALE / 10 {
        40 * PRICE_SCALE as i128
    } else if exclusion_rate < PRICE_SCALE / 2 {
        20 * PRICE_SCALE as i128
    } else {
        10 * PRICE_SCALE as i128
    };
    let m = mean as i128;
    let consistency: i128 = if m > 0 {
        let lowest: i128 = if (std_dev as i128) < m { std_dev as i128 } else { m };
        assert(0 <= 20 * PRICE_SCALE * (m - lowest) <= 20 * PRICE_SCALE * m) by (nonlinear_arith)
            requires 0 <= lowest <= m;
        20 * PRICE_SCALE as i128 * (m - lowest) / m
    } else {
        0
    };
    (sample + exclusion + consistency) as i64
}


/// Both prices of the bar lie within the accepted magnitude.
pub open spec fn bar_in_range(b: HistoricalBar) -> bool {
    -MAX_PRICE <= b.low <= MAX_PRICE && -MAX_PRICE <= b.high <= MAX_PRICE
}

/// The series is small enough, and its prices within range, for exact
/// fixed-point statistics.
pub open spec fn bars_in_range(bars: Seq<HistoricalBar>) -> bool {
    bars.len() <= MAX_BARS && forall|i: int| 0 <= i < bars.len() ==> bar_in_range(#[trigger] bars[i])
}

/// High minus low.
pub open spec fn bar_range(b: HistoricalBar) -> i64 {
    (b.high - b.low) as i64
}

/// The range of each bar, in the series' order.
pub open spec fn ranges_of(bars: Seq<HistoricalBar>) -> Seq<i64> {
    bars.map_values(|b: HistoricalBar| bar_range(b))
}

/// Population standard deviation of the values, rounded down: the floor
/// square root of `floor(sum((n * x - total)^2) / n^3)`.
pub open spec fn is_std_dev_of(r: int, s: Seq<i64>) -> bool {
    let n = s.len() as int;
    is_floor_sqrt(r, scaled_square_deviations(s, n, sum_of(s)) / (n * n * n))
}

/// Zero or the value, whichever is larger.
pub open spec fn at_least_zero(x: int) -> int {
    if x < 0 { 0 } else { x }
}

/// Index of percentile `p` (fixed-point percent) among `n` sorted values,
/// kept within the sequence.
pub open spec fn percentile_index(p: int, n: int) -> int {
    let i = p * n / (100 * PRICE_SCALE as int);
    if i < 0 { 0 } else if i > n - 1 { n - 1 } else { i }
}

/// First quartile of sorted values.
pub open spec fn q1_of(sorted: Seq<i64>) -> int {
    sorted[sorted.len() as int / 4] as int
}

/// Third quartile of sorted values.
pub open spec fn q3_of(sorted: Seq<i64>) -> int {
    sorted[3 * sorted.len() as int / 4] as int
}

/// The band `[lower, upper]` of ranges that count as normal.
pub open spec fn outlier_bounds(method: OutlierMethod, sorted: Seq<i64>, mean: int, std_dev: int) -> (int, int) {
    let n = sorted.len() as int;
    match method {
        OutlierMethod::IQR { multiplier } => {
            let d = multiplier * (q3_of(sorted) - q1_of(sorted)) / (PRICE_SCALE as int);
            (at_least_zero(q1_of(sorted) - d), q3_of(sorted) + d)
        },
        OutlierMethod::ZScore { threshold } => {
            let d = threshold * std_dev / (PRICE_SCALE as int);
            (at_least_zero(mean - d), mean + d)
        },
        OutlierMethod::Percentile { low, high } => (
            sorted[percentile_index(low as int, n)] as int,
            sorted[percentile_index(high as int, n)] as int,
        ),
    }
}

/// The range lies in the band.
pub open spec fn in_band(r: i64, lower: int, upper: int) -> bool {
    lower <= r <= upper
}

/// The `k`-th bar taken newest first (from 1).
pub open spec fn newest(bars: Seq<HistoricalBar>, k: int) -> HistoricalBar {
    bars[bars.len() - k]
}

/// Record of a bar whose range lies outside the band.
pub open spec fn excluded_record(b: HistoricalBar, lower: int, upper: int) -> ExcludedBar {
    let r = bar_range(b);
    ExcludedBar {
        date: b.timestamp,
        range: r,
        reason: if r < lower { ExclusionReason::BelowLowerBound } else { ExclusionReason::AboveUpperBound },
        bound: if r < lower { lower as i128 } else { upper as i128 },
        high: b.high,
        low: b.low,
    }
}

/// Bars inside the band among the `k` newest, newest first.
pub open spec fn used_after(bars: Seq<HistoricalBar>, k: int, lower: int, upper: int) -> Seq<HistoricalBar>
    decreases k,
{
    if k <= 0 {
        Seq::empty()
    } else {
        let prev = used_after(bars, k - 1, lower, upper);
        let b = newest(bars, k);
        if in_band(bar_range(b), lower, upper) { prev.push(b) } else { prev }
    }
}

/// Records of the bars outside the band among the `k` newest, newest first.
pub open spec fn excluded_after(bars: Seq<HistoricalBar>, k: int, lower: int, upper: int) -> Seq<ExcludedBar>
    decreases k,
{
    if k <= 0 {
        Seq::empty()
    } else {
        let prev = excluded_after(bars, k - 1, lower, upper);
        let b = newest(bars, k);
        if in_band(bar_range(b), lower, upper) { prev } else { prev.push(excluded_record(b, lower, upper)) }
    }
}

/// Number of bars the walk looks at: from `k` on, it stops after `limit`
/// bars, or as soon as `target` bars were used.
pub open spec fn walk_end(bars: Seq<HistoricalBar>, lower: int, upper: int, target: int, limit: int, k: int) -> int
    decreases limit - k,
{
    if k >= limit || used_after(bars, k, lower, upper).len() >= target {
        k
    } else {
        walk_end(bars, lower, upper, target, limit, k + 1)
    }
}

/// Days of history fetched for a period: three times the period, kept
/// within `[30, 60]`.
pub open spec fn fetch_days_spec(period_days: int) -> int {
    let d = period_days * 3;
    if d < 30 { 30 } else if d > 60 { 60 } else { d }
}

/// Days of history to fetch for an ATR over `period_days`: three times the
/// period, at least 30 and at most 60.
pub fn fetch_days_for(period_days: usize) -> (r: u32)
    ensures
        r == fetch_days_spec(period_days as int),
{
    if period_days >= 20 {
        60
    } else if period_days < 10 {
        30
    } else {
        (period_days * 3) as u32
    }
}

proof fn lemma_used_after_len(bars: Seq<HistoricalBar>, k: int, lower: int, upper: int)
    requires
        0 <= k,
    ensures
        used_after(bars, k, lower, upper).len() + excluded_after(bars, k, lower, upper).len() == k,
    decreases k,
{
    if k > 0 {
        lemma_used_after_len(bars, k - 1, lower, upper);
    }
}

/// Every bar kept by the walk lies in the band, and every bar it set
/// aside lies outside it, on the side that its record names.
pub proof fn lemma_walk_partitions(bars: Seq<HistoricalBar>, k: int, lower: int, upper: int)
    requires
        0 <= k <= bars.len(),
    ensures
        forall|i: int| 0 <= i < used_after(bars, k, lower, upper).len()
            ==> in_band(bar_range(#[trigger] used_after(bars, k, lower, upper)[i]), lower, upper),
        forall|i: int| 0 <= i < excluded_after(bars, k, lower, upper).len()
            ==> !in_band((#[trigger] excluded_after(bars, k, lower, upper)[i]).range, lower, upper),
        forall|i: int| 0 <= i < excluded_after(bars, k, lower, upper).len()
            ==> ((#[trigger] excluded_after(bars, k, lower, upper)[i]).reason == ExclusionReason::BelowLowerBound
                <==> excluded_after(bars, k, lower, upper)[i].range < lower),
    decreases k,
{
    if k > 0 {
        lemma_walk_partitions(bars, k - 1, lower, upper);
        let b = newest(bars, k);
        let used = used_after(bars, k, lower, upper);
        let prev_used = used_after(bars, k - 1, lower, upper);
        let excl = excluded_after(bars, k, lower, upper);
        let prev_excl = excluded_after(bars, k - 1, lower, upper);
        if in_band(bar_range(b), lower, upper) {
            assert(used == prev_used.push(b));
            assert(excl == prev_excl);
            assert forall|i: int| 0 <= i < used.len() implies in_band(bar_range(#[trigger] used[i]), lower, upper) by {
                if i < prev_used.len() {
                    assert(used[i] == prev_used[i]);
                }
            }
        } else {
            assert(used == prev_used);
            assert(excl == prev_excl.push(excluded_record(b, lower, upper)));
            assert forall|i: int| 0 <= i < excl.len() implies !in_band((#[trigger] excl[i]).range, lower, upper)
                && (excl[i].reason == ExclusionReason::BelowLowerBound <==> excl[i].range < lower) by {
                if i < prev_excl.len() {
                    assert(excl[i] == prev_excl[i]);
                }
            }
        }
    }
}

fn bar_ranges(bars: &Vec<HistoricalBar>) -> (r: Vec<i64>)
    requires
        bars_in_range(bars@),
    ensures
        r@ == ranges_of(bars@),
        forall|i: int| 0 <= i < r@.len() ==> -2 * MAX_PRICE <= #[trigger] r@[i] <= 2 * MAX_PRICE,
{
    let mut r: Vec<i64> = Vec::new();
    let mut i: usize = 0;
    while i < bars.len()
        invariant
            bars_in_range(bars@),
            i <= bars@.len(),
            r@ == ranges_of(bars@).subrange(0, i as int),
        decreases bars@.len() - i,
    {
        let b = bars[i];
        assert(bar_in_range(bars@[i as int]));
        r.push(b.high - b.low);
        i = i + 1;
    }
    assert(ranges_of(bars@).subrange(0, i as int) =~= ranges_of(bars@));
    r
}

/// Sum of values bounded by twice the price limit.
fn sum_values(s: &Vec<i64>) -> (r: i128)
    requires
        s@.len() <= MAX_BARS,
        forall|i: int| 0 <= i < s@.len() ==> -2 * MAX_PRICE <= #[trigger] s@[i] <= 2 * MAX_PRICE,
    ensures
        r == sum_of(s@),
        -(s@.len() as int) * 2 * MAX_PRICE <= r <= (s@.len() as int) * 2 * MAX_PRICE,
{
    let mut total: i128 = 0;
    let mut i: usize = 0;
    while i < s.len()
        invariant
            s@.len() <= MAX_BARS,
            forall|i: int| 0 <= i < s@.len() ==> -2 * MAX_PRICE <= #[trigger] s@[i] <= 2 * MAX_PRICE,
            i <= s@.len(),
            total == sum_of(s@.subrange(0, i as int)),
            -(i as int) * 2 * MAX_PRICE <= total <= (i as int) * 2 * MAX_PRICE,
        decreases s@.len() - i,
    {
        assert(s@.subrange(0, i as int + 1).drop_last() =~= s@.subrange(0, i as int));
        total = total + s[i] as i128;
        i = i + 1;
    }
    assert(s@.subrange(0, i as int) =~= s@);
    total
}

/// `n^3` times the population variance of the values.
fn square_deviations(s: &Vec<i64>, total: i128) -> (r: i128)
    requires
        1 <= s@.len() <= MAX_BARS,
        forall|i: int| 0 <= i < s@.len() ==> -2 * MAX_PRICE <= #[trigger] s@[i] <= 2 * MAX_PRICE,
        total == sum_of(s@),
        -(s@.len() as int) * 2 * MAX_PRICE <= total <= (s@.len() as int) * 2 * MAX_PRICE,
    ensures
        r == scaled_square_deviations(s@, s@.len() as int, sum_of(s@)),
        0 <= r <= 0x100_0000_0000_0000_0000_0000_0000_0000,
{
    let n = s.len() as i128;
    let mut acc: i128 = 0;
    let mut i: usize = 0;
    while i < s.len()
        invariant
            n == s@.len(),
            1 <= s@.len() <= MAX_BARS,
            forall|i: int| 0 <= i < s@.len() ==> -2 * MAX_PRICE <= #[trigger] s@[i] <= 2 * MAX_PRICE,
            -n * 2 * MAX_PRICE <= total <= n * 2 * MAX_PRICE,
            total == sum_of(s@),
            i <= s@.len(),
            acc == scaled_square_deviations(s@.subrange(0, i as int), n as int, total as int),
            0 <= acc <= (i as int) * 0x1000_0000_0000_0000_0000_0000_0000,
        decreases s@.len() - i,
    {
        let x = s[i] as i128;
        assert(-n * 2 * MAX_PRICE <= n * x <= n * 2 * MAX_PRICE) by (nonlinear_arith)
            requires 1 <= n, -2 * MAX_PRICE <= x <= 2 * MAX_PRICE;
        let d = n * x - total;
        assert(0 <= d * d <= 0x1000_0000_0000_0000_0000_0000_0000) by (nonlinear_arith)
            requires -4 * 4096 * MAX_PRICE <= d <= 4 * 4096 * MAX_PRICE;
        assert(s@.subrange(0, i as int + 1).drop_last() =~= s@.subrange(0, i as int));
        acc = acc + d * d;
        i = i + 1;
    }
    assert(s@.subrange(0, i as int) =~= s@);
    acc
}


/// The first `m` elements, or all of them when there are fewer.
pub open spec fn first_n<T>(s: Seq<T>, m: int) -> Seq<T> {
    if m < s.len() { s.subrange(0, m) } else { s }
}

/// The last `m` elements, or all of them when there are fewer.
pub open spec fn last_n<T>(s: Seq<T>, m: int) -> Seq<T> {
    if m < s.len() { s.subrange(s.len() - m, s.len() as int) } else { s }
}

/// Bars the walk needs before it stops early: the period, or one bar for
/// an empty period.
pub open spec fn walk_target(period_days: int) -> int {
    if period_days == 0 { 1 } else { period_days }
}

/// Bars the walk looks at, at most.
pub open spec fn walk_limit(n: int, period_days: int) -> int {
    if n < fetch_days_spec(period_days) { n } else { fetch_days_spec(period_days) }
}

/// Mean of the bars' ranges, rounded down; zero for no bars.
fn mean_bar_range(bars: &Vec<HistoricalBar>, start: usize, end: usize) -> (r: i64)
    requires
        start <= end <= bars@.len() <= MAX_BARS,
        forall|i: int| 0 <= i < bars@.len() ==> bar_in_range(#[trigger] bars@[i]),
    ensures
        r == mean_of(ranges_of(bars@.subrange(start as int, end as int))),
        -2 * MAX_PRICE <= r <= 2 * MAX_PRICE,
{
    let ghost part = bars@.subrange(start as int, end as int);
    let mut total: i128 = 0;
    let mut i: usize = start;
    while i < end
        invariant
            start <= i <= end <= bars@.len() <= MAX_BARS,
            forall|i: int| 0 <= i < bars@.len() ==> bar_in_range(#[trigger] bars@[i]),
            part == bars@.subrange(start as int, end as int),
            total == sum_of(ranges_of(bars@.subrange(start as int, i as int))),
            -((i - start) as int) * 2 * MAX_PRICE <= total <= ((i - start) as int) * 2 * MAX_PRICE,
        decreases end - i,
    {
        let b = bars[i];
        assert(bar_in_range(bars@[i as int]));
        proof {
            let next = ranges_of(bars@.subrange(start as int, i as int + 1));
            assert(next.drop_last() =~= ranges_of(bars@.subrange(start as int, i as int)));
            assert(next.last() == bar_range(b));
        }
        total = total + (b.high - b.low) as i128;
        i = i + 1;
    }
    if end == start {
        return 0;
    }
    let count = (end - start) as i128;
    let mean = floor_div(total, count);
    assert(-2 * MAX_PRICE <= mean <= 2 * MAX_PRICE) by (nonlinear_arith)
        requires count >= 1, mean == total / count,
            -count * 2 * MAX_PRICE <= total <= count * 2 * MAX_PRICE;
    mean as i64
}

fn outlier_bounds_of(method: OutlierMethod, sorted: &Vec<i64>, mean: i64, std_dev: i64) -> (r: (i128, i128))
    requires
        1 <= sorted@.len() <= MAX_BARS,
        forall|i: int| 0 <= i < sorted@.len() ==> -2 * MAX_PRICE <= #[trigger] sorted@[i] <= 2 * MAX_PRICE,
    ensures
        r.0 == outlier_bounds(method, sorted@, mean as int, std_dev as int).0,
        r.1 == outlier_bounds(method, sorted@, mean as int, std_dev as int).1,
{
    let n = sorted.len();
    match method {
        OutlierMethod::IQR { multiplier } => {
            let q1 = sorted[n / 4] as i128;
            let q3 = sorted[3 * n / 4] as i128;
            let spread = q3 - q1;
            assert(-0x400_0000_0000_0000_0000_0000_0000 <= multiplier * spread <= 0x400_0000_0000_0000_0000_0000_0000) by (nonlinear_arith)
                requires -0x8000_0000_0000_0000 <= multiplier <= 0x8000_0000_0000_0000,
                    -0x400_0000_0000 <= spread <= 0x400_0000_0000;
            let scaled = multiplier as i128 * spread;
            let d = floor_div(scaled, PRICE_SCALE as i128);
            assert(-0x400_0000_0000_0000_0000_0000_0000 <= d <= 0x400_0000_0000_0000_0000_0000_0000) by (nonlinear_arith)
                requires d == scaled as int / (PRICE_SCALE as int),
                    -0x400_0000_0000_0000_0000_0000_0000 <= scaled <= 0x400_0000_0000_0000_0000_0000_0000;
            let lower = if q1 - d < 0 { 0 } else { q1 - d };
            (lower, q3 + d)
        },
        OutlierMethod::ZScore { threshold } => {
            let t = threshold as i128;
            let sd = std_dev as i128;
            assert(-0x4000_0000_0000_0000_0000_0000_0000_0000 <= t * sd <= 0x4000_0000_0000_0000_0000_0000_0000_0000) by (nonlinear_arith)
                requires -0x8000_0000_0000_0000 <= t <= 0x8000_0000_0000_0000,
                    -0x8000_0000_0000_0000 <= sd <= 0x8000_0000_0000_0000;
            let scaled = t * sd;
            let d = floor_div(scaled, PRICE_SCALE as i128);
            assert(-0x4000_0000_0000_0000_0000_0000_0000_0000 <= d <= 0x4000_0000_0000_0000_0000_0000_0000_0000) by (nonlinear_arith)
                requires d == scaled as int / (PRICE_SCALE as int),
                    -0x4000_0000_0000_0000_0000_0000_0000_0000 <= scaled <= 0x4000_0000_0000_0000_0000_0000_0000_0000;
            let m = mean as i128;
            let lower = if m - d < 0 { 0 } else { m - d };
            (lower, m + d)
        },
        OutlierMethod::Percentile { low, high } => {
            let li = percentile_index_of(low, n);
            let hi = percentile_index_of(high, n);
            (sorted[li] as i128, sorted[hi] as i128)
        },
    }
}

fn percentile_index_of(p: i64, n: usize) -> (r: usize)
    requires
        1 <= n <= MAX_BARS,
    ensures
        r == percentile_index(p as int, n as int),
        r < n,
{
    let wide = p as i128;
    let count = n as i128;
    assert(-0x8000_0000_0000_0000_0000 <= wide * count <= 0x8000_0000_0000_0000_0000) by (nonlinear_arith)
        requires -0x8000_0000_0000_0000 <= wide <= 0x8000_0000_0000_0000, 1 <= count <= 4096;
    let raw = floor_div(wide * count, 100 * PRICE_SCALE as i128);
    if raw < 0 {
        0
    } else if raw > (n - 1) as i128 {
        n - 1
    } else {
        raw as usize
    }
}

/// Walks the `limit` newest bars, newest first, keeping those whose range
/// lies in `[lower, upper]` and recording the others; stops as soon as
/// `target` bars were kept.
fn walk_newest_first(bars: &Vec<HistoricalBar>, lower: i128, upper: i128, target: usize, limit: usize)
    -> (r: (Vec<HistoricalBar>, Vec<ExcludedBar>))
    requires
        limit <= bars@.len(),
        target >= 1,
        forall|i: int| 0 <= i < bars@.len() ==> bar_in_range(#[trigger] bars@[i]),
    ensures
        r.0@ == used_after(bars@, walk_end(bars@, lower as int, upper as int, target as int, limit as int, 0), lower as int, upper as int),
        r.1@ == excluded_after(bars@, walk_end(bars@, lower as int, upper as int, target as int, limit as int, 0), lower as int, upper as int),
        0 <= walk_end(bars@, lower as int, upper as int, target as int, limit as int, 0) <= limit,
        r.0@.len() <= limit,
        forall|i: int| 0 <= i < r.0@.len() ==> bar_in_range(#[trigger] r.0@[i]),
{
    let ghost lo = lower as int;
    let ghost up = upper as int;
    let mut used: Vec<HistoricalBar> = Vec::new();
    let mut excluded: Vec<ExcludedBar> = Vec::new();
    let mut k: usize = 0;
    let n = bars.len();
    while k < limit && used.len() < target
        invariant
            limit <= bars@.len() == n,
            target >= 1,
            lo == lower as int,
            up == upper as int,
            forall|i: int| 0 <= i < bars@.len() ==> bar_in_range(#[trigger] bars@[i]),
            k <= limit,
            used@ == used_after(bars@, k as int, lo, up),
            excluded@ == excluded_after(bars@, k as int, lo, up),
            used@.len() <= target,
            used@.len() <= k,
            forall|i: int| 0 <= i < used@.len() ==> bar_in_range(#[trigger] used@[i]),
            walk_end(bars@, lo, up, target as int, limit as int, 0) == walk_end(bars@, lo, up, target as int, limit as int, k as int),
        decreases limit - k,
    {
        let b = bars[n - 1 - k];
        assert(b == newest(bars@, k as int + 1));
        assert(bar_in_range(bars@[n - 1 - k]));
        let r = b.high as i128 - b.low as i128;
        assert(bar_range(b) as int == r);
        if r < lower || r > upper {
            let record = ExcludedBar {
                date: b.timestamp,
                range: (b.high as i128 - b.low as i128) as i64,
                reason: if r < lower { ExclusionReason::BelowLowerBound } else { ExclusionReason::AboveUpperBound },
                bound: if r < lower { lower } else { upper },
                high: b.high,
                low: b.low,
            };
            assert(record == excluded_record(b, lo, up));
            assert(excluded_after(bars@, k as int + 1, lo, up) == excluded@.push(record));
            assert(used_after(bars@, k as int + 1, lo, up) == used@);
            excluded.push(record);
        } else {
            assert(used_after(bars@, k as int + 1, lo, up) == used@.push(b));
            assert(excluded_after(bars@, k as int + 1, lo, up) == excluded@);
            used.push(b);
        }
        k = k + 1;
    }
    (used, excluded)
}


fn bars_within_limits(bars: &Vec<HistoricalBar>) -> (r: bool)
    ensures
        r == bars_in_range(bars@),
{
    if bars.len() > MAX_BARS {
        return false;
    }
    let mut i: usize = 0;
    while i < bars.len()
        invariant
            i <= bars@.len() <= MAX_BARS,
            forall|j: int| 0 <= j < i ==> bar_in_range(#[trigger] bars@[j]),
        decreases bars@.len() - i,
    {
        let b = bars[i];
        if b.low < -MAX_PRICE || b.low > MAX_PRICE || b.high < -MAX_PRICE || b.high > MAX_PRICE {
            assert(!bar_in_range(bars@[i as int]));
            return false;
        }
        i = i + 1;
    }
    true
}

/// Outlier-filtered ATR over `period_days` from the daily bars in `data`
/// (oldest first). Ranges are `high - low`. The statistics cover every
/// bar; the band comes from `method`; the walk takes bars newest first,
/// keeps those in the band, records the others, and stops once
/// `period_days` bars were kept or after the days that `fetch_days_for`
/// gives. The filtered ATR is the mean of the kept ranges (zero for an
/// empty period), the regular ATR that of the `period_days` newest ranges.
///
/// Fails when there is no bar, or when the series exceeds `MAX_BARS` bars
/// or a price exceeds `MAX_PRICE` in magnitude.
#[verifier::rlimit(50)]
pub fn calculate_filtered_atr(symbol: String, period_days: usize, method: OutlierMethod, data: &HistoricalData)
    -> (r: Result<ATRResult, AppError>)
    ensures
        r is Err <==> data.bars@.len() == 0 || !bars_in_range(data.bars@),
        r matches Err(e) ==> e is Validation,
        r matches Ok(res) ==> {
            let bars = data.bars@;
            let n = bars.len() as int;
            let rs = ranges_of(bars);
            let sorted = ascending(rs);
            let band = outlier_bounds(method, sorted, res.mean_range as int, res.std_dev_range as int);
            let k = walk_end(bars, band.0, band.1, walk_target(period_days as int), walk_limit(n, period_days as int), 0);
            let used = used_after(bars, k, band.0, band.1);
            let excluded = excluded_after(bars, k, band.0, band.1);
            &&& res.symbol == symbol
            &&& res.period_days == period_days
            &&& res.method == method
            &&& res.total_bars == n
            &&& res.mean_range == mean_of(rs)
            &&& res.median_range == median_of(sorted)
            &&& is_std_dev_of(res.std_dev_range as int, rs)
            &&& res.q1_range == q1_of(sorted)
            &&& res.q3_range == q3_of(sorted)
            &&& res.iqr == q3_of(sorted) - q1_of(sorted)
            &&& res.lower_bound == band.0
            &&& res.upper_bound == band.1
            &&& res.used_bars_detail@ == used
            &&& res.excluded_bars_detail@ == excluded
            &&& res.used_bars == used.len()
            &&& res.excluded_bars == excluded.len()
            &&& res.exclusion_rate == res.excluded_bars as int * PRICE_SCALE / n
            &&& res.is_valid == (res.used_bars >= period_days)
            &&& res.filtered_atr == mean_of(ranges_of(first_n(used, period_days as int)))
            &&& res.regular_atr == mean_of(last_n(rs, period_days as int))
            &&& res.atr_difference == res.filtered_atr - res.regular_atr
            &&& res.atr_difference_percent == (if res.regular_atr > 0 {
                res.atr_difference as int * 100 * PRICE_SCALE / (res.regular_atr as int)
            } else {
                0
            })
            &&& res.confidence_score == res.confidence_spec()
        },
        r matches Ok(res) ==> 0 <= res.confidence_score <= 100 * PRICE_SCALE,
        r matches Ok(res) ==> forall|i: int| 0 <= i < res.used_bars_detail@.len()
            ==> res.lower_bound <= bar_range(#[trigger] res.used_bars_detail@[i]) <= res.upper_bound,
        r matches Ok(res) ==> forall|i: int| 0 <= i < res.excluded_bars_detail@.len()
            ==> !(res.lower_bound <= (#[trigger] res.excluded_bars_detail@[i]).range <= res.upper_bound),
        r matches Ok(res) ==> (!(method is Percentile) || forall|i: int| 0 <= i < data.bars@.len()
            ==> (#[trigger] data.bars@[i]).low <= data.bars@[i].high) ==> res.lower_bound >= 0,
{
    let n = data.bars.len();
    if n == 0 {
        return Err(AppError::Validation("No historical data available".to_string()));
    }
    if !bars_within_limits(&data.bars) {
        return Err(AppError::Validation("Historical prices exceed the supported range".to_string()));
    }
    let fetch_days = fetch_days_for(period_days);
    let mut result = ATRResult::new(symbol, period_days, method);
    result.total_bars = n;

    let ranges = bar_ranges(&data.bars);
    let sorted = sorted_copy(&ranges);
    assert forall|i: int| 0 <= i < sorted@.len() implies -2 * MAX_PRICE <= #[trigger] sorted@[i] <= 2 * MAX_PRICE by {
        assert(ranges@.contains(sorted@[i]));
    }

    let total = sum_values(&ranges);
    let count = n as i128;
    let mean = floor_div(total, count);
    assert(-2 * MAX_PRICE <= mean <= 2 * MAX_PRICE) by (nonlinear_arith)
        requires count >= 1, mean == total / count,
            -count * 2 * MAX_PRICE <= total <= count * 2 * MAX_PRICE;
    result.mean_range = mean as i64;
    result.median_range = if n % 2 == 0 {
        floor_div(sorted[n / 2 - 1] as i128 + sorted[n / 2] as i128, 2) as i64
    } else {
        sorted[n / 2]
    };

    let deviations = square_deviations(&ranges, total);
    assert(1 <= count * count <= 4096 * 4096) by (nonlinear_arith)
        requires 1 <= count <= 4096;
    let square = count * count;
    assert(1 <= square * count <= 4096 * 4096 * 4096) by (nonlinear_arith)
        requires 1 <= count <= 4096, 1 <= square <= 4096 * 4096;
    let cube = square * count;
    let variance = floor_div(deviations, cube);
    assert(0 <= variance <= deviations) by (nonlinear_arith)
        requires variance == deviations as int / cube as int, cube >= 1, deviations >= 0;
    let std_dev = floor_sqrt(variance);
    result.std_dev_range = std_dev as i64;

    result.q1_range = sorted[n / 4];
    result.q3_range = sorted[3 * n / 4];
    result.iqr = result.q3_range - result.q1_range;

    let (lower, upper) = outlier_bounds_of(method, &sorted, result.mean_range, result.std_dev_range);
    result.lower_bound = lower;
    result.upper_bound = upper;

    let limit: usize = if n < fetch_days as usize { n } else { fetch_days as usize };
    let target: usize = if period_days == 0 { 1 } else { period_days };
    let (used, excluded) = walk_newest_first(&data.bars, lower, upper, target, limit);
    proof {
        lemma_used_after_len(data.bars@, walk_end(data.bars@, lower as int, upper as int, target as int, limit as int, 0), lower as int, upper as int);
    }
    result.used_bars = used.len();
    result.excluded_bars = excluded.len();
    result.exclusion_rate = (excluded.len() as i128 * PRICE_SCALE as i128 / count) as i64;
    result.is_valid = used.len() >= period_days;

    let taken: usize = if period_days < used.len() { period_days } else { used.len() };
    result.filtered_atr = mean_bar_range(&used, 0, taken);
    assert(used@.subrange(0, taken as int) =~= first_n(used@, period_days as int));
    let recent: usize = if period_days < n { period_days } else { n };
    result.regular_atr = mean_bar_range(&data.bars, n - recent, n);
    assert(ranges_of(data.bars@.subrange((n - recent) as int, n as int)) =~= last_n(ranges_of(data.bars@), period_days as int));

    let diff = result.filtered_atr - result.regular_atr;
    result.atr_difference = diff;
    if result.regular_atr > 0 {
        let wide = diff as i128 * 1_000_000;
        let regular = result.regular_atr as i128;
        let percent = floor_div(wide, regular);
        assert(-4_000_000_000_000_000_000 <= percent <= 4_000_000_000_000_000_000) by (nonlinear_arith)
            requires percent == wide / regular, regular >= 1,
                -4_000_000_000_000_000_000 <= wide <= 4_000_000_000_000_000_000;
        result.atr_difference_percent = percent as i64;
    }

    proof {
        let k = walk_end(data.bars@, lower as int, upper as int, target as int, limit as int, 0);
        lemma_walk_partitions(data.bars@, k, lower as int, upper as int);
        if method is Percentile && forall|i: int| 0 <= i < data.bars@.len()
            ==> (#[trigger] data.bars@[i]).low <= data.bars@[i].high {
            assert forall|i: int| 0 <= i < sorted@.len() implies #[trigger] sorted@[i] >= 0 by {
                assert(ranges@.contains(sorted@[i]));
                let j = choose|j: int| 0 <= j < ranges@.len() && ranges@[j] == sorted@[i];
                assert(data.bars@[j].low <= data.bars@[j].high);
            }
        }
    }
    result.used_bars_detail = used;
    result.excluded_bars_detail = excluded;
    result.calculate_confidence();
    Ok(result)
}

} // verus!
