use zakaz::atr::{calculate_filtered_atr, fetch_days_for, ExclusionReason, HistoricalBar, HistoricalData, OutlierMethod};
use zakaz::error::AppError;
use zakaz::types::PRICE_SCALE;

fn bar(day: i64, low: i64, high: i64) -> HistoricalBar {
    HistoricalBar { timestamp: day * 86_400, open: low, high, low, close: high, volume: 1000, wap: low, count: 10 }
}

/// Bars oldest first with the given ranges (whole units), lows at 100.
fn series(ranges: &[i64]) -> HistoricalData {
    let mut data = HistoricalData::new("TEST".to_string(), "1 day".to_string(), "42 D".to_string());
    for (i, r) in ranges.iter().enumerate() {
        let low = 100 * PRICE_SCALE;
        data.add_bar(bar(i as i64, low, low + r * PRICE_SCALE));
    }
    data
}

#[test]
fn outlier_bar_is_excluded() {
    let mut ranges = vec![1i64; 14];
    ranges.push(100);
    let data = series(&ranges);
    let res = calculate_filtered_atr("TEST".to_string(), 14, OutlierMethod::IQR { multiplier: 15_000 }, &data).unwrap();
    assert_eq!(res.excluded_bars_detail.len(), 1);
    assert_eq!(res.excluded_bars_detail[0].range, 100 * PRICE_SCALE);
    assert_eq!(res.excluded_bars_detail[0].reason, ExclusionReason::AboveUpperBound);
    assert_eq!(res.filtered_atr, PRICE_SCALE);
    // the fourteen newest ranges: thirteen of 1 and the 100
    assert_eq!(res.regular_atr, 113 * PRICE_SCALE / 14);
    assert!(res.is_valid);
    assert_eq!(res.used_bars, 14);
    assert_eq!(res.total_bars, 15);
    assert_eq!(res.q1_range, PRICE_SCALE);
    assert_eq!(res.q3_range, PRICE_SCALE);
    assert_eq!(res.lower_bound, PRICE_SCALE as i128);
    assert_eq!(res.upper_bound, PRICE_SCALE as i128);
    assert_eq!(res.mean_range, 114 * PRICE_SCALE / 15);
    assert_eq!(res.median_range, PRICE_SCALE);
}

#[test]
fn statistics_of_small_series() {
    let data = series(&[2, 4, 4, 4, 5, 5, 7, 9]);
    let res = calculate_filtered_atr("TEST".to_string(), 3, OutlierMethod::ZScore { threshold: 20_000 }, &data).unwrap();
    assert_eq!(res.mean_range, 5 * PRICE_SCALE);
    assert_eq!(res.std_dev_range, 2 * PRICE_SCALE);
    assert_eq!(res.median_range, 45_000);
    assert_eq!(res.lower_bound, PRICE_SCALE as i128);
    assert_eq!(res.upper_bound, 9 * PRICE_SCALE as i128);
    // newest first: 9, 7, 5 are all inside [1, 9]
    assert_eq!(res.used_bars, 3);
    assert_eq!(res.filtered_atr, 7 * PRICE_SCALE);
    assert_eq!(res.regular_atr, 7 * PRICE_SCALE);
    assert_eq!(res.atr_difference, 0);
}

#[test]
fn percentile_band() {
    let data = series(&[1, 2, 3, 4, 5, 6, 7, 8, 9, 10]);
    let method = OutlierMethod::Percentile { low: 100_000, high: 900_000 };
    let res = calculate_filtered_atr("TEST".to_string(), 5, method, &data).unwrap();
    assert_eq!(res.lower_bound, 2 * PRICE_SCALE as i128);
    assert_eq!(res.upper_bound, 10 * PRICE_SCALE as i128);
    assert!(res.lower_bound >= 0);
    assert_eq!(res.used_bars, 5);
    assert_eq!(res.excluded_bars, 0);
    assert_eq!(res.filtered_atr, 8 * PRICE_SCALE);
}

#[test]
fn bounds_and_confidence_hold() {
    let data = series(&[3, 1, 8, 2, 2, 40, 3, 2, 1, 0, 5, 2, 3, 2, 60, 2, 3]);
    for method in [
        OutlierMethod::IQR { multiplier: 15_000 },
        OutlierMethod::ZScore { threshold: 10_000 },
        OutlierMethod::Percentile { low: 200_000, high: 800_000 },
    ] {
        let res = calculate_filtered_atr("TEST".to_string(), 5, method, &data).unwrap();
        assert!(res.lower_bound >= 0);
        for b in &res.used_bars_detail {
            let r = (b.high - b.low) as i128;
            assert!(res.lower_bound <= r && r <= res.upper_bound);
        }
        for e in &res.excluded_bars_detail {
            let r = e.range as i128;
            assert!(r < res.lower_bound || r > res.upper_bound);
        }
        assert!(res.confidence_score >= 0 && res.confidence_score <= 100 * PRICE_SCALE);
    }
}

#[test]
fn confidence_score_parts() {
    let mut ranges = vec![1i64; 14];
    ranges.push(100);
    let data = series(&ranges);
    let res = calculate_filtered_atr("TEST".to_string(), 14, OutlierMethod::IQR { multiplier: 15_000 }, &data).unwrap();
    // 14 bars used: 40; one of fifteen excluded (under 0.1): 30; the
    // standard deviation exceeds the mean: 0
    assert_eq!(res.exclusion_rate, PRICE_SCALE / 15);
    assert_eq!(res.confidence_score, 70 * PRICE_SCALE);
}

#[test]
fn empty_series_is_refused() {
    let data = series(&[]);
    let res = calculate_filtered_atr("TEST".to_string(), 14, OutlierMethod::default(), &data);
    assert!(matches!(res, Err(AppError::Validation(_))));
}

#[test]
fn too_few_bars_is_not_valid() {
    let data = series(&[1, 1, 1]);
    let res = calculate_filtered_atr("TEST".to_string(), 14, OutlierMethod::default(), &data).unwrap();
    assert!(!res.is_valid);
    assert_eq!(res.used_bars, 3);
}

#[test]
fn fetch_days_are_clamped() {
    assert_eq!(fetch_days_for(5), 30);
    assert_eq!(fetch_days_for(14), 42);
    assert_eq!(fetch_days_for(30), 60);
}

#[test]
fn bars_sort_by_time() {
    let mut data = HistoricalData::new("TEST".to_string(), "1 day".to_string(), "3 D".to_string());
    data.add_bar(bar(3, 1, 2));
    data.add_bar(bar(1, 1, 2));
    data.add_bar(bar(2, 1, 2));
    data.sort_by_time();
    let days: Vec<i64> = data.bars.iter().map(|b| b.timestamp / 86_400).collect();
    assert_eq!(days, vec![1, 2, 3]);
}

#[test]
fn difference_is_kept_when_regular_atr_is_zero() {
    let data = series(&[1, 1, 0]);
    let res = calculate_filtered_atr("TEST".to_string(), 1, OutlierMethod::ZScore { threshold: 10_000 }, &data).unwrap();
    assert_eq!(res.filtered_atr, PRICE_SCALE);
    assert_eq!(res.regular_atr, 0);
    assert_eq!(res.atr_difference, PRICE_SCALE);
    assert_eq!(res.atr_difference_percent, 0);
    assert_eq!(res.excluded_bars, 1);
}

#[test]
fn confidence_reads_the_exclusion_rate() {
    let mut res = zakaz::atr::ATRResult::new("TEST".to_string(), 14, OutlierMethod::default());
    res.used_bars = 10;
    res.excluded_bars = 5;
    res.total_bars = 10;
    res.exclusion_rate = 0;
    res.calculate_confidence();
    // sample 10/14 * 40, exclusion band 30, no consistency without a mean
    assert_eq!(res.confidence_score, 10 * 40 * PRICE_SCALE / 14 + 30 * PRICE_SCALE);
    res.exclusion_rate = 2_000;
    res.calculate_confidence();
    assert_eq!(res.confidence_score, 10 * 40 * PRICE_SCALE / 14 + 40 * PRICE_SCALE);
    res.exclusion_rate = 6_000;
    res.calculate_confidence();
    assert_eq!(res.confidence_score, 10 * 40 * PRICE_SCALE / 14 + 10 * PRICE_SCALE);
}
