use advanced_ichimoku_cloud::hull::{
    hull_mask, hullma, hullma_stages, window_mask, wma, HullStages,
};
use advanced_ichimoku_cloud::ichimoku_hull::{ichimoku_components_hull, ichimoku_line_hull, overlap};
use advanced_ichimoku_cloud::periods::{first_defined, hull_first_defined, weight_at, weight_total};
use advanced_ichimoku_cloud::rank::{defined, ranks_of_bits, ShapeMismatch};

fn weighted(prices: &[f64], period: usize) -> Vec<f64> {
    let n: usize = prices.len();
    let mut out: Vec<f64> = vec![f64::NAN; n];
    let total: f64 = weight_total(period) as f64;
    for i in first_defined(n, period)..n {
        let mut sum: f64 = 0.0;
        for lag in 0..period {
            sum += weight_at(period, lag) as f64 * prices[i - lag];
        }
        out[i] = sum / total;
    }
    out
}

fn hull(prices: &[f64], period: usize) -> Vec<f64> {
    let n: usize = prices.len();
    let stages = match hullma_stages(n, period) {
        Some(stages) => stages,
        None => return vec![f64::NAN; n],
    };
    let fast = weighted(prices, stages.fast);
    let slow = weighted(prices, stages.slow);
    let raw: Vec<f64> = fast.iter().zip(slow.iter()).map(|(f, s)| 2.0 * f - s).collect();
    weighted(&raw, stages.smooth)
}

fn readings(values: &[f64]) -> Vec<Option<i64>> {
    ranks_of_bits(&values.iter().map(|v| v.to_bits()).collect())
}

fn full(n: usize) -> Vec<Option<i64>> {
    (0..n).map(|i| Some(i as i64)).collect()
}

#[test]
fn masks_agree_with_the_doubles() {
    let mut prices: Vec<f64> = (0..40).map(|i| 100.0 + (i as f64) * 0.5 - ((i % 7) as f64)).collect();
    prices[17] = f64::NAN;
    for period in 0..45 {
        let expected_wma: Vec<bool> = weighted(&prices, period).iter().map(|v| !v.is_nan()).collect();
        assert_eq!(wma(&readings(&prices), period), expected_wma);
        let expected_hull: Vec<bool> = hull(&prices, period).iter().map(|v| !v.is_nan()).collect();
        assert_eq!(hullma(&readings(&prices), period), expected_hull);
    }
}

#[test]
fn hull_of_a_straight_line_follows_it() {
    let prices: Vec<f64> = (0..30).map(|i| i as f64).collect();
    let out = hull(&prices, 9);
    assert_eq!(out.len(), 30);
    for i in 0..10 {
        assert!(out[i].is_nan());
    }
    // fast lags 1, slow lags 8/3, so the combined series leads by 2/3; the
    // smoothing window of 3 lags 2/3 again
    for i in 10..30 {
        assert!((out[i] - i as f64).abs() < 1e-9);
    }
}

#[test]
fn repeated_calls_agree() {
    let src = vec![true, true, false, true, true, true, true, true, true, true];
    assert_eq!(window_mask(&src, 3), window_mask(&src, 3));
    assert_eq!(hull_mask(&src, 4), hull_mask(&src, 4));
    let series = readings(&[1.0, f64::NAN, 3.0, 4.0, 5.0, 6.0]);
    assert_eq!(wma(&series, 2), wma(&series, 2));
    assert_eq!(hullma(&series, 2), hullma(&series, 2));
    assert_eq!(hullma_stages(10, 4), hullma_stages(10, 4));
    let prices: Vec<f64> = (0..30).map(|i| (i as f64).sin()).collect();
    let a: Vec<u64> = hull(&prices, 9).iter().map(|v| v.to_bits()).collect();
    let b: Vec<u64> = hull(&prices, 9).iter().map(|v| v.to_bits()).collect();
    assert_eq!(a, b);
}

#[test]
fn hull_stages_of_common_periods() {
    assert_eq!(hullma_stages(20, 9), Some(HullStages { fast: 4, slow: 9, smooth: 3 }));
    assert_eq!(hullma_stages(20, 16), Some(HullStages { fast: 8, slow: 16, smooth: 4 }));
    assert_eq!(hullma_stages(3, 1), Some(HullStages { fast: 2, slow: 1, smooth: 2 }));
    assert_eq!(hullma_stages(3, 3), Some(HullStages { fast: 2, slow: 3, smooth: 2 }));
}

#[test]
fn hull_stages_need_a_window() {
    assert_eq!(hullma_stages(8, 9), None);
    assert_eq!(hullma_stages(8, 0), None);
    assert_eq!(hullma_stages(0, 0), None);
}

#[test]
fn wma_mask_after_first_window() {
    assert_eq!(window_mask(&vec![true; 5], 3), vec![false, false, true, true, true]);
    assert_eq!(window_mask(&vec![true; 3], 1), vec![true, true, true]);
}

#[test]
fn wma_nowhere_without_window() {
    assert_eq!(window_mask(&vec![true; 2], 3), vec![false, false]);
    assert_eq!(window_mask(&vec![true; 2], 0), vec![false, false]);
    assert_eq!(window_mask(&Vec::new(), 3), Vec::<bool>::new());
}

#[test]
fn wma_gap_blocks_every_window_over_it() {
    let src = vec![true, false, true, true, true, true];
    assert_eq!(window_mask(&src, 3), vec![false, false, false, false, true, true]);
    let src = vec![true, true, false, true, true];
    assert_eq!(window_mask(&src, 3), vec![false; 5]);
    let src = vec![true, false, true];
    assert_eq!(window_mask(&src, 1), vec![true, false, true]);
}

#[test]
fn wma_matches_first_defined_on_full_series() {
    let mut n: usize = 0;
    while n < 12 {
        let mut p: usize = 0;
        while p < 14 {
            let mask = window_mask(&vec![true; n], p);
            let first: usize = first_defined(n, p);
            let mut i: usize = 0;
            while i < n {
                assert_eq!(mask[i], i >= first);
                i += 1;
            }
            p += 1;
        }
        n += 1;
    }
}

#[test]
fn hullma_after_its_lead() {
    let mask = hull_mask(&vec![true; 20], 9);
    let mut i: usize = 0;
    while i < 20 {
        assert_eq!(mask[i], i >= 10);
        i += 1;
    }
}

#[test]
fn hullma_nowhere_without_window() {
    assert_eq!(hull_mask(&vec![true; 8], 9), vec![false; 8]);
    assert_eq!(hull_mask(&vec![true; 8], 0), vec![false; 8]);
    assert_eq!(hull_mask(&vec![true; 1], 1), vec![false]);
}

#[test]
fn hullma_matches_its_lead_on_full_series() {
    let mut n: usize = 0;
    while n < 30 {
        let mut p: usize = 0;
        while p < 32 {
            let hull = hull_mask(&vec![true; n], p);
            let wma = window_mask(&vec![true; n], p);
            let first: usize = hull_first_defined(n, p);
            let mut i: usize = 0;
            while i < n {
                assert_eq!(hull[i], i >= first);
                assert!(!hull[i] || wma[i]);
                i += 1;
            }
            p += 1;
        }
        n += 1;
    }
}

#[test]
fn hullma_gap_spreads_through_all_stages() {
    let mut src = vec![true; 16];
    src[5] = false;
    let mask = hull_mask(&src, 4);
    // fast 2, slow 4, smooth 2: the slow window is defined at 3 and 4, then
    // blocked up to position 8; the smoothing window needs two in a row.
    let expected: Vec<bool> = (0..16).map(|i| i == 4 || i >= 10).collect();
    assert_eq!(mask, expected);
}

#[test]
fn overlap_marks_common_positions() {
    assert_eq!(
        overlap(&vec![true, true, false, false], &vec![true, false, true, false]),
        vec![true, false, false, false]
    );
}

#[test]
fn hull_line_runs_over_bar_midpoints() {
    let mut high = full(12);
    let low = full(12);
    let whole = ichimoku_line_hull(&high, &low, 4).unwrap();
    assert_eq!(whole, hull_mask(&vec![true; 12], 4));
    high[0] = None;
    let marked = ichimoku_line_hull(&high, &low, 4).unwrap();
    let mut src = vec![true; 12];
    src[0] = false;
    assert_eq!(marked, hull_mask(&src, 4));
    assert_eq!(marked, (0..12).map(|i| i >= 5).collect::<Vec<bool>>());
    assert_eq!(ichimoku_line_hull(&low, &high, 4).unwrap(), marked);
}

#[test]
fn hull_line_rejects_unequal_lengths() {
    assert_eq!(
        ichimoku_line_hull(&full(4), &full(3), 2),
        Err(ShapeMismatch { expected: 4, found: 3 })
    );
}

#[test]
fn hull_cloud_first_span_needs_both_lines() {
    let high = full(30);
    let low = full(30);
    let cloud = ichimoku_components_hull(&high, &low, 4, 9, 16).unwrap();
    assert_eq!(cloud.tenkan, hullma(&high, 4));
    assert_eq!(cloud.kijun, hullma(&high, 9));
    assert_eq!(cloud.senkou_b, hullma(&high, 16));
    let mut i: usize = 0;
    while i < 30 {
        assert_eq!(cloud.senkou_a[i], cloud.tenkan[i] && cloud.kijun[i]);
        assert_eq!(cloud.senkou_a[i], i >= 10);
        i += 1;
    }
}

#[test]
fn hull_cloud_rejects_unequal_lengths() {
    let failed = ichimoku_components_hull(&full(2), &full(5), 4, 9, 16);
    assert_eq!(failed.err(), Some(ShapeMismatch { expected: 2, found: 5 }));
}

#[test]
fn wma_marks_windows_without_undefined_readings() {
    let series = readings(&[1.0, 2.0, f64::NAN, 4.0, 5.0, 6.0]);
    assert_eq!(defined(&series), vec![true, true, false, true, true, true]);
    assert_eq!(wma(&series, 2), vec![false, true, false, false, true, true]);
    assert_eq!(wma(&series, 1), vec![true, true, false, true, true, true]);
    assert_eq!(wma(&series, 7), vec![false; 6]);
    assert_eq!(wma(&series, 0), vec![false; 6]);
    assert_eq!(wma(&full(5), 3), vec![false, false, true, true, true]);
}

#[test]
fn hullma_marks_positions_after_its_lead() {
    assert_eq!(hullma(&full(7), 4), vec![false, false, false, false, true, true, true]);
    assert_eq!(hullma(&full(3), 4), vec![false; 3]);
    let series = readings(&[f64::NAN, 2.0, 3.0, 4.0, 5.0, 6.0, 7.0]);
    assert_eq!(hullma(&series, 4), vec![false, false, false, false, false, true, true]);
}

#[test]
fn infinities_count_as_defined() {
    let series = readings(&[f64::INFINITY, f64::NEG_INFINITY, 0.0]);
    assert_eq!(defined(&series), vec![true, true, true]);
}
