use advanced_ichimoku_cloud::ichimoku::{
    ichimoku_components, ichimoku_line, peak_index, trough_index, Pick,
};
use advanced_ichimoku_cloud::rank::{ranks_of_bits, ShapeMismatch};

fn ranks(values: &[f64]) -> Vec<Option<i64>> {
    ranks_of_bits(&values.iter().map(|v| v.to_bits()).collect())
}

fn midpoints(high: &[f64], low: &[f64], period: usize) -> Vec<f64> {
    let plan = ichimoku_line(&ranks(high), &ranks(low), period).unwrap();
    plan.iter()
        .map(|pick| match pick {
            Pick::Zero => 0.0,
            Pick::Mid { high_at, low_at } => (high[*high_at] + low[*low_at]) / 2.0,
        })
        .collect()
}

#[test]
fn peak_is_first_of_the_largest() {
    let s = ranks(&[1.0, 5.0, 3.0, 5.0, 2.0]);
    assert_eq!(peak_index(&s, 0, 4), 1);
    assert_eq!(peak_index(&s, 2, 4), 3);
    assert_eq!(peak_index(&s, 2, 2), 2);
    assert_eq!(peak_index(&s, 0, 0), 0);
}

#[test]
fn trough_is_first_of_the_smallest() {
    let s = ranks(&[4.0, 1.0, 3.0, 1.0, 2.0]);
    assert_eq!(trough_index(&s, 0, 4), 1);
    assert_eq!(trough_index(&s, 2, 4), 3);
    assert_eq!(trough_index(&s, 4, 4), 4);
}

#[test]
fn scan_skips_undefined_but_never_leaves_an_undefined_start() {
    let s = ranks(&[2.0, f64::NAN, 7.0, f64::NAN]);
    assert_eq!(peak_index(&s, 0, 3), 2);
    assert_eq!(trough_index(&s, 0, 3), 0);
    let s = ranks(&[f64::NAN, 5.0, 7.0]);
    assert_eq!(peak_index(&s, 0, 2), 0);
    assert_eq!(trough_index(&s, 0, 2), 0);
}

#[test]
fn scan_treats_both_zeros_alike() {
    let s = ranks(&[-0.0, 0.0]);
    assert_eq!(peak_index(&s, 0, 1), 0);
    assert_eq!(trough_index(&s, 0, 1), 0);
    let s = ranks(&[0.0, -0.0]);
    assert_eq!(peak_index(&s, 0, 1), 0);
    assert_eq!(trough_index(&s, 0, 1), 0);
}

#[test]
fn line_picks_window_extremes() {
    let high = ranks(&[1.0, 3.0, 2.0, 5.0, 4.0]);
    let low = ranks(&[0.0, 1.0, 1.0, 2.0, 3.0]);
    let plan = ichimoku_line(&high, &low, 3).unwrap();
    assert_eq!(
        plan,
        vec![
            Pick::Mid { high_at: 1, low_at: 0 },
            Pick::Mid { high_at: 1, low_at: 0 },
            Pick::Mid { high_at: 1, low_at: 0 },
            Pick::Mid { high_at: 3, low_at: 1 },
            Pick::Mid { high_at: 3, low_at: 2 },
        ]
    );
}

#[test]
fn line_start_is_flat() {
    let high = [10.0, 11.0, 12.0, 11.5, 13.0, 12.0, 14.0];
    let low = [9.0, 9.5, 10.0, 10.5, 11.0, 11.0, 12.5];
    let plan = ichimoku_line(&ranks(&high), &ranks(&low), 4).unwrap();
    assert_eq!(plan[0], plan[3]);
    assert_eq!(plan[1], plan[3]);
    assert_eq!(plan[2], plan[3]);
    let line = midpoints(&high, &low, 4);
    assert_eq!(line, vec![10.5, 10.5, 10.5, 10.5, 11.25, 11.5, 12.25]);
}

#[test]
fn line_of_period_one_is_each_bar() {
    let high = ranks(&[3.0, 1.0, 2.0]);
    let low = ranks(&[2.0, 0.5, 1.0]);
    let plan = ichimoku_line(&high, &low, 1).unwrap();
    assert_eq!(
        plan,
        vec![
            Pick::Mid { high_at: 0, low_at: 0 },
            Pick::Mid { high_at: 1, low_at: 1 },
            Pick::Mid { high_at: 2, low_at: 2 },
        ]
    );
}

#[test]
fn line_of_full_length_window() {
    let high = ranks(&[3.0, 1.0, 2.0]);
    let low = ranks(&[2.0, 0.5, 1.0]);
    let plan = ichimoku_line(&high, &low, 3).unwrap();
    assert_eq!(plan, vec![Pick::Mid { high_at: 0, low_at: 1 }; 3]);
}

#[test]
fn line_without_window_is_zero() {
    let high = ranks(&[3.0, 1.0]);
    let low = ranks(&[2.0, 0.5]);
    assert_eq!(ichimoku_line(&high, &low, 3).unwrap(), vec![Pick::Zero; 2]);
    assert_eq!(ichimoku_line(&high, &low, 0).unwrap(), vec![Pick::Zero; 2]);
    assert_eq!(ichimoku_line(&Vec::new(), &Vec::new(), 2).unwrap(), Vec::<Pick>::new());
    assert_eq!(midpoints(&[3.0, 1.0], &[2.0, 0.5], 3), vec![0.0, 0.0]);
}

#[test]
fn line_rejects_unequal_lengths() {
    let high = ranks(&[3.0, 1.0, 2.0]);
    let low = ranks(&[2.0, 0.5]);
    assert_eq!(ichimoku_line(&high, &low, 2), Err(ShapeMismatch { expected: 3, found: 2 }));
    assert_eq!(ichimoku_line(&low, &high, 2), Err(ShapeMismatch { expected: 2, found: 3 }));
}

#[test]
fn cloud_lines_are_independent_lines() {
    let high = ranks(&[10.0, 11.0, 12.0, 11.5, 13.0, 12.0, 14.0]);
    let low = ranks(&[9.0, 9.5, 10.0, 10.5, 11.0, 11.0, 12.5]);
    let cloud = ichimoku_components(&high, &low, 2, 4, 6).unwrap();
    assert_eq!(cloud.tenkan, ichimoku_line(&high, &low, 2).unwrap());
    assert_eq!(cloud.kijun, ichimoku_line(&high, &low, 4).unwrap());
    assert_eq!(cloud.senkou_b, ichimoku_line(&high, &low, 6).unwrap());
}

#[test]
fn cloud_first_span_is_the_exact_average() {
    let high = [10.0, 11.0, 12.0, 11.5, 13.0, 12.0, 14.0];
    let low = [9.0, 9.5, 10.0, 10.5, 11.0, 11.0, 12.5];
    let tenkan = midpoints(&high, &low, 2);
    let kijun = midpoints(&high, &low, 4);
    let span: Vec<f64> = tenkan.iter().zip(kijun.iter()).map(|(t, k)| (t + k) / 2.0).collect();
    assert_eq!(tenkan, vec![10.0, 10.0, 10.75, 11.0, 11.75, 12.0, 12.5]);
    assert_eq!(span[0], (10.0 + 10.5) / 2.0);
    assert_eq!(span[6], (12.5 + 12.25) / 2.0);
}

#[test]
fn cloud_rejects_unequal_lengths() {
    let high = ranks(&[3.0, 1.0, 2.0]);
    let low = ranks(&[2.0]);
    let failed = ichimoku_components(&high, &low, 1, 2, 3);
    assert_eq!(failed.err(), Some(ShapeMismatch { expected: 3, found: 1 }));
}
