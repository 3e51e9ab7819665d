use fingerprint_entropy::{median_doubled, sorted_copy};

#[test]
fn median_of_odd_series() {
    // median of [3,1,2] is 2
    let v = vec![3u64, 1, 2];
    let m2 = median_doubled(&v);
    assert_eq!(m2, 4);
    assert_eq!(m2 as f64 / 2.0, 2.0);
}

#[test]
fn median_of_even_series_averages_middles() {
    // median of [4,1,3,2] is 2.5, the average of the two middle values
    let v = vec![4u64, 1, 3, 2];
    let m2 = median_doubled(&v);
    assert_eq!(m2, 5);
    assert_eq!(m2 as f64 / 2.0, 2.5);
}

#[test]
fn median_of_single_value() {
    let v = vec![42u64];
    assert_eq!(median_doubled(&v), 84);
}

#[test]
fn median_is_robust_against_an_outlier() {
    let v = vec![10u64, 11, 12, 13, 1000000];
    assert_eq!(median_doubled(&v), 24);
}

#[test]
fn sorted_copy_orders_values() {
    let v = vec![5u64, 3, 9, 3, 1];
    let s = sorted_copy(&v);
    assert_eq!(s, vec![1u64, 3, 3, 5, 9]);
}
