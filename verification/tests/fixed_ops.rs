use feedforward::fixed::{fx_mul, relu_fx, sat_add, sigmoid_fx, HALF, SCALE};

#[test]
fn fx_mul_one_times_one() {
    // 1.0 * 1.0 == 1.0
    assert_eq!(fx_mul(SCALE, SCALE), SCALE);
}

#[test]
fn fx_mul_signs() {
    // -1.0 * 2.0 == -2.0, and the truncation rounds toward zero.
    assert_eq!(fx_mul(-SCALE, 2 * SCALE), -2 * SCALE);
    assert_eq!(fx_mul(-SCALE, -2 * SCALE), 2 * SCALE);
    assert_eq!(fx_mul(1, 1), 0);
    assert_eq!(fx_mul(-1, 1), 0);
}

#[test]
fn fx_mul_saturates() {
    assert_eq!(fx_mul(i64::MAX, i64::MAX), i64::MAX);
    assert_eq!(fx_mul(i64::MIN, i64::MAX), i64::MIN);
}

#[test]
fn sat_add_saturates() {
    assert_eq!(sat_add(i64::MAX, 1), i64::MAX);
    assert_eq!(sat_add(i64::MIN, -1), i64::MIN);
    assert_eq!(sat_add(3 * SCALE, -SCALE), 2 * SCALE);
}

#[test]
fn relu_clamps_negatives() {
    assert_eq!(relu_fx(-SCALE), 0);
    assert_eq!(relu_fx(0), 0);
    assert_eq!(relu_fx(7), 7);
}

#[test]
fn sigmoid_of_zero_is_exactly_one_half() {
    assert_eq!(sigmoid_fx(0), HALF);
}

#[test]
fn sigmoid_stays_in_open_unit_interval() {
    for &x in &[i64::MIN, -3 * SCALE, -1, 0, 1, SCALE, 100 * SCALE, i64::MAX] {
        let r = sigmoid_fx(x);
        assert!(0 < r && r < SCALE, "sigmoid out of range for {}: {}", x, r);
    }
}

#[test]
fn sigmoid_tracks_the_logistic_function() {
    // Interpolation error is below one thousandth across the table.
    for &x in &[-4.0f64, -2.0, -0.5, 0.25, 1.0, 2.0, 4.0, 7.75] {
        let fx = sigmoid_fx((x * SCALE as f64) as i64) as f64 / SCALE as f64;
        let exact = 1.0 / (1.0 + (-x).exp());
        assert!((fx - exact).abs() < 1e-3, "x={}: {} vs {}", x, fx, exact);
    }
    // sigmoid(2.0) is about 0.8808.
    let s2 = sigmoid_fx(2 * SCALE) as f64 / SCALE as f64;
    assert!((s2 - 0.8808).abs() < 1e-3);
}

#[test]
fn sigmoid_symmetric_about_one_half() {
    for &x in &[1, 1000, SCALE, 3 * SCALE] {
        assert_eq!(sigmoid_fx(x) + sigmoid_fx(-x), SCALE);
    }
}
