use orbit_camera::fixed::{clamp, fx_div, fx_mul, fx_pow, fx_root10, mul_div, SCALE};

#[test]
fn fx_mul_exact_products() {
    assert_eq!(fx_mul(1_500_000, 2_000_000), 3_000_000);
    assert_eq!(fx_mul(800_000, 800_000), 640_000);
    assert_eq!(fx_mul(0, 123_456), 0);
    assert_eq!(fx_mul(SCALE, SCALE), SCALE);
}

#[test]
fn fx_mul_signs_and_truncation() {
    assert_eq!(fx_mul(-1_500_000, 2_000_000), -3_000_000);
    assert_eq!(fx_mul(1_500_000, -2_000_000), -3_000_000);
    assert_eq!(fx_mul(-1_500_000, -2_000_000), 3_000_000);
    // Truncation is toward zero on both sides.
    assert_eq!(fx_mul(999_999, 1), 0);
    assert_eq!(fx_mul(-999_999, 1), 0);
}

#[test]
fn fx_div_exact_quotients() {
    assert_eq!(fx_div(1_000_000, 800_000), 1_250_000);
    assert_eq!(fx_div(-1_000_000, 800_000), -1_250_000);
    assert_eq!(fx_div(1_000_000, -800_000), -1_250_000);
    assert_eq!(fx_div(5_120_000, 1_000_000), 5_120_000);
}

#[test]
fn fx_pow_small_exponents() {
    assert_eq!(fx_pow(800_000, 0), SCALE);
    assert_eq!(fx_pow(800_000, 1), 800_000);
    assert_eq!(fx_pow(800_000, 3), 512_000);
    assert_eq!(fx_pow(2_000_000, 10), 1_024_000_000);
}

#[test]
fn fx_root10_of_one_is_one() {
    assert_eq!(fx_root10(1_000_000), 1_000_000);
}

#[test]
fn fx_root10_brackets_its_argument() {
    let s = 800_000;
    let r = fx_root10(s);
    assert!(fx_pow(r, 10) <= s);
    assert!(fx_pow(r + 1, 10) > s);
    // Close to the real tenth root of 0.8.
    let expected = 0.8_f64.powf(0.1);
    let got = r as f64 / SCALE as f64;
    assert!((got - expected).abs() < 2e-4, "got {got}, expected {expected}");
}

#[test]
fn clamp_forces_into_range() {
    assert_eq!(clamp(5, 0, 10), 5);
    assert_eq!(clamp(-5, 0, 10), 0);
    assert_eq!(clamp(15, 0, 10), 10);
}

#[test]
fn mul_div_scales_by_a_ratio() {
    // 6 * 5 / 3, toward zero, also under sign changes.
    assert_eq!(mul_div(6, 5, 3), 10);
    assert_eq!(mul_div(-6, 5, 6), -5);
    assert_eq!(mul_div(5, 3, 7), 2);
    assert_eq!(mul_div(-5, 3, 7), -2);
}
