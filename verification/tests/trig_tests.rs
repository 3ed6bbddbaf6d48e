use orbit_camera::trig::{cos_fx, sin_fx, HALF_PI_FX, PI_FX, SIN_BOUND, TAU_FX};

fn close(got: i64, real: f64, tol: f64) -> bool {
    let g = got as f64 / 1e6;
    (g - real).abs() < tol
}

#[test]
fn sine_of_zero_is_zero() {
    assert_eq!(sin_fx(0), 0);
}

#[test]
fn sine_peaks_near_one_at_a_quarter_turn() {
    let s = sin_fx(HALF_PI_FX);
    assert!(close(s, 1.0, 0.01), "sin(pi/2) was {s}");
    assert!(s <= SIN_BOUND);
}

#[test]
fn sine_tracks_the_real_sine() {
    let samples: [i64; 8] = [
        100_000,
        523_599,
        1_000_000,
        2_000_000,
        3_000_000,
        4_500_000,
        6_000_000,
        20_000_000,
    ];
    for &a in samples.iter() {
        let real = (a as f64 / 1e6).sin();
        assert!(close(sin_fx(a), real, 0.01), "sin({a}) was {}", sin_fx(a));
        let real_c = (a as f64 / 1e6).cos();
        assert!(close(cos_fx(a), real_c, 0.01), "cos({a}) was {}", cos_fx(a));
    }
}

#[test]
fn sine_is_odd_exactly() {
    for &a in [1, 10_000, 700_000, 1_570_796, 2_500_000].iter() {
        assert_eq!(sin_fx(-a), -sin_fx(a));
    }
}

#[test]
fn sine_repeats_each_turn_exactly() {
    for &a in [0, 123_456, -987_654, 3_141_593].iter() {
        assert_eq!(sin_fx(a + TAU_FX), sin_fx(a));
        assert_eq!(sin_fx(a - TAU_FX), sin_fx(a));
    }
}

#[test]
fn sine_of_a_half_turn_is_tiny() {
    let s = sin_fx(PI_FX);
    assert!(s.abs() < 1_000, "sin(pi) was {s}");
}
