use model_select::real_bits::{
    clamp_zero, pattern_is_finite, pattern_is_nan, pattern_is_positive, pattern_is_zero,
    total_rank, EPSILON_BITS,
};

#[test]
fn epsilon_bits_encode_one_millionth() {
    assert_eq!(EPSILON_BITS, (1e-6f64).to_bits());
}

#[test]
fn zero_patterns_are_exactly_the_two_zeros() {
    assert!(pattern_is_zero((0.0f64).to_bits()));
    assert!(pattern_is_zero((-0.0f64).to_bits()));
    assert!(!pattern_is_zero((1.0f64).to_bits()));
    assert!(!pattern_is_zero((-1.0f64).to_bits()));
    // a subnormal is tiny but not zero
    assert!(!pattern_is_zero((1e-320f64).to_bits()));
    assert!(!pattern_is_zero(f64::NAN.to_bits()));
}

#[test]
fn finiteness_matches_the_float() {
    let samples: [f64; 8] = [
        0.0,
        -0.0,
        1.5,
        -2.75,
        f64::MAX,
        f64::INFINITY,
        f64::NEG_INFINITY,
        f64::NAN,
    ];
    for v in samples {
        assert_eq!(pattern_is_finite(v.to_bits()), v.is_finite(), "value {v}");
    }
}

#[test]
fn nan_detection_matches_the_float() {
    let samples: [f64; 6] = [0.0, 1.5, f64::INFINITY, f64::NEG_INFINITY, f64::NAN, -f64::NAN];
    for v in samples {
        assert_eq!(pattern_is_nan(v.to_bits()), v.is_nan(), "value {v}");
    }
}

#[test]
fn positivity_matches_strict_float_comparison() {
    let samples: [f64; 10] = [
        0.0,
        -0.0,
        1.0,
        -1.0,
        f64::MIN_POSITIVE,
        1e-320,
        f64::INFINITY,
        f64::NEG_INFINITY,
        f64::NAN,
        1e-6,
    ];
    for v in samples {
        assert_eq!(pattern_is_positive(v.to_bits()), v > 0.0, "value {v}");
    }
}

#[test]
fn clamp_zero_substitutes_epsilon_for_both_zeros() {
    assert_eq!(clamp_zero((0.0f64).to_bits()), (1e-6f64).to_bits());
    assert_eq!(clamp_zero((-0.0f64).to_bits()), (1e-6f64).to_bits());
    assert_eq!(clamp_zero((2.5f64).to_bits()), (2.5f64).to_bits());
    assert_eq!(clamp_zero((-3.0f64).to_bits()), (-3.0f64).to_bits());
    assert_eq!(clamp_zero(f64::NAN.to_bits()), f64::NAN.to_bits());
}

#[test]
fn total_rank_orders_patterns_like_total_cmp() {
    let samples: [f64; 12] = [
        f64::NEG_INFINITY,
        -7.25,
        -1.0,
        -1e-320,
        -0.0,
        0.0,
        1e-320,
        1e-6,
        1.0,
        42.0,
        f64::INFINITY,
        f64::NAN,
    ];
    for a in samples {
        for b in samples {
            let by_rank = total_rank(a.to_bits()).cmp(&total_rank(b.to_bits()));
            assert_eq!(by_rank, a.total_cmp(&b), "values {a} {b}");
        }
    }
}
