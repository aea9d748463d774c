use diorama::fx::{fx_abs, fx_add, fx_clamp, fx_div, fx_div0, fx_emod, fx_mul, fx_neg, fx_sqrt, fx_sub, FX_ONE};
use diorama::trig::{asin_fx, atan2_fx, cos_fx, sin_fx, tan_fx, HALF_PI_FX, PI_FX};

#[test]
fn fixed_point_products_truncate_toward_zero() {
    assert_eq!(fx_mul(1_500_000, 2_000_000), 3_000_000);
    assert_eq!(fx_mul(-1_500_000, 2_000_000), -3_000_000);
    assert_eq!(fx_mul(1, 1), 0); // 1e-12 truncates to zero
    assert_eq!(fx_mul(-1, 1), 0);
}

#[test]
fn fixed_point_sums_saturate() {
    assert_eq!(fx_add(i64::MAX, 1), i64::MAX);
    assert_eq!(fx_sub(i64::MIN, 1), i64::MIN);
    assert_eq!(fx_neg(i64::MIN), i64::MAX);
    assert_eq!(fx_add(2_000_000, 3_000_000), 5_000_000);
}

#[test]
fn fixed_point_quotients() {
    assert_eq!(fx_div(1_000_000, 3_000_000), 333_333);
    assert_eq!(fx_div(-1_000_000, 3_000_000), -333_333);
    assert_eq!(fx_div(9_000_000, 3_000_000), 3_000_000);
    assert_eq!(fx_div0(5_000_000, 0), 0);
}

#[test]
fn square_root_is_exact_on_squares() {
    assert_eq!(fx_sqrt(4_000_000), 2_000_000);
    assert_eq!(fx_sqrt(25_000_000), 5_000_000);
    assert_eq!(fx_sqrt(0), 0);
    assert_eq!(fx_sqrt(-3_000_000), 0);
    // sqrt(2) = 1.414213...
    assert_eq!(fx_sqrt(2_000_000), 1_414_213);
}

#[test]
fn euclidean_remainder_wraps_negatives_up() {
    assert_eq!(fx_emod(2_500_000, FX_ONE), 500_000);
    assert_eq!(fx_emod(-250_000, FX_ONE), 750_000);
    assert_eq!(fx_emod(-2_000_000, FX_ONE), 0);
}

#[test]
fn clamp_and_abs() {
    assert_eq!(fx_clamp(5, 0, 3), 3);
    assert_eq!(fx_clamp(-5, 0, 3), 0);
    assert_eq!(fx_clamp(2, 0, 3), 2);
    assert_eq!(fx_abs(-7), 7);
    assert_eq!(fx_abs(i64::MIN), i64::MAX);
}

#[test]
fn trigonometry_matches_the_circle() {
    assert_eq!(sin_fx(0), 0);
    assert!((sin_fx(HALF_PI_FX) - FX_ONE).abs() < 1_000);
    assert!(sin_fx(PI_FX).abs() < 1_000);
    assert!((cos_fx(0) - FX_ONE).abs() < 1_000);
    assert!(cos_fx(HALF_PI_FX).abs() < 1_000);
    // sin(pi/6) = 0.5
    assert!((sin_fx(523_599) - 500_000).abs() < 1_000);
    // tan(pi/6) = 0.577350
    assert!((tan_fx(523_599) - 577_350).abs() < 2_000);
}

#[test]
fn inverse_trigonometry_quadrants() {
    assert_eq!(atan2_fx(0, FX_ONE), 0);
    assert_eq!(atan2_fx(FX_ONE, 0), HALF_PI_FX);
    assert_eq!(atan2_fx(0, -FX_ONE), PI_FX);
    assert_eq!(atan2_fx(-FX_ONE, 0), -HALF_PI_FX);
    assert!((atan2_fx(FX_ONE, FX_ONE) - 785_398).abs() < 2_000);
    assert!((asin_fx(FX_ONE) - HALF_PI_FX).abs() < 2_000);
    assert!((asin_fx(-FX_ONE) + HALF_PI_FX).abs() < 2_000);
    assert!((asin_fx(500_000) - 523_599).abs() < 2_000);
    // inputs beyond the unit band are clamped onto it
    assert_eq!(asin_fx(2_000_000), asin_fx(FX_ONE));
}
