use ray_tracing::fx::{Fx, CAP, PI_FX, SCALE};

#[test]
fn whole_number_arithmetic_is_exact() {
    let two = Fx::from_int(2);
    let three = Fx::from_int(3);
    assert_eq!(two.add(three), Fx::from_int(5));
    assert_eq!(two.sub(three), Fx::from_int(-1));
    assert_eq!(three.mul(Fx::from_int(4)), Fx::from_int(12));
    assert_eq!(Fx::from_int(12).div(three), Fx::from_int(4));
    assert_eq!(Fx::from_int(-7).abs(), Fx::from_int(7));
    assert_eq!(Fx::from_int(7).neg(), Fx::from_int(-7));
}

#[test]
fn halves_and_quarters_are_exact() {
    assert_eq!(Fx::from_ratio(1, 2).raw(), SCALE / 2);
    assert_eq!(Fx::from_ratio(1, 4).raw(), SCALE / 4);
    assert_eq!(Fx::from_ratio(1, 2).mul(Fx::from_ratio(1, 2)), Fx::from_ratio(1, 4));
    assert_eq!(Fx::from_ratio(3, 2).trunc(), 1);
    assert_eq!(Fx::from_ratio(-3, 2).trunc(), -1);
}

#[test]
fn square_roots_of_perfect_squares_are_exact() {
    assert_eq!(Fx::from_int(4).sqrt(), Fx::from_int(2));
    assert_eq!(Fx::from_int(9).sqrt(), Fx::from_int(3));
    assert_eq!(Fx::from_ratio(1, 4).sqrt(), Fx::from_ratio(1, 2));
    assert_eq!(Fx::from_int(0).sqrt(), Fx::from_int(0));
    assert_eq!(Fx::from_int(-4).sqrt(), Fx::from_int(0));
}

#[test]
fn saturation_caps_the_range() {
    assert_eq!(Fx::from_raw(i64::MAX).raw(), CAP);
    assert_eq!(Fx::from_raw(i64::MIN).raw(), -CAP);
    let big = Fx::from_raw(CAP);
    assert_eq!(big.add(big).raw(), CAP);
    assert_eq!(big.neg().sub(big).raw(), -CAP);
    assert_eq!(big.mul(big).raw(), CAP);
}

#[test]
fn division_by_zero_saturates_with_the_dividend_sign() {
    let zero = Fx::zero();
    assert_eq!(Fx::from_int(3).div(zero).raw(), CAP);
    assert_eq!(Fx::from_int(-3).div(zero).raw(), -CAP);
    assert_eq!(zero.div(zero).raw(), 0);
}

#[test]
fn comparisons_and_clamp_follow_the_raw_order() {
    let a = Fx::from_ratio(1, 3);
    let b = Fx::from_ratio(1, 2);
    assert!(a.lt(b));
    assert!(a.le(b));
    assert!(!b.lt(a));
    assert_eq!(a.min(b), a);
    assert_eq!(a.max(b), b);
    assert_eq!(Fx::from_int(5).clamp(Fx::zero(), Fx::one()), Fx::one());
    assert_eq!(Fx::from_int(-5).clamp(Fx::zero(), Fx::one()), Fx::zero());
}

#[test]
fn cosine_hits_the_cardinal_angles() {
    // cos 0 == 1 and cos pi == -1 exactly in the quadrant formula
    assert_eq!(Fx::zero().cos(), Fx::one());
    assert_eq!(Fx::from_raw(PI_FX).cos(), Fx::from_int(-1));
    // cos(pi/2) is zero up to the formula's rounding
    let half_pi = Fx::from_raw(PI_FX).div(Fx::from_int(2));
    assert!(half_pi.cos().abs().raw() < SCALE / 1000);
    // a third of pi: cos is close to one half
    let third_pi = Fx::from_raw(PI_FX).div(Fx::from_int(3));
    let err = third_pi.cos().sub(Fx::from_ratio(1, 2)).abs();
    assert!(err.raw() < SCALE / 100);
}
