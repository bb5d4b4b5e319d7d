use moonshade_raytracer::rational::Rational;
use moonshade_raytracer::trig;

fn q(n: i64, d: i64) -> Rational {
    Rational::new(n, d).unwrap()
}

#[test]
fn add_reduces_exactly() {
    let r = Rational::add(q(1, 3), q(1, 6)).unwrap();
    assert_eq!(r, q(1, 2));
    assert_eq!(r.num(), 1);
    assert_eq!(r.den(), 2);
}

#[test]
fn sub_mul_div_are_exact() {
    assert_eq!(Rational::sub(q(3, 4), q(1, 4)).unwrap(), q(1, 2));
    assert_eq!(Rational::mul(q(2, 3), q(9, 4)).unwrap(), q(3, 2));
    assert_eq!(Rational::div(q(1, 2), q(1, 8)).unwrap(), q(4, 1));
}

#[test]
fn division_by_zero_is_absent() {
    assert!(Rational::div(q(1, 2), Rational::zero()).is_none());
}

#[test]
fn zero_denominator_is_absent() {
    assert!(Rational::new(1, 0).is_none());
    assert!(Rational::new(5, -10).is_some());
    assert_eq!(Rational::new(5, -10).unwrap(), q(-1, 2));
}

#[test]
fn comparisons_are_exact() {
    assert!(Rational::lt(q(1, 3), q(1, 2)));
    assert!(Rational::le(q(1, 2), q(2, 4)));
    assert!(!Rational::lt(q(1, 2), q(2, 4)));
    assert!(Rational::eq_val(q(2, 4), q(1, 2)));
}

#[test]
fn neg_and_abs() {
    assert_eq!(Rational::neg(q(3, 7)), q(-3, 7));
    assert_eq!(Rational::abs(q(-3, 7)), q(3, 7));
}

#[test]
fn sqrt_of_perfect_square_is_exact() {
    assert_eq!(Rational::sqrt(q(9, 1)).unwrap(), q(3, 1));
    assert_eq!(Rational::sqrt(q(1, 4)).unwrap(), q(1, 2));
    assert_eq!(Rational::sqrt(q(0, 1)).unwrap(), q(0, 1));
}

#[test]
fn sqrt_brackets_non_squares() {
    // the floor bracket, checked on the stored integer parts:
    // (n/d)^2 <= 2 < ((n+1)/d)^2
    let r = Rational::sqrt(q(2, 1)).unwrap();
    let n = r.num();
    let d = r.den();
    assert!(n * n <= 2 * d * d);
    assert!(2 * d * d < (n + 1) * (n + 1));
}

#[test]
fn sqrt_of_negative_is_absent() {
    assert!(Rational::sqrt(q(-1, 1)).is_none());
}

#[test]
fn sine_of_zero_and_right_angle() {
    assert_eq!(trig::sin_approx(Rational::zero()).unwrap(), Rational::zero());
    // at pi/2 the rational sine formula is exactly one
    let half_pi = Rational::new(355, 226).unwrap();
    assert_eq!(trig::sin_approx(half_pi).unwrap(), Rational::one());
    assert_eq!(trig::cos_approx(Rational::zero()).unwrap(), Rational::one());
}

#[test]
fn sine_is_odd_and_bounded_outside_domain() {
    let x = q(1, 2);
    let s = trig::sin_approx(x).unwrap();
    let sneg = trig::sin_approx(Rational::neg(x)).unwrap();
    assert_eq!(sneg, Rational::neg(s));
    // beyond pi the approximation declines
    assert!(trig::sin_approx(q(4, 1)).is_none());
}
