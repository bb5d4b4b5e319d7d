//! Rational approximations of sine and cosine.
//!
//! The engine's angles are exact rationals, so the circle constant is
//! the classical rational approximation 355/113 and the sine is
//! Bhaskara's rational formula `16 x (pi - x) / (5 pi^2 - 4 x (pi - x))`
//! on `[0, pi]`, extended to `[-pi, pi]` as an odd function.  The
//! cosine is the sine of the complementary angle.  These formulas are
//! themselves the specification: each function returns exactly the
//! rational the formula denotes, or nothing outside `[-pi, pi]` (or
//! when a step is unrepresentable).

use vstd::prelude::*;
use crate::rational::{
    o_sub, osub, opt_wf, ov, rat_abs, rat_div, rat_int, rat_le, rat_mul, rat_neg, rat_sub, RatV,
    Rational,
};

verus! {

/// The circle constant, as the rational 355/113.
pub open spec fn rat_pi() -> RatV {
    RatV { n: 355, d: 113 }
}

/// Half the circle constant, as the rational 355/226.
pub open spec fn rat_half_pi() -> RatV {
    RatV { n: 355, d: 226 }
}

/// Bhaskara's sine on `[0, pi]`:
/// `16 x (pi - x) / (5 pi^2 - 4 x (pi - x))`.
pub open spec fn sin_core_v(x: RatV) -> Option<RatV> {
    match rat_sub(rat_pi(), x) {
        Some(pmx) => match rat_mul(x, pmx) {
            Some(xp) => match (rat_mul(rat_int(16), xp), rat_mul(rat_int(4), xp)) {
                (Some(n), Some(f)) => match o_sub(rat_mul(rat_int(5), pi_sq()), Some(f)) {
                    Some(den) => rat_div(n, den),
                    None => None,
                },
                _ => None,
            },
            None => None,
        },
        None => None,
    }
}

/// The square of the circle constant.
pub open spec fn pi_sq() -> RatV {
    RatV { n: 126025, d: 12769 }
}

/// The sine on `[-pi, pi]`, odd around zero; absent outside.
pub open spec fn sin_v(x: RatV) -> Option<RatV> {
    if !rat_le(rat_abs(x), rat_pi()) {
        None
    } else if x.n >= 0 {
        sin_core_v(x)
    } else {
        match sin_core_v(rat_neg(x)) {
            Some(s) => Some(rat_neg(s)),
            None => None,
        }
    }
}

/// The cosine on `[-pi, pi]`: the sine of the complementary angle of
/// the magnitude.
pub open spec fn cos_v(x: RatV) -> Option<RatV> {
    if !rat_le(rat_abs(x), rat_pi()) {
        None
    } else {
        match rat_sub(rat_half_pi(), rat_abs(x)) {
            Some(y) => sin_v(y),
            None => None,
        }
    }
}

/// The circle constant.
pub fn pi() -> (r: Rational)
    ensures
        r@ == rat_pi(),
        r.wf(),
{
    Rational::of_pair(355, 113)
}

/// The full turn, two times the circle constant.
pub fn tau() -> (r: Rational)
    ensures
        r@ == (RatV { n: 710, d: 113 }),
        r.wf(),
{
    Rational::of_pair(710, 113)
}

/// Bhaskara's sine on `[0, pi]`.
fn sin_core(x: Rational) -> (r: Option<Rational>)
    requires
        x.wf(),
    ensures
        ov(r) == sin_core_v(x@),
        opt_wf(r),
{
    let pmx = match Rational::sub(pi(), x) {
        Some(pmx) => pmx,
        None => {
            return None;
        },
    };
    let xp = match Rational::mul(x, pmx) {
        Some(xp) => xp,
        None => {
            return None;
        },
    };
    let num = Rational::mul(Rational::from_int(16), xp);
    let f = Rational::mul(Rational::from_int(4), xp);
    let (n, f) = match (num, f) {
        (Some(n), Some(f)) => (n, f),
        _ => {
            return None;
        },
    };
    let five_pi_sq = Rational::mul(Rational::from_int(5), Rational::of_pair(126025, 12769));
    match osub(five_pi_sq, Some(f)) {
        Some(den) => Rational::div(n, den),
        None => None,
    }
}

/// The sine of an angle in `[-pi, pi]`, exactly as the rational
/// formula gives it; `None` outside that interval or when a step is
/// unrepresentable.
pub fn sin_approx(x: Rational) -> (r: Option<Rational>)
    requires
        x.wf(),
    ensures
        ov(r) == sin_v(x@),
        opt_wf(r),
{
    if !Rational::le(Rational::abs(x), pi()) {
        return None;
    }
    if x.is_nonneg() {
        sin_core(x)
    } else {
        match sin_core(Rational::neg(x)) {
            Some(s) => Some(Rational::neg(s)),
            None => None,
        }
    }
}

/// The cosine of an angle in `[-pi, pi]`, as the sine of the
/// complementary angle.
pub fn cos_approx(x: Rational) -> (r: Option<Rational>)
    requires
        x.wf(),
    ensures
        ov(r) == cos_v(x@),
        opt_wf(r),
{
    if !Rational::le(Rational::abs(x), pi()) {
        return None;
    }
    match Rational::sub(Rational::of_pair(355, 226), Rational::abs(x)) {
        Some(y) => sin_approx(y),
        None => None,
    }
}

} // verus!
