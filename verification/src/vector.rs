//! Free displacements in 3-space over exact rational scalars.
//!
//! Every operation is specified exactly: an operation returns `None`
//! precisely when some scalar step of its fixed evaluation order
//! leaves the representable range (or, for normalization and
//! inversion, when the vector is zero).  Zero tests are exact: with
//! exact scalars no machine-epsilon tolerance is needed.

use vstd::prelude::*;
use crate::rational::{
    lemma_add_zero_left, lemma_add_zero_right, lemma_add_zeros, lemma_eqv_trans,
    lemma_mul_one_right, lemma_mul_zero_right, o_add, o_sub, o_sqrt, oadd, osub, osqrt, opt_wf,
    ov, rat_abs, rat_add, rat_div, rat_eqv, rat_int, rat_mul, rat_neg, rat_sub, rat_wf, RatV,
    Rational,
};

verus! {

/// The mathematical content of a vector.
pub ghost struct VecV {
    pub x: RatV,
    pub y: RatV,
    pub z: RatV,
}

pub open spec fn v_zero() -> VecV {
    VecV { x: rat_int(0), y: rat_int(0), z: rat_int(0) }
}

/// A vector is zero exactly when every component is zero.
pub open spec fn v_is_zero(a: VecV) -> bool {
    a.x.n == 0 && a.y.n == 0 && a.z.n == 0
}

pub open spec fn v_add(a: VecV, b: VecV) -> Option<VecV> {
    match (rat_add(a.x, b.x), rat_add(a.y, b.y), rat_add(a.z, b.z)) {
        (Some(x), Some(y), Some(z)) => Some(VecV { x, y, z }),
        _ => None,
    }
}

pub open spec fn v_sub(a: VecV, b: VecV) -> Option<VecV> {
    match (rat_sub(a.x, b.x), rat_sub(a.y, b.y), rat_sub(a.z, b.z)) {
        (Some(x), Some(y), Some(z)) => Some(VecV { x, y, z }),
        _ => None,
    }
}

pub open spec fn v_neg(a: VecV) -> VecV {
    VecV { x: rat_neg(a.x), y: rat_neg(a.y), z: rat_neg(a.z) }
}

pub open spec fn v_scale(a: VecV, s: RatV) -> Option<VecV> {
    match (rat_mul(a.x, s), rat_mul(a.y, s), rat_mul(a.z, s)) {
        (Some(x), Some(y), Some(z)) => Some(VecV { x, y, z }),
        _ => None,
    }
}

pub open spec fn v_div_s(a: VecV, s: RatV) -> Option<VecV> {
    match (rat_div(a.x, s), rat_div(a.y, s), rat_div(a.z, s)) {
        (Some(x), Some(y), Some(z)) => Some(VecV { x, y, z }),
        _ => None,
    }
}

pub open spec fn v_cwise(a: VecV, b: VecV) -> Option<VecV> {
    match (rat_mul(a.x, b.x), rat_mul(a.y, b.y), rat_mul(a.z, b.z)) {
        (Some(x), Some(y), Some(z)) => Some(VecV { x, y, z }),
        _ => None,
    }
}

pub open spec fn v_dot(a: VecV, b: VecV) -> Option<RatV> {
    o_add(o_add(rat_mul(a.x, b.x), rat_mul(a.y, b.y)), rat_mul(a.z, b.z))
}

pub open spec fn v_abs_dot(a: VecV, b: VecV) -> Option<RatV> {
    match v_dot(a, b) {
        Some(d) => Some(rat_abs(d)),
        None => None,
    }
}

pub open spec fn v_cross(a: VecV, b: VecV) -> Option<VecV> {
    match (
        o_sub(rat_mul(a.y, b.z), rat_mul(a.z, b.y)),
        o_sub(rat_mul(a.z, b.x), rat_mul(a.x, b.z)),
        o_sub(rat_mul(a.x, b.y), rat_mul(a.y, b.x)),
    ) {
        (Some(x), Some(y), Some(z)) => Some(VecV { x, y, z }),
        _ => None,
    }
}

pub open spec fn v_len_sq(a: VecV) -> Option<RatV> {
    v_dot(a, a)
}

pub open spec fn v_len(a: VecV) -> Option<RatV> {
    o_sqrt(v_len_sq(a))
}

/// Normalization fails on the zero vector, and otherwise exactly when
/// a scalar step is unrepresentable.
pub open spec fn v_normalized(a: VecV) -> Option<VecV> {
    if v_is_zero(a) {
        None
    } else {
        match v_len(a) {
            Some(l) => v_div_s(a, l),
            None => None,
        }
    }
}

pub open spec fn v_normalized_or_zero(a: VecV) -> VecV {
    match v_normalized(a) {
        Some(v) => v,
        None => v_zero(),
    }
}

/// The vector whose dot with `a` is one: `a` over its squared length.
pub open spec fn v_inverse(a: VecV) -> Option<VecV> {
    if v_is_zero(a) {
        None
    } else {
        match v_len_sq(a) {
            Some(l) => v_div_s(a, l),
            None => None,
        }
    }
}

pub open spec fn v_inverse_or_zero(a: VecV) -> VecV {
    match v_inverse(a) {
        Some(v) => v,
        None => v_zero(),
    }
}

pub open spec fn v_projection(a: VecV, onto: VecV) -> Option<VecV> {
    match v_dot(a, onto) {
        Some(d) => v_scale(v_inverse_or_zero(onto), d),
        None => None,
    }
}

pub open spec fn v_scalar_projection(a: VecV, onto: VecV) -> Option<RatV> {
    v_dot(a, v_normalized_or_zero(onto))
}

pub open spec fn v_rejection(a: VecV, onto: VecV) -> Option<VecV> {
    match v_projection(a, onto) {
        Some(p) => v_sub(a, p),
        None => None,
    }
}

pub open spec fn v_scalar_rejection(a: VecV, onto: VecV) -> Option<RatV> {
    match v_rejection(a, onto) {
        Some(r) => v_len(r),
        None => None,
    }
}

/// Mirror reflection of `a` about `axis`: `a` minus twice its
/// projection onto `axis`.
pub open spec fn v_reflection(a: VecV, axis: VecV) -> Option<VecV> {
    match v_projection(a, axis) {
        Some(p) => match v_scale(p, rat_int(2)) {
            Some(p2) => v_sub(a, p2),
            None => None,
        },
        None => None,
    }
}

/// Sine of the angle between two directions: length of the cross
/// product of their normalizations.
pub open spec fn v_sine(a: VecV, b: VecV) -> Option<RatV> {
    match v_cross(v_normalized_or_zero(a), v_normalized_or_zero(b)) {
        Some(c) => v_len(c),
        None => None,
    }
}

/// Cosine of the angle between two directions: dot product of their
/// normalizations.
pub open spec fn v_cosine(a: VecV, b: VecV) -> Option<RatV> {
    v_dot(v_normalized_or_zero(a), v_normalized_or_zero(b))
}

pub open spec fn v_absolute(a: VecV) -> VecV {
    VecV { x: rat_abs(a.x), y: rat_abs(a.y), z: rat_abs(a.z) }
}

pub open spec fn rat_sign(a: RatV) -> RatV {
    if a.n < 0 {
        rat_int(-1)
    } else if a.n == 0 {
        rat_int(0)
    } else {
        rat_int(1)
    }
}

pub open spec fn v_sign(a: VecV) -> VecV {
    VecV { x: rat_sign(a.x), y: rat_sign(a.y), z: rat_sign(a.z) }
}

/// Componentwise mathematical equality of two vectors.
pub open spec fn v_eqv(a: VecV, b: VecV) -> bool {
    rat_eqv(a.x, b.x) && rat_eqv(a.y, b.y) && rat_eqv(a.z, b.z)
}

/// Well-formedness of a vector view: every component in bounds.
pub open spec fn vv_wf(v: VecV) -> bool {
    rat_wf(v.x) && rat_wf(v.y) && rat_wf(v.z)
}

/// The view of an optional vector.
pub open spec fn vov(r: Option<Vector>) -> Option<VecV> {
    match r {
        Some(v) => Some(v@),
        None => None,
    }
}

/// A free displacement in 3-space.
#[derive(Clone, Copy, PartialEq, Eq, Debug)]
pub struct Vector {
    pub x: Rational,
    pub y: Rational,
    pub z: Rational,
}

impl View for Vector {
    type V = VecV;

    open spec fn view(&self) -> VecV {
        VecV { x: self.x@, y: self.y@, z: self.z@ }
    }
}

/// Well-formedness of an optional vector.
pub open spec fn opt_vec_wf(r: Option<Vector>) -> bool {
    r matches Some(v) ==> v.wf()
}

impl Vector {
    pub open spec fn wf(self) -> bool {
        vv_wf(self@)
    }

    pub fn new(x: Rational, y: Rational, z: Rational) -> (r: Vector)
        ensures
            r@ == (VecV { x: x@, y: y@, z: z@ }),
            x.wf() && y.wf() && z.wf() ==> r.wf(),
    {
        Vector { x, y, z }
    }

    pub fn zero() -> (r: Vector)
        ensures
            r@ == v_zero(),
            r.wf(),
            v_is_zero(r@),
    {
        Vector { x: Rational::zero(), y: Rational::zero(), z: Rational::zero() }
    }

    pub fn one() -> (r: Vector)
        ensures
            r@ == (VecV { x: rat_int(1), y: rat_int(1), z: rat_int(1) }),
            r.wf(),
    {
        Vector { x: Rational::one(), y: Rational::one(), z: Rational::one() }
    }

    pub fn right() -> (r: Vector)
        ensures
            r@ == (VecV { x: rat_int(1), y: rat_int(0), z: rat_int(0) }),
            r.wf(),
    {
        Vector { x: Rational::one(), y: Rational::zero(), z: Rational::zero() }
    }

    pub fn left() -> (r: Vector)
        ensures
            r@ == (VecV { x: rat_int(-1), y: rat_int(0), z: rat_int(0) }),
            r.wf(),
    {
        Vector { x: Rational::neg(Rational::one()), y: Rational::zero(), z: Rational::zero() }
    }

    pub fn up() -> (r: Vector)
        ensures
            r@ == (VecV { x: rat_int(0), y: rat_int(1), z: rat_int(0) }),
            r.wf(),
    {
        Vector { x: Rational::zero(), y: Rational::one(), z: Rational::zero() }
    }

    pub fn down() -> (r: Vector)
        ensures
            r@ == (VecV { x: rat_int(0), y: rat_int(-1), z: rat_int(0) }),
            r.wf(),
    {
        Vector { x: Rational::zero(), y: Rational::neg(Rational::one()), z: Rational::zero() }
    }

    pub fn forward() -> (r: Vector)
        ensures
            r@ == (VecV { x: rat_int(0), y: rat_int(0), z: rat_int(1) }),
            r.wf(),
    {
        Vector { x: Rational::zero(), y: Rational::zero(), z: Rational::one() }
    }

    pub fn backward() -> (r: Vector)
        ensures
            r@ == (VecV { x: rat_int(0), y: rat_int(0), z: rat_int(-1) }),
            r.wf(),
    {
        Vector { x: Rational::zero(), y: Rational::zero(), z: Rational::neg(Rational::one()) }
    }

    pub fn add(a: Vector, b: Vector) -> (r: Option<Vector>)
        requires
            a.wf(),
            b.wf(),
        ensures
            vov(r) == v_add(a@, b@),
            opt_vec_wf(r),
    {
        match (Rational::add(a.x, b.x), Rational::add(a.y, b.y), Rational::add(a.z, b.z)) {
            (Some(x), Some(y), Some(z)) => Some(Vector { x, y, z }),
            _ => None,
        }
    }

    pub fn sub(a: Vector, b: Vector) -> (r: Option<Vector>)
        requires
            a.wf(),
            b.wf(),
        ensures
            vov(r) == v_sub(a@, b@),
            opt_vec_wf(r),
    {
        match (Rational::sub(a.x, b.x), Rational::sub(a.y, b.y), Rational::sub(a.z, b.z)) {
            (Some(x), Some(y), Some(z)) => Some(Vector { x, y, z }),
            _ => None,
        }
    }

    pub fn neg(a: Vector) -> (r: Vector)
        requires
            a.wf(),
        ensures
            r@ == v_neg(a@),
            r.wf(),
    {
        Vector { x: Rational::neg(a.x), y: Rational::neg(a.y), z: Rational::neg(a.z) }
    }

    /// The vector scaled by `s`.
    pub fn scale(a: Vector, s: Rational) -> (r: Option<Vector>)
        requires
            a.wf(),
            s.wf(),
        ensures
            vov(r) == v_scale(a@, s@),
            opt_vec_wf(r),
    {
        match (Rational::mul(a.x, s), Rational::mul(a.y, s), Rational::mul(a.z, s)) {
            (Some(x), Some(y), Some(z)) => Some(Vector { x, y, z }),
            _ => None,
        }
    }

    /// The vector divided componentwise by `s`.
    pub fn div_scalar(a: Vector, s: Rational) -> (r: Option<Vector>)
        requires
            a.wf(),
            s.wf(),
        ensures
            vov(r) == v_div_s(a@, s@),
            opt_vec_wf(r),
    {
        match (Rational::div(a.x, s), Rational::div(a.y, s), Rational::div(a.z, s)) {
            (Some(x), Some(y), Some(z)) => Some(Vector { x, y, z }),
            _ => None,
        }
    }

    pub fn component_wise_multiplication(a: Vector, b: Vector) -> (r: Option<Vector>)
        requires
            a.wf(),
            b.wf(),
        ensures
            vov(r) == v_cwise(a@, b@),
            opt_vec_wf(r),
    {
        match (Rational::mul(a.x, b.x), Rational::mul(a.y, b.y), Rational::mul(a.z, b.z)) {
            (Some(x), Some(y), Some(z)) => Some(Vector { x, y, z }),
            _ => None,
        }
    }

    pub fn dot(a: Vector, b: Vector) -> (r: Option<Rational>)
        requires
            a.wf(),
            b.wf(),
        ensures
            ov(r) == v_dot(a@, b@),
            opt_wf(r),
    {
        oadd(
            oadd(Rational::mul(a.x, b.x), Rational::mul(a.y, b.y)),
            Rational::mul(a.z, b.z),
        )
    }

    pub fn absolute_dot(a: Vector, b: Vector) -> (r: Option<Rational>)
        requires
            a.wf(),
            b.wf(),
        ensures
            ov(r) == v_abs_dot(a@, b@),
            opt_wf(r),
    {
        match Vector::dot(a, b) {
            Some(d) => Some(Rational::abs(d)),
            None => None,
        }
    }

    pub fn cross(a: Vector, b: Vector) -> (r: Option<Vector>)
        requires
            a.wf(),
            b.wf(),
        ensures
            vov(r) == v_cross(a@, b@),
            opt_vec_wf(r),
    {
        let x = osub(Rational::mul(a.y, b.z), Rational::mul(a.z, b.y));
        let y = osub(Rational::mul(a.z, b.x), Rational::mul(a.x, b.z));
        let z = osub(Rational::mul(a.x, b.y), Rational::mul(a.y, b.x));
        match (x, y, z) {
            (Some(x), Some(y), Some(z)) => Some(Vector { x, y, z }),
            _ => None,
        }
    }

    pub fn length_squared(self) -> (r: Option<Rational>)
        requires
            self.wf(),
        ensures
            ov(r) == v_len_sq(self@),
            opt_wf(r),
    {
        Vector::dot(self, self)
    }

    pub fn length(self) -> (r: Option<Rational>)
        requires
            self.wf(),
        ensures
            ov(r) == v_len(self@),
            opt_wf(r),
    {
        osqrt(self.length_squared())
    }

    pub fn normalized(self) -> (r: Option<Vector>)
        requires
            self.wf(),
        ensures
            vov(r) == v_normalized(self@),
            opt_vec_wf(r),
    {
        if self.is_approximately_zero() {
            return None;
        }
        match self.length() {
            Some(l) => Vector::div_scalar(self, l),
            None => None,
        }
    }

    pub fn normalized_or_zero(self) -> (r: Vector)
        requires
            self.wf(),
        ensures
            r@ == v_normalized_or_zero(self@),
            r.wf(),
    {
        match self.normalized() {
            Some(v) => v,
            None => Vector::zero(),
        }
    }

    pub fn inverse(self) -> (r: Option<Vector>)
        requires
            self.wf(),
        ensures
            vov(r) == v_inverse(self@),
            opt_vec_wf(r),
    {
        if self.is_approximately_zero() {
            return None;
        }
        match self.length_squared() {
            Some(l) => Vector::div_scalar(self, l),
            None => None,
        }
    }

    pub fn inverse_or_zero(self) -> (r: Vector)
        requires
            self.wf(),
        ensures
            r@ == v_inverse_or_zero(self@),
            r.wf(),
    {
        match self.inverse() {
            Some(v) => v,
            None => Vector::zero(),
        }
    }

    pub fn projection(a: Vector, onto: Vector) -> (r: Option<Vector>)
        requires
            a.wf(),
            onto.wf(),
        ensures
            vov(r) == v_projection(a@, onto@),
            opt_vec_wf(r),
    {
        match Vector::dot(a, onto) {
            Some(d) => Vector::scale(onto.inverse_or_zero(), d),
            None => None,
        }
    }

    pub fn scalar_projection(a: Vector, onto: Vector) -> (r: Option<Rational>)
        requires
            a.wf(),
            onto.wf(),
        ensures
            ov(r) == v_scalar_projection(a@, onto@),
            opt_wf(r),
    {
        Vector::dot(a, onto.normalized_or_zero())
    }

    pub fn rejection(a: Vector, onto: Vector) -> (r: Option<Vector>)
        requires
            a.wf(),
            onto.wf(),
        ensures
            vov(r) == v_rejection(a@, onto@),
            opt_vec_wf(r),
    {
        match Vector::projection(a, onto) {
            Some(p) => Vector::sub(a, p),
            None => None,
        }
    }

    pub fn scalar_rejection(a: Vector, onto: Vector) -> (r: Option<Rational>)
        requires
            a.wf(),
            onto.wf(),
        ensures
            ov(r) == v_scalar_rejection(a@, onto@),
            opt_wf(r),
    {
        match Vector::rejection(a, onto) {
            Some(rej) => rej.length(),
            None => None,
        }
    }

    pub fn reflection(a: Vector, axis: Vector) -> (r: Option<Vector>)
        requires
            a.wf(),
            axis.wf(),
        ensures
            vov(r) == v_reflection(a@, axis@),
            opt_vec_wf(r),
    {
        match Vector::projection(a, axis) {
            Some(p) => match Vector::scale(p, Rational::from_int(2)) {
                Some(p2) => Vector::sub(a, p2),
                None => None,
            },
            None => None,
        }
    }

    pub fn sine(a: Vector, b: Vector) -> (r: Option<Rational>)
        requires
            a.wf(),
            b.wf(),
        ensures
            ov(r) == v_sine(a@, b@),
            opt_wf(r),
    {
        match Vector::cross(a.normalized_or_zero(), b.normalized_or_zero()) {
            Some(c) => c.length(),
            None => None,
        }
    }

    pub fn cosine(a: Vector, b: Vector) -> (r: Option<Rational>)
        requires
            a.wf(),
            b.wf(),
        ensures
            ov(r) == v_cosine(a@, b@),
            opt_wf(r),
    {
        Vector::dot(a.normalized_or_zero(), b.normalized_or_zero())
    }

    pub fn absolute(self) -> (r: Vector)
        requires
            self.wf(),
        ensures
            r@ == v_absolute(self@),
            r.wf(),
    {
        Vector { x: Rational::abs(self.x), y: Rational::abs(self.y), z: Rational::abs(self.z) }
    }

    pub fn sign(self) -> (r: Vector)
        requires
            self.wf(),
        ensures
            r@ == v_sign(self@),
            r.wf(),
    {
        Vector { x: sign_of(self.x), y: sign_of(self.y), z: sign_of(self.z) }
    }

    /// Exact zero test on every component; with exact scalars no
    /// epsilon tolerance is needed.
    pub fn is_approximately_zero(self) -> (r: bool)
        requires
            self.wf(),
        ensures
            r == v_is_zero(self@),
    {
        self.x.is_zero() && self.y.is_zero() && self.z.is_zero()
    }
}

/// The dot of a vector with the first coordinate axis is its first
/// component.
pub proof fn lemma_dot_axis_x(a: VecV, r: RatV)
    requires
        vv_wf(a),
        v_dot(a, VecV { x: rat_int(1), y: rat_int(0), z: rat_int(0) }) == Some(r),
    ensures
        rat_eqv(r, a.x),
        r.d >= 1,
{
    match (rat_mul(a.x, rat_int(1)), rat_mul(a.y, rat_int(0)), rat_mul(a.z, rat_int(0))) {
        (Some(m1), Some(m2), Some(m3)) => {
            lemma_mul_one_right(a.x, m1);
            lemma_mul_zero_right(a.y, m2);
            lemma_mul_zero_right(a.z, m3);
            match rat_add(m1, m2) {
                Some(s1) => {
                    lemma_add_zero_right(m1, m2, s1);
                    lemma_add_zero_right(s1, m3, r);
                    lemma_eqv_trans(r, s1, m1);
                    lemma_eqv_trans(r, m1, a.x);
                },
                None => {
                    assert(false);
                },
            }
        },
        _ => {
            assert(false);
        },
    }
}

/// The dot of a vector with the second coordinate axis is its second
/// component.
pub proof fn lemma_dot_axis_y(a: VecV, r: RatV)
    requires
        vv_wf(a),
        v_dot(a, VecV { x: rat_int(0), y: rat_int(1), z: rat_int(0) }) == Some(r),
    ensures
        rat_eqv(r, a.y),
        r.d >= 1,
{
    match (rat_mul(a.x, rat_int(0)), rat_mul(a.y, rat_int(1)), rat_mul(a.z, rat_int(0))) {
        (Some(m1), Some(m2), Some(m3)) => {
            lemma_mul_zero_right(a.x, m1);
            lemma_mul_one_right(a.y, m2);
            lemma_mul_zero_right(a.z, m3);
            match rat_add(m1, m2) {
                Some(s1) => {
                    lemma_add_zero_left(m1, m2, s1);
                    lemma_add_zero_right(s1, m3, r);
                    lemma_eqv_trans(s1, m2, a.y);
                    lemma_eqv_trans(r, s1, a.y);
                },
                None => {
                    assert(false);
                },
            }
        },
        _ => {
            assert(false);
        },
    }
}

/// The dot of a vector with the third coordinate axis is its third
/// component.
pub proof fn lemma_dot_axis_z(a: VecV, r: RatV)
    requires
        vv_wf(a),
        v_dot(a, VecV { x: rat_int(0), y: rat_int(0), z: rat_int(1) }) == Some(r),
    ensures
        rat_eqv(r, a.z),
        r.d >= 1,
{
    match (rat_mul(a.x, rat_int(0)), rat_mul(a.y, rat_int(0)), rat_mul(a.z, rat_int(1))) {
        (Some(m1), Some(m2), Some(m3)) => {
            lemma_mul_zero_right(a.x, m1);
            lemma_mul_zero_right(a.y, m2);
            lemma_mul_one_right(a.z, m3);
            match rat_add(m1, m2) {
                Some(s1) => {
                    lemma_add_zeros(m1, m2, s1);
                    lemma_add_zero_left(s1, m3, r);
                    lemma_eqv_trans(r, m3, a.z);
                },
                None => {
                    assert(false);
                },
            }
        },
        _ => {
            assert(false);
        },
    }
}

fn sign_of(a: Rational) -> (r: Rational)
    requires
        a.wf(),
    ensures
        r@ == rat_sign(a@),
        r.wf(),
{
    if a.is_zero() {
        Rational::zero()
    } else if a.is_nonneg() {
        Rational::one()
    } else {
        Rational::neg(Rational::one())
    }
}

} // verus!
