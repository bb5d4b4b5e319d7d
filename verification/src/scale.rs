//! Scale: per-axis stretching by a ratio vector.

use vstd::prelude::*;
use crate::rational::{lemma_mul_div_cancel, rat_div, rat_int, RatV, Rational};
use crate::matrix::{MatV, Matrix};
use crate::point::{opt_point_wf, p_as_vec, p_eqv, p_of_vec, pov, pv_wf, Point, PointV};
use crate::ray::{opt_ray_wf, ray_eqv, rov, Ray, RayV};
use crate::vector::{opt_vec_wf, v_cwise, v_eqv, vov, vv_wf, VecV, Vector};

verus! {

/// The mathematical content of a scale.
pub ghost struct ScaleV {
    pub ratio: VecV,
}

/// The analytic inverse reciprocates each axis ratio; it is absent
/// exactly when some ratio is zero (or a reciprocal is
/// unrepresentable).
pub open spec fn s_inverse(s: ScaleV) -> Option<ScaleV> {
    match (
        rat_div(rat_int(1), s.ratio.x),
        rat_div(rat_int(1), s.ratio.y),
        rat_div(rat_int(1), s.ratio.z),
    ) {
        (Some(x), Some(y), Some(z)) => Some(ScaleV { ratio: VecV { x, y, z } }),
        _ => None,
    }
}

/// A diagonal matrix of the axis ratios.
pub open spec fn s_matrix(s: ScaleV) -> MatV {
    MatV {
        a: s.ratio.x, b: rat_int(0), c: rat_int(0), d: rat_int(0),
        e: rat_int(0), f: s.ratio.y, g: rat_int(0), h: rat_int(0),
        i: rat_int(0), j: rat_int(0), k: s.ratio.z, l: rat_int(0),
        m: rat_int(0), n: rat_int(0), o: rat_int(0), p: rat_int(1),
    }
}

pub open spec fn s_apply_vec(s: ScaleV, v: VecV) -> Option<VecV> {
    v_cwise(v, s.ratio)
}

pub open spec fn s_apply_point(s: ScaleV, p: PointV) -> Option<PointV> {
    match v_cwise(p_as_vec(p), s.ratio) {
        Some(v) => Some(p_of_vec(v)),
        None => None,
    }
}

pub open spec fn s_apply_ray(s: ScaleV, r: RayV) -> Option<RayV> {
    match (s_apply_point(s, r.origin), s_apply_vec(s, r.direction)) {
        (Some(origin), Some(direction)) => Some(RayV { origin, direction }),
        _ => None,
    }
}

/// Per-axis stretching by a ratio vector.
#[derive(Clone, Copy, PartialEq, Eq, Debug)]
pub struct Scale {
    ratio: Vector,
}

impl View for Scale {
    type V = ScaleV;

    closed spec fn view(&self) -> ScaleV {
        ScaleV { ratio: self.ratio@ }
    }
}

impl Scale {
    pub open spec fn wf(self) -> bool {
        vv_wf(self@.ratio)
    }

    pub fn new(ratio: Vector) -> (r: Scale)
        ensures
            r@ == (ScaleV { ratio: ratio@ }),
            ratio.wf() ==> r.wf(),
    {
        Scale { ratio }
    }

    pub fn one() -> (r: Scale)
        ensures
            r@ == (ScaleV {
                ratio: VecV { x: rat_int(1), y: rat_int(1), z: rat_int(1) },
            }),
            r.wf(),
    {
        Scale { ratio: Vector::one() }
    }

    /// The analytic inverse: reciprocated ratios; `None` exactly when
    /// some axis ratio is zero or a reciprocal is unrepresentable.
    pub fn inverse(&self) -> (r: Option<Scale>)
        requires
            self.wf(),
        ensures
            (match r {
                Some(s) => s_inverse(self@) == Some(s@) && s.wf(),
                None => s_inverse(self@) is None,
            }),
    {
        let one = Rational::one();
        match (
            Rational::div(one, self.ratio.x),
            Rational::div(one, self.ratio.y),
            Rational::div(one, self.ratio.z),
        ) {
            (Some(x), Some(y), Some(z)) => Some(Scale { ratio: Vector { x, y, z } }),
            _ => None,
        }
    }

    pub fn matrix(&self) -> (r: Matrix)
        requires
            self.wf(),
        ensures
            r@ == s_matrix(self@),
            r.wf(),
    {
        let z = Rational::zero();
        let w = Rational::one();
        Matrix {
            a: self.ratio.x, b: z, c: z, d: z,
            e: z, f: self.ratio.y, g: z, h: z,
            i: z, j: z, k: self.ratio.z, l: z,
            m: z, n: z, o: z, p: w,
        }
    }

    pub fn apply_vector(&self, rhs: Vector) -> (r: Option<Vector>)
        requires
            self.wf(),
            rhs.wf(),
        ensures
            vov(r) == s_apply_vec(self@, rhs@),
            opt_vec_wf(r),
    {
        Vector::component_wise_multiplication(rhs, self.ratio)
    }

    pub fn apply_point(&self, rhs: Point) -> (r: Option<Point>)
        requires
            self.wf(),
            rhs.wf(),
        ensures
            pov(r) == s_apply_point(self@, rhs@),
            opt_point_wf(r),
    {
        match Vector::component_wise_multiplication(rhs.as_vector(), self.ratio) {
            Some(v) => Some(Point::of_vector(v)),
            None => None,
        }
    }

    pub fn apply_ray(&self, rhs: Ray) -> (r: Option<Ray>)
        requires
            self.wf(),
            rhs.wf(),
        ensures
            rov(r) == s_apply_ray(self@, rhs@),
            opt_ray_wf(r),
    {
        match (self.apply_point(rhs.origin), self.apply_vector(rhs.direction)) {
            (Some(origin), Some(direction)) => Some(Ray { origin, direction }),
            _ => None,
        }
    }
}

/// Transform invertibility for scales, on vectors: stretching by the
/// ratios and then by their reciprocals returns the original vector.
pub proof fn lemma_scale_inverts_vector(s: ScaleV, si: ScaleV, v: VecV, y: VecV, z: VecV)
    requires
        vv_wf(v),
        vv_wf(s.ratio),
        s_inverse(s) == Some(si),
        s_apply_vec(s, v) == Some(y),
        s_apply_vec(si, y) == Some(z),
    ensures
        v_eqv(z, v),
{
    lemma_mul_div_cancel(v.x, s.ratio.x, si.ratio.x, y.x, y.x, z.x);
    lemma_mul_div_cancel(v.y, s.ratio.y, si.ratio.y, y.y, y.y, z.y);
    lemma_mul_div_cancel(v.z, s.ratio.z, si.ratio.z, y.z, y.z, z.z);
}

/// Transform invertibility for scales, on points.
pub proof fn lemma_scale_inverts_point(s: ScaleV, si: ScaleV, p: PointV, q: PointV, r: PointV)
    requires
        pv_wf(p),
        vv_wf(s.ratio),
        s_inverse(s) == Some(si),
        s_apply_point(s, p) == Some(q),
        s_apply_point(si, q) == Some(r),
    ensures
        p_eqv(r, p),
{
    lemma_mul_div_cancel(p.x, s.ratio.x, si.ratio.x, q.x, q.x, r.x);
    lemma_mul_div_cancel(p.y, s.ratio.y, si.ratio.y, q.y, q.y, r.y);
    lemma_mul_div_cancel(p.z, s.ratio.z, si.ratio.z, q.z, q.z, r.z);
}

/// Transform invertibility for scales, on rays.
pub proof fn lemma_scale_inverts_ray(s: ScaleV, si: ScaleV, a: RayV, b: RayV, c: RayV)
    requires
        pv_wf(a.origin),
        vv_wf(a.direction),
        vv_wf(s.ratio),
        s_inverse(s) == Some(si),
        s_apply_ray(s, a) == Some(b),
        s_apply_ray(si, b) == Some(c),
    ensures
        ray_eqv(c, a),
{
    lemma_scale_inverts_point(s, si, a.origin, b.origin, c.origin);
    lemma_scale_inverts_vector(s, si, a.direction, b.direction, c.direction);
}

} // verus!
