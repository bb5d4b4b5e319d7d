//! Translation: displacement by a fixed vector.

use vstd::prelude::*;
use crate::rational::{
    lemma_add_sub_cancel, rat_add, rat_int, rat_neg, rat_sub, RatV, Rational,
};
use crate::matrix::{MatV, Matrix};
use crate::point::{opt_point_wf, p_add_v, p_eqv, pov, pv_wf, Point, PointV};
use crate::ray::{opt_ray_wf, ray_eqv, rov, Ray, RayV};
use crate::vector::{v_eqv, v_neg, v_zero, vv_wf, VecV, Vector};

verus! {

/// The mathematical content of a translation.
pub ghost struct TranslationV {
    pub displacement: VecV,
}

pub open spec fn t_inverse(t: TranslationV) -> TranslationV {
    TranslationV { displacement: v_neg(t.displacement) }
}

/// A translation matrix: identity with the displacement as the
/// fourth column.
pub open spec fn t_matrix(t: TranslationV) -> MatV {
    MatV {
        a: rat_int(1), b: rat_int(0), c: rat_int(0), d: t.displacement.x,
        e: rat_int(0), f: rat_int(1), g: rat_int(0), h: t.displacement.y,
        i: rat_int(0), j: rat_int(0), k: rat_int(1), l: t.displacement.z,
        m: rat_int(0), n: rat_int(0), o: rat_int(0), p: rat_int(1),
    }
}

/// Translations do not affect free vectors.
pub open spec fn t_apply_vec(t: TranslationV, v: VecV) -> VecV {
    v
}

pub open spec fn t_apply_point(t: TranslationV, p: PointV) -> Option<PointV> {
    p_add_v(p, t.displacement)
}

pub open spec fn t_apply_ray(t: TranslationV, r: RayV) -> Option<RayV> {
    match t_apply_point(t, r.origin) {
        Some(origin) => Some(RayV { origin, direction: r.direction }),
        None => None,
    }
}

/// Displacement by a fixed vector; inverted by negating it.
#[derive(Clone, Copy, PartialEq, Eq, Debug)]
pub struct Translation {
    displacement: Vector,
}

impl View for Translation {
    type V = TranslationV;

    closed spec fn view(&self) -> TranslationV {
        TranslationV { displacement: self.displacement@ }
    }
}

impl Translation {
    pub open spec fn wf(self) -> bool {
        vv_wf(self@.displacement)
    }

    pub fn new(displacement: Vector) -> (r: Translation)
        ensures
            r@ == (TranslationV { displacement: displacement@ }),
            displacement.wf() ==> r.wf(),
    {
        Translation { displacement }
    }

    pub fn zero() -> (r: Translation)
        ensures
            r@ == (TranslationV { displacement: v_zero() }),
            r.wf(),
    {
        Translation { displacement: Vector::zero() }
    }

    /// The analytic inverse: the negated displacement.
    pub fn inverse(&self) -> (r: Translation)
        requires
            self.wf(),
        ensures
            r@ == t_inverse(self@),
            r.wf(),
    {
        Translation { displacement: Vector::neg(self.displacement) }
    }

    pub fn matrix(&self) -> (r: Matrix)
        requires
            self.wf(),
        ensures
            r@ == t_matrix(self@),
            r.wf(),
    {
        let z = Rational::zero();
        let w = Rational::one();
        Matrix {
            a: w, b: z, c: z, d: self.displacement.x,
            e: z, f: w, g: z, h: self.displacement.y,
            i: z, j: z, k: w, l: self.displacement.z,
            m: z, n: z, o: z, p: w,
        }
    }

    /// The stored displacement.
    pub fn displacement_vector(&self) -> (r: Vector)
        ensures
            r@ == self@.displacement,
    {
        self.displacement
    }

    pub fn apply_vector(&self, rhs: Vector) -> (r: Vector)
        requires
            self.wf(),
            rhs.wf(),
        ensures
            r@ == t_apply_vec(self@, rhs@),
            r.wf(),
    {
        rhs
    }

    pub fn apply_point(&self, rhs: Point) -> (r: Option<Point>)
        requires
            self.wf(),
            rhs.wf(),
        ensures
            pov(r) == t_apply_point(self@, rhs@),
            opt_point_wf(r),
    {
        Point::add_vector(rhs, self.displacement)
    }

    pub fn apply_ray(&self, rhs: Ray) -> (r: Option<Ray>)
        requires
            self.wf(),
            rhs.wf(),
        ensures
            rov(r) == t_apply_ray(self@, rhs@),
            opt_ray_wf(r),
    {
        match self.apply_point(rhs.origin) {
            Some(origin) => Some(Ray { origin, direction: rhs.direction }),
            None => None,
        }
    }
}

/// Adding the negation of a value is subtracting it.
proof fn lemma_add_neg(a: RatV, b: RatV)
    ensures
        rat_add(a, rat_neg(b)) == rat_sub(a, b),
{
    assert(a.n * b.d + (-b.n) * a.d == a.n * b.d - b.n * a.d) by (nonlinear_arith);
}

/// Transform invertibility for translations, on points: displacing a
/// point and then displacing it back returns the original point.
pub proof fn lemma_translation_inverts_point(t: TranslationV, p: PointV, q: PointV, r: PointV)
    requires
        vv_wf(t.displacement),
        pv_wf(p),
        t_apply_point(t, p) == Some(q),
        t_apply_point(t_inverse(t), q) == Some(r),
    ensures
        p_eqv(r, p),
{
    let d = t.displacement;
    lemma_add_neg(q.x, d.x);
    lemma_add_neg(q.y, d.y);
    lemma_add_neg(q.z, d.z);
    lemma_add_sub_cancel(p.x, d.x, q.x, q.x, r.x);
    lemma_add_sub_cancel(p.y, d.y, q.y, q.y, r.y);
    lemma_add_sub_cancel(p.z, d.z, q.z, q.z, r.z);
}

/// Transform invertibility for translations, on vectors: a
/// translation does not affect a free vector in either direction.
pub proof fn lemma_translation_inverts_vector(t: TranslationV, v: VecV)
    ensures
        t_apply_vec(t_inverse(t), t_apply_vec(t, v)) == v,
{
}

/// Transform invertibility for translations, on rays: the origin
/// returns to the original and the direction is untouched.
pub proof fn lemma_translation_inverts_ray(t: TranslationV, a: RayV, b: RayV, c: RayV)
    requires
        vv_wf(t.displacement),
        pv_wf(a.origin),
        t_apply_ray(t, a) == Some(b),
        t_apply_ray(t_inverse(t), b) == Some(c),
    ensures
        ray_eqv(c, a),
{
    lemma_translation_inverts_point(t, a.origin, b.origin, c.origin);
}

} // verus!
