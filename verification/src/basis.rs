//! Basis: an orthogonal change of frame given by three row vectors.

use vstd::prelude::*;
use crate::rational::{
    lemma_eqv_trans, o_add, o_mul, o_sub, oadd, omul, osub, rat_eqv, rat_int, rat_mul, rat_neg,
    RatV, Rational,
};
use crate::matrix::{MatV, Matrix};
use crate::point::{opt_point_wf, p_as_vec, p_of_vec, pov, Point, PointV};
use crate::ray::{opt_ray_wf, rov, Ray, RayV};
use crate::vector::{
    lemma_dot_axis_x, lemma_dot_axis_y, lemma_dot_axis_z, opt_vec_wf, v_cross, v_dot, v_eqv,
    v_normalized, vov, vv_wf, VecV, Vector,
};

verus! {

/// The mathematical content of a basis.
pub ghost struct BasisV {
    pub u: VecV,
    pub v: VecV,
    pub w: VecV,
}

pub open spec fn b_xyz() -> BasisV {
    BasisV {
        u: VecV { x: rat_int(1), y: rat_int(0), z: rat_int(0) },
        v: VecV { x: rat_int(0), y: rat_int(1), z: rat_int(0) },
        w: VecV { x: rat_int(0), y: rat_int(0), z: rat_int(1) },
    }
}

pub open spec fn b_yxz() -> BasisV {
    BasisV {
        u: VecV { x: rat_int(0), y: rat_int(1), z: rat_int(0) },
        v: VecV { x: rat_int(1), y: rat_int(0), z: rat_int(0) },
        w: VecV { x: rat_int(0), y: rat_int(0), z: rat_int(1) },
    }
}

pub open spec fn b_xzy() -> BasisV {
    BasisV {
        u: VecV { x: rat_int(1), y: rat_int(0), z: rat_int(0) },
        v: VecV { x: rat_int(0), y: rat_int(0), z: rat_int(1) },
        w: VecV { x: rat_int(0), y: rat_int(1), z: rat_int(0) },
    }
}

/// One product of three scalars, in evaluation order.
pub open spec fn triple(a: RatV, b: RatV, c: RatV) -> Option<RatV> {
    o_mul(rat_mul(a, b), Some(c))
}

/// The scalar triple product that decides whether three vectors span.
pub open spec fn b_determinant(u: VecV, v: VecV, w: VecV) -> Option<RatV> {
    let right = o_add(
        o_add(triple(u.x, v.y, w.z), triple(u.y, v.z, w.x)),
        triple(u.z, v.x, w.y),
    );
    let left = o_add(
        o_add(triple(u.x, v.z, w.y), triple(u.y, v.x, w.z)),
        triple(u.z, v.y, w.x),
    );
    o_sub(right, left)
}

/// A basis from three spanning vectors; absent exactly when the
/// determinant is zero (no frame) or a step is unrepresentable.
pub open spec fn b_basis(u: VecV, v: VecV, w: VecV) -> Option<BasisV> {
    match b_determinant(u, v, w) {
        Some(det) => if det.n == 0 {
            None
        } else {
            Some(BasisV { u, v, w })
        },
        None => None,
    }
}

/// A frame whose second row is the normalized `up`; the first row is
/// chosen orthogonal to it by component swapping, the third completes
/// by cross product.
pub open spec fn b_from_up(up: VecV) -> Option<BasisV> {
    match v_normalized(up) {
        Some(v) => {
            let u = if v.x.n == 0 {
                VecV { x: rat_int(0), y: rat_neg(v.z), z: v.y }
            } else if v.y.n == 0 {
                VecV { x: rat_neg(v.z), y: rat_int(0), z: v.x }
            } else {
                VecV { x: rat_neg(v.y), y: v.x, z: rat_int(0) }
            };
            match v_cross(u, v) {
                Some(w) => Some(BasisV { u, v, w }),
                None => None,
            }
        },
        None => None,
    }
}

/// A frame from an up direction and a rightward hint.
pub open spec fn b_from_up_and_right(up: VecV, right: VecV) -> Option<BasisV> {
    match v_normalized(up) {
        Some(v) => match v_cross(v, right) {
            Some(cr) => match v_normalized(cr) {
                Some(w) => match v_cross(v, w) {
                    Some(u) => Some(BasisV { u, v, w }),
                    None => None,
                },
                None => None,
            },
            None => None,
        },
        None => None,
    }
}

/// The transpose-like swap that inverts an orthonormal frame.
pub open spec fn b_inverse(b: BasisV) -> BasisV {
    BasisV {
        u: VecV { x: b.u.x, y: b.v.x, z: b.w.x },
        v: VecV { x: b.u.y, y: b.v.y, z: b.w.y },
        w: VecV { x: b.u.z, y: b.v.z, z: b.w.z },
    }
}

/// The rows of the matrix are the frame vectors.
pub open spec fn b_matrix(b: BasisV) -> MatV {
    MatV {
        a: b.u.x, b: b.u.y, c: b.u.z, d: rat_int(0),
        e: b.v.x, f: b.v.y, g: b.v.z, h: rat_int(0),
        i: b.w.x, j: b.w.y, k: b.w.z, l: rat_int(0),
        m: rat_int(0), n: rat_int(0), o: rat_int(0), p: rat_int(1),
    }
}

/// Coordinates of a vector in the frame: its dots with the rows.
pub open spec fn b_apply_vec(b: BasisV, rhs: VecV) -> Option<VecV> {
    match (v_dot(rhs, b.u), v_dot(rhs, b.v), v_dot(rhs, b.w)) {
        (Some(x), Some(y), Some(z)) => Some(VecV { x, y, z }),
        _ => None,
    }
}

pub open spec fn b_apply_point(b: BasisV, rhs: PointV) -> Option<PointV> {
    match b_apply_vec(b, p_as_vec(rhs)) {
        Some(v) => Some(p_of_vec(v)),
        None => None,
    }
}

pub open spec fn b_apply_ray(b: BasisV, rhs: RayV) -> Option<RayV> {
    match (b_apply_point(b, rhs.origin), b_apply_vec(b, rhs.direction)) {
        (Some(origin), Some(direction)) => Some(RayV { origin, direction }),
        _ => None,
    }
}

/// An orthogonal change of frame given by three row vectors.
#[derive(Clone, Copy, PartialEq, Eq, Debug)]
pub struct Basis {
    u: Vector,
    v: Vector,
    w: Vector,
}

impl View for Basis {
    type V = BasisV;

    closed spec fn view(&self) -> BasisV {
        BasisV { u: self.u@, v: self.v@, w: self.w@ }
    }
}

/// Well-formedness of a basis view: every row vector in bounds.
pub open spec fn bv_wf(b: BasisV) -> bool {
    vv_wf(b.u) && vv_wf(b.v) && vv_wf(b.w)
}

/// Well-formedness of an optional basis.
pub open spec fn opt_basis_wf(r: Option<Basis>) -> bool {
    r matches Some(b) ==> b.wf()
}

/// The view of an optional basis.
pub open spec fn bov(r: Option<Basis>) -> Option<BasisV> {
    match r {
        Some(b) => Some(b@),
        None => None,
    }
}

impl Basis {
    pub open spec fn wf(self) -> bool {
        bv_wf(self@)
    }

    pub fn xyz() -> (r: Basis)
        ensures
            r@ == b_xyz(),
            r.wf(),
    {
        Basis { u: Vector::right(), v: Vector::up(), w: Vector::forward() }
    }

    pub fn yxz() -> (r: Basis)
        ensures
            r@ == b_yxz(),
            r.wf(),
    {
        Basis { u: Vector::up(), v: Vector::right(), w: Vector::forward() }
    }

    pub fn xzy() -> (r: Basis)
        ensures
            r@ == b_xzy(),
            r.wf(),
    {
        Basis { u: Vector::right(), v: Vector::forward(), w: Vector::up() }
    }

    pub fn basis_unchecked(u: Vector, v: Vector, w: Vector) -> (r: Basis)
        ensures
            r@ == (BasisV { u: u@, v: v@, w: w@ }),
            u.wf() && v.wf() && w.wf() ==> r.wf(),
    {
        Basis { u, v, w }
    }

    /// A basis from three spanning vectors, validated by the scalar
    /// triple product.
    pub fn basis(u: Vector, v: Vector, w: Vector) -> (r: Option<Basis>)
        requires
            u.wf(),
            v.wf(),
            w.wf(),
        ensures
            bov(r) == b_basis(u@, v@, w@),
            opt_basis_wf(r),
    {
        let right = oadd(
            oadd(
                omul(Rational::mul(u.x, v.y), Some(w.z)),
                omul(Rational::mul(u.y, v.z), Some(w.x)),
            ),
            omul(Rational::mul(u.z, v.x), Some(w.y)),
        );
        let left = oadd(
            oadd(
                omul(Rational::mul(u.x, v.z), Some(w.y)),
                omul(Rational::mul(u.y, v.x), Some(w.z)),
            ),
            omul(Rational::mul(u.z, v.y), Some(w.x)),
        );
        match osub(right, left) {
            Some(det) => if det.is_zero() {
                None
            } else {
                Some(Basis { u, v, w })
            },
            None => None,
        }
    }

    /// A frame aligned to an up direction.
    pub fn basis_from_up(up: Vector) -> (r: Option<Basis>)
        requires
            up.wf(),
        ensures
            bov(r) == b_from_up(up@),
            opt_basis_wf(r),
    {
        let v = match up.normalized() {
            Some(v) => v,
            None => {
                return None;
            },
        };
        let u = if v.x.is_zero() {
            Vector { x: Rational::zero(), y: Rational::neg(v.z), z: v.y }
        } else if v.y.is_zero() {
            Vector { x: Rational::neg(v.z), y: Rational::zero(), z: v.x }
        } else {
            Vector { x: Rational::neg(v.y), y: v.x, z: Rational::zero() }
        };
        match Vector::cross(u, v) {
            Some(w) => Some(Basis { u, v, w }),
            None => None,
        }
    }

    /// A frame from an up direction and a rightward hint.
    pub fn basis_from_up_and_right(up: Vector, right: Vector) -> (r: Option<Basis>)
        requires
            up.wf(),
            right.wf(),
        ensures
            bov(r) == b_from_up_and_right(up@, right@),
            opt_basis_wf(r),
    {
        let v = match up.normalized() {
            Some(v) => v,
            None => {
                return None;
            },
        };
        let cr = match Vector::cross(v, right) {
            Some(cr) => cr,
            None => {
                return None;
            },
        };
        let w = match cr.normalized() {
            Some(w) => w,
            None => {
                return None;
            },
        };
        match Vector::cross(v, w) {
            Some(u) => Some(Basis { u, v, w }),
            None => None,
        }
    }

    /// The analytic inverse of an orthonormal frame: the
    /// transpose-like swap.
    pub fn inverse(&self) -> (r: Basis)
        requires
            self.wf(),
        ensures
            r@ == b_inverse(self@),
            r.wf(),
    {
        Basis {
            u: Vector { x: self.u.x, y: self.v.x, z: self.w.x },
            v: Vector { x: self.u.y, y: self.v.y, z: self.w.y },
            w: Vector { x: self.u.z, y: self.v.z, z: self.w.z },
        }
    }

    pub fn matrix(&self) -> (r: Matrix)
        requires
            self.wf(),
        ensures
            r@ == b_matrix(self@),
            r.wf(),
    {
        let z = Rational::zero();
        let w = Rational::one();
        Matrix {
            a: self.u.x, b: self.u.y, c: self.u.z, d: z,
            e: self.v.x, f: self.v.y, g: self.v.z, h: z,
            i: self.w.x, j: self.w.y, k: self.w.z, l: z,
            m: z, n: z, o: z, p: w,
        }
    }

    pub fn apply_vector(&self, rhs: Vector) -> (r: Option<Vector>)
        requires
            self.wf(),
            rhs.wf(),
        ensures
            vov(r) == b_apply_vec(self@, rhs@),
            opt_vec_wf(r),
    {
        match (Vector::dot(rhs, self.u), Vector::dot(rhs, self.v), Vector::dot(rhs, self.w)) {
            (Some(x), Some(y), Some(z)) => Some(Vector { x, y, z }),
            _ => None,
        }
    }

    pub fn apply_point(&self, rhs: Point) -> (r: Option<Point>)
        requires
            self.wf(),
            rhs.wf(),
        ensures
            pov(r) == b_apply_point(self@, rhs@),
            opt_point_wf(r),
    {
        match self.apply_vector(rhs.as_vector()) {
            Some(v) => Some(Point::of_vector(v)),
            None => None,
        }
    }

    pub fn apply_ray(&self, rhs: Ray) -> (r: Option<Ray>)
        requires
            self.wf(),
            rhs.wf(),
        ensures
            rov(r) == b_apply_ray(self@, rhs@),
            opt_ray_wf(r),
    {
        match (self.apply_point(rhs.origin), self.apply_vector(rhs.direction)) {
            (Some(origin), Some(direction)) => Some(Ray { origin, direction }),
            _ => None,
        }
    }
}

/// A frame application yields well-formed components.
pub proof fn lemma_b_apply_wf(b: BasisV, v: VecV, w: VecV)
    requires
        b_apply_vec(b, v) == Some(w),
    ensures
        vv_wf(w),
{
    assert(crate::rational::rat_wf(w.x));
    assert(crate::rational::rat_wf(w.y));
    assert(crate::rational::rat_wf(w.z));
}

/// The frames the constructors build from coordinate axes.
pub open spec fn axis_frame(b: BasisV) -> bool {
    b == b_xyz() || b == b_yxz() || b == b_xzy()
}

/// Applying an axis frame permutes the components (up to value
/// equality; the stored representations are re-normalized).
pub proof fn lemma_axis_apply(b: BasisV, a: VecV, w: VecV)
    requires
        axis_frame(b),
        vv_wf(a),
        b_apply_vec(b, a) == Some(w),
    ensures
        vv_wf(w),
        b == b_xyz() ==> v_eqv(w, a),
        b == b_yxz() ==> rat_eqv(w.x, a.y) && rat_eqv(w.y, a.x) && rat_eqv(w.z, a.z),
        b == b_xzy() ==> rat_eqv(w.x, a.x) && rat_eqv(w.y, a.z) && rat_eqv(w.z, a.y),
{
    if b == b_xyz() {
        lemma_dot_axis_x(a, w.x);
        lemma_dot_axis_y(a, w.y);
        lemma_dot_axis_z(a, w.z);
    } else if b == b_yxz() {
        lemma_dot_axis_y(a, w.x);
        lemma_dot_axis_x(a, w.y);
        lemma_dot_axis_z(a, w.z);
    } else {
        lemma_dot_axis_x(a, w.x);
        lemma_dot_axis_z(a, w.y);
        lemma_dot_axis_y(a, w.z);
    }
}

/// Transform invertibility for the frames built from coordinate
/// axes, on vectors: a change of frame followed by the transpose-like
/// inverse frame change restores the original vector.  (These frames
/// are exactly orthonormal; frames built from approximate unit
/// vectors are only approximately restored.)
pub proof fn lemma_axis_basis_inverts_vector(b: BasisV, a: VecV, w1: VecV, w2: VecV)
    requires
        axis_frame(b),
        vv_wf(a),
        b_apply_vec(b, a) == Some(w1),
        b_apply_vec(b_inverse(b), w1) == Some(w2),
    ensures
        v_eqv(w2, a),
{
    assert(b_inverse(b) == b);
    lemma_axis_apply(b, a, w1);
    lemma_axis_apply(b, w1, w2);
    if b == b_xyz() {
        lemma_eqv_trans(w2.x, w1.x, a.x);
        lemma_eqv_trans(w2.y, w1.y, a.y);
        lemma_eqv_trans(w2.z, w1.z, a.z);
    } else if b == b_yxz() {
        lemma_eqv_trans(w2.x, w1.y, a.x);
        lemma_eqv_trans(w2.y, w1.x, a.y);
        lemma_eqv_trans(w2.z, w1.z, a.z);
    } else {
        lemma_eqv_trans(w2.x, w1.x, a.x);
        lemma_eqv_trans(w2.y, w1.z, a.y);
        lemma_eqv_trans(w2.z, w1.y, a.z);
    }
}

/// Transform invertibility for axis frames, on points.
pub proof fn lemma_axis_basis_inverts_point(
    b: BasisV,
    a: crate::point::PointV,
    w1: crate::point::PointV,
    w2: crate::point::PointV,
)
    requires
        axis_frame(b),
        crate::point::pv_wf(a),
        b_apply_point(b, a) == Some(w1),
        b_apply_point(b_inverse(b), w1) == Some(w2),
    ensures
        crate::point::p_eqv(w2, a),
{
    lemma_axis_basis_inverts_vector(b, p_as_vec(a), p_as_vec(w1), p_as_vec(w2));
}

/// Transform invertibility for axis frames, on rays.
pub proof fn lemma_axis_basis_inverts_ray(b: BasisV, a: RayV, w1: RayV, w2: RayV)
    requires
        axis_frame(b),
        crate::point::pv_wf(a.origin),
        vv_wf(a.direction),
        b_apply_ray(b, a) == Some(w1),
        b_apply_ray(b_inverse(b), w1) == Some(w2),
    ensures
        crate::ray::ray_eqv(w2, a),
{
    lemma_axis_basis_inverts_point(b, a.origin, w1.origin, w2.origin);
    lemma_axis_basis_inverts_vector(b, a.direction, w1.direction, w2.direction);
}

} // verus!
