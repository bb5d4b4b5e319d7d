//! Rotation: a sine/cosine pair around the local Y axis, conjugated
//! by a basis so that rotation about an arbitrary axis reduces to
//! rotation about Y inside a frame aligned to that axis.
//!
//! Constructors take the sine and cosine of the angle directly; the
//! trigonometry that produces them from an angle in radians is left
//! to the caller (or derived from vectors, as `look_towards` does).

use vstd::prelude::*;
use crate::rational::{
    lemma_add_eqv, lemma_eqv_trans, lemma_mul_eqv, lemma_raw_add_congr, lemma_raw_mul_congr,
    lemma_raw_sub_congr, lemma_sub_eqv, o_add, o_sub, oadd, osub, rat_eqv, rat_int, rat_mul,
    rat_neg, rat_wf, RatV, Rational,
};
use crate::basis::{
    axis_frame, b_apply_vec, b_from_up, b_inverse, b_matrix, b_xyz, b_xzy, b_yxz, bv_wf,
    lemma_axis_apply, Basis, BasisV,
};
use crate::matrix::{m_mul_mat, MatV, Matrix};
use crate::point::{opt_point_wf, p_as_vec, p_of_vec, pov, Point, PointV};
use crate::ray::{opt_ray_wf, rov, Ray, RayV};
use crate::vector::{
    opt_vec_wf, v_cross, v_eqv, v_len, v_normalized, vov, vv_wf, VecV, Vector,
};

verus! {

/// The mathematical content of a rotation.
pub ghost struct RotationV {
    pub basis: BasisV,
    pub sine: RatV,
    pub cosine: RatV,
}

pub open spec fn rot_wf(r: RotationV) -> bool {
    bv_wf(r.basis) && rat_wf(r.sine) && rat_wf(r.cosine)
}

pub open spec fn rot_zero() -> RotationV {
    RotationV { basis: b_xyz(), sine: rat_int(0), cosine: rat_int(1) }
}

/// The analytic inverse negates the sine.
pub open spec fn rot_inverse(r: RotationV) -> RotationV {
    RotationV { basis: r.basis, sine: rat_neg(r.sine), cosine: r.cosine }
}

/// The plain rotation about Y by the stored sine/cosine pair.
pub open spec fn rot_y_matrix(r: RotationV) -> MatV {
    MatV {
        a: r.cosine, b: rat_int(0), c: r.sine, d: rat_int(0),
        e: rat_int(0), f: rat_int(1), g: rat_int(0), h: rat_int(0),
        i: rat_neg(r.sine), j: rat_int(0), k: r.cosine, l: rat_int(0),
        m: rat_int(0), n: rat_int(0), o: rat_int(0), p: rat_int(1),
    }
}

/// The matrix conjugates the Y rotation by the frame.
pub open spec fn rot_matrix(r: RotationV) -> Option<MatV> {
    match m_mul_mat(b_matrix(b_inverse(r.basis)), rot_y_matrix(r)) {
        Some(m1) => m_mul_mat(m1, b_matrix(r.basis)),
        None => None,
    }
}

/// Rotation of a vector: into the frame, about Y, back out.
pub open spec fn rot_apply_vec(r: RotationV, v: VecV) -> Option<VecV> {
    match b_apply_vec(r.basis, v) {
        Some(rhs) => {
            let x = o_add(rat_mul(r.cosine, rhs.x), rat_mul(r.sine, rhs.z));
            let z = o_sub(rat_mul(r.cosine, rhs.z), rat_mul(r.sine, rhs.x));
            match (x, z) {
                (Some(x), Some(z)) => b_apply_vec(
                    b_inverse(r.basis),
                    VecV { x, y: rhs.y, z },
                ),
                _ => None,
            }
        },
        None => None,
    }
}

pub open spec fn rot_apply_point(r: RotationV, p: PointV) -> Option<PointV> {
    match rot_apply_vec(r, p_as_vec(p)) {
        Some(v) => Some(p_of_vec(v)),
        None => None,
    }
}

pub open spec fn rot_apply_ray(r: RotationV, rhs: RayV) -> Option<RayV> {
    match (rot_apply_point(r, rhs.origin), rot_apply_vec(r, rhs.direction)) {
        (Some(origin), Some(direction)) => Some(RayV { origin, direction }),
        _ => None,
    }
}

/// A rotation whose local Y axis sweeps the forward direction toward
/// `look`: its sine and cosine come from the cross and dot of the
/// normalized `look` with forward, and its frame is aligned to the
/// rotation axis.  Absent for a degenerate (zero) direction or an
/// unrepresentable step.
pub open spec fn rot_look_towards(look: VecV) -> Option<RotationV> {
    match v_normalized(look) {
        Some(lk) => match v_cross(lk, VecV { x: rat_int(0), y: rat_int(0), z: rat_int(1) }) {
            Some(axis) => match v_len(axis) {
                Some(sine) => {
                    let basis = match b_from_up(axis) {
                        Some(b) => b,
                        None => b_xyz(),
                    };
                    Some(RotationV { basis, sine, cosine: lk.z })
                },
                None => None,
            },
            None => None,
        },
        None => None,
    }
}

/// The view of an optional rotation.
pub open spec fn rotov(r: Option<Rotation>) -> Option<RotationV> {
    match r {
        Some(x) => Some(x@),
        None => None,
    }
}

/// A sine/cosine pair around the local Y axis of a frame.
#[derive(Clone, Copy, PartialEq, Eq, Debug)]
pub struct Rotation {
    basis: Basis,
    sine: Rational,
    cosine: Rational,
}

impl View for Rotation {
    type V = RotationV;

    closed spec fn view(&self) -> RotationV {
        RotationV { basis: self.basis@, sine: self.sine@, cosine: self.cosine@ }
    }
}

/// Well-formedness of an optional rotation.
pub open spec fn opt_rot_wf(r: Option<Rotation>) -> bool {
    r matches Some(x) ==> x.wf()
}

impl Rotation {
    pub open spec fn wf(self) -> bool {
        rot_wf(self@)
    }

    pub fn zero() -> (r: Rotation)
        ensures
            r@ == rot_zero(),
            r.wf(),
    {
        Rotation { basis: Basis::xyz(), sine: Rational::zero(), cosine: Rational::one() }
    }

    /// Rotation about the X axis by the angle with the given sine and
    /// cosine.
    pub fn on_x(sine: Rational, cosine: Rational) -> (r: Rotation)
        requires
            sine.wf(),
            cosine.wf(),
        ensures
            r@ == (RotationV { basis: b_yxz(), sine: sine@, cosine: cosine@ }),
            r.wf(),
    {
        Rotation { basis: Basis::yxz(), sine, cosine }
    }

    /// Rotation about the Y axis by the angle with the given sine and
    /// cosine.
    pub fn on_y(sine: Rational, cosine: Rational) -> (r: Rotation)
        requires
            sine.wf(),
            cosine.wf(),
        ensures
            r@ == (RotationV { basis: b_xyz(), sine: sine@, cosine: cosine@ }),
            r.wf(),
    {
        Rotation { basis: Basis::xyz(), sine, cosine }
    }

    /// Rotation about the Z axis by the angle with the given sine and
    /// cosine.
    pub fn on_z(sine: Rational, cosine: Rational) -> (r: Rotation)
        requires
            sine.wf(),
            cosine.wf(),
        ensures
            r@ == (RotationV { basis: b_xzy(), sine: sine@, cosine: cosine@ }),
            r.wf(),
    {
        Rotation { basis: Basis::xzy(), sine, cosine }
    }

    /// The rotation that sweeps forward toward `look`.
    pub fn look_towards(look: Vector) -> (r: Option<Rotation>)
        requires
            look.wf(),
        ensures
            rotov(r) == rot_look_towards(look@),
            opt_rot_wf(r),
    {
        let lk = match look.normalized() {
            Some(lk) => lk,
            None => {
                return None;
            },
        };
        let axis = match Vector::cross(lk, Vector::forward()) {
            Some(axis) => axis,
            None => {
                return None;
            },
        };
        let sine = match axis.length() {
            Some(sine) => sine,
            None => {
                return None;
            },
        };
        let basis = match Basis::basis_from_up(axis) {
            Some(b) => b,
            None => Basis::xyz(),
        };
        Some(Rotation { basis, sine, cosine: lk.z })
    }

    /// The analytic inverse: the negated sine in the same frame.
    pub fn inverse(&self) -> (r: Rotation)
        requires
            self.wf(),
        ensures
            r@ == rot_inverse(self@),
            r.wf(),
    {
        Rotation { basis: self.basis, sine: Rational::neg(self.sine), cosine: self.cosine }
    }

    pub fn matrix(&self) -> (r: Option<Matrix>)
        requires
            self.wf(),
        ensures
            crate::matrix::mov(r) == rot_matrix(self@),
            crate::matrix::opt_mat_wf(r),
    {
        let z = Rational::zero();
        let w = Rational::one();
        let rotate_y = Matrix {
            a: self.cosine, b: z, c: self.sine, d: z,
            e: z, f: w, g: z, h: z,
            i: Rational::neg(self.sine), j: z, k: self.cosine, l: z,
            m: z, n: z, o: z, p: w,
        };
        match self.basis.inverse().matrix().mul_matrix(rotate_y) {
            Some(m1) => m1.mul_matrix(self.basis.matrix()),
            None => None,
        }
    }

    pub fn apply_vector(&self, rhs: Vector) -> (r: Option<Vector>)
        requires
            self.wf(),
            rhs.wf(),
        ensures
            vov(r) == rot_apply_vec(self@, rhs@),
            opt_vec_wf(r),
    {
        let inner = match self.basis.apply_vector(rhs) {
            Some(v) => v,
            None => {
                return None;
            },
        };
        let x = oadd(Rational::mul(self.cosine, inner.x), Rational::mul(self.sine, inner.z));
        let z = osub(Rational::mul(self.cosine, inner.z), Rational::mul(self.sine, inner.x));
        match (x, z) {
            (Some(x), Some(z)) => self.basis.inverse().apply_vector(
                Vector { x, y: inner.y, z },
            ),
            _ => None,
        }
    }

    pub fn apply_point(&self, rhs: Point) -> (r: Option<Point>)
        requires
            self.wf(),
            rhs.wf(),
        ensures
            pov(r) == rot_apply_point(self@, rhs@),
            opt_point_wf(r),
    {
        match self.apply_vector(rhs.as_vector()) {
            Some(v) => Some(Point::of_vector(v)),
            None => None,
        }
    }

    pub fn apply_ray(&self, rhs: Ray) -> (r: Option<Ray>)
        requires
            self.wf(),
            rhs.wf(),
        ensures
            rov(r) == rot_apply_ray(self@, rhs@),
            opt_ray_wf(r),
    {
        match (self.apply_point(rhs.origin), self.apply_vector(rhs.direction)) {
            (Some(origin), Some(direction)) => Some(Ray { origin, direction }),
            _ => None,
        }
    }
}


/// One turn on the unit circle: the rotated plane coordinates,
/// counter-rotated, scale the original first coordinate by the
/// square of the common denominator.
proof fn lemma_unit_turn(
    cn: int,
    cd: int,
    sn: int,
    sd: int,
    xn: int,
    xd: int,
    zn: int,
    zd: int,
    x1n: int,
    z1n: int,
)
    requires
        x1n == cn * xn * (sd * zd) + sn * zn * (cd * xd),
        z1n == cn * zn * (sd * xd) - sn * xn * (cd * zd),
        sn * sn * (cd * cd) + cn * cn * (sd * sd) == (sd * sd) * (cd * cd),
    ensures
        cn * x1n * sd - sn * z1n * cd == xn * zd * ((sd * sd) * (cd * cd)),
{
    assert(cn * x1n * sd == cn * (cn * xn * (sd * zd)) * sd + cn * (sn * zn * (cd * xd)) * sd)
        by (nonlinear_arith)
        requires
            x1n == cn * xn * (sd * zd) + sn * zn * (cd * xd);
    assert(cn * (cn * xn * (sd * zd)) * sd == xn * zd * (cn * cn * (sd * sd)))
        by (nonlinear_arith);
    assert(cn * (sn * zn * (cd * xd)) * sd == zn * (cn * sn * cd * xd * sd))
        by (nonlinear_arith);
    assert(sn * z1n * cd == sn * (cn * zn * (sd * xd)) * cd - sn * (sn * xn * (cd * zd)) * cd)
        by (nonlinear_arith)
        requires
            z1n == cn * zn * (sd * xd) - sn * xn * (cd * zd);
    assert(sn * (cn * zn * (sd * xd)) * cd == (sn * cn) * (zn * (sd * xd)) * cd)
        by (nonlinear_arith);
    assert((sn * cn) * (zn * (sd * xd)) * cd == zn * (cn * sn * cd * xd * sd))
        by (nonlinear_arith);
    assert(sn * (sn * xn * (cd * zd)) * cd == xn * zd * (sn * sn * (cd * cd)))
        by (nonlinear_arith);
    assert(xn * zd * (cn * cn * (sd * sd)) + xn * zd * (sn * sn * (cd * cd)) == xn * zd * ((sd
        * sd) * (cd * cd))) by (nonlinear_arith)
        requires
            sn * sn * (cd * cd) + cn * cn * (sd * sd) == (sd * sd) * (cd * cd);
}

/// Undoing the frame: the counter-rotated numerator over the squared
/// denominator is the original coordinate.
proof fn lemma_back_out(
    cn: int,
    cd: int,
    sn: int,
    sd: int,
    xn: int,
    xd: int,
    zn: int,
    zd: int,
    x1n: int,
    z1n: int,
    k: int,
    x2n: int,
    x2d: int,
)
    requires
        x2n == cn * x1n * (sd * k) + (-sn) * z1n * (cd * k),
        x2d == (cd * k) * (sd * k),
        k == (cd * xd) * (sd * zd),
        cn * x1n * sd - sn * z1n * cd == xn * zd * ((sd * sd) * (cd * cd)),
    ensures
        x2n * xd == xn * x2d,
{
    assert(cn * x1n * (sd * k) == (cn * x1n * sd) * k) by (nonlinear_arith);
    assert((-sn) * z1n * (cd * k) == -((sn * z1n * cd) * k)) by (nonlinear_arith);
    assert(x2n == (cn * x1n * sd) * k - (sn * z1n * cd) * k);
    assert((cn * x1n * sd) * k - (sn * z1n * cd) * k == (cn * x1n * sd - sn * z1n * cd) * k)
        by (nonlinear_arith);
    assert(x2n == (xn * zd * ((sd * sd) * (cd * cd))) * k);
    assert(x2n * xd == xn * k * (zd * ((sd * sd) * (cd * cd)) * xd)) by (nonlinear_arith)
        requires
            x2n == (xn * zd * ((sd * sd) * (cd * cd))) * k;
    assert(xn * x2d == xn * k * ((cd * sd) * k)) by (nonlinear_arith)
        requires
            x2d == (cd * k) * (sd * k);
    assert(zd * ((sd * sd) * (cd * cd)) * xd == (cd * sd) * k) by (nonlinear_arith)
        requires
            k == (cd * xd) * (sd * zd);
    assert(xn * k * (zd * ((sd * sd) * (cd * cd)) * xd) == xn * k * ((cd * sd) * k));
}

/// Transform invertibility for the rotation core: a sine/cosine pair
/// on the unit circle rotates the plane coordinates, and the negated
/// pair rotates them exactly back.
///
/// The hypotheses spell out one application of the Y-rotation
/// formulas `(x, z) -> (c x + s z, c z - s x)` followed by one
/// application with the sine negated; the counter-rotation may act
/// on any pair of values equal to the rotated coordinates (they are
/// re-normalized when a frame change stands between the two
/// applications).  For a pair with `s^2 + c^2 == 1` the result is
/// the original pair of coordinates.
pub proof fn lemma_rotation_pair_cancel(
    s: RatV,
    c: RatV,
    x: RatV,
    z: RatV,
    x1: RatV,
    z1: RatV,
    x1b: RatV,
    z1b: RatV,
    x2: RatV,
    z2: RatV,
)
    requires
        s.d >= 1,
        c.d >= 1,
        x.d >= 1,
        z.d >= 1,
        x1b.d >= 1,
        z1b.d >= 1,
        s.n * s.n * (c.d * c.d) + c.n * c.n * (s.d * s.d) == (s.d * s.d) * (c.d * c.d),
        o_add(rat_mul(c, x), rat_mul(s, z)) == Some(x1),
        o_sub(rat_mul(c, z), rat_mul(s, x)) == Some(z1),
        rat_eqv(x1b, x1),
        rat_eqv(z1b, z1),
        o_add(rat_mul(c, x1b), rat_mul(rat_neg(s), z1b)) == Some(x2),
        o_sub(rat_mul(c, z1b), rat_mul(rat_neg(s), x1b)) == Some(z2),
    ensures
        rat_eqv(x2, x),
        rat_eqv(z2, z),
{
    let ns = rat_neg(s);
    let xv1 = RatV { n: c.n * x.n * (s.d * z.d) + s.n * z.n * (c.d * x.d), d: (c.d * x.d) * (s.d * z.d) };
    let zv1 = RatV { n: c.n * z.n * (s.d * x.d) - s.n * x.n * (c.d * z.d), d: (c.d * z.d) * (s.d * x.d) };
    // first application: the stored coordinates equal the textbook ones
    match (rat_mul(c, x), rat_mul(s, z)) {
        (Some(mcx), Some(msz)) => {
            lemma_mul_eqv(c, x, mcx);
            lemma_mul_eqv(s, z, msz);
            lemma_add_eqv(mcx, msz, x1);
            lemma_raw_add_congr(
                mcx,
                RatV { n: c.n * x.n, d: c.d * x.d },
                msz,
                RatV { n: s.n * z.n, d: s.d * z.d },
            );
            assert(mcx.d * msz.d >= 1) by (nonlinear_arith)
                requires
                    mcx.d >= 1,
                    msz.d >= 1;
            lemma_eqv_trans(
                x1,
                RatV { n: mcx.n * msz.d + msz.n * mcx.d, d: mcx.d * msz.d },
                xv1,
            );
        },
        _ => {
            assert(false);
        },
    }
    match (rat_mul(c, z), rat_mul(s, x)) {
        (Some(mcz), Some(msx)) => {
            lemma_mul_eqv(c, z, mcz);
            lemma_mul_eqv(s, x, msx);
            lemma_sub_eqv(mcz, msx, z1);
            lemma_raw_sub_congr(
                mcz,
                RatV { n: c.n * z.n, d: c.d * z.d },
                msx,
                RatV { n: s.n * x.n, d: s.d * x.d },
            );
            assert(mcz.d * msx.d >= 1) by (nonlinear_arith)
                requires
                    mcz.d >= 1,
                    msx.d >= 1;
            lemma_eqv_trans(
                z1,
                RatV { n: mcz.n * msx.d - msx.n * mcz.d, d: mcz.d * msx.d },
                zv1,
            );
        },
        _ => {
            assert(false);
        },
    }
    assert(xv1.d >= 1 && zv1.d >= 1) by (nonlinear_arith)
        requires
            s.d >= 1,
            c.d >= 1,
            x.d >= 1,
            z.d >= 1,
            xv1.d == (c.d * x.d) * (s.d * z.d),
            zv1.d == (c.d * z.d) * (s.d * x.d);
    // the counter-rotation inputs equal the textbook coordinates
    lemma_eqv_trans(x1b, x1, xv1);
    lemma_eqv_trans(z1b, z1, zv1);
    // second application, with the negated sine, over the textbook
    // coordinates
    let xv2 = RatV {
        n: c.n * xv1.n * (s.d * zv1.d) + (-s.n) * zv1.n * (c.d * xv1.d),
        d: (c.d * xv1.d) * (s.d * zv1.d),
    };
    let zv2 = RatV {
        n: c.n * zv1.n * (s.d * xv1.d) - (-s.n) * xv1.n * (c.d * zv1.d),
        d: (c.d * zv1.d) * (s.d * xv1.d),
    };
    match (rat_mul(c, x1b), rat_mul(ns, z1b)) {
        (Some(m3), Some(m4)) => {
            lemma_mul_eqv(c, x1b, m3);
            lemma_mul_eqv(ns, z1b, m4);
            lemma_add_eqv(m3, m4, x2);
            lemma_raw_mul_congr(c, c, x1b, xv1);
            lemma_raw_mul_congr(ns, ns, z1b, zv1);
            assert(c.d * x1b.d >= 1 && s.d * z1b.d >= 1 && m3.d * m4.d >= 1) by (nonlinear_arith)
                requires
                    c.d >= 1,
                    x1b.d >= 1,
                    s.d >= 1,
                    z1b.d >= 1,
                    m3.d >= 1,
                    m4.d >= 1;
            lemma_eqv_trans(m3, RatV { n: c.n * x1b.n, d: c.d * x1b.d }, RatV { n: c.n * xv1.n, d: c.d * xv1.d });
            lemma_eqv_trans(m4, RatV { n: ns.n * z1b.n, d: s.d * z1b.d }, RatV { n: ns.n * zv1.n, d: s.d * zv1.d });
            lemma_raw_add_congr(
                m3,
                RatV { n: c.n * xv1.n, d: c.d * xv1.d },
                m4,
                RatV { n: (-s.n) * zv1.n, d: s.d * zv1.d },
            );
            lemma_eqv_trans(
                x2,
                RatV { n: m3.n * m4.d + m4.n * m3.d, d: m3.d * m4.d },
                xv2,
            );
        },
        _ => {
            assert(false);
        },
    }
    match (rat_mul(c, z1b), rat_mul(ns, x1b)) {
        (Some(m5), Some(m6)) => {
            lemma_mul_eqv(c, z1b, m5);
            lemma_mul_eqv(ns, x1b, m6);
            lemma_sub_eqv(m5, m6, z2);
            lemma_raw_mul_congr(c, c, z1b, zv1);
            lemma_raw_mul_congr(ns, ns, x1b, xv1);
            assert(c.d * z1b.d >= 1 && s.d * x1b.d >= 1 && m5.d * m6.d >= 1) by (nonlinear_arith)
                requires
                    c.d >= 1,
                    z1b.d >= 1,
                    s.d >= 1,
                    x1b.d >= 1,
                    m5.d >= 1,
                    m6.d >= 1;
            lemma_eqv_trans(m5, RatV { n: c.n * z1b.n, d: c.d * z1b.d }, RatV { n: c.n * zv1.n, d: c.d * zv1.d });
            lemma_eqv_trans(m6, RatV { n: ns.n * x1b.n, d: s.d * x1b.d }, RatV { n: ns.n * xv1.n, d: s.d * xv1.d });
            lemma_raw_sub_congr(
                m5,
                RatV { n: c.n * zv1.n, d: c.d * zv1.d },
                m6,
                RatV { n: (-s.n) * xv1.n, d: s.d * xv1.d },
            );
            lemma_eqv_trans(
                z2,
                RatV { n: m5.n * m6.d - m6.n * m5.d, d: m5.d * m6.d },
                zv2,
            );
        },
        _ => {
            assert(false);
        },
    }
    // the textbook coordinates cancel back to the originals on the
    // unit circle
    assert(zv1.d == xv1.d) by (nonlinear_arith)
        requires
            xv1.d == (c.d * x.d) * (s.d * z.d),
            zv1.d == (c.d * z.d) * (s.d * x.d);
    lemma_unit_turn(c.n, c.d, s.n, s.d, x.n, x.d, z.n, z.d, xv1.n, zv1.n);
    assert(zv1.n == c.n * z.n * (s.d * x.d) + (-s.n) * x.n * (c.d * z.d)) by (nonlinear_arith)
        requires
            zv1.n == c.n * z.n * (s.d * x.d) - s.n * x.n * (c.d * z.d);
    assert(xv1.n == c.n * x.n * (s.d * z.d) - (-s.n) * z.n * (c.d * x.d)) by (nonlinear_arith)
        requires
            xv1.n == c.n * x.n * (s.d * z.d) + s.n * z.n * (c.d * x.d);
    assert((-s.n) * (-s.n) * (c.d * c.d) + c.n * c.n * (s.d * s.d) == (s.d * s.d) * (c.d * c.d))
        by (nonlinear_arith)
        requires
            s.n * s.n * (c.d * c.d) + c.n * c.n * (s.d * s.d) == (s.d * s.d) * (c.d * c.d);
    lemma_unit_turn(c.n, c.d, -s.n, s.d, z.n, z.d, x.n, x.d, zv1.n, xv1.n);
    assert(c.n * zv1.n * s.d + s.n * xv1.n * c.d == z.n * x.d * ((s.d * s.d) * (c.d * c.d)))
        by (nonlinear_arith)
        requires
            c.n * zv1.n * s.d - (-s.n) * xv1.n * c.d == z.n * x.d * ((s.d * s.d) * (c.d * c.d));
    lemma_back_out(
        c.n, c.d, s.n, s.d, x.n, x.d, z.n, z.d, xv1.n, zv1.n, xv1.d, xv2.n, xv2.d,
    );
    assert(zv2.n == c.n * zv1.n * (s.d * xv1.d) + (-(-s.n)) * xv1.n * (c.d * xv1.d))
        by (nonlinear_arith)
        requires
            zv2.n == c.n * zv1.n * (s.d * xv1.d) - (-s.n) * xv1.n * (c.d * zv1.d),
            zv1.d == xv1.d;
    assert(zv2.d == (c.d * xv1.d) * (s.d * xv1.d));
    lemma_back_out(
        c.n, c.d, -s.n, s.d, z.n, z.d, x.n, x.d, zv1.n, xv1.n, xv1.d, zv2.n, zv2.d,
    );
    assert(xv2.d != 0 && zv2.d != 0) by (nonlinear_arith)
        requires
            c.d >= 1,
            s.d >= 1,
            xv1.d >= 1,
            zv1.d >= 1,
            xv2.d == (c.d * xv1.d) * (s.d * zv1.d),
            zv2.d == (c.d * zv1.d) * (s.d * xv1.d);
    lemma_eqv_trans(x2, xv2, x);
    lemma_eqv_trans(z2, zv2, z);
}

/// A rotation application yields well-formed components.
pub proof fn lemma_rot_apply_wf(r: RotationV, v: VecV, w: VecV)
    requires
        rot_apply_vec(r, v) == Some(w),
    ensures
        vv_wf(w),
{
    match b_apply_vec(r.basis, v) {
        Some(rhs) => {
            match (o_add(rat_mul(r.cosine, rhs.x), rat_mul(r.sine, rhs.z)), o_sub(
                rat_mul(r.cosine, rhs.z),
                rat_mul(r.sine, rhs.x),
            )) {
                (Some(x), Some(z)) => {
                    crate::basis::lemma_b_apply_wf(
                        b_inverse(r.basis),
                        VecV { x, y: rhs.y, z },
                        w,
                    );
                },
                _ => {
                    assert(false);
                },
            }
        },
        None => {
            assert(false);
        },
    }
}

/// A sine/cosine pair lies exactly on the unit circle.
pub open spec fn unit_pair(s: RatV, c: RatV) -> bool {
    s.n * s.n * (c.d * c.d) + c.n * c.n * (s.d * s.d) == (s.d * s.d) * (c.d * c.d)
}

/// Transform invertibility for rotations, on vectors: a rotation
/// whose frame is one of the coordinate-axis frames (as `on_x`,
/// `on_y` and `on_z` build) and whose sine/cosine pair lies exactly
/// on the unit circle, followed by its inverse, restores the
/// original vector.  The inverse may act on any vector equal to the
/// rotated one (re-normalized when other steps stand between the
/// two applications).  (A pair computed through the floor square
/// root, as `look_towards` does, is only approximately on the
/// circle and is left out.)
pub proof fn lemma_axis_rotation_inverts_vector(
    r: RotationV,
    a: VecV,
    w1: VecV,
    w1b: VecV,
    w2: VecV,
)
    requires
        axis_frame(r.basis),
        rat_wf(r.sine),
        rat_wf(r.cosine),
        unit_pair(r.sine, r.cosine),
        vv_wf(a),
        vv_wf(w1b),
        rot_apply_vec(r, a) == Some(w1),
        v_eqv(w1b, w1),
        rot_apply_vec(rot_inverse(r), w1b) == Some(w2),
    ensures
        v_eqv(w2, a),
{
    let b = r.basis;
    let s = r.sine;
    let c = r.cosine;
    match b_apply_vec(b, a) {
        Some(i1) => {
            lemma_axis_apply(b, a, i1);
            match (o_add(rat_mul(c, i1.x), rat_mul(s, i1.z)), o_sub(
                rat_mul(c, i1.z),
                rat_mul(s, i1.x),
            )) {
                (Some(mx), Some(mz)) => {
                    let mid = VecV { x: mx, y: i1.y, z: mz };
                    assert(b_inverse(b) == b);
                    assert(b_apply_vec(b, mid) == Some(w1));
                    assert(vv_wf(mid));
                    lemma_axis_apply(b, mid, w1);
                    match b_apply_vec(b, w1b) {
                        Some(i2) => {
                            lemma_axis_apply(b, w1b, i2);
                            // the re-framed coordinates equal the
                            // rotated ones: the frame permutation is
                            // its own inverse, and the re-framed
                            // input equals the rotated output
                            if b == b_xyz() {
                                lemma_eqv_trans(i2.x, w1b.x, w1.x);
                                lemma_eqv_trans(i2.x, w1.x, mid.x);
                                lemma_eqv_trans(i2.y, w1b.y, w1.y);
                                lemma_eqv_trans(i2.y, w1.y, mid.y);
                                lemma_eqv_trans(i2.z, w1b.z, w1.z);
                                lemma_eqv_trans(i2.z, w1.z, mid.z);
                            } else if b == b_yxz() {
                                lemma_eqv_trans(i2.x, w1b.y, w1.y);
                                lemma_eqv_trans(i2.x, w1.y, mid.x);
                                lemma_eqv_trans(i2.y, w1b.x, w1.x);
                                lemma_eqv_trans(i2.y, w1.x, mid.y);
                                lemma_eqv_trans(i2.z, w1b.z, w1.z);
                                lemma_eqv_trans(i2.z, w1.z, mid.z);
                            } else {
                                lemma_eqv_trans(i2.x, w1b.x, w1.x);
                                lemma_eqv_trans(i2.x, w1.x, mid.x);
                                lemma_eqv_trans(i2.y, w1b.z, w1.z);
                                lemma_eqv_trans(i2.y, w1.z, mid.y);
                                lemma_eqv_trans(i2.z, w1b.y, w1.y);
                                lemma_eqv_trans(i2.z, w1.y, mid.z);
                            }
                            match (o_add(rat_mul(c, i2.x), rat_mul(rat_neg(s), i2.z)), o_sub(
                                rat_mul(c, i2.z),
                                rat_mul(rat_neg(s), i2.x),
                            )) {
                                (Some(nx), Some(nz)) => {
                                    lemma_rotation_pair_cancel(
                                        s,
                                        c,
                                        i1.x,
                                        i1.z,
                                        mx,
                                        mz,
                                        i2.x,
                                        i2.z,
                                        nx,
                                        nz,
                                    );
                                    let mid2 = VecV { x: nx, y: i2.y, z: nz };
                                    assert(b_apply_vec(b, mid2) == Some(w2));
                                    assert(vv_wf(mid2));
                                    lemma_axis_apply(b, mid2, w2);
                                    // chain each component back to the
                                    // original through the permutations
                                    if b == b_xyz() {
                                        lemma_eqv_trans(w2.x, mid2.x, i1.x);
                                        lemma_eqv_trans(w2.x, i1.x, a.x);
                                        lemma_eqv_trans(w2.y, mid2.y, i1.y);
                                        lemma_eqv_trans(w2.y, i1.y, a.y);
                                        lemma_eqv_trans(w2.z, mid2.z, i1.z);
                                        lemma_eqv_trans(w2.z, i1.z, a.z);
                                    } else if b == b_yxz() {
                                        lemma_eqv_trans(w2.x, mid2.y, i1.y);
                                        lemma_eqv_trans(w2.x, i1.y, a.x);
                                        lemma_eqv_trans(w2.y, mid2.x, i1.x);
                                        lemma_eqv_trans(w2.y, i1.x, a.y);
                                        lemma_eqv_trans(w2.z, mid2.z, i1.z);
                                        lemma_eqv_trans(w2.z, i1.z, a.z);
                                    } else {
                                        lemma_eqv_trans(w2.x, mid2.x, i1.x);
                                        lemma_eqv_trans(w2.x, i1.x, a.x);
                                        lemma_eqv_trans(w2.y, mid2.z, i1.z);
                                        lemma_eqv_trans(w2.y, i1.z, a.y);
                                        lemma_eqv_trans(w2.z, mid2.y, i1.y);
                                        lemma_eqv_trans(w2.z, i1.y, a.z);
                                    }
                                },
                                _ => {
                                    assert(false);
                                },
                            }
                        },
                        None => {
                            assert(false);
                        },
                    }
                },
                _ => {
                    assert(false);
                },
            }
        },
        None => {
            assert(false);
        },
    }
}

/// Transform invertibility for axis-frame rotations, on points.
pub proof fn lemma_axis_rotation_inverts_point(r: RotationV, a: PointV, w1: PointV, w2: PointV)
    requires
        axis_frame(r.basis),
        rat_wf(r.sine),
        rat_wf(r.cosine),
        unit_pair(r.sine, r.cosine),
        crate::point::pv_wf(a),
        rot_apply_point(r, a) == Some(w1),
        rot_apply_point(rot_inverse(r), w1) == Some(w2),
    ensures
        crate::point::p_eqv(w2, a),
{
    match (rot_apply_vec(r, p_as_vec(a)), rot_apply_vec(rot_inverse(r), p_as_vec(w1))) {
        (Some(v1), Some(v2)) => {
            lemma_axis_rotation_inverts_vector(r, p_as_vec(a), v1, p_as_vec(w1), v2);
        },
        _ => {
            assert(false);
        },
    }
}

/// Transform invertibility for axis-frame rotations, on rays.
pub proof fn lemma_axis_rotation_inverts_ray(r: RotationV, a: RayV, w1: RayV, w2: RayV)
    requires
        axis_frame(r.basis),
        rat_wf(r.sine),
        rat_wf(r.cosine),
        unit_pair(r.sine, r.cosine),
        crate::point::pv_wf(a.origin),
        vv_wf(a.direction),
        rot_apply_ray(r, a) == Some(w1),
        rot_apply_ray(rot_inverse(r), w1) == Some(w2),
    ensures
        crate::ray::ray_eqv(w2, a),
{
    lemma_axis_rotation_inverts_point(r, a.origin, w1.origin, w2.origin);
    match rot_apply_vec(r, a.direction) {
        Some(d1) => {
            lemma_axis_rotation_inverts_vector(r, a.direction, d1, w1.direction, w2.direction);
        },
        None => {
            assert(false);
        },
    }
}

} // verus!
