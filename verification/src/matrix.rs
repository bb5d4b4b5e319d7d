//! Dense 4x4 affine matrices in row-major named fields.
//!
//! Application to a vector ignores the translation column; application
//! to a point applies it.  Multiplication composes in order, so that
//! the left factor acts last.

use vstd::prelude::*;
use crate::rational::{o_add, oadd, opt_wf, ov, rat_int, rat_mul, RatV, Rational};
use crate::point::{opt_point_wf, pov, Point, PointV};
use crate::ray::{opt_ray_wf, rov, Ray, RayV};
use crate::vector::{opt_vec_wf, vov, VecV, Vector};

verus! {

/// The mathematical content of a matrix.
pub ghost struct MatV {
    pub a: RatV, pub b: RatV, pub c: RatV, pub d: RatV,
    pub e: RatV, pub f: RatV, pub g: RatV, pub h: RatV,
    pub i: RatV, pub j: RatV, pub k: RatV, pub l: RatV,
    pub m: RatV, pub n: RatV, pub o: RatV, pub p: RatV,
}

pub open spec fn m_identity() -> MatV {
    MatV {
        a: rat_int(1), b: rat_int(0), c: rat_int(0), d: rat_int(0),
        e: rat_int(0), f: rat_int(1), g: rat_int(0), h: rat_int(0),
        i: rat_int(0), j: rat_int(0), k: rat_int(1), l: rat_int(0),
        m: rat_int(0), n: rat_int(0), o: rat_int(0), p: rat_int(1),
    }
}

pub open spec fn m_transposed(s: MatV) -> MatV {
    MatV {
        a: s.a, b: s.e, c: s.i, d: s.m,
        e: s.b, f: s.f, g: s.j, h: s.n,
        i: s.c, j: s.g, k: s.k, l: s.o,
        m: s.d, n: s.h, o: s.l, p: s.p,
    }
}

/// Sum of three products, in evaluation order.
pub open spec fn dot3(x1: RatV, y1: RatV, x2: RatV, y2: RatV, x3: RatV, y3: RatV) -> Option<
    RatV,
> {
    o_add(o_add(rat_mul(x1, y1), rat_mul(x2, y2)), rat_mul(x3, y3))
}

/// Sum of four products, in evaluation order.
pub open spec fn dot4(
    x1: RatV, y1: RatV, x2: RatV, y2: RatV, x3: RatV, y3: RatV, x4: RatV, y4: RatV,
) -> Option<RatV> {
    o_add(o_add(o_add(rat_mul(x1, y1), rat_mul(x2, y2)), rat_mul(x3, y3)), rat_mul(x4, y4))
}

/// A present value, or zero where absent; used only under a
/// presence test.
pub open spec fn u(o: Option<RatV>) -> RatV {
    match o {
        Some(v) => v,
        None => rat_int(0),
    }
}

/// Linear action on a vector: the translation column is ignored.
pub open spec fn m_mul_vec(s: MatV, v: VecV) -> Option<VecV> {
    match (
        dot3(s.a, v.x, s.b, v.y, s.c, v.z),
        dot3(s.e, v.x, s.f, v.y, s.g, v.z),
        dot3(s.i, v.x, s.j, v.y, s.k, v.z),
    ) {
        (Some(x), Some(y), Some(z)) => Some(VecV { x, y, z }),
        _ => None,
    }
}

/// Affine action on a point: the translation column is applied.
pub open spec fn m_mul_point(s: MatV, pt: PointV) -> Option<PointV> {
    match (
        o_add(dot3(s.a, pt.x, s.b, pt.y, s.c, pt.z), Some(s.d)),
        o_add(dot3(s.e, pt.x, s.f, pt.y, s.g, pt.z), Some(s.h)),
        o_add(dot3(s.i, pt.x, s.j, pt.y, s.k, pt.z), Some(s.l)),
    ) {
        (Some(x), Some(y), Some(z)) => Some(PointV { x, y, z }),
        _ => None,
    }
}

/// Action on a ray: affine on the origin, linear on the direction.
pub open spec fn m_mul_ray(s: MatV, r: RayV) -> Option<RayV> {
    match (m_mul_point(s, r.origin), m_mul_vec(s, r.direction)) {
        (Some(origin), Some(direction)) => Some(RayV { origin, direction }),
        _ => None,
    }
}

/// Row-by-column product; the left factor acts last.
pub open spec fn m_mul_mat(s: MatV, r: MatV) -> Option<MatV> {
    let ea = dot4(s.a, r.a, s.b, r.e, s.c, r.i, s.d, r.m);
    let eb = dot4(s.a, r.b, s.b, r.f, s.c, r.j, s.d, r.n);
    let ec = dot4(s.a, r.c, s.b, r.g, s.c, r.k, s.d, r.o);
    let ed = dot4(s.a, r.d, s.b, r.h, s.c, r.l, s.d, r.p);
    let ee = dot4(s.e, r.a, s.f, r.e, s.g, r.i, s.h, r.m);
    let ef = dot4(s.e, r.b, s.f, r.f, s.g, r.j, s.h, r.n);
    let eg = dot4(s.e, r.c, s.f, r.g, s.g, r.k, s.h, r.o);
    let eh = dot4(s.e, r.d, s.f, r.h, s.g, r.l, s.h, r.p);
    let ei = dot4(s.i, r.a, s.j, r.e, s.k, r.i, s.l, r.m);
    let ej = dot4(s.i, r.b, s.j, r.f, s.k, r.j, s.l, r.n);
    let ek = dot4(s.i, r.c, s.j, r.g, s.k, r.k, s.l, r.o);
    let el = dot4(s.i, r.d, s.j, r.h, s.k, r.l, s.l, r.p);
    let em = dot4(s.m, r.a, s.n, r.e, s.o, r.i, s.p, r.m);
    let en = dot4(s.m, r.b, s.n, r.f, s.o, r.j, s.p, r.n);
    let eo = dot4(s.m, r.c, s.n, r.g, s.o, r.k, s.p, r.o);
    let ep = dot4(s.m, r.d, s.n, r.h, s.o, r.l, s.p, r.p);
    if ea is Some && eb is Some && ec is Some && ed is Some && ee is Some && ef is Some
        && eg is Some && eh is Some && ei is Some && ej is Some && ek is Some && el is Some
        && em is Some && en is Some && eo is Some && ep is Some {
        Some(MatV {
            a: u(ea), b: u(eb), c: u(ec), d: u(ed),
            e: u(ee), f: u(ef), g: u(eg), h: u(eh),
            i: u(ei), j: u(ej), k: u(ek), l: u(el),
            m: u(em), n: u(en), o: u(eo), p: u(ep),
        })
    } else {
        None
    }
}

/// The view of an optional matrix.
pub open spec fn mov(r: Option<Matrix>) -> Option<MatV> {
    match r {
        Some(x) => Some(x@),
        None => None,
    }
}

/// A 4x4 affine transform in row-major named fields.
#[derive(Clone, Copy, PartialEq, Eq, Debug)]
pub struct Matrix {
    pub a: Rational, pub b: Rational, pub c: Rational, pub d: Rational,
    pub e: Rational, pub f: Rational, pub g: Rational, pub h: Rational,
    pub i: Rational, pub j: Rational, pub k: Rational, pub l: Rational,
    pub m: Rational, pub n: Rational, pub o: Rational, pub p: Rational,
}

impl View for Matrix {
    type V = MatV;

    open spec fn view(&self) -> MatV {
        MatV {
            a: self.a@, b: self.b@, c: self.c@, d: self.d@,
            e: self.e@, f: self.f@, g: self.g@, h: self.h@,
            i: self.i@, j: self.j@, k: self.k@, l: self.l@,
            m: self.m@, n: self.n@, o: self.o@, p: self.p@,
        }
    }
}

/// Well-formedness of an optional matrix.
pub open spec fn opt_mat_wf(r: Option<Matrix>) -> bool {
    r matches Some(x) ==> x.wf()
}

/// Sum of three products of rationals, in evaluation order.
fn dot3e(x1: Rational, y1: Rational, x2: Rational, y2: Rational, x3: Rational, y3: Rational) -> (r:
    Option<Rational>)
    requires
        x1.wf(), y1.wf(), x2.wf(), y2.wf(), x3.wf(), y3.wf(),
    ensures
        ov(r) == dot3(x1@, y1@, x2@, y2@, x3@, y3@),
        opt_wf(r),
{
    oadd(oadd(Rational::mul(x1, y1), Rational::mul(x2, y2)), Rational::mul(x3, y3))
}

/// Sum of four products of rationals, in evaluation order.
fn dot4e(
    x1: Rational, y1: Rational, x2: Rational, y2: Rational, x3: Rational, y3: Rational,
    x4: Rational, y4: Rational,
) -> (r: Option<Rational>)
    requires
        x1.wf(), y1.wf(), x2.wf(), y2.wf(), x3.wf(), y3.wf(), x4.wf(), y4.wf(),
    ensures
        ov(r) == dot4(x1@, y1@, x2@, y2@, x3@, y3@, x4@, y4@),
        opt_wf(r),
{
    oadd(
        oadd(oadd(Rational::mul(x1, y1), Rational::mul(x2, y2)), Rational::mul(x3, y3)),
        Rational::mul(x4, y4),
    )
}

impl Matrix {
    pub open spec fn wf(self) -> bool {
        self.a.wf() && self.b.wf() && self.c.wf() && self.d.wf() && self.e.wf() && self.f.wf()
            && self.g.wf() && self.h.wf() && self.i.wf() && self.j.wf() && self.k.wf()
            && self.l.wf() && self.m.wf() && self.n.wf() && self.o.wf() && self.p.wf()
    }

    pub fn identity() -> (r: Matrix)
        ensures
            r@ == m_identity(),
            r.wf(),
    {
        let z = Rational::zero();
        let w = Rational::one();
        Matrix {
            a: w, b: z, c: z, d: z,
            e: z, f: w, g: z, h: z,
            i: z, j: z, k: w, l: z,
            m: z, n: z, o: z, p: w,
        }
    }

    pub fn transposed(self) -> (r: Matrix)
        requires
            self.wf(),
        ensures
            r@ == m_transposed(self@),
            r.wf(),
    {
        Matrix {
            a: self.a, b: self.e, c: self.i, d: self.m,
            e: self.b, f: self.f, g: self.j, h: self.n,
            i: self.c, j: self.g, k: self.k, l: self.o,
            m: self.d, n: self.h, o: self.l, p: self.p,
        }
    }

    pub fn mul_vector(self, rhs: Vector) -> (r: Option<Vector>)
        requires
            self.wf(),
            rhs.wf(),
        ensures
            vov(r) == m_mul_vec(self@, rhs@),
            opt_vec_wf(r),
    {
        let x = dot3e(self.a, rhs.x, self.b, rhs.y, self.c, rhs.z);
        let y = dot3e(self.e, rhs.x, self.f, rhs.y, self.g, rhs.z);
        let z = dot3e(self.i, rhs.x, self.j, rhs.y, self.k, rhs.z);
        match (x, y, z) {
            (Some(x), Some(y), Some(z)) => Some(Vector { x, y, z }),
            _ => None,
        }
    }

    pub fn mul_point(self, rhs: Point) -> (r: Option<Point>)
        requires
            self.wf(),
            rhs.wf(),
        ensures
            pov(r) == m_mul_point(self@, rhs@),
            opt_point_wf(r),
    {
        let x = oadd(dot3e(self.a, rhs.x, self.b, rhs.y, self.c, rhs.z), Some(self.d));
        let y = oadd(dot3e(self.e, rhs.x, self.f, rhs.y, self.g, rhs.z), Some(self.h));
        let z = oadd(dot3e(self.i, rhs.x, self.j, rhs.y, self.k, rhs.z), Some(self.l));
        match (x, y, z) {
            (Some(x), Some(y), Some(z)) => Some(Point { x, y, z }),
            _ => None,
        }
    }

    pub fn mul_ray(self, rhs: Ray) -> (r: Option<Ray>)
        requires
            self.wf(),
            rhs.wf(),
        ensures
            rov(r) == m_mul_ray(self@, rhs@),
            opt_ray_wf(r),
    {
        match (self.mul_point(rhs.origin), self.mul_vector(rhs.direction)) {
            (Some(origin), Some(direction)) => Some(Ray { origin, direction }),
            _ => None,
        }
    }

    pub fn mul_matrix(self, rhs: Matrix) -> (r: Option<Matrix>)
        requires
            self.wf(),
            rhs.wf(),
        ensures
            mov(r) == m_mul_mat(self@, rhs@),
            opt_mat_wf(r),
    {
        let ea = dot4e(self.a, rhs.a, self.b, rhs.e, self.c, rhs.i, self.d, rhs.m);
        let eb = dot4e(self.a, rhs.b, self.b, rhs.f, self.c, rhs.j, self.d, rhs.n);
        let ec = dot4e(self.a, rhs.c, self.b, rhs.g, self.c, rhs.k, self.d, rhs.o);
        let ed = dot4e(self.a, rhs.d, self.b, rhs.h, self.c, rhs.l, self.d, rhs.p);
        let ee = dot4e(self.e, rhs.a, self.f, rhs.e, self.g, rhs.i, self.h, rhs.m);
        let ef = dot4e(self.e, rhs.b, self.f, rhs.f, self.g, rhs.j, self.h, rhs.n);
        let eg = dot4e(self.e, rhs.c, self.f, rhs.g, self.g, rhs.k, self.h, rhs.o);
        let eh = dot4e(self.e, rhs.d, self.f, rhs.h, self.g, rhs.l, self.h, rhs.p);
        let ei = dot4e(self.i, rhs.a, self.j, rhs.e, self.k, rhs.i, self.l, rhs.m);
        let ej = dot4e(self.i, rhs.b, self.j, rhs.f, self.k, rhs.j, self.l, rhs.n);
        let ek = dot4e(self.i, rhs.c, self.j, rhs.g, self.k, rhs.k, self.l, rhs.o);
        let el = dot4e(self.i, rhs.d, self.j, rhs.h, self.k, rhs.l, self.l, rhs.p);
        let em = dot4e(self.m, rhs.a, self.n, rhs.e, self.o, rhs.i, self.p, rhs.m);
        let en = dot4e(self.m, rhs.b, self.n, rhs.f, self.o, rhs.j, self.p, rhs.n);
        let eo = dot4e(self.m, rhs.c, self.n, rhs.g, self.o, rhs.k, self.p, rhs.o);
        let ep = dot4e(self.m, rhs.d, self.n, rhs.h, self.o, rhs.l, self.p, rhs.p);
        if ea.is_none() || eb.is_none() || ec.is_none() || ed.is_none() || ee.is_none()
            || ef.is_none() || eg.is_none() || eh.is_none() || ei.is_none() || ej.is_none()
            || ek.is_none() || el.is_none() || em.is_none() || en.is_none() || eo.is_none()
            || ep.is_none() {
            return None;
        }
        Some(Matrix {
            a: ea.unwrap(), b: eb.unwrap(), c: ec.unwrap(), d: ed.unwrap(),
            e: ee.unwrap(), f: ef.unwrap(), g: eg.unwrap(), h: eh.unwrap(),
            i: ei.unwrap(), j: ej.unwrap(), k: ek.unwrap(), l: el.unwrap(),
            m: em.unwrap(), n: en.unwrap(), o: eo.unwrap(), p: ep.unwrap(),
        })
    }
}

} // verus!
