//! Positions in 3-space, kept as a separate type from displacements.

use vstd::prelude::*;
use crate::rational::{opt_wf, ov, rat_add, rat_eqv, rat_int, rat_mul, rat_sub, rat_wf, RatV, Rational};
use crate::vector::{v_dot, v_len, v_len_sq, v_scale, v_sub, vov, VecV, Vector};

verus! {

/// The mathematical content of a point.
pub ghost struct PointV {
    pub x: RatV,
    pub y: RatV,
    pub z: RatV,
}

pub open spec fn p_zero() -> PointV {
    PointV { x: rat_int(0), y: rat_int(0), z: rat_int(0) }
}

pub open spec fn p_is_zero(a: PointV) -> bool {
    a.x.n == 0 && a.y.n == 0 && a.z.n == 0
}

/// The displacement of a point from the origin.
pub open spec fn p_as_vec(a: PointV) -> VecV {
    VecV { x: a.x, y: a.y, z: a.z }
}

pub open spec fn p_of_vec(a: VecV) -> PointV {
    PointV { x: a.x, y: a.y, z: a.z }
}

pub open spec fn p_add_v(a: PointV, b: VecV) -> Option<PointV> {
    match (rat_add(a.x, b.x), rat_add(a.y, b.y), rat_add(a.z, b.z)) {
        (Some(x), Some(y), Some(z)) => Some(PointV { x, y, z }),
        _ => None,
    }
}

pub open spec fn p_sub_v(a: PointV, b: VecV) -> Option<PointV> {
    match (rat_sub(a.x, b.x), rat_sub(a.y, b.y), rat_sub(a.z, b.z)) {
        (Some(x), Some(y), Some(z)) => Some(PointV { x, y, z }),
        _ => None,
    }
}

/// Point minus point yields the displacement between them.
pub open spec fn p_sub_p(a: PointV, b: PointV) -> Option<VecV> {
    match (rat_sub(a.x, b.x), rat_sub(a.y, b.y), rat_sub(a.z, b.z)) {
        (Some(x), Some(y), Some(z)) => Some(VecV { x, y, z }),
        _ => None,
    }
}

/// Mirror image of a point about an axis through the origin: the
/// point minus twice the dot of its position vector with the axis,
/// along the axis.  Absent for the origin itself.
pub open spec fn p_reflected(a: PointV, axis: VecV) -> Option<PointV> {
    if p_is_zero(a) {
        None
    } else {
        match v_dot(p_as_vec(a), axis) {
            Some(d) => match rat_mul(rat_int(2), d) {
                Some(d2) => match v_scale(axis, d2) {
                    Some(off) => match v_sub(p_as_vec(a), off) {
                        Some(v) => Some(p_of_vec(v)),
                        None => None,
                    },
                    None => None,
                },
                None => None,
            },
            None => None,
        }
    }
}

pub open spec fn p_distance(a: PointV, b: PointV) -> Option<RatV> {
    match p_sub_p(b, a) {
        Some(v) => v_len(v),
        None => None,
    }
}

pub open spec fn p_distance_squared(a: PointV, b: PointV) -> Option<RatV> {
    match p_sub_p(b, a) {
        Some(v) => v_len_sq(v),
        None => None,
    }
}

/// Componentwise mathematical equality of two points.
pub open spec fn p_eqv(a: PointV, b: PointV) -> bool {
    rat_eqv(a.x, b.x) && rat_eqv(a.y, b.y) && rat_eqv(a.z, b.z)
}

/// Well-formedness of a point view: every coordinate in bounds.
pub open spec fn pv_wf(p: PointV) -> bool {
    rat_wf(p.x) && rat_wf(p.y) && rat_wf(p.z)
}

/// The view of an optional point.
pub open spec fn pov(r: Option<Point>) -> Option<PointV> {
    match r {
        Some(p) => Some(p@),
        None => None,
    }
}

/// A position in 3-space.
#[derive(Clone, Copy, PartialEq, Eq, Debug)]
pub struct Point {
    pub x: Rational,
    pub y: Rational,
    pub z: Rational,
}

impl View for Point {
    type V = PointV;

    open spec fn view(&self) -> PointV {
        PointV { x: self.x@, y: self.y@, z: self.z@ }
    }
}

/// Well-formedness of an optional point.
pub open spec fn opt_point_wf(r: Option<Point>) -> bool {
    r matches Some(p) ==> p.wf()
}

impl Point {
    pub open spec fn wf(self) -> bool {
        pv_wf(self@)
    }

    pub fn new(x: Rational, y: Rational, z: Rational) -> (r: Point)
        ensures
            r@ == (PointV { x: x@, y: y@, z: z@ }),
            x.wf() && y.wf() && z.wf() ==> r.wf(),
    {
        Point { x, y, z }
    }

    pub fn zero() -> (r: Point)
        ensures
            r@ == p_zero(),
            r.wf(),
    {
        Point { x: Rational::zero(), y: Rational::zero(), z: Rational::zero() }
    }

    /// The displacement of this point from the origin.
    pub fn as_vector(self) -> (r: Vector)
        ensures
            r@ == p_as_vec(self@),
            self.wf() ==> r.wf(),
    {
        Vector { x: self.x, y: self.y, z: self.z }
    }

    pub fn of_vector(v: Vector) -> (r: Point)
        ensures
            r@ == p_of_vec(v@),
            v.wf() ==> r.wf(),
    {
        Point { x: v.x, y: v.y, z: v.z }
    }

    pub fn add_vector(a: Point, b: Vector) -> (r: Option<Point>)
        requires
            a.wf(),
            b.wf(),
        ensures
            pov(r) == p_add_v(a@, b@),
            opt_point_wf(r),
    {
        match (Rational::add(a.x, b.x), Rational::add(a.y, b.y), Rational::add(a.z, b.z)) {
            (Some(x), Some(y), Some(z)) => Some(Point { x, y, z }),
            _ => None,
        }
    }

    pub fn sub_vector(a: Point, b: Vector) -> (r: Option<Point>)
        requires
            a.wf(),
            b.wf(),
        ensures
            pov(r) == p_sub_v(a@, b@),
            opt_point_wf(r),
    {
        match (Rational::sub(a.x, b.x), Rational::sub(a.y, b.y), Rational::sub(a.z, b.z)) {
            (Some(x), Some(y), Some(z)) => Some(Point { x, y, z }),
            _ => None,
        }
    }

    pub fn sub_point(a: Point, b: Point) -> (r: Option<Vector>)
        requires
            a.wf(),
            b.wf(),
        ensures
            vov(r) == p_sub_p(a@, b@),
            crate::vector::opt_vec_wf(r),
    {
        match (Rational::sub(a.x, b.x), Rational::sub(a.y, b.y), Rational::sub(a.z, b.z)) {
            (Some(x), Some(y), Some(z)) => Some(Vector { x, y, z }),
            _ => None,
        }
    }

    pub fn reflected(self, axis: Vector) -> (r: Option<Point>)
        requires
            self.wf(),
            axis.wf(),
        ensures
            pov(r) == p_reflected(self@, axis@),
            opt_point_wf(r),
    {
        if self.is_approximately_zero() {
            return None;
        }
        match Vector::dot(self.as_vector(), axis) {
            Some(d) => match Rational::mul(Rational::from_int(2), d) {
                Some(d2) => match Vector::scale(axis, d2) {
                    Some(off) => match Vector::sub(self.as_vector(), off) {
                        Some(v) => Some(Point::of_vector(v)),
                        None => None,
                    },
                    None => None,
                },
                None => None,
            },
            None => None,
        }
    }

    pub fn distance(a: Point, b: Point) -> (r: Option<Rational>)
        requires
            a.wf(),
            b.wf(),
        ensures
            ov(r) == p_distance(a@, b@),
            opt_wf(r),
    {
        match Point::sub_point(b, a) {
            Some(v) => v.length(),
            None => None,
        }
    }

    pub fn distance_squared(a: Point, b: Point) -> (r: Option<Rational>)
        requires
            a.wf(),
            b.wf(),
        ensures
            ov(r) == p_distance_squared(a@, b@),
            opt_wf(r),
    {
        match Point::sub_point(b, a) {
            Some(v) => v.length_squared(),
            None => None,
        }
    }

    /// Exact zero test on every coordinate.
    pub fn is_approximately_zero(self) -> (r: bool)
        requires
            self.wf(),
        ensures
            r == p_is_zero(self@),
    {
        self.x.is_zero() && self.y.is_zero() && self.z.is_zero()
    }
}

} // verus!
