//! Rays: an origin point and a (not necessarily unit) direction.

use vstd::prelude::*;
use crate::rational::{opt_wf, ov, RatV, Rational};
use crate::point::{opt_point_wf, p_add_v, p_sub_p, pov, Point, PointV};
use crate::vector::{
    v_dot, v_inverse_or_zero, v_normalized, v_scalar_rejection, v_scale, VecV, Vector,
};

verus! {

/// The mathematical content of a ray.
pub ghost struct RayV {
    pub origin: PointV,
    pub direction: VecV,
}

/// The ray through two points, directed from the first to the second.
pub open spec fn r_from_points(a: PointV, b: PointV) -> Option<RayV> {
    match p_sub_p(b, a) {
        Some(d) => Some(RayV { origin: a, direction: d }),
        None => None,
    }
}

/// The same ray with a unit direction; absent for a zero direction.
pub open spec fn r_normalized(r: RayV) -> Option<RayV> {
    match v_normalized(r.direction) {
        Some(d) => Some(RayV { origin: r.origin, direction: d }),
        None => None,
    }
}

/// The point at parameter `t`: origin plus `t` times the direction.
pub open spec fn r_point_at(r: RayV, t: RatV) -> Option<PointV> {
    match v_scale(r.direction, t) {
        Some(d) => p_add_v(r.origin, d),
        None => None,
    }
}

/// Whether a point lies on the ray's carrier line: its rejection from
/// the direction is zero.
pub open spec fn r_contains(r: RayV, p: PointV) -> Option<bool> {
    match p_sub_p(p, r.origin) {
        Some(off) => match v_scalar_rejection(r.direction, off) {
            Some(s) => Some(s.n == 0),
            None => None,
        },
        None => None,
    }
}

/// The parameter at which the ray passes through a point of its
/// carrier line; absent for points off the line.
pub open spec fn r_t_of_point(r: RayV, p: PointV) -> Option<RatV> {
    match r_contains(r, p) {
        Some(true) => match p_sub_p(p, r.origin) {
            Some(off) => v_dot(v_inverse_or_zero(r.direction), off),
            None => None,
        },
        _ => None,
    }
}

/// Mathematical equality of two rays: origins and directions agree
/// componentwise.
pub open spec fn ray_eqv(a: RayV, b: RayV) -> bool {
    crate::point::p_eqv(a.origin, b.origin) && crate::vector::v_eqv(a.direction, b.direction)
}

/// The view of an optional ray.
pub open spec fn rov(r: Option<Ray>) -> Option<RayV> {
    match r {
        Some(x) => Some(x@),
        None => None,
    }
}

/// An origin point together with a direction of travel.
#[derive(Clone, Copy, PartialEq, Eq, Debug)]
pub struct Ray {
    pub origin: Point,
    pub direction: Vector,
}

impl View for Ray {
    type V = RayV;

    open spec fn view(&self) -> RayV {
        RayV { origin: self.origin@, direction: self.direction@ }
    }
}

/// Well-formedness of an optional ray.
pub open spec fn opt_ray_wf(r: Option<Ray>) -> bool {
    r matches Some(x) ==> x.wf()
}

impl Ray {
    pub open spec fn wf(self) -> bool {
        self.origin.wf() && self.direction.wf()
    }

    pub fn new(origin: Point, direction: Vector) -> (r: Ray)
        ensures
            r@ == (RayV { origin: origin@, direction: direction@ }),
            origin.wf() && direction.wf() ==> r.wf(),
    {
        Ray { origin, direction }
    }

    pub fn from_points(a: Point, b: Point) -> (r: Option<Ray>)
        requires
            a.wf(),
            b.wf(),
        ensures
            rov(r) == r_from_points(a@, b@),
            opt_ray_wf(r),
    {
        match Point::sub_point(b, a) {
            Some(d) => Some(Ray { origin: a, direction: d }),
            None => None,
        }
    }

    pub fn normalized(&self) -> (r: Option<Ray>)
        requires
            self.wf(),
        ensures
            rov(r) == r_normalized(self@),
            opt_ray_wf(r),
    {
        match self.direction.normalized() {
            Some(d) => Some(Ray { origin: self.origin, direction: d }),
            None => None,
        }
    }

    pub fn point_at(self, t: Rational) -> (r: Option<Point>)
        requires
            self.wf(),
            t.wf(),
        ensures
            pov(r) == r_point_at(self@, t@),
            opt_point_wf(r),
    {
        match Vector::scale(self.direction, t) {
            Some(d) => Point::add_vector(self.origin, d),
            None => None,
        }
    }

    pub fn contains(self, point: Point) -> (r: Option<bool>)
        requires
            self.wf(),
            point.wf(),
        ensures
            r == r_contains(self@, point@),
    {
        match Point::sub_point(point, self.origin) {
            Some(off) => match Vector::scalar_rejection(self.direction, off) {
                Some(s) => Some(s.is_zero()),
                None => None,
            },
            None => None,
        }
    }

    pub fn t_of_point(self, point: Point) -> (r: Option<Rational>)
        requires
            self.wf(),
            point.wf(),
        ensures
            ov(r) == r_t_of_point(self@, point@),
            opt_wf(r),
    {
        match self.contains(point) {
            Some(true) => match Point::sub_point(point, self.origin) {
                Some(off) => Vector::dot(self.direction.inverse_or_zero(), off),
                None => None,
            },
            _ => None,
        }
    }
}

} // verus!
