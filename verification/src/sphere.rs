//! Spheres of a given radius, centered at the local origin.

use vstd::prelude::*;
use crate::rational::{
    o_add, o_div, o_mul, o_sub, oadd, odiv, omul, osub, rat_add, rat_int, rat_le, rat_lt,
    rat_mul, rat_neg, rat_sqrt, rat_sub, rat_wf, RatV, Rational,
};
use crate::material::{mv_wf, Material, MaterialV};
use crate::point::{p_as_vec, Point};
use crate::ray::{r_point_at, Ray, RayV};
use crate::surface::{opt_sp_wf, spov, SurfacePoint, SurfacePointV};
use crate::vector::{v_dot, v_len_sq, Vector};

verus! {

/// The mathematical content of a sphere: its radius and material.
pub ghost struct SphereV {
    pub radius: RatV,
    pub material: MaterialV,
}

pub open spec fn sphere_wf(s: SphereV) -> bool {
    rat_wf(s.radius) && mv_wf(s.material)
}

/// Nearest intersection of a ray with a sphere of radius `radius`
/// centered at the local origin.
///
/// The quadratic discriminant (scaled by one quarter) is
/// `(oc.d)^2 + |d|^2 r^2 - |d|^2 |oc|^2`; a non-positive discriminant
/// — no crossing, or a tangent touch — yields no hit.  Of the two
/// roots the smaller is taken if strictly positive, else the larger
/// if strictly positive, else there is no hit; strict positivity is
/// the exact minimum-distance policy against self-intersection.
/// The hit records the ray parameter, the hit point, the
/// (un-normalized) outward normal and the sphere's material.
pub open spec fn sphere_intersect_v(radius: RatV, material: MaterialV, ray: RayV) -> Option<
    SurfacePointV,
> {
    let oc = p_as_vec(ray.origin);
    match (v_dot(oc, ray.direction), v_len_sq(ray.direction), v_len_sq(oc), rat_mul(
        radius,
        radius,
    )) {
        (Some(od), Some(dd), Some(oo), Some(rr)) => {
            match o_sub(o_add(rat_mul(od, od), rat_mul(dd, rr)), rat_mul(dd, oo)) {
                Some(delta) => if delta.n <= 0 {
                    None
                } else {
                    match rat_sqrt(delta) {
                        Some(sq) => {
                            let t1o = o_div(rat_sub(rat_neg(od), sq), Some(dd));
                            let t2o = o_div(rat_add(rat_neg(od), sq), Some(dd));
                            match (t1o, t2o) {
                                (Some(t1), Some(t2)) => {
                                    let t = if rat_le(t1, t2) && rat_lt(rat_int(0), t1) {
                                        Some(t1)
                                    } else if rat_lt(rat_int(0), t2) {
                                        Some(t2)
                                    } else {
                                        None
                                    };
                                    match t {
                                        Some(tv) => match r_point_at(ray, tv) {
                                            Some(pt) => Some(
                                                SurfacePointV {
                                                    t: tv,
                                                    point: pt,
                                                    normal: p_as_vec(pt),
                                                    material,
                                                },
                                            ),
                                            None => None,
                                        },
                                        None => None,
                                    }
                                },
                                _ => None,
                            }
                        },
                        None => None,
                    }
                },
                None => None,
            }
        },
        _ => None,
    }
}

/// A sphere of a given radius centered at the local origin.
pub struct Sphere {
    pub radius: Rational,
    pub material: Material,
}

impl View for Sphere {
    type V = SphereV;

    open spec fn view(&self) -> SphereV {
        SphereV { radius: self.radius@, material: self.material@ }
    }
}

impl Sphere {
    pub open spec fn wf(self) -> bool {
        sphere_wf(self@)
    }

    pub fn new(radius: Rational, material: Material) -> (r: Sphere)
        ensures
            r@ == (SphereV { radius: radius@, material: material@ }),
            radius.wf() && material.wf() ==> r.wf(),
    {
        Sphere { radius, material }
    }

    /// The nearest hit of the ray on this sphere, if any.
    pub fn intersect(&self, ray: Ray) -> (r: Option<SurfacePoint>)
        requires
            self.wf(),
            ray.wf(),
        ensures
            spov(r) == sphere_intersect_v(self@.radius, self@.material, ray@),
            opt_sp_wf(r),
    {
        let oc = ray.origin.as_vector();
        let odo = Vector::dot(oc, ray.direction);
        let ddo = ray.direction.length_squared();
        let ooo = oc.length_squared();
        let rro = Rational::mul(self.radius, self.radius);
        let (od, dd, oo, rr) = match (odo, ddo, ooo, rro) {
            (Some(od), Some(dd), Some(oo), Some(rr)) => (od, dd, oo, rr),
            _ => {
                return None;
            },
        };
        let delta = match osub(
            oadd(Rational::mul(od, od), Rational::mul(dd, rr)),
            Rational::mul(dd, oo),
        ) {
            Some(delta) => delta,
            None => {
                return None;
            },
        };
        if !Rational::lt(Rational::zero(), delta) {
            return None;
        }
        let sq = match Rational::sqrt(delta) {
            Some(sq) => sq,
            None => {
                return None;
            },
        };
        let t1o = odiv(Rational::sub(Rational::neg(od), sq), Some(dd));
        let t2o = odiv(Rational::add(Rational::neg(od), sq), Some(dd));
        let (t1, t2) = match (t1o, t2o) {
            (Some(t1), Some(t2)) => (t1, t2),
            _ => {
                return None;
            },
        };
        let zero = Rational::zero();
        let t = if Rational::le(t1, t2) && Rational::lt(zero, t1) {
            t1
        } else if Rational::lt(zero, t2) {
            t2
        } else {
            return None;
        };
        match ray.point_at(t) {
            Some(pt) => Some(
                SurfacePoint { t, point: pt, normal: pt.as_vector(), material: self.material },
            ),
            None => None,
        }
    }
}

} // verus!
