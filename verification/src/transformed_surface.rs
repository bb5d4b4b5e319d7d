//! A surface wrapped in an affine placement.
//!
//! Intersection maps the ray into the wrapped surface's local space
//! by the inverse matrix, intersects there, and maps the hit back by
//! the forward matrix.  The local parameter is rescaled by the length
//! of the locally transformed direction, so that parameters of
//! transformed and untransformed surfaces are comparable; a rescaled
//! parameter that is not strictly positive is discarded.

use vstd::prelude::*;
use crate::rational::{o_mul, rat_lt, rat_int, Rational};
use crate::matrix::{m_mul_point, m_mul_ray, m_mul_vec, Matrix};
use crate::ray::Ray;
use crate::surface::{opt_sp_wf, spec_intersect, spov, Surface, SurfacePoint, SurfacePointV};
use crate::transform::Transform;
use crate::vector::v_len;

verus! {

/// The world-space hit corresponding to a local hit: the rescaled
/// parameter (kept only when strictly positive) with the hit point
/// and normal mapped forward.
pub open spec fn transformed_intersect_v(t: &TransformedSurface, ray: crate::ray::RayV) -> Option<
    SurfacePointV,
>
    decreases t,
{
    match m_mul_ray(t.inverse_transform@, ray) {
        Some(tray) => match spec_intersect(&t.surface, tray) {
            Some(sp) => match o_mul(Some(sp.t), v_len(tray.direction)) {
                Some(real_t) => if !rat_lt(rat_int(0), real_t) {
                    None
                } else {
                    match (
                        m_mul_point(t.transform_matrix@, sp.point),
                        m_mul_vec(t.transform_matrix@, sp.normal),
                    ) {
                        (Some(point), Some(normal)) => Some(
                            SurfacePointV { t: real_t, point, normal, material: sp.material },
                        ),
                        _ => None,
                    }
                },
                None => None,
            },
            None => None,
        },
        None => None,
    }
}

/// A wrapped surface together with its placement matrix and the
/// inverse used to reach local space.
pub struct TransformedSurface {
    pub transform_matrix: Matrix,
    pub inverse_transform: Matrix,
    pub surface: Surface,
}

impl TransformedSurface {
    /// Builds the placement from a transform and the wrapped surface;
    /// absent when either matrix of the transform is unrepresentable.
    pub fn new(transform: Transform, surface: Surface) -> (r: Option<TransformedSurface>)
        requires
            transform.wf(),
        ensures
            r matches Some(ts) ==> {
                &&& crate::matrix::mov(Some(ts.transform_matrix)) == crate::transform::tf_matrix(
                    transform@,
                )
                &&& crate::matrix::mov(Some(ts.inverse_transform)) == crate::transform::tf_matrix(
                    crate::transform::tf_inverse(transform@),
                )
                &&& ts.surface == surface
            },
            r is None ==> crate::transform::tf_matrix(transform@) is None
                || crate::transform::tf_matrix(crate::transform::tf_inverse(transform@)) is None,
    {
        let tm = match transform.matrix() {
            Some(tm) => tm,
            None => {
                return None;
            },
        };
        let itm = match transform.inverse().matrix() {
            Some(itm) => itm,
            None => {
                return None;
            },
        };
        Some(TransformedSurface { transform_matrix: tm, inverse_transform: itm, surface })
    }

    /// The nearest valid world-space hit through the placement.
    pub fn intersect(&self, ray: Ray) -> (r: Option<SurfacePoint>)
        requires
            self.transform_matrix.wf(),
            self.inverse_transform.wf(),
            crate::surface::surf_wf(&self.surface),
            ray.wf(),
        ensures
            spov(r) == transformed_intersect_v(self, ray@),
            opt_sp_wf(r),
        decreases self,
    {
        let tray = match self.inverse_transform.mul_ray(ray) {
            Some(tray) => tray,
            None => {
                return None;
            },
        };
        let sp = match self.surface.intersect(tray) {
            Some(sp) => sp,
            None => {
                return None;
            },
        };
        let real_t = match crate::rational::omul(Some(sp.t), tray.direction.length()) {
            Some(real_t) => real_t,
            None => {
                return None;
            },
        };
        if !Rational::lt(Rational::zero(), real_t) {
            return None;
        }
        match (self.transform_matrix.mul_point(sp.point), self.transform_matrix.mul_vector(
            sp.normal,
        )) {
            (Some(point), Some(normal)) => Some(
                SurfacePoint { t: real_t, point, normal, material: sp.material },
            ),
            _ => None,
        }
    }
}

} // verus!
