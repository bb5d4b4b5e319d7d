//! The reflection policy: how a ray bounces, or stops, after a hit.

use vstd::prelude::*;
use crate::ray::{opt_ray_wf, rov, Ray, RayV};
use crate::surface::{SurfacePoint, SurfacePointV};
use crate::vector::{v_reflection, Vector};

verus! {

/// The next ray after a hit: none once the stack has reached the
/// configured maximum (or the reflected direction is
/// unrepresentable), else the mirror reflection of the incoming
/// direction about the surface normal, originating at the hit point.
pub open spec fn next_ray_v(max: nat, ray: RayV, sp: SurfacePointV, stack_len: nat) -> Option<
    RayV,
> {
    if stack_len >= max {
        None
    } else {
        match v_reflection(ray.direction, sp.normal) {
            Some(d) => Some(RayV { origin: sp.point, direction: d }),
            None => None,
        }
    }
}

/// Mirror bouncing, bounded by a maximum reflection count.
#[derive(Clone, Copy, PartialEq, Eq, Debug)]
pub struct DefaultRayShader {
    pub max_reflection_count: usize,
}

impl DefaultRayShader {
    pub fn new(max_reflection_count: usize) -> (r: DefaultRayShader)
        ensures
            r.max_reflection_count == max_reflection_count,
    {
        DefaultRayShader { max_reflection_count }
    }

    /// Proposes the next ray, or declines once the stack is full.
    pub fn next_ray(
        &self,
        ray: Ray,
        surface_point: SurfacePoint,
        reflection_stack: &Vec<SurfacePoint>,
    ) -> (r: Option<Ray>)
        requires
            ray.wf(),
            surface_point.wf(),
        ensures
            rov(r) == next_ray_v(
                self.max_reflection_count as nat,
                ray@,
                surface_point@,
                reflection_stack@.len(),
            ),
            opt_ray_wf(r),
    {
        if reflection_stack.len() >= self.max_reflection_count {
            return None;
        }
        match Vector::reflection(ray.direction, surface_point.normal) {
            Some(d) => Some(Ray::new(surface_point.point, d)),
            None => None,
        }
    }

    /// Records the hit onto the reflection stack.
    pub fn on_intersection(
        &self,
        ray: Ray,
        surface_point: SurfacePoint,
        reflection_stack: &mut Vec<SurfacePoint>,
    )
        ensures
            final(reflection_stack)@ == old(reflection_stack)@.push(surface_point),
    {
        reflection_stack.push(surface_point);
    }

    /// How many reflections a propagation may record.
    pub fn reflection_count_hint(&self) -> (r: usize)
        ensures
            r == self.max_reflection_count,
    {
        self.max_reflection_count
    }
}

} // verus!
