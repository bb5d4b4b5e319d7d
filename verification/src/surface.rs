//! The surface capability: where does a ray first hit geometry?
//!
//! A scene surface is a sphere, an ordered collection of surfaces, or
//! a transformed surface.  Intersection answers the nearest valid hit
//! (smallest strictly positive parameter) or nothing.

use vstd::prelude::*;
use crate::rational::{rat_le, rat_wf, RatV, Rational};
use crate::material::{mv_wf, Material, MaterialV};
use crate::multiple_surfaces::MultipleSurfaces;
use crate::point::{pv_wf, Point, PointV};
use crate::ray::{Ray, RayV};
use crate::sphere::{sphere_intersect_v, sphere_wf, Sphere};
use crate::transformed_surface::{transformed_intersect_v, TransformedSurface};
use crate::vector::{vv_wf, Vector, VecV};

verus! {

/// The mathematical content of one intersection: the ray parameter at
/// the hit, the hit location, the un-normalized outward normal, and
/// the material that was hit.
pub ghost struct SurfacePointV {
    pub t: RatV,
    pub point: PointV,
    pub normal: VecV,
    pub material: MaterialV,
}

pub open spec fn spv_wf(sp: SurfacePointV) -> bool {
    rat_wf(sp.t) && pv_wf(sp.point) && vv_wf(sp.normal) && mv_wf(sp.material)
}

/// One intersection's hit data.
#[derive(Clone, Copy, PartialEq, Eq, Debug)]
pub struct SurfacePoint {
    pub t: Rational,
    pub point: Point,
    pub normal: Vector,
    pub material: Material,
}

impl View for SurfacePoint {
    type V = SurfacePointV;

    open spec fn view(&self) -> SurfacePointV {
        SurfacePointV {
            t: self.t@,
            point: self.point@,
            normal: self.normal@,
            material: self.material@,
        }
    }
}

impl SurfacePoint {
    pub open spec fn wf(self) -> bool {
        spv_wf(self@)
    }
}

/// The views of a sequence of surface points.
pub open spec fn sp_views(s: Seq<SurfacePoint>) -> Seq<SurfacePointV> {
    s.map_values(|sp: SurfacePoint| sp@)
}

/// Well-formedness of every surface point in a sequence.
pub open spec fn sp_seq_wf(s: Seq<SurfacePoint>) -> bool {
    forall|i: int| 0 <= i < s.len() ==> (#[trigger] s[i]).wf()
}

/// The view of an optional surface point.
pub open spec fn spov(r: Option<SurfacePoint>) -> Option<SurfacePointV> {
    match r {
        Some(sp) => Some(sp@),
        None => None,
    }
}

/// Well-formedness of an optional surface point.
pub open spec fn opt_sp_wf(r: Option<SurfacePoint>) -> bool {
    r matches Some(sp) ==> sp.wf()
}

/// A scene surface: a primitive sphere, a composite of surfaces, or a
/// surface wrapped in an affine placement.
pub enum Surface {
    Sphere(Sphere),
    Multiple(MultipleSurfaces),
    Transformed(Box<TransformedSurface>),
}

/// Well-formedness of a surface tree: every scalar in bounds.
pub open spec fn surf_wf(s: &Surface) -> bool
    decreases s,
{
    match s {
        Surface::Sphere(sp) => sphere_wf(sp@),
        Surface::Multiple(m) => surf_list_wf(&m.surfaces, 0),
        Surface::Transformed(t) => t.transform_matrix.wf() && t.inverse_transform.wf()
            && surf_wf(&t.surface),
    }
}

pub open spec fn surf_list_wf(v: &Vec<Surface>, i: int) -> bool
    decreases v, v@.len() - i,
{
    if 0 <= i < v@.len() {
        surf_wf(&v@[i]) && surf_list_wf(v, i + 1)
    } else {
        true
    }
}

/// The nearer of an accumulated hit and a new one; a tie keeps the
/// newer.
pub open spec fn nearer_hit(best: Option<SurfacePointV>, h: Option<SurfacePointV>) -> Option<
    SurfacePointV,
> {
    match h {
        None => best,
        Some(nh) => match best {
            None => Some(nh),
            Some(c) => if rat_le(nh.t, c.t) {
                Some(nh)
            } else {
                Some(c)
            },
        },
    }
}

/// The nearest hit among the children from index `i` on, folded onto
/// an accumulated best hit.
pub open spec fn multi_intersect_from(
    v: &Vec<Surface>,
    ray: RayV,
    i: int,
    best: Option<SurfacePointV>,
) -> Option<SurfacePointV>
    decreases v, v@.len() - i,
{
    if 0 <= i < v@.len() {
        multi_intersect_from(v, ray, i + 1, nearer_hit(best, spec_intersect(&v@[i], ray)))
    } else {
        best
    }
}

/// The nearest valid hit of a ray on a surface tree.
#[verifier::opaque]
pub open spec fn spec_intersect(s: &Surface, ray: RayV) -> Option<SurfacePointV>
    decreases s,
{
    match s {
        Surface::Sphere(sp) => sphere_intersect_v(sp.radius@, sp.material@, ray),
        Surface::Multiple(m) => multi_intersect_from(&m.surfaces, ray, 0, None),
        Surface::Transformed(t) => transformed_intersect_v(t, ray),
    }
}

impl Surface {
    pub open spec fn wf(&self) -> bool {
        surf_wf(self)
    }

    /// The nearest valid hit of the ray, or nothing.
    pub fn intersect(&self, ray: Ray) -> (r: Option<SurfacePoint>)
        requires
            self.wf(),
            ray.wf(),
        ensures
            spov(r) == spec_intersect(self, ray@),
            opt_sp_wf(r),
        decreases self,
    {
        proof {
            reveal(spec_intersect);
        }
        match self {
            Surface::Sphere(sp) => sp.intersect(ray),
            Surface::Multiple(m) => m.intersect(ray),
            Surface::Transformed(t) => t.intersect(ray),
        }
    }
}

} // verus!
