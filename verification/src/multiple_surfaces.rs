//! Composite surfaces: an ordered collection, intersected by linear
//! scan for the nearest hit.

use vstd::prelude::*;
use crate::rational::{rat_le, RatV, Rational};
use crate::ray::{Ray, RayV};
use crate::surface::{
    multi_intersect_from, nearer_hit, opt_sp_wf, spec_intersect, spov, surf_list_wf, Surface,
    SurfacePoint, SurfacePointV,
};

verus! {

/// An ordered collection of surfaces, owned by the composite.
pub struct MultipleSurfaces {
    pub surfaces: Vec<Surface>,
}

impl MultipleSurfaces {
    pub open spec fn wf(&self) -> bool {
        surf_list_wf(&self.surfaces, 0)
    }

    pub fn new(surfaces: Vec<Surface>) -> (r: MultipleSurfaces)
        ensures
            r.surfaces == surfaces,
    {
        MultipleSurfaces { surfaces }
    }

    /// The hit with the smallest parameter among all children, or
    /// nothing when every child misses.
    pub fn intersect(&self, ray: Ray) -> (r: Option<SurfacePoint>)
        requires
            self.wf(),
            ray.wf(),
        ensures
            spov(r) == multi_intersect_from(&self.surfaces, ray@, 0, None),
            opt_sp_wf(r),
        decreases self,
    {
        let mut best: Option<SurfacePoint> = None;
        let n = self.surfaces.len();
        let mut i: usize = 0;
        proof {
            lemma_list_wf_all(&self.surfaces, 0);
        }
        while i < n
            invariant
                0 <= i <= n,
                n == self.surfaces@.len(),
                self.wf(),
                ray.wf(),
                forall|k: int| 0 <= k < n ==> surf_list_wf(&self.surfaces, k),
                opt_sp_wf(best),
                multi_intersect_from(&self.surfaces, ray@, i as int, spov(best))
                    == multi_intersect_from(&self.surfaces, ray@, 0, None),
            decreases n - i,
        {
            proof {
                assert(surf_list_wf(&self.surfaces, i as int));
                assert(crate::surface::surf_wf(&self.surfaces@[i as int]));
            }
            let hit = self.surfaces[i].intersect(ray);
            best = match (best, hit) {
                (b, None) => b,
                (None, Some(nh)) => Some(nh),
                (Some(c), Some(nh)) => if Rational::le(nh.t, c.t) {
                    Some(nh)
                } else {
                    Some(c)
                },
            };
            i = i + 1;
        }
        best
    }
}

/// Well-formedness of the whole list gives well-formedness of every
/// suffix.
proof fn lemma_list_wf_all(v: &Vec<Surface>, i: int)
    requires
        surf_list_wf(v, i),
        0 <= i,
    ensures
        forall|k: int| i <= k < v@.len() ==> surf_list_wf(v, k),
    decreases v@.len() - i,
{
    if i < v@.len() {
        lemma_list_wf_all(v, i + 1);
    }
}

/// Every hit that the children of a composite yield, from index `i`
/// on, has a positive parameter denominator.
pub open spec fn hits_pos_den(v: &Vec<Surface>, ray: RayV, i: int) -> bool {
    forall|k: int|
        i <= k < v@.len() ==> (match #[trigger] spec_intersect(&v@[k], ray) {
            Some(sp) => sp.t.d >= 1,
            None => true,
        })
}

/// Ordering of rationals is transitive over positive denominators.
proof fn lemma_rat_le_trans(a: RatV, b: RatV, c: RatV)
    requires
        rat_le(a, b),
        rat_le(b, c),
        a.d >= 1,
        b.d >= 1,
        c.d >= 1,
    ensures
        rat_le(a, c),
{
    assert(a.n * c.d <= c.n * a.d) by (nonlinear_arith)
        requires
            a.n * b.d <= b.n * a.d,
            b.n * c.d <= c.n * b.d,
            a.d >= 1,
            b.d >= 1,
            c.d >= 1;
}

/// The order is total: of two hits one undercuts the other.
proof fn lemma_rat_le_total(a: RatV, b: RatV)
    ensures
        rat_le(a, b) || rat_le(b, a),
{
}

/// The accumulated fold keeps the nearest hit: the result undercuts
/// the accumulator and every child hit, and is one of them.
proof fn lemma_multi_from(v: &Vec<Surface>, ray: RayV, i: int, best: Option<SurfacePointV>)
    requires
        0 <= i,
        hits_pos_den(v, ray, i),
        best matches Some(bb) ==> bb.t.d >= 1,
    ensures
        ({
            let r = multi_intersect_from(v, ray, i, best);
            &&& (best is Some ==> r is Some)
            &&& (match (r, best) {
                (Some(rr), Some(bb)) => rat_le(rr.t, bb.t),
                _ => true,
            })
            &&& (r matches Some(rr) ==> rr.t.d >= 1)
            &&& forall|k: int|
                i <= k < v@.len() && (#[trigger] spec_intersect(&v@[k], ray)) is Some ==> r
                    is Some
            &&& forall|k: int|
                i <= k < v@.len() ==> (match (#[trigger] spec_intersect(&v@[k], ray), r) {
                    (Some(sp), Some(rr)) => rat_le(rr.t, sp.t),
                    _ => true,
                })
            &&& (r is Some ==> r == best || exists|k: int|
                i <= k < v@.len() && #[trigger] spec_intersect(&v@[k], ray) == r)
        }),
    decreases v@.len() - i,
{
    let r = multi_intersect_from(v, ray, i, best);
    if 0 <= i < v@.len() {
        let h = spec_intersect(&v@[i], ray);
        let best2 = nearer_hit(best, h);
        match h {
            Some(hh) => {
                assert(hh.t.d >= 1);
            },
            None => {},
        }
        lemma_multi_from(v, ray, i + 1, best2);
        assert(r == multi_intersect_from(v, ray, i + 1, best2));
        // the merged accumulator undercuts both of its sources
        match (best, h) {
            (Some(bb), Some(hh)) => {
                lemma_rat_le_total(hh.t, bb.t);
            },
            _ => {},
        }
        // the result undercuts the old accumulator and the child at i
        match r {
            Some(rr) => {
                match best2 {
                    Some(b2) => {
                        match best {
                            Some(bb) => {
                                lemma_rat_le_trans(rr.t, b2.t, bb.t);
                            },
                            None => {},
                        }
                        match h {
                            Some(hh) => {
                                lemma_rat_le_trans(rr.t, b2.t, hh.t);
                            },
                            None => {},
                        }
                    },
                    None => {},
                }
            },
            None => {},
        }
        // a hit anywhere means the fold yields a hit
        assert forall|k: int|
            i <= k < v@.len() && (#[trigger] spec_intersect(&v@[k], ray)) is Some implies r
            is Some by {
            if k == i {
                assert(best2 is Some);
            } else {
                assert(i + 1 <= k < v@.len());
            }
        };
        // the per-child bound, splitting the child at i from the rest
        assert forall|k: int| i <= k < v@.len() implies (match (
            #[trigger] spec_intersect(&v@[k], ray),
            r,
        ) {
            (Some(sp), Some(rr)) => rat_le(rr.t, sp.t),
            _ => true,
        }) by {
            if k > i {
                assert(i + 1 <= k < v@.len());
            }
        };
        // the result is the accumulator or some child's hit
        if r is Some {
            if r == best2 {
                if best2 != best {
                    assert(best2 == h);
                    assert(spec_intersect(&v@[i], ray) == r);
                }
            } else {
                let kw = choose|k: int|
                    i + 1 <= k < v@.len() && #[trigger] spec_intersect(&v@[k], ray) == r;
                assert(spec_intersect(&v@[kw], ray) == r);
            }
        }
    }
}

/// The composite nearest-hit law: a composite's hit undercuts every
/// child's hit, and is itself one of the children's hits.
pub proof fn lemma_composite_nearest(v: &Vec<Surface>, ray: RayV)
    requires
        hits_pos_den(v, ray, 0),
    ensures
        forall|k: int|
            0 <= k < v@.len() && (#[trigger] spec_intersect(&v@[k], ray)) is Some
                ==> multi_intersect_from(v, ray, 0, None) is Some,
        forall|k: int|
            0 <= k < v@.len() ==> (match (
                #[trigger] spec_intersect(&v@[k], ray),
                multi_intersect_from(v, ray, 0, None),
            ) {
                (Some(sp), Some(rr)) => rat_le(rr.t, sp.t),
                _ => true,
            }),
        multi_intersect_from(v, ray, 0, None) is Some ==> exists|k: int|
            0 <= k < v@.len() && #[trigger] spec_intersect(&v@[k], ray)
                == multi_intersect_from(v, ray, 0, None),
{
    lemma_multi_from(v, ray, 0, None);
}

} // verus!
