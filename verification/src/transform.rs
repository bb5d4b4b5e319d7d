//! Composite transform: basis change in, translate, rotate, scale,
//! basis change out.
//!
//! The composite applies its parts in the fixed order basis, scale,
//! rotation, translation, inverse basis.  Its inverse is the same
//! data applied in the reverse order with each part inverted, so a
//! transform and its inverse genuinely cancel; `inverse` just flips a
//! direction flag and is therefore total.

use vstd::prelude::*;
use crate::rational::{
    lemma_add_sub_cancel, lemma_eqv_trans, lemma_mul_div_cancel, rat_eqv, rat_int,
};
use crate::basis::{
    axis_frame, b_apply_vec, b_inverse, b_matrix, b_xyz, bv_wf, lemma_axis_apply, Basis, BasisV,
};
use crate::matrix::{m_mul_mat, mov, opt_mat_wf, MatV, Matrix};
use crate::point::{opt_point_wf, p_as_vec, p_eqv, p_of_vec, pov, pv_wf, Point, PointV};
use crate::ray::{opt_ray_wf, ray_eqv, rov, Ray, RayV};
use crate::rotation::{
    lemma_axis_rotation_inverts_vector, lemma_rot_apply_wf, rot_apply_vec, rot_inverse,
    rot_look_towards, rot_matrix, rot_wf, rot_zero, unit_pair, Rotation, RotationV,
};
use crate::scale::{s_apply_vec, s_inverse, s_matrix, Scale, ScaleV};
use crate::translation::{t_apply_point, t_inverse, t_matrix, Translation, TranslationV};
use crate::vector::{opt_vec_wf, v_add, v_eqv, v_sub, v_zero, vov, vv_wf, VecV, Vector};

verus! {

/// The mathematical content of a composite transform.
pub ghost struct TransformV {
    pub basis: BasisV,
    pub translation: TranslationV,
    pub rotation: RotationV,
    pub scale: ScaleV,
    pub inverted: bool,
}

pub open spec fn tf_wf(t: TransformV) -> bool {
    bv_wf(t.basis) && vv_wf(t.translation.displacement) && rot_wf(t.rotation) && vv_wf(
        t.scale.ratio,
    )
}

/// The inverse is the same data applied in the opposite direction.
pub open spec fn tf_inverse(t: TransformV) -> TransformV {
    TransformV {
        basis: t.basis,
        translation: t.translation,
        rotation: t.rotation,
        scale: t.scale,
        inverted: !t.inverted,
    }
}

/// Forward action on a vector: into the basis, scale, rotate,
/// translate (identity on vectors), out of the basis.
pub open spec fn tf_apply_vec(t: TransformV, v: VecV) -> Option<VecV> {
    if !t.inverted {
        match b_apply_vec(t.basis, v) {
            Some(v1) => match s_apply_vec(t.scale, v1) {
                Some(v2) => match rot_apply_vec(t.rotation, v2) {
                    Some(v3) => b_apply_vec(b_inverse(t.basis), v3),
                    None => None,
                },
                None => None,
            },
            None => None,
        }
    } else {
        match b_apply_vec(t.basis, v) {
            Some(v1) => match rot_apply_vec(rot_inverse(t.rotation), v1) {
                Some(v2) => match s_inverse(t.scale) {
                    Some(si) => match s_apply_vec(si, v2) {
                        Some(v3) => b_apply_vec(b_inverse(t.basis), v3),
                        None => None,
                    },
                    None => None,
                },
                None => None,
            },
            None => None,
        }
    }
}

/// Forward action on the coordinates of a point; the translation now
/// displaces.
pub open spec fn tf_apply_coords(t: TransformV, v: VecV) -> Option<VecV> {
    if !t.inverted {
        match b_apply_vec(t.basis, v) {
            Some(v1) => match s_apply_vec(t.scale, v1) {
                Some(v2) => match rot_apply_vec(t.rotation, v2) {
                    Some(v3) => match v_add(v3, t.translation.displacement) {
                        Some(v4) => b_apply_vec(b_inverse(t.basis), v4),
                        None => None,
                    },
                    None => None,
                },
                None => None,
            },
            None => None,
        }
    } else {
        match b_apply_vec(t.basis, v) {
            Some(v1) => match v_sub(v1, t.translation.displacement) {
                Some(v2) => match rot_apply_vec(rot_inverse(t.rotation), v2) {
                    Some(v3) => match s_inverse(t.scale) {
                        Some(si) => match s_apply_vec(si, v3) {
                            Some(v4) => b_apply_vec(b_inverse(t.basis), v4),
                            None => None,
                        },
                        None => None,
                    },
                    None => None,
                },
                None => None,
            },
            None => None,
        }
    }
}

pub open spec fn tf_apply_point(t: TransformV, p: PointV) -> Option<PointV> {
    match tf_apply_coords(t, p_as_vec(p)) {
        Some(v) => Some(p_of_vec(v)),
        None => None,
    }
}

pub open spec fn tf_apply_ray(t: TransformV, r: RayV) -> Option<RayV> {
    match (tf_apply_point(t, r.origin), tf_apply_vec(t, r.direction)) {
        (Some(origin), Some(direction)) => Some(RayV { origin, direction }),
        _ => None,
    }
}

/// The matrix of the composite: the ordered product of the part
/// matrices, reversed and inverted partwise for the inverse
/// direction.
pub open spec fn tf_matrix(t: TransformV) -> Option<MatV> {
    if !t.inverted {
        match rot_matrix(t.rotation) {
            Some(rm) => match m_mul_mat(b_matrix(b_inverse(t.basis)), t_matrix(t.translation)) {
                Some(m1) => match m_mul_mat(m1, rm) {
                    Some(m2) => match m_mul_mat(m2, s_matrix(t.scale)) {
                        Some(m3) => m_mul_mat(m3, b_matrix(t.basis)),
                        None => None,
                    },
                    None => None,
                },
                None => None,
            },
            None => None,
        }
    } else {
        match (rot_matrix(rot_inverse(t.rotation)), s_inverse(t.scale)) {
            (Some(rm), Some(si)) => match m_mul_mat(b_matrix(b_inverse(t.basis)), s_matrix(si)) {
                Some(m1) => match m_mul_mat(m1, rm) {
                    Some(m2) => match m_mul_mat(m2, t_matrix(t_inverse(t.translation))) {
                        Some(m3) => m_mul_mat(m3, b_matrix(t.basis)),
                        None => None,
                    },
                    None => None,
                },
                None => None,
            },
            _ => None,
        }
    }
}

/// The view of an optional transform.
pub open spec fn tfov(r: Option<Transform>) -> Option<TransformV> {
    match r {
        Some(x) => Some(x@),
        None => None,
    }
}

/// A composite affine placement: basis, translation, rotation, scale,
/// and the direction in which they are applied.
#[derive(Clone, Copy, PartialEq, Eq, Debug)]
pub struct Transform {
    basis: Basis,
    translation: Translation,
    rotation: Rotation,
    scale: Scale,
    inverted: bool,
}

impl View for Transform {
    type V = TransformV;

    closed spec fn view(&self) -> TransformV {
        TransformV {
            basis: self.basis@,
            translation: self.translation@,
            rotation: self.rotation@,
            scale: self.scale@,
            inverted: self.inverted,
        }
    }
}

impl Transform {
    pub open spec fn wf(self) -> bool {
        tf_wf(self@)
    }

    pub fn new(basis: Basis, translation: Translation, rotation: Rotation, scale: Scale) -> (r:
        Transform)
        ensures
            r@ == (TransformV {
                basis: basis@,
                translation: translation@,
                rotation: rotation@,
                scale: scale@,
                inverted: false,
            }),
            basis.wf() && translation.wf() && rotation.wf() && scale.wf() ==> r.wf(),
    {
        Transform { basis, translation, rotation, scale, inverted: false }
    }

    /// A pure displacement.
    pub fn translation(translation: Vector) -> (r: Transform)
        requires
            translation.wf(),
        ensures
            r@ == (TransformV {
                basis: b_xyz(),
                translation: TranslationV { displacement: translation@ },
                rotation: rot_zero(),
                scale: ScaleV { ratio: VecV { x: rat_int(1), y: rat_int(1), z: rat_int(1) } },
                inverted: false,
            }),
            r.wf(),
    {
        Transform {
            basis: Basis::xyz(),
            translation: Translation::new(translation),
            rotation: Rotation::zero(),
            scale: Scale::one(),
            inverted: false,
        }
    }

    /// A pure rotation toward a look direction; the identity rotation
    /// when the direction is degenerate.
    pub fn rotation(look: Vector) -> (r: Transform)
        requires
            look.wf(),
        ensures
            r@ == (TransformV {
                basis: b_xyz(),
                translation: TranslationV { displacement: v_zero() },
                rotation: match rot_look_towards(look@) {
                    Some(rv) => rv,
                    None => rot_zero(),
                },
                scale: ScaleV { ratio: VecV { x: rat_int(1), y: rat_int(1), z: rat_int(1) } },
                inverted: false,
            }),
            r.wf(),
    {
        let rotation = match Rotation::look_towards(look) {
            Some(rot) => rot,
            None => Rotation::zero(),
        };
        Transform {
            basis: Basis::xyz(),
            translation: Translation::zero(),
            rotation,
            scale: Scale::one(),
            inverted: false,
        }
    }

    /// A pure per-axis scale.
    pub fn scale(scale: Vector) -> (r: Transform)
        requires
            scale.wf(),
        ensures
            r@ == (TransformV {
                basis: b_xyz(),
                translation: TranslationV { displacement: v_zero() },
                rotation: rot_zero(),
                scale: ScaleV { ratio: scale@ },
                inverted: false,
            }),
            r.wf(),
    {
        Transform {
            basis: Basis::xyz(),
            translation: Translation::zero(),
            rotation: Rotation::zero(),
            scale: Scale::new(scale),
            inverted: false,
        }
    }

    /// The analytic inverse: the same parts applied in the reverse
    /// order, each inverted.
    pub fn inverse(&self) -> (r: Transform)
        requires
            self.wf(),
        ensures
            r@ == tf_inverse(self@),
            r.wf(),
    {
        Transform {
            basis: self.basis,
            translation: self.translation,
            rotation: self.rotation,
            scale: self.scale,
            inverted: !self.inverted,
        }
    }

    pub fn matrix(&self) -> (r: Option<Matrix>)
        requires
            self.wf(),
        ensures
            mov(r) == tf_matrix(self@),
            opt_mat_wf(r),
    {
        if !self.inverted {
            let rm = match self.rotation.matrix() {
                Some(rm) => rm,
                None => {
                    return None;
                },
            };
            match self.basis.inverse().matrix().mul_matrix(self.translation.matrix()) {
                Some(m1) => match m1.mul_matrix(rm) {
                    Some(m2) => match m2.mul_matrix(self.scale.matrix()) {
                        Some(m3) => m3.mul_matrix(self.basis.matrix()),
                        None => None,
                    },
                    None => None,
                },
                None => None,
            }
        } else {
            let rm = match self.rotation.inverse().matrix() {
                Some(rm) => rm,
                None => {
                    return None;
                },
            };
            let si = match self.scale.inverse() {
                Some(si) => si,
                None => {
                    return None;
                },
            };
            match self.basis.inverse().matrix().mul_matrix(si.matrix()) {
                Some(m1) => match m1.mul_matrix(rm) {
                    Some(m2) => match m2.mul_matrix(self.translation.inverse().matrix()) {
                        Some(m3) => m3.mul_matrix(self.basis.matrix()),
                        None => None,
                    },
                    None => None,
                },
                None => None,
            }
        }
    }

    pub fn apply_vector(&self, rhs: Vector) -> (r: Option<Vector>)
        requires
            self.wf(),
            rhs.wf(),
        ensures
            vov(r) == tf_apply_vec(self@, rhs@),
            opt_vec_wf(r),
    {
        if !self.inverted {
            match self.basis.apply_vector(rhs) {
                Some(v1) => match self.scale.apply_vector(v1) {
                    Some(v2) => match self.rotation.apply_vector(v2) {
                        Some(v3) => self.basis.inverse().apply_vector(v3),
                        None => None,
                    },
                    None => None,
                },
                None => None,
            }
        } else {
            match self.basis.apply_vector(rhs) {
                Some(v1) => match self.rotation.inverse().apply_vector(v1) {
                    Some(v2) => match self.scale.inverse() {
                        Some(si) => match si.apply_vector(v2) {
                            Some(v3) => self.basis.inverse().apply_vector(v3),
                            None => None,
                        },
                        None => None,
                    },
                    None => None,
                },
                None => None,
            }
        }
    }

    pub fn apply_point(&self, rhs: Point) -> (r: Option<Point>)
        requires
            self.wf(),
            rhs.wf(),
        ensures
            pov(r) == tf_apply_point(self@, rhs@),
            opt_point_wf(r),
    {
        let v = rhs.as_vector();
        let out = if !self.inverted {
            match self.basis.apply_vector(v) {
                Some(v1) => match self.scale.apply_vector(v1) {
                    Some(v2) => match self.rotation.apply_vector(v2) {
                        Some(v3) => match Vector::add(v3, self.translation_vector()) {
                            Some(v4) => self.basis.inverse().apply_vector(v4),
                            None => None,
                        },
                        None => None,
                    },
                    None => None,
                },
                None => None,
            }
        } else {
            match self.basis.apply_vector(v) {
                Some(v1) => match Vector::sub(v1, self.translation_vector()) {
                    Some(v2) => match self.rotation.inverse().apply_vector(v2) {
                        Some(v3) => match self.scale.inverse() {
                            Some(si) => match si.apply_vector(v3) {
                                Some(v4) => self.basis.inverse().apply_vector(v4),
                                None => None,
                            },
                            None => None,
                        },
                        None => None,
                    },
                    None => None,
                },
                None => None,
            }
        };
        match out {
            Some(w) => Some(Point::of_vector(w)),
            None => None,
        }
    }

    pub fn apply_ray(&self, rhs: Ray) -> (r: Option<Ray>)
        requires
            self.wf(),
            rhs.wf(),
        ensures
            rov(r) == tf_apply_ray(self@, rhs@),
            opt_ray_wf(r),
    {
        match (self.apply_point(rhs.origin), self.apply_vector(rhs.direction)) {
            (Some(origin), Some(direction)) => Some(Ray { origin, direction }),
            _ => None,
        }
    }

    /// The stored displacement, as a vector.
    fn translation_vector(&self) -> (r: Vector)
        requires
            self.wf(),
        ensures
            r@ == self@.translation.displacement,
            r.wf(),
    {
        self.translation.displacement_vector()
    }
}

/// A composite whose round trip is exact: the frame is one of the
/// coordinate-axis frames and the rotation has an axis frame and a
/// sine/cosine pair exactly on the unit circle.  (Frames and pairs
/// built through the floor square root are only approximately
/// restored and are left out.)
pub open spec fn tf_exact(t: TransformV) -> bool {
    &&& !t.inverted
    &&& axis_frame(t.basis)
    &&& axis_frame(t.rotation.basis)
    &&& unit_pair(t.rotation.sine, t.rotation.cosine)
}

/// The components of two vectors related by one of the axis frames
/// chain back through a second application: applying the same frame
/// twice is the identity, up to value equality.
proof fn lemma_axis_frame_round(b: BasisV, src: VecV, mid: VecV, out: VecV)
    requires
        axis_frame(b),
        vv_wf(src),
        vv_wf(mid),
        b_apply_vec(b, src) == Some(mid),
        b_apply_vec(b, mid) == Some(out),
    ensures
        v_eqv(out, src),
        vv_wf(out),
{
    lemma_axis_apply(b, src, mid);
    lemma_axis_apply(b, mid, out);
    if b == crate::basis::b_yxz() {
        lemma_eqv_trans(out.x, mid.y, src.x);
        lemma_eqv_trans(out.y, mid.x, src.y);
        lemma_eqv_trans(out.z, mid.z, src.z);
    } else if b == crate::basis::b_xzy() {
        lemma_eqv_trans(out.x, mid.x, src.x);
        lemma_eqv_trans(out.y, mid.z, src.y);
        lemma_eqv_trans(out.z, mid.y, src.z);
    } else {
        lemma_eqv_trans(out.x, mid.x, src.x);
        lemma_eqv_trans(out.y, mid.y, src.y);
        lemma_eqv_trans(out.z, mid.z, src.z);
    }
}

/// Transform invertibility for exact composites, on vectors: the
/// composite applied forward and then in the inverse direction
/// restores the original vector.
pub proof fn lemma_transform_inverts_vector(t: TransformV, a: VecV, w1: VecV, w2: VecV)
    requires
        tf_wf(t),
        tf_exact(t),
        vv_wf(a),
        tf_apply_vec(t, a) == Some(w1),
        tf_apply_vec(tf_inverse(t), w1) == Some(w2),
    ensures
        v_eqv(w2, a),
{
    let b = t.basis;
    let rot = t.rotation;
    let sc = t.scale;
    match b_apply_vec(b, a) {
        Some(v1) => {
            lemma_axis_apply(b, a, v1);
            match s_apply_vec(sc, v1) {
                Some(v2) => {
                    assert(vv_wf(v2));
                    match rot_apply_vec(rot, v2) {
                        Some(v3) => {
                            lemma_rot_apply_wf(rot, v2, v3);
                            assert(b_inverse(b) == b);
                            assert(b_apply_vec(b, v3) == Some(w1));
                            lemma_axis_apply(b, v3, w1);
                            match b_apply_vec(b, w1) {
                                Some(u1) => {
                                    lemma_axis_frame_round(b, v3, w1, u1);
                                    match rot_apply_vec(rot_inverse(rot), u1) {
                                        Some(u2) => {
                                            lemma_axis_rotation_inverts_vector(
                                                rot,
                                                v2,
                                                v3,
                                                u1,
                                                u2,
                                            );
                                            lemma_rot_apply_wf(rot_inverse(rot), u1, u2);
                                            match s_inverse(sc) {
                                                Some(si) => {
                                                    match s_apply_vec(si, u2) {
                                                        Some(u3) => {
                                                            lemma_mul_div_cancel(
                                                                v1.x,
                                                                sc.ratio.x,
                                                                si.ratio.x,
                                                                v2.x,
                                                                u2.x,
                                                                u3.x,
                                                            );
                                                            lemma_mul_div_cancel(
                                                                v1.y,
                                                                sc.ratio.y,
                                                                si.ratio.y,
                                                                v2.y,
                                                                u2.y,
                                                                u3.y,
                                                            );
                                                            lemma_mul_div_cancel(
                                                                v1.z,
                                                                sc.ratio.z,
                                                                si.ratio.z,
                                                                v2.z,
                                                                u2.z,
                                                                u3.z,
                                                            );
                                                            assert(vv_wf(u3));
                                                            assert(b_apply_vec(b, u3) == Some(
                                                                w2,
                                                            ));
                                                            lemma_axis_apply(b, u3, w2);
                                                            lemma_final_chain(
                                                                b,
                                                                a,
                                                                v1,
                                                                u3,
                                                                w2,
                                                            );
                                                        },
                                                        None => {
                                                            assert(false);
                                                        },
                                                    }
                                                },
                                                None => {
                                                    assert(false);
                                                },
                                            }
                                        },
                                        None => {
                                            assert(false);
                                        },
                                    }
                                },
                                None => {
                                    assert(false);
                                },
                            }
                        },
                        None => {
                            assert(false);
                        },
                    }
                },
                None => {
                    assert(false);
                },
            }
        },
        None => {
            assert(false);
        },
    }
}

/// Transform invertibility for exact composites, on point
/// coordinates: the displacement is added after the rotation and
/// subtracted before the counter-rotation, and the whole chain
/// cancels.
proof fn lemma_transform_inverts_coords(t: TransformV, a: VecV, w1: VecV, w2: VecV)
    requires
        tf_wf(t),
        tf_exact(t),
        vv_wf(a),
        tf_apply_coords(t, a) == Some(w1),
        tf_apply_coords(tf_inverse(t), w1) == Some(w2),
    ensures
        v_eqv(w2, a),
{
    let b = t.basis;
    let rot = t.rotation;
    let sc = t.scale;
    let d = t.translation.displacement;
    match b_apply_vec(b, a) {
        Some(v1) => {
            lemma_axis_apply(b, a, v1);
            match s_apply_vec(sc, v1) {
                Some(v2) => {
                    assert(vv_wf(v2));
                    match rot_apply_vec(rot, v2) {
                        Some(v3) => {
                            lemma_rot_apply_wf(rot, v2, v3);
                            match v_add(v3, d) {
                                Some(v4) => {
                                    assert(vv_wf(v4));
                                    assert(b_inverse(b) == b);
                                    assert(b_apply_vec(b, v4) == Some(w1));
                                    lemma_axis_apply(b, v4, w1);
                                    match b_apply_vec(b, w1) {
                                        Some(u1) => {
                                            lemma_axis_frame_round(b, v4, w1, u1);
                                            match v_sub(u1, d) {
                                                Some(u1s) => {
                                                    lemma_add_sub_cancel(
                                                        v3.x,
                                                        d.x,
                                                        v4.x,
                                                        u1.x,
                                                        u1s.x,
                                                    );
                                                    lemma_add_sub_cancel(
                                                        v3.y,
                                                        d.y,
                                                        v4.y,
                                                        u1.y,
                                                        u1s.y,
                                                    );
                                                    lemma_add_sub_cancel(
                                                        v3.z,
                                                        d.z,
                                                        v4.z,
                                                        u1.z,
                                                        u1s.z,
                                                    );
                                                    assert(vv_wf(u1s));
                                                    match rot_apply_vec(rot_inverse(rot), u1s) {
                                                        Some(u2) => {
                                                            lemma_axis_rotation_inverts_vector(
                                                                rot,
                                                                v2,
                                                                v3,
                                                                u1s,
                                                                u2,
                                                            );
                                                            lemma_rot_apply_wf(
                                                                rot_inverse(rot),
                                                                u1s,
                                                                u2,
                                                            );
                                                            match s_inverse(sc) {
                                                                Some(si) => {
                                                                    match s_apply_vec(si, u2) {
                                                                        Some(u3) => {
                                                                            lemma_mul_div_cancel(
                                                                                v1.x,
                                                                                sc.ratio.x,
                                                                                si.ratio.x,
                                                                                v2.x,
                                                                                u2.x,
                                                                                u3.x,
                                                                            );
                                                                            lemma_mul_div_cancel(
                                                                                v1.y,
                                                                                sc.ratio.y,
                                                                                si.ratio.y,
                                                                                v2.y,
                                                                                u2.y,
                                                                                u3.y,
                                                                            );
                                                                            lemma_mul_div_cancel(
                                                                                v1.z,
                                                                                sc.ratio.z,
                                                                                si.ratio.z,
                                                                                v2.z,
                                                                                u2.z,
                                                                                u3.z,
                                                                            );
                                                                            assert(vv_wf(u3));
                                                                            assert(b_apply_vec(
                                                                                b,
                                                                                u3,
                                                                            ) == Some(w2));
                                                                            lemma_final_chain(
                                                                                b,
                                                                                a,
                                                                                v1,
                                                                                u3,
                                                                                w2,
                                                                            );
                                                                        },
                                                                        None => {
                                                                            assert(false);
                                                                        },
                                                                    }
                                                                },
                                                                None => {
                                                                    assert(false);
                                                                },
                                                            }
                                                        },
                                                        None => {
                                                            assert(false);
                                                        },
                                                    }
                                                },
                                                None => {
                                                    assert(false);
                                                },
                                            }
                                        },
                                        None => {
                                            assert(false);
                                        },
                                    }
                                },
                                None => {
                                    assert(false);
                                },
                            }
                        },
                        None => {
                            assert(false);
                        },
                    }
                },
                None => {
                    assert(false);
                },
            }
        },
        None => {
            assert(false);
        },
    }
}

/// Transform invertibility for exact composites, on points.
pub proof fn lemma_transform_inverts_point(t: TransformV, a: PointV, w1: PointV, w2: PointV)
    requires
        tf_wf(t),
        tf_exact(t),
        pv_wf(a),
        tf_apply_point(t, a) == Some(w1),
        tf_apply_point(tf_inverse(t), w1) == Some(w2),
    ensures
        p_eqv(w2, a),
{
    match (tf_apply_coords(t, p_as_vec(a)), tf_apply_coords(tf_inverse(t), p_as_vec(w1))) {
        (Some(c1), Some(c2)) => {
            lemma_transform_inverts_coords(t, p_as_vec(a), c1, c2);
        },
        _ => {
            assert(false);
        },
    }
}

/// Transform invertibility for exact composites, on rays.
pub proof fn lemma_transform_inverts_ray(t: TransformV, a: RayV, w1: RayV, w2: RayV)
    requires
        tf_wf(t),
        tf_exact(t),
        pv_wf(a.origin),
        vv_wf(a.direction),
        tf_apply_ray(t, a) == Some(w1),
        tf_apply_ray(tf_inverse(t), w1) == Some(w2),
    ensures
        ray_eqv(w2, a),
{
    lemma_transform_inverts_point(t, a.origin, w1.origin, w2.origin);
    lemma_transform_inverts_vector(t, a.direction, w1.direction, w2.direction);
}

/// The last frame change undoes the first: the re-framed value
/// equals the framed original, so the output equals the input.
proof fn lemma_final_chain(b: BasisV, a: VecV, v1: VecV, u3: VecV, w2: VecV)
    requires
        axis_frame(b),
        vv_wf(a),
        vv_wf(v1),
        vv_wf(u3),
        b_apply_vec(b, a) == Some(v1),
        v_eqv(u3, v1),
        b_apply_vec(b, u3) == Some(w2),
    ensures
        v_eqv(w2, a),
{
    lemma_axis_apply(b, a, v1);
    lemma_axis_apply(b, u3, w2);
    if b == crate::basis::b_yxz() {
        lemma_eqv_trans(w2.x, u3.y, v1.y);
        lemma_eqv_trans(w2.x, v1.y, a.x);
        lemma_eqv_trans(w2.y, u3.x, v1.x);
        lemma_eqv_trans(w2.y, v1.x, a.y);
        lemma_eqv_trans(w2.z, u3.z, v1.z);
        lemma_eqv_trans(w2.z, v1.z, a.z);
    } else if b == crate::basis::b_xzy() {
        lemma_eqv_trans(w2.x, u3.x, v1.x);
        lemma_eqv_trans(w2.x, v1.x, a.x);
        lemma_eqv_trans(w2.y, u3.z, v1.z);
        lemma_eqv_trans(w2.y, v1.z, a.y);
        lemma_eqv_trans(w2.z, u3.y, v1.y);
        lemma_eqv_trans(w2.z, v1.y, a.z);
    } else {
        lemma_eqv_trans(w2.x, u3.x, v1.x);
        lemma_eqv_trans(w2.x, v1.x, a.x);
        lemma_eqv_trans(w2.y, u3.y, v1.y);
        lemma_eqv_trans(w2.y, v1.y, a.y);
        lemma_eqv_trans(w2.z, u3.z, v1.z);
        lemma_eqv_trans(w2.z, v1.z, a.z);
    }
}

} // verus!
