//! Lens shaders: camera models mapping a normalized image coordinate
//! in the unit square to a camera-space ray.
//!
//! All lens shaders are pure functions of the coordinate and their
//! configuration.  The swept variants take their per-pixel angles
//! through the crate's rational sine and cosine, so a shader yields
//! no ray when an angle leaves `[-pi, pi]` or a step is
//! unrepresentable.

use vstd::prelude::*;
use crate::rational::{o_mul, omul, rat_int, rat_sub, RatV, Rational};
use crate::basis::{b_xyz, b_yxz};
use crate::point::{p_add_v, p_zero, pv_wf, Point, PointV};
use crate::ray::{opt_ray_wf, r_from_points, rov, Ray, RayV};
use crate::rotation::{rot_apply_ray, rot_apply_vec, Rotation, RotationV};
use crate::translation::{t_apply_ray, Translation, TranslationV};
use crate::trig::{cos_v, sin_v};
use crate::vector::{v_add, v_cwise, v_div_s, v_scale, vv_wf, VecV, Vector};

verus! {

pub open spec fn v_forward() -> VecV {
    VecV { x: rat_int(0), y: rat_int(0), z: rat_int(1) }
}

pub open spec fn v_up() -> VecV {
    VecV { x: rat_int(0), y: rat_int(1), z: rat_int(0) }
}

pub open spec fn rat_half() -> RatV {
    RatV { n: 1, d: 2 }
}

/// Rays from the local origin through a rectangle of the given size
/// at the focal distance; the coordinate interpolates across it.
pub open spec fn plane_perspective_ray(top_left: PointV, size: VecV, x: RatV, y: RatV) -> Option<
    RayV,
> {
    match v_cwise(size, VecV { x, y, z: rat_int(1) }) {
        Some(off) => match p_add_v(top_left, off) {
            Some(pt) => r_from_points(p_zero(), pt),
            None => None,
        },
        None => None,
    }
}

/// Parallel forward rays whose origin interpolates across a
/// rectangle centered at zero.
pub open spec fn plane_orthographic_ray(top_left: PointV, size: VecV, x: RatV, y: RatV) -> Option<
    RayV,
> {
    match v_cwise(size, VecV { x, y, z: rat_int(1) }) {
        Some(off) => match p_add_v(top_left, off) {
            Some(origin) => Some(RayV { origin, direction: v_forward() }),
            None => None,
        },
        None => None,
    }
}

/// The top-left corner of a rectangle of the given size centered on
/// the axis at depth `z`.
pub open spec fn plane_corner(z: RatV, size: VecV) -> Option<PointV> {
    match v_div_s(size, rat_int(2)) {
        Some(h) => crate::point::p_sub_v(PointV { x: rat_int(0), y: rat_int(0), z }, h),
        None => None,
    }
}

/// Fisheye rays from zero: the forward direction of the given length
/// swept horizontally then vertically by the amplitudes.
pub open spec fn sphere_lens_ray(
    amplitude_x: RatV,
    amplitude_y: RatV,
    radius: RatV,
    x: RatV,
    y: RatV,
) -> Option<RayV> {
    match v_scale(v_forward(), radius) {
        Some(dir0) => match o_mul(Some(amplitude_x), rat_sub(x, rat_half())) {
            Some(ax) => match (sin_v(ax), cos_v(ax)) {
                (Some(sx), Some(cx)) => match rot_apply_vec(
                    RotationV { basis: b_xyz(), sine: sx, cosine: cx },
                    dir0,
                ) {
                    Some(dir1) => match o_mul(Some(amplitude_y), rat_sub(y, rat_half())) {
                        Some(ay) => match (sin_v(ay), cos_v(ay)) {
                            (Some(sy), Some(cy)) => match rot_apply_vec(
                                RotationV { basis: b_yxz(), sine: sy, cosine: cy },
                                dir1,
                            ) {
                                Some(dir2) => Some(RayV { origin: p_zero(), direction: dir2 }),
                                None => None,
                            },
                            _ => None,
                        },
                        None => None,
                    },
                    None => None,
                },
                _ => None,
            },
            None => None,
        },
        None => None,
    }
}

/// Cylindrical panorama rays from zero: the forward direction swept
/// horizontally, with a vertical offset added to the direction.
pub open spec fn panorama_perspective_ray(
    amplitude: RatV,
    height: RatV,
    radius: RatV,
    x: RatV,
    y: RatV,
) -> Option<RayV> {
    match v_scale(v_forward(), radius) {
        Some(dir0) => match o_mul(Some(amplitude), rat_sub(x, rat_half())) {
            Some(ax) => match (sin_v(ax), cos_v(ax)) {
                (Some(sx), Some(cx)) => match rot_apply_vec(
                    RotationV { basis: b_xyz(), sine: sx, cosine: cx },
                    dir0,
                ) {
                    Some(dir1) => match v_scale(v_up(), height) {
                        Some(vh) => match rat_sub(y, rat_half()) {
                            Some(hy) => match v_scale(vh, hy) {
                                Some(vert) => match v_add(dir1, vert) {
                                    Some(dir2) => Some(
                                        RayV { origin: p_zero(), direction: dir2 },
                                    ),
                                    None => None,
                                },
                                None => None,
                            },
                            None => None,
                        },
                        None => None,
                    },
                    None => None,
                },
                _ => None,
            },
            None => None,
        },
        None => None,
    }
}

/// Cylindrical panorama rays: the forward ray swept horizontally,
/// with the origin displaced vertically.
pub open spec fn panorama_orthographic_ray(
    amplitude: RatV,
    height: RatV,
    radius: RatV,
    x: RatV,
    y: RatV,
) -> Option<RayV> {
    match v_scale(v_forward(), radius) {
        Some(dir0) => match o_mul(Some(amplitude), rat_sub(x, rat_half())) {
            Some(ax) => match (sin_v(ax), cos_v(ax)) {
                (Some(sx), Some(cx)) => match rot_apply_ray(
                    RotationV { basis: b_xyz(), sine: sx, cosine: cx },
                    RayV { origin: p_zero(), direction: dir0 },
                ) {
                    Some(ray1) => match o_mul(Some(height), rat_sub(y, rat_half())) {
                        Some(hy) => t_apply_ray(
                            TranslationV {
                                displacement: VecV { x: rat_int(0), y: hy, z: rat_int(0) },
                            },
                            ray1,
                        ),
                        None => None,
                    },
                    None => None,
                },
                _ => None,
            },
            None => None,
        },
        None => None,
    }
}

/// Rays from the local origin through a rectangle at the focal
/// distance.
pub struct PlanePerspectiveLensShader {
    pub top_left_point: Point,
    pub size: Vector,
}

impl PlanePerspectiveLensShader {
    pub open spec fn wf(&self) -> bool {
        pv_wf(self.top_left_point@) && vv_wf(self.size@)
    }

    /// Places the rectangle at the focal distance, centered on the
    /// axis; absent when a step is unrepresentable.
    pub fn new(focal_length: Rational, size: Vector) -> (r: Option<PlanePerspectiveLensShader>)
        requires
            focal_length.wf(),
            size.wf(),
        ensures
            (match r {
                Some(s) => plane_corner(focal_length@, size@) == Some(s.top_left_point@)
                    && s.size@ == size@ && s.wf(),
                None => plane_corner(focal_length@, size@) is None,
            }),
    {
        let half = match Vector::div_scalar(size, Rational::from_int(2)) {
            Some(h) => h,
            None => {
                return None;
            },
        };
        let corner = Point::new(Rational::zero(), Rational::zero(), focal_length);
        match Point::sub_vector(corner, half) {
            Some(top_left_point) => Some(PlanePerspectiveLensShader { top_left_point, size }),
            None => None,
        }
    }

    pub fn ray_to_lens_point(&self, x: Rational, y: Rational) -> (r: Option<Ray>)
        requires
            self.wf(),
            x.wf(),
            y.wf(),
        ensures
            rov(r) == plane_perspective_ray(self.top_left_point@, self.size@, x@, y@),
            opt_ray_wf(r),
    {
        let interp = Vector::new(x, y, Rational::one());
        match Vector::component_wise_multiplication(self.size, interp) {
            Some(off) => match Point::add_vector(self.top_left_point, off) {
                Some(pt) => Ray::from_points(Point::zero(), pt),
                None => None,
            },
            None => None,
        }
    }
}

/// Parallel forward rays across a rectangle centered at zero.
pub struct PlaneOrthographicalLensShader {
    pub top_left_point: Point,
    pub size: Vector,
}

impl PlaneOrthographicalLensShader {
    pub open spec fn wf(&self) -> bool {
        pv_wf(self.top_left_point@) && vv_wf(self.size@)
    }

    /// Centers the rectangle at zero; absent when a step is
    /// unrepresentable.
    pub fn new(size: Vector) -> (r: Option<PlaneOrthographicalLensShader>)
        requires
            size.wf(),
        ensures
            (match r {
                Some(s) => plane_corner(rat_int(0), size@) == Some(s.top_left_point@)
                    && s.size@ == size@ && s.wf(),
                None => plane_corner(rat_int(0), size@) is None,
            }),
    {
        let half = match Vector::div_scalar(size, Rational::from_int(2)) {
            Some(h) => h,
            None => {
                return None;
            },
        };
        match Point::sub_vector(Point::zero(), half) {
            Some(top_left_point) => Some(PlaneOrthographicalLensShader { top_left_point, size }),
            None => None,
        }
    }

    pub fn ray_to_lens_point(&self, x: Rational, y: Rational) -> (r: Option<Ray>)
        requires
            self.wf(),
            x.wf(),
            y.wf(),
        ensures
            rov(r) == plane_orthographic_ray(self.top_left_point@, self.size@, x@, y@),
            opt_ray_wf(r),
    {
        let interp = Vector::new(x, y, Rational::one());
        match Vector::component_wise_multiplication(self.size, interp) {
            Some(off) => match Point::add_vector(self.top_left_point, off) {
                Some(origin) => Some(Ray::new(origin, Vector::forward())),
                None => None,
            },
            None => None,
        }
    }
}

/// Fisheye capture: directions sweep a horizontal and a vertical
/// amplitude, all rays originating at zero.
pub struct SphereLensShader {
    pub amplitude_x: Rational,
    pub amplitude_y: Rational,
    pub radius: Rational,
}

impl SphereLensShader {
    pub open spec fn wf(&self) -> bool {
        self.amplitude_x.wf() && self.amplitude_y.wf() && self.radius.wf()
    }

    pub fn new(amplitude_x: Rational, amplitude_y: Rational, radius: Rational) -> (r:
        SphereLensShader)
        requires
            amplitude_x.wf(),
            amplitude_y.wf(),
            radius.wf(),
        ensures
            r.amplitude_x == amplitude_x && r.amplitude_y == amplitude_y && r.radius == radius,
            r.wf(),
    {
        SphereLensShader { amplitude_x, amplitude_y, radius }
    }

    /// The full capture: a whole turn horizontally, a half turn
    /// vertically.
    pub fn full_sphere(radius: Rational) -> (r: SphereLensShader)
        requires
            radius.wf(),
        ensures
            r.amplitude_x@ == (RatV { n: 710, d: 113 }),
            r.amplitude_y@ == crate::trig::rat_pi(),
            r.radius == radius,
            r.wf(),
    {
        SphereLensShader {
            amplitude_x: crate::trig::tau(),
            amplitude_y: crate::trig::pi(),
            radius,
        }
    }

    pub fn ray_to_lens_point(&self, x: Rational, y: Rational) -> (r: Option<Ray>)
        requires
            self.wf(),
            x.wf(),
            y.wf(),
        ensures
            rov(r) == sphere_lens_ray(self.amplitude_x@, self.amplitude_y@, self.radius@, x@, y@),
            opt_ray_wf(r),
    {
        let dir0 = match Vector::scale(Vector::forward(), self.radius) {
            Some(d) => d,
            None => {
                return None;
            },
        };
        let half = Rational::of_pair(1, 2);
        let ax = match crate::rational::omul(Some(self.amplitude_x), Rational::sub(x, half)) {
            Some(a) => a,
            None => {
                return None;
            },
        };
        let (sx, cx) = match (crate::trig::sin_approx(ax), crate::trig::cos_approx(ax)) {
            (Some(sx), Some(cx)) => (sx, cx),
            _ => {
                return None;
            },
        };
        let dir1 = match Rotation::on_y(sx, cx).apply_vector(dir0) {
            Some(d) => d,
            None => {
                return None;
            },
        };
        let ay = match crate::rational::omul(Some(self.amplitude_y), Rational::sub(y, half)) {
            Some(a) => a,
            None => {
                return None;
            },
        };
        let (sy, cy) = match (crate::trig::sin_approx(ay), crate::trig::cos_approx(ay)) {
            (Some(sy), Some(cy)) => (sy, cy),
            _ => {
                return None;
            },
        };
        match Rotation::on_x(sy, cy).apply_vector(dir1) {
            Some(dir2) => Some(Ray::new(Point::zero(), dir2)),
            None => None,
        }
    }
}

/// Cylindrical panorama with a perspective vertical axis: the swept
/// direction gains a vertical component.
pub struct PanoramaPerspectiveLensShader {
    pub amplitude: Rational,
    pub height: Rational,
    pub radius: Rational,
}

impl PanoramaPerspectiveLensShader {
    pub open spec fn wf(&self) -> bool {
        self.amplitude.wf() && self.height.wf() && self.radius.wf()
    }

    pub fn new(amplitude: Rational, height: Rational, radius: Rational) -> (r:
        PanoramaPerspectiveLensShader)
        requires
            amplitude.wf(),
            height.wf(),
            radius.wf(),
        ensures
            r.amplitude == amplitude && r.height == height && r.radius == radius,
            r.wf(),
    {
        PanoramaPerspectiveLensShader { amplitude, height, radius }
    }

    /// The full turn horizontally.
    pub fn full_amplitude(height: Rational, radius: Rational) -> (r:
        PanoramaPerspectiveLensShader)
        requires
            height.wf(),
            radius.wf(),
        ensures
            r.amplitude@ == (RatV { n: 710, d: 113 }),
            r.height == height,
            r.radius == radius,
            r.wf(),
    {
        PanoramaPerspectiveLensShader { amplitude: crate::trig::tau(), height, radius }
    }

    pub fn ray_to_lens_point(&self, x: Rational, y: Rational) -> (r: Option<Ray>)
        requires
            self.wf(),
            x.wf(),
            y.wf(),
        ensures
            rov(r) == panorama_perspective_ray(self.amplitude@, self.height@, self.radius@, x@, y@),
            opt_ray_wf(r),
    {
        let dir0 = match Vector::scale(Vector::forward(), self.radius) {
            Some(d) => d,
            None => {
                return None;
            },
        };
        let half = Rational::of_pair(1, 2);
        let ax = match crate::rational::omul(Some(self.amplitude), Rational::sub(x, half)) {
            Some(a) => a,
            None => {
                return None;
            },
        };
        let (sx, cx) = match (crate::trig::sin_approx(ax), crate::trig::cos_approx(ax)) {
            (Some(sx), Some(cx)) => (sx, cx),
            _ => {
                return None;
            },
        };
        let dir1 = match Rotation::on_y(sx, cx).apply_vector(dir0) {
            Some(d) => d,
            None => {
                return None;
            },
        };
        let vh = match Vector::scale(Vector::up(), self.height) {
            Some(v) => v,
            None => {
                return None;
            },
        };
        let hy = match Rational::sub(y, half) {
            Some(h) => h,
            None => {
                return None;
            },
        };
        let vert = match Vector::scale(vh, hy) {
            Some(v) => v,
            None => {
                return None;
            },
        };
        match Vector::add(dir1, vert) {
            Some(dir2) => Some(Ray::new(Point::zero(), dir2)),
            None => None,
        }
    }
}

/// Cylindrical panorama with an orthographic vertical axis: the
/// origin is displaced vertically instead.
pub struct PanoramaOrthographicLensShader {
    pub amplitude: Rational,
    pub height: Rational,
    pub radius: Rational,
}

impl PanoramaOrthographicLensShader {
    pub open spec fn wf(&self) -> bool {
        self.amplitude.wf() && self.height.wf() && self.radius.wf()
    }

    pub fn new(amplitude: Rational, height: Rational, radius: Rational) -> (r:
        PanoramaOrthographicLensShader)
        requires
            amplitude.wf(),
            height.wf(),
            radius.wf(),
        ensures
            r.amplitude == amplitude && r.height == height && r.radius == radius,
            r.wf(),
    {
        PanoramaOrthographicLensShader { amplitude, height, radius }
    }

    /// The full turn horizontally.
    pub fn full_amplitude(height: Rational, radius: Rational) -> (r:
        PanoramaOrthographicLensShader)
        requires
            height.wf(),
            radius.wf(),
        ensures
            r.amplitude@ == (RatV { n: 710, d: 113 }),
            r.height == height,
            r.radius == radius,
            r.wf(),
    {
        PanoramaOrthographicLensShader { amplitude: crate::trig::tau(), height, radius }
    }

    pub fn ray_to_lens_point(&self, x: Rational, y: Rational) -> (r: Option<Ray>)
        requires
            self.wf(),
            x.wf(),
            y.wf(),
        ensures
            rov(r) == panorama_orthographic_ray(
                self.amplitude@,
                self.height@,
                self.radius@,
                x@,
                y@,
            ),
            opt_ray_wf(r),
    {
        let dir0 = match Vector::scale(Vector::forward(), self.radius) {
            Some(d) => d,
            None => {
                return None;
            },
        };
        let ray0 = Ray::new(Point::zero(), dir0);
        let half = Rational::of_pair(1, 2);
        let ax = match crate::rational::omul(Some(self.amplitude), Rational::sub(x, half)) {
            Some(a) => a,
            None => {
                return None;
            },
        };
        let (sx, cx) = match (crate::trig::sin_approx(ax), crate::trig::cos_approx(ax)) {
            (Some(sx), Some(cx)) => (sx, cx),
            _ => {
                return None;
            },
        };
        let ray1 = match Rotation::on_y(sx, cx).apply_ray(ray0) {
            Some(r1) => r1,
            None => {
                return None;
            },
        };
        let hy = match crate::rational::omul(Some(self.height), Rational::sub(y, half)) {
            Some(h) => h,
            None => {
                return None;
            },
        };
        let shift = Translation::new(Vector::new(Rational::zero(), hy, Rational::zero()));
        shift.apply_ray(ray1)
    }
}

/// A camera model: one of the five lens policies.
pub enum LensShader {
    PlanePerspective(PlanePerspectiveLensShader),
    PlaneOrthographic(PlaneOrthographicalLensShader),
    Sphere(SphereLensShader),
    PanoramaPerspective(PanoramaPerspectiveLensShader),
    PanoramaOrthographic(PanoramaOrthographicLensShader),
}

/// The ray a lens shader yields for a normalized image coordinate.
pub open spec fn lens_ray(l: &LensShader, x: RatV, y: RatV) -> Option<RayV> {
    match l {
        LensShader::PlanePerspective(s) => plane_perspective_ray(s.top_left_point@, s.size@, x, y),
        LensShader::PlaneOrthographic(s) => plane_orthographic_ray(
            s.top_left_point@,
            s.size@,
            x,
            y,
        ),
        LensShader::Sphere(s) => sphere_lens_ray(s.amplitude_x@, s.amplitude_y@, s.radius@, x, y),
        LensShader::PanoramaPerspective(s) => panorama_perspective_ray(
            s.amplitude@,
            s.height@,
            s.radius@,
            x,
            y,
        ),
        LensShader::PanoramaOrthographic(s) => panorama_orthographic_ray(
            s.amplitude@,
            s.height@,
            s.radius@,
            x,
            y,
        ),
    }
}

impl LensShader {
    pub open spec fn wf(&self) -> bool {
        match self {
            LensShader::PlanePerspective(s) => s.wf(),
            LensShader::PlaneOrthographic(s) => s.wf(),
            LensShader::Sphere(s) => s.wf(),
            LensShader::PanoramaPerspective(s) => s.wf(),
            LensShader::PanoramaOrthographic(s) => s.wf(),
        }
    }

    /// The camera ray for a normalized image coordinate.
    pub fn ray_to_lens_point(&self, x: Rational, y: Rational) -> (r: Option<Ray>)
        requires
            self.wf(),
            x.wf(),
            y.wf(),
        ensures
            rov(r) == lens_ray(self, x@, y@),
            opt_ray_wf(r),
    {
        match self {
            LensShader::PlanePerspective(s) => s.ray_to_lens_point(x, y),
            LensShader::PlaneOrthographic(s) => s.ray_to_lens_point(x, y),
            LensShader::Sphere(s) => s.ray_to_lens_point(x, y),
            LensShader::PanoramaPerspective(s) => s.ray_to_lens_point(x, y),
            LensShader::PanoramaOrthographic(s) => s.ray_to_lens_point(x, y),
        }
    }
}

} // verus!
