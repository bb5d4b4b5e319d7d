use moonshade_raytracer::basis::Basis;
use moonshade_raytracer::point::Point;
use moonshade_raytracer::rational::Rational;
use moonshade_raytracer::ray::Ray;
use moonshade_raytracer::rotation::Rotation;
use moonshade_raytracer::scale::Scale;
use moonshade_raytracer::transform::Transform;
use moonshade_raytracer::translation::Translation;
use moonshade_raytracer::vector::Vector;

fn q(n: i64, d: i64) -> Rational {
    Rational::new(n, d).unwrap()
}

fn i(n: i64) -> Rational {
    Rational::from_int(n)
}

fn v(x: i64, y: i64, z: i64) -> Vector {
    Vector::new(i(x), i(y), i(z))
}

fn p(x: i64, y: i64, z: i64) -> Point {
    Point::new(i(x), i(y), i(z))
}

#[test]
fn translation_inverts_on_points_and_rays() {
    let t = Translation::new(v(1, -2, 3));
    let moved = t.apply_point(p(5, 5, 5)).unwrap();
    assert_eq!(moved, p(6, 3, 8));
    let back = t.inverse().apply_point(moved).unwrap();
    assert_eq!(back, p(5, 5, 5));
    let ray = Ray::new(p(1, 1, 1), v(0, 0, 2));
    let back_ray = t.inverse().apply_ray(t.apply_ray(ray).unwrap()).unwrap();
    assert_eq!(back_ray.origin, ray.origin);
    assert_eq!(back_ray.direction, ray.direction);
}

#[test]
fn scale_inverts_on_vectors_points_and_rays() {
    let s = Scale::new(Vector::new(i(2), i(3), q(1, 2)));
    let si = s.inverse().unwrap();
    let w = s.apply_vector(v(4, 4, 4)).unwrap();
    assert_eq!(w, Vector::new(i(8), i(12), i(2)));
    assert_eq!(si.apply_vector(w).unwrap(), v(4, 4, 4));
    let moved = s.apply_point(p(1, 2, 4)).unwrap();
    assert_eq!(si.apply_point(moved).unwrap(), p(1, 2, 4));
}

#[test]
fn scale_with_zero_ratio_has_no_inverse() {
    let s = Scale::new(v(1, 0, 1));
    assert!(s.inverse().is_none());
}

#[test]
fn rotation_from_unit_pair_inverts() {
    // a rotation about Y with the exact unit pair (3/5, 4/5)
    let r = Rotation::on_y(q(3, 5), q(4, 5));
    let w = r.apply_vector(v(1, 0, 2)).unwrap();
    assert_eq!(w, Vector::new(q(2, 1), i(0), q(1, 1)));
    let back = r.inverse().apply_vector(w).unwrap();
    assert_eq!(back, v(1, 0, 2));
    let back_pt = r.inverse().apply_point(r.apply_point(p(1, 0, 2)).unwrap()).unwrap();
    assert_eq!(back_pt, p(1, 0, 2));
}

#[test]
fn basis_change_inverts_for_orthonormal_frames() {
    let b = Basis::yxz();
    let w = b.apply_vector(v(1, 2, 3)).unwrap();
    assert_eq!(w, v(2, 1, 3));
    assert_eq!(b.inverse().apply_vector(w).unwrap(), v(1, 2, 3));
}

#[test]
fn degenerate_basis_is_rejected() {
    assert!(Basis::basis(v(1, 0, 0), v(2, 0, 0), v(0, 0, 1)).is_none());
    assert!(Basis::basis(v(1, 0, 0), v(0, 1, 0), v(0, 0, 1)).is_some());
}

#[test]
fn basis_from_up_is_orthogonal() {
    let b = Basis::basis_from_up(v(0, 0, 5)).unwrap();
    // rows are mutually orthogonal, so the frame and its inverse cancel
    let w = b.apply_vector(v(1, 2, 3)).unwrap();
    assert_eq!(b.inverse().apply_vector(w).unwrap(), v(1, 2, 3));
}

#[test]
fn basis_from_up_general_branch_is_orthogonal() {
    // an up vector with no zero component; the rows must still be
    // pairwise orthogonal
    let b = Basis::basis_from_up(v(1, 2, 2)).unwrap();
    let zero = Rational::zero();
    let x = v(1, 0, 0);
    let y = v(0, 1, 0);
    let z = v(0, 0, 1);
    // read the rows back by applying the frame to the coordinate axes
    let u_row = Vector::new(
        b.apply_vector(x).unwrap().x,
        b.apply_vector(y).unwrap().x,
        b.apply_vector(z).unwrap().x,
    );
    let v_row = Vector::new(
        b.apply_vector(x).unwrap().y,
        b.apply_vector(y).unwrap().y,
        b.apply_vector(z).unwrap().y,
    );
    let w_row = Vector::new(
        b.apply_vector(x).unwrap().z,
        b.apply_vector(y).unwrap().z,
        b.apply_vector(z).unwrap().z,
    );
    assert!(Rational::eq_val(Vector::dot(u_row, v_row).unwrap(), zero));
    assert!(Rational::eq_val(Vector::dot(u_row, w_row).unwrap(), zero));
    assert!(Rational::eq_val(Vector::dot(v_row, w_row).unwrap(), zero));
}

#[test]
fn look_towards_forward_is_identity_like() {
    let r = Rotation::look_towards(v(0, 0, 3)).unwrap();
    let w = r.apply_vector(v(0, 0, 1)).unwrap();
    assert_eq!(w, v(0, 0, 1));
}

#[test]
fn composite_transform_inverts() {
    let t = Transform::new(
        Basis::xyz(),
        Translation::new(v(1, 2, 3)),
        Rotation::on_y(q(3, 5), q(4, 5)),
        Scale::new(v(2, 2, 2)),
    );
    let moved = t.apply_point(p(4, 5, 6)).unwrap();
    let back = t.inverse().apply_point(moved).unwrap();
    assert_eq!(back, p(4, 5, 6));
    let ray = Ray::new(p(1, 1, 1), v(0, 1, 0));
    let back_ray = t.inverse().apply_ray(t.apply_ray(ray).unwrap()).unwrap();
    assert_eq!(back_ray.origin, ray.origin);
    assert_eq!(back_ray.direction, ray.direction);
}

#[test]
fn translation_matrix_acts_like_translation() {
    let t = Translation::new(v(1, 2, 3));
    let m = t.matrix();
    assert_eq!(m.mul_point(p(1, 1, 1)).unwrap(), p(2, 3, 4));
    // vectors ignore the translation column
    assert_eq!(m.mul_vector(v(1, 1, 1)).unwrap(), v(1, 1, 1));
}

#[test]
fn transform_matrix_matches_direct_application() {
    let t = Transform::translation(v(0, 0, 5));
    let m = t.matrix().unwrap();
    assert_eq!(m.mul_point(p(0, 0, 0)).unwrap(), p(0, 0, 5));
    let mi = t.inverse().matrix().unwrap();
    assert_eq!(mi.mul_point(p(0, 0, 5)).unwrap(), p(0, 0, 0));
}
