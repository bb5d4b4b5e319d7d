use moonshade_raytracer::point::Point;
use moonshade_raytracer::rational::Rational;
use moonshade_raytracer::ray::Ray;
use moonshade_raytracer::vector::Vector;

fn q(n: i64, d: i64) -> Rational {
    Rational::new(n, d).unwrap()
}

fn i(n: i64) -> Rational {
    Rational::from_int(n)
}

fn v(x: i64, y: i64, z: i64) -> Vector {
    Vector::new(i(x), i(y), i(z))
}

fn p(x: i64, y: i64, z: i64) -> Point {
    Point::new(i(x), i(y), i(z))
}

#[test]
fn dot_and_cross_products() {
    assert_eq!(Vector::dot(v(1, 2, 3), v(4, 5, 6)).unwrap(), i(32));
    let c = Vector::cross(v(1, 0, 0), v(0, 1, 0)).unwrap();
    assert_eq!(c, v(0, 0, 1));
}

#[test]
fn length_and_normalization() {
    assert_eq!(v(0, 0, 5).length().unwrap(), i(5));
    assert_eq!(v(3, 4, 0).length().unwrap(), i(5));
    let n = v(0, 0, 5).normalized().unwrap();
    assert_eq!(n, v(0, 0, 1));
    assert_eq!(v(3, 4, 0).normalized().unwrap(), Vector::new(q(3, 5), q(4, 5), i(0)));
}

#[test]
fn normalizing_zero_is_absent() {
    assert!(Vector::zero().normalized().is_none());
    assert_eq!(Vector::zero().normalized_or_zero(), Vector::zero());
}

#[test]
fn reflection_about_an_axis() {
    // reflecting (1, -1, 0) about the y axis flips the y component
    let r = Vector::reflection(v(1, -1, 0), v(0, 1, 0)).unwrap();
    assert_eq!(r, v(1, 1, 0));
}

#[test]
fn projection_and_rejection() {
    let a = v(2, 3, 0);
    let onto = v(1, 0, 0);
    assert_eq!(Vector::projection(a, onto).unwrap(), v(2, 0, 0));
    assert_eq!(Vector::rejection(a, onto).unwrap(), v(0, 3, 0));
    assert_eq!(Vector::scalar_projection(a, onto).unwrap(), i(2));
}

#[test]
fn point_arithmetic() {
    assert_eq!(Point::sub_point(p(3, 4, 5), p(1, 1, 1)).unwrap(), v(2, 3, 4));
    assert_eq!(Point::add_vector(p(1, 1, 1), v(2, 3, 4)).unwrap(), p(3, 4, 5));
    assert_eq!(Point::distance(p(0, 0, 0), p(3, 4, 0)).unwrap(), i(5));
    assert_eq!(Point::distance_squared(p(0, 0, 0), p(1, 2, 2)).unwrap(), i(9));
}

#[test]
fn ray_point_at_parameter() {
    let r = Ray::new(p(0, 0, -10), v(0, 0, 1));
    assert_eq!(r.point_at(i(7)).unwrap(), p(0, 0, -3));
    let r2 = Ray::from_points(p(0, 0, 0), p(0, 0, 2)).unwrap();
    assert_eq!(r2.direction, v(0, 0, 2));
}

#[test]
fn ray_contains_and_parameter_recovery() {
    let r = Ray::new(p(0, 0, 0), v(0, 0, 2));
    assert_eq!(r.contains(p(0, 0, 6)), Some(true));
    assert_eq!(r.contains(p(1, 0, 6)), Some(false));
    assert_eq!(r.t_of_point(p(0, 0, 6)).unwrap(), i(3));
}
