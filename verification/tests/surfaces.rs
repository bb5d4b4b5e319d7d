use moonshade_raytracer::color::Color;
use moonshade_raytracer::material::Material;
use moonshade_raytracer::multiple_surfaces::MultipleSurfaces;
use moonshade_raytracer::point::Point;
use moonshade_raytracer::rational::Rational;
use moonshade_raytracer::ray::Ray;
use moonshade_raytracer::sphere::Sphere;
use moonshade_raytracer::surface::Surface;
use moonshade_raytracer::transform::Transform;
use moonshade_raytracer::transformed_surface::TransformedSurface;
use moonshade_raytracer::vector::Vector;

fn i(n: i64) -> Rational {
    Rational::from_int(n)
}

fn v(x: i64, y: i64, z: i64) -> Vector {
    Vector::new(i(x), i(y), i(z))
}

fn p(x: i64, y: i64, z: i64) -> Point {
    Point::new(i(x), i(y), i(z))
}

fn mat() -> Material {
    Material::new(Color::solid(i(0), i(1), i(0)))
}

fn sphere_at_z(radius: i64, z: i64) -> Surface {
    let inner = Surface::Sphere(Sphere::new(i(radius), mat()));
    let t = Transform::translation(v(0, 0, z));
    Surface::Transformed(Box::new(TransformedSurface::new(t, inner).unwrap()))
}

#[test]
fn sphere_hit_at_exact_parameter() {
    let s = Sphere::new(i(3), mat());
    let ray = Ray::new(p(0, 0, -10), v(0, 0, 1));
    let hit = s.intersect(ray).unwrap();
    assert_eq!(hit.t, i(7));
    assert_eq!(hit.point, p(0, 0, -3));
    assert_eq!(hit.normal, v(0, 0, -3));
}

#[test]
fn sphere_miss_yields_nothing() {
    let s = Sphere::new(i(3), mat());
    let ray = Ray::new(p(10, 10, -10), v(0, 0, 1));
    assert!(s.intersect(ray).is_none());
}

#[test]
fn tangent_ray_is_rejected() {
    let s = Sphere::new(i(3), mat());
    // grazes the sphere at x = 3: the discriminant is exactly zero
    let ray = Ray::new(p(3, 0, -10), v(0, 0, 1));
    assert!(s.intersect(ray).is_none());
}

#[test]
fn composite_returns_nearest_hit() {
    let near = sphere_at_z(1, 5);
    let far = sphere_at_z(1, 9);
    let ray = Ray::new(p(0, 0, 0), v(0, 0, 1));
    let both = Surface::Multiple(MultipleSurfaces::new(vec![near, far]));
    let hit = both.intersect(ray).unwrap();
    assert_eq!(hit.t, i(4));

    // removing the nearer sphere exposes the farther one
    let far_only = Surface::Multiple(MultipleSurfaces::new(vec![sphere_at_z(1, 9)]));
    let hit2 = far_only.intersect(ray).unwrap();
    assert_eq!(hit2.t, i(8));
}

#[test]
fn empty_composite_misses() {
    let none = Surface::Multiple(MultipleSurfaces::new(vec![]));
    let ray = Ray::new(p(0, 0, 0), v(0, 0, 1));
    assert!(none.intersect(ray).is_none());
}

#[test]
fn transformed_surface_rescales_parameter() {
    // a unit sphere scaled by two, hit by a unit-length ray:
    // the local parameter 8 is rescaled by the local direction
    // length 1/2 to the world parameter 4
    let inner = Surface::Sphere(Sphere::new(i(1), mat()));
    let t = Transform::scale(v(2, 2, 2));
    let wrapped = Surface::Transformed(
        Box::new(TransformedSurface::new(t, inner).unwrap()),
    );
    let ray = Ray::new(p(0, 0, -10), v(0, 0, 1));
    let hit = wrapped.intersect(ray).unwrap();
    assert_eq!(hit.t, i(4));
    assert_eq!(hit.point, p(0, 0, -2));
    assert_eq!(hit.normal, v(0, 0, -2));
}

#[test]
fn translated_sphere_hit() {
    let s = sphere_at_z(3, 5);
    let ray = Ray::new(p(0, 0, -10), v(0, 0, 1));
    let hit = s.intersect(ray).unwrap();
    assert_eq!(hit.t, i(12));
    assert_eq!(hit.point, p(0, 0, 2));
}
