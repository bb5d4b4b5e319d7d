use moonshade_raytracer::color::Color;
use moonshade_raytracer::material::Material;
use moonshade_raytracer::multiple_surfaces::MultipleSurfaces;
use moonshade_raytracer::pixel_shader::DefaultPixelShader;
use moonshade_raytracer::point::Point;
use moonshade_raytracer::rational::Rational;
use moonshade_raytracer::ray::Ray;
use moonshade_raytracer::ray_shader::DefaultRayShader;
use moonshade_raytracer::renderer::Renderer;
use moonshade_raytracer::sphere::Sphere;
use moonshade_raytracer::surface::{Surface, SurfacePoint};
use moonshade_raytracer::transform::Transform;
use moonshade_raytracer::transformed_surface::TransformedSurface;
use moonshade_raytracer::vector::Vector;

fn q(n: i64, d: i64) -> Rational {
    Rational::new(n, d).unwrap()
}

fn i(n: i64) -> Rational {
    Rational::from_int(n)
}

fn v(x: i64, y: i64, z: i64) -> Vector {
    Vector::new(i(x), i(y), i(z))
}

fn p(x: i64, y: i64, z: i64) -> Point {
    Point::new(i(x), i(y), i(z))
}

fn dummy_hit() -> SurfacePoint {
    SurfacePoint {
        t: i(1),
        point: p(0, 0, 0),
        normal: v(0, 1, 0),
        material: Material::new(Color::white()),
    }
}

#[test]
fn next_ray_declines_once_stack_is_full() {
    let shader = DefaultRayShader::new(2);
    let ray = Ray::new(p(0, 0, 0), v(0, 0, 1));
    let full = vec![dummy_hit(), dummy_hit()];
    assert!(shader.next_ray(ray, dummy_hit(), &full).is_none());
    let part = vec![dummy_hit()];
    assert!(shader.next_ray(ray, dummy_hit(), &part).is_some());
}

#[test]
fn next_ray_reflects_about_the_normal() {
    let shader = DefaultRayShader::new(5);
    let ray = Ray::new(p(0, 0, 0), v(1, -1, 0));
    let hit = SurfacePoint {
        t: i(1),
        point: p(1, 0, 0),
        normal: v(0, 1, 0),
        material: Material::new(Color::white()),
    };
    let next = shader.next_ray(ray, hit, &vec![hit]).unwrap();
    assert_eq!(next.origin, p(1, 0, 0));
    assert_eq!(next.direction, v(1, 1, 0));
}

#[test]
fn reflection_stack_is_bounded() {
    // a corridor of two facing spheres; however the ray bounces, the
    // recorded stack never exceeds the configured maximum
    let left = {
        let inner = Surface::Sphere(Sphere::new(i(1), Material::new(Color::white())));
        let t = Transform::translation(v(0, 0, -3));
        Surface::Transformed(Box::new(TransformedSurface::new(t, inner).unwrap()))
    };
    let right = {
        let inner = Surface::Sphere(Sphere::new(i(1), Material::new(Color::white())));
        let t = Transform::translation(v(0, 0, 3));
        Surface::Transformed(Box::new(TransformedSurface::new(t, inner).unwrap()))
    };
    let world = Surface::Multiple(MultipleSurfaces::new(vec![left, right]));
    let shader = DefaultRayShader::new(4);
    let ray = Ray::new(p(0, 0, 0), v(0, 0, 1));
    let stack = Renderer::propagate_ray(&shader, ray, &world);
    assert!(stack.len() <= 4);
    assert!(stack.len() >= 1);
}

#[test]
fn empty_stack_shades_black() {
    let shader = DefaultPixelShader;
    let world = Surface::Multiple(MultipleSurfaces::new(vec![]));
    let c = shader.final_color(&vec![], &world).unwrap();
    assert_eq!(c, Color::black());
}

#[test]
fn stack_shades_to_attenuated_product() {
    let shader = DefaultPixelShader;
    let world = Surface::Multiple(MultipleSurfaces::new(vec![]));
    let half_gray = Material::new(Color::solid(q(1, 2), q(1, 2), q(1, 2)));
    let third_gray = Material::new(Color::solid(q(1, 3), q(1, 3), q(1, 3)));
    let mk = |m: Material| SurfacePoint {
        t: i(1),
        point: p(0, 0, 0),
        normal: v(0, 1, 0),
        material: m,
    };
    let stack = vec![mk(half_gray), mk(third_gray)];
    let c = shader.final_color(&stack, &world).unwrap();
    assert_eq!(c, Color::new(q(1, 6), q(1, 6), q(1, 6), Rational::one()));
}
