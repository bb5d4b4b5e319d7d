use moonshade_raytracer::color::Color;
use moonshade_raytracer::image::Image;
use moonshade_raytracer::lens_shader::{LensShader, PlanePerspectiveLensShader, SphereLensShader};
use moonshade_raytracer::material::Material;
use moonshade_raytracer::multiple_surfaces::MultipleSurfaces;
use moonshade_raytracer::pixel_shader::DefaultPixelShader;
use moonshade_raytracer::point::Point;
use moonshade_raytracer::rational::Rational;
use moonshade_raytracer::ray_shader::DefaultRayShader;
use moonshade_raytracer::renderer::Renderer;
use moonshade_raytracer::sphere::Sphere;
use moonshade_raytracer::surface::Surface;
use moonshade_raytracer::transform::Transform;
use moonshade_raytracer::transformed_surface::TransformedSurface;
use moonshade_raytracer::vector::Vector;

fn i(n: i64) -> Rational {
    Rational::from_int(n)
}

fn v(x: i64, y: i64, z: i64) -> Vector {
    Vector::new(i(x), i(y), i(z))
}

fn green_world() -> Surface {
    let inner = Surface::Sphere(
        Sphere::new(i(3), Material::new(Color::solid(i(0), i(1), i(0)))),
    );
    let t = Transform::translation(v(0, 0, 5));
    Surface::Multiple(MultipleSurfaces::new(vec![
        Surface::Transformed(Box::new(TransformedSurface::new(t, inner).unwrap())),
    ]))
}

fn renderer() -> Renderer {
    let lens = LensShader::PlanePerspective(
        PlanePerspectiveLensShader::new(i(2), v(4, 4, 0)).unwrap(),
    );
    Renderer::new(lens, DefaultRayShader::new(3), DefaultPixelShader)
}

#[test]
fn center_pixel_sees_the_sphere() {
    let r = renderer();
    let world = green_world();
    let mut image = Image::new(3, 3);
    r.render(&mut image, &world);
    // the middle pixel looks straight down the axis into the sphere
    let c = image.color_at(1, 1).unwrap();
    assert_eq!(c, Color::solid(i(0), i(1), i(0)));
}

#[test]
fn corner_pixel_misses_and_stays_black() {
    let r = renderer();
    let world = green_world();
    let mut image = Image::new(3, 3);
    r.render(&mut image, &world);
    let c = image.color_at(0, 0).unwrap();
    assert_eq!(c, Color::black());
}

#[test]
fn rendering_twice_is_bit_identical() {
    let r = renderer();
    let world = green_world();
    let mut a = Image::new(4, 3);
    let mut b = Image::new(4, 3);
    r.render(&mut a, &world);
    r.render(&mut b, &world);
    for y in 0..3usize {
        for x in 0..4usize {
            assert_eq!(a.color_at(x, y), b.color_at(x, y));
        }
    }
}

#[test]
fn image_paint_and_read_back() {
    let mut img = Image::new(2, 2);
    let red = Color::solid(i(1), i(0), i(0));
    img.paint(1, 0, red);
    assert_eq!(img.color_at(1, 0).unwrap(), red);
    assert_eq!(img.color_at(0, 0).unwrap(), Color::black());
    // out-of-range writes are silently ignored
    img.paint(5, 5, red);
    assert!(img.color_at(5, 5).is_none());
    assert_eq!(img.resolution(), (2, 2));
    assert_eq!(img.pixel_count(), 4);
    img.clear();
    assert_eq!(img.color_at(1, 0).unwrap(), Color::black());
}

#[test]
fn paint_all_applies_in_order() {
    let mut img = Image::new(2, 1);
    let red = Color::solid(i(1), i(0), i(0));
    let blue = Color::solid(i(0), i(0), i(1));
    img.paint_all(vec![(0, 0, red), (1, 0, red), (0, 0, blue)]);
    assert_eq!(img.color_at(0, 0).unwrap(), blue);
    assert_eq!(img.color_at(1, 0).unwrap(), red);
}

#[test]
fn pixel_position_iterator_walks_rows() {
    let img = Image::new(2, 2);
    let mut it = img.pixel_positions();
    // every valid coordinate appears exactly once, row by row
    assert_eq!(it.next(), Some((0, 0)));
    assert_eq!(it.next(), Some((1, 0)));
    assert_eq!(it.next(), Some((0, 1)));
    assert_eq!(it.next(), Some((1, 1)));
    assert_eq!(it.next(), None);
    assert_eq!(it.next(), None);
}

#[test]
fn sphere_lens_center_ray_is_forward() {
    let lens = SphereLensShader::full_sphere(i(5));
    let half = Rational::new(1, 2).unwrap();
    let ray = lens.ray_to_lens_point(half, half).unwrap();
    assert_eq!(ray.origin, Point::new(i(0), i(0), i(0)));
    assert_eq!(ray.direction, v(0, 0, 5));
}
