//! An offline ray-tracing core built on exact rational arithmetic.
//!
//! Every scalar in the engine is a rational number with a bounded
//! numerator and denominator, so addition, subtraction, multiplication,
//! division and comparisons are exact, and every geometric computation
//! has a deterministic mathematical specification.  Square roots are
//! the one inexact operation: they are computed as exact floor
//! approximations at a fixed precision, and their contracts pin the
//! result down by integer bracketing.  Degeneracy tests (zero vectors,
//! zero determinants, tangent rays) are therefore exact, which replaces
//! the usual machine-epsilon tolerances with a single deliberate
//! policy: a quantity is degenerate exactly when it is zero.

pub mod basis;
pub mod color;
pub mod image;
pub mod lens_shader;
pub mod material;
pub mod matrix;
pub mod multiple_surfaces;
pub mod point;
pub mod pixel_shader;
pub mod rational;
pub mod ray_shader;
pub mod ray;
pub mod renderer;
pub mod rotation;
pub mod scale;
pub mod sphere;
pub mod surface;
pub mod transform;
pub mod transformed_surface;
pub mod translation;
pub mod trig;
pub mod vector;

pub use color::Color;
pub use matrix::Matrix;
pub use point::Point;
pub use rational::Rational;
pub use ray::Ray;
pub use vector::Vector;
