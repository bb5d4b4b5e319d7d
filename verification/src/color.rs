//! Colors with exact rational channels.
//!
//! Construction takes the magnitude of each channel, so a stored
//! color never has a negative channel; the multiplicative blend used
//! by the pixel shader is specified exactly.

use vstd::prelude::*;
use crate::rational::{o_div, rat_abs, rat_add, rat_int, rat_mul, rat_wf, RatV, Rational};

verus! {

/// The mathematical content of a color.
pub ghost struct ColorV {
    pub red: RatV,
    pub green: RatV,
    pub blue: RatV,
    pub alpha: RatV,
}

/// Construction normalizes each channel to its magnitude.
pub open spec fn c_new(red: RatV, green: RatV, blue: RatV, alpha: RatV) -> ColorV {
    ColorV { red: rat_abs(red), green: rat_abs(green), blue: rat_abs(blue), alpha: rat_abs(alpha) }
}

pub open spec fn c_white() -> ColorV {
    ColorV { red: rat_int(1), green: rat_int(1), blue: rat_int(1), alpha: rat_int(1) }
}

pub open spec fn c_black() -> ColorV {
    ColorV { red: rat_int(0), green: rat_int(0), blue: rat_int(0), alpha: rat_int(1) }
}

/// Componentwise multiplicative blend, normalized channelwise as by
/// construction.
pub open spec fn c_mul(a: ColorV, b: ColorV) -> Option<ColorV> {
    match (
        rat_mul(a.red, b.red),
        rat_mul(a.green, b.green),
        rat_mul(a.blue, b.blue),
        rat_mul(a.alpha, b.alpha),
    ) {
        (Some(r), Some(g), Some(bl), Some(al)) => Some(c_new(r, g, bl, al)),
        _ => None,
    }
}

/// Componentwise additive blend, normalized channelwise as by
/// construction.
pub open spec fn c_add(a: ColorV, b: ColorV) -> Option<ColorV> {
    match (
        rat_add(a.red, b.red),
        rat_add(a.green, b.green),
        rat_add(a.blue, b.blue),
        rat_add(a.alpha, b.alpha),
    ) {
        (Some(r), Some(g), Some(bl), Some(al)) => Some(c_new(r, g, bl, al)),
        _ => None,
    }
}

/// The uniform gray with the mean of the three color channels.
pub open spec fn c_grayscale(a: ColorV) -> Option<ColorV> {
    match o_div(crate::rational::o_add(rat_add(a.red, a.green), Some(a.blue)), Some(rat_int(3))) {
        Some(gray) => Some(c_new(gray, gray, gray, a.alpha)),
        None => None,
    }
}

/// Well-formedness of a color view: every channel in bounds.
pub open spec fn cv_wf(c: ColorV) -> bool {
    rat_wf(c.red) && rat_wf(c.green) && rat_wf(c.blue) && rat_wf(c.alpha)
}

/// The view of an optional color.
pub open spec fn cov(r: Option<Color>) -> Option<ColorV> {
    match r {
        Some(c) => Some(c@),
        None => None,
    }
}

/// A color with red, green, blue and alpha channels.
#[derive(Clone, Copy, PartialEq, Eq, Debug)]
pub struct Color {
    pub red: Rational,
    pub green: Rational,
    pub blue: Rational,
    pub alpha: Rational,
}

impl View for Color {
    type V = ColorV;

    open spec fn view(&self) -> ColorV {
        ColorV { red: self.red@, green: self.green@, blue: self.blue@, alpha: self.alpha@ }
    }
}

/// Well-formedness of an optional color.
pub open spec fn opt_color_wf(r: Option<Color>) -> bool {
    r matches Some(c) ==> c.wf()
}

impl Color {
    pub open spec fn wf(self) -> bool {
        cv_wf(self@)
    }

    pub fn new(red: Rational, green: Rational, blue: Rational, alpha: Rational) -> (r: Color)
        requires
            red.wf(),
            green.wf(),
            blue.wf(),
            alpha.wf(),
        ensures
            r@ == c_new(red@, green@, blue@, alpha@),
            r.wf(),
    {
        Color {
            red: Rational::abs(red),
            green: Rational::abs(green),
            blue: Rational::abs(blue),
            alpha: Rational::abs(alpha),
        }
    }

    /// A fully opaque color; channels are stored as given.
    pub fn solid(red: Rational, green: Rational, blue: Rational) -> (r: Color)
        requires
            red.wf(),
            green.wf(),
            blue.wf(),
        ensures
            r@ == (ColorV { red: red@, green: green@, blue: blue@, alpha: rat_int(1) }),
            r.wf(),
    {
        Color { red, green, blue, alpha: Rational::one() }
    }

    pub fn with_alpha(color: Color, alpha: Rational) -> (r: Color)
        requires
            color.wf(),
            alpha.wf(),
        ensures
            r@ == c_new(color@.red, color@.green, color@.blue, alpha@),
            r.wf(),
    {
        Color::new(color.red, color.green, color.blue, alpha)
    }

    pub fn grayscale(color: Color) -> (r: Option<Color>)
        requires
            color.wf(),
        ensures
            cov(r) == c_grayscale(color@),
            opt_color_wf(r),
    {
        let sum = crate::rational::oadd(Rational::add(color.red, color.green), Some(color.blue));
        match crate::rational::odiv(sum, Some(Rational::from_int(3))) {
            Some(gray) => Some(Color::new(gray, gray, gray, color.alpha)),
            None => None,
        }
    }

    pub fn white() -> (r: Color)
        ensures
            r@ == c_white(),
            r.wf(),
    {
        Color {
            red: Rational::one(),
            green: Rational::one(),
            blue: Rational::one(),
            alpha: Rational::one(),
        }
    }

    pub fn black() -> (r: Color)
        ensures
            r@ == c_black(),
            r.wf(),
    {
        Color {
            red: Rational::zero(),
            green: Rational::zero(),
            blue: Rational::zero(),
            alpha: Rational::one(),
        }
    }

    /// Multiplicative blend of two colors.
    pub fn mul(a: Color, b: Color) -> (r: Option<Color>)
        requires
            a.wf(),
            b.wf(),
        ensures
            cov(r) == c_mul(a@, b@),
            opt_color_wf(r),
    {
        match (
            Rational::mul(a.red, b.red),
            Rational::mul(a.green, b.green),
            Rational::mul(a.blue, b.blue),
            Rational::mul(a.alpha, b.alpha),
        ) {
            (Some(red), Some(green), Some(blue), Some(alpha)) => Some(
                Color::new(red, green, blue, alpha),
            ),
            _ => None,
        }
    }

    /// Additive blend of two colors.
    pub fn add(a: Color, b: Color) -> (r: Option<Color>)
        requires
            a.wf(),
            b.wf(),
        ensures
            cov(r) == c_add(a@, b@),
            opt_color_wf(r),
    {
        match (
            Rational::add(a.red, b.red),
            Rational::add(a.green, b.green),
            Rational::add(a.blue, b.blue),
            Rational::add(a.alpha, b.alpha),
        ) {
            (Some(red), Some(green), Some(blue), Some(alpha)) => Some(
                Color::new(red, green, blue, alpha),
            ),
            _ => None,
        }
    }
}

} // verus!
