//! The shading policy: resolving a reflection stack into one color.

use vstd::prelude::*;
use crate::color::{c_black, c_mul, c_white, cov, opt_color_wf, Color, ColorV};
use crate::surface::{sp_seq_wf, sp_views, Surface, SurfacePoint, SurfacePointV};

verus! {

/// The multiplicative fold from the farthest hit toward the nearest:
/// the white accumulator is blended with each hit's diffuse color,
/// index `i` counting how many of the nearest hits remain.
pub open spec fn shade_down(stack: Seq<SurfacePointV>, i: int, acc: ColorV) -> Option<ColorV>
    decreases i,
{
    if i <= 0 {
        Some(acc)
    } else {
        match c_mul(stack[i - 1].material.diffuse, acc) {
            Some(a) => shade_down(stack, i - 1, a),
            None => None,
        }
    }
}

/// The color of a stack: black for an empty stack (no hit,
/// background), else the fold of every hit's diffuse color from the
/// deepest reflection back to the camera.
pub open spec fn final_color_v(stack: Seq<SurfacePointV>) -> Option<ColorV> {
    if stack.len() == 0 {
        Some(c_black())
    } else {
        shade_down(stack, stack.len() as int, c_white())
    }
}

/// Multiplicative attenuation along the reflection path.
#[derive(Clone, Copy, PartialEq, Eq, Debug)]
pub struct DefaultPixelShader;

impl DefaultPixelShader {
    /// Resolves a reflection stack (nearest hit first) into one
    /// color.
    pub fn final_color(&self, stack: &Vec<SurfacePoint>, surface: &Surface) -> (r: Option<Color>)
        requires
            sp_seq_wf(stack@),
        ensures
            cov(r) == final_color_v(sp_views(stack@)),
            opt_color_wf(r),
    {
        if stack.len() == 0 {
            return Some(Color::black());
        }
        let ghost vs = sp_views(stack@);
        let mut acc = Color::white();
        let mut i: usize = stack.len();
        while i > 0
            invariant
                0 <= i <= stack@.len(),
                sp_seq_wf(stack@),
                acc.wf(),
                vs == sp_views(stack@),
                shade_down(vs, i as int, acc@) == shade_down(vs, vs.len() as int, c_white()),
            decreases i,
        {
            i = i - 1;
            acc = match Color::mul(stack[i].material.diffuse, acc) {
                Some(a) => a,
                None => {
                    return None;
                },
            };
        }
        Some(acc)
    }
}

} // verus!
