//! Materials: for now, a single diffuse blend color.

use vstd::prelude::*;
use crate::color::{cv_wf, Color, ColorV};

verus! {

/// The mathematical content of a material.
pub ghost struct MaterialV {
    pub diffuse: ColorV,
}

pub open spec fn mv_wf(m: MaterialV) -> bool {
    cv_wf(m.diffuse)
}

/// A surface material: a diffuse blend color.
#[derive(Clone, Copy, PartialEq, Eq, Debug)]
pub struct Material {
    pub diffuse: Color,
}

impl View for Material {
    type V = MaterialV;

    open spec fn view(&self) -> MaterialV {
        MaterialV { diffuse: self.diffuse@ }
    }
}

impl Material {
    pub open spec fn wf(self) -> bool {
        mv_wf(self@)
    }

    pub fn new(diffuse: Color) -> (r: Material)
        ensures
            r@ == (MaterialV { diffuse: diffuse@ }),
            diffuse.wf() ==> r.wf(),
    {
        Material { diffuse }
    }
}

} // verus!
