//! The render orchestrator: for every pixel, ask the lens shader for
//! a camera ray, propagate it through the scene collecting
//! reflections, resolve the stack into a color, and paint it.
//!
//! Each pixel's color is a pure function of its coordinate, the
//! shader configuration and the scene, so the framebuffer a render
//! produces does not depend on the order in which pixels are
//! computed; a driver may farm rows out to workers and paint the
//! results in any order.

use vstd::prelude::*;
use vstd::arithmetic::div_mod::{
    lemma_div_pos_is_pos, lemma_fundamental_div_mod, lemma_mod_division_less_than_divisor,
};
use crate::color::{cov, opt_color_wf, Color, ColorV};
use crate::image::{paint_v, Image, ImageV};
use crate::lens_shader::{lens_ray, LensShader};
use crate::pixel_shader::{final_color_v, DefaultPixelShader};
use crate::rational::{rat_new, Rational};
use crate::ray::{rov, Ray, RayV};
use crate::ray_shader::{next_ray_v, DefaultRayShader};
use crate::surface::{sp_seq_wf, sp_views, spec_intersect, Surface, SurfacePoint, SurfacePointV};

verus! {

/// The reflections collected along a ray path: each hit is recorded,
/// and propagation continues with the shader's proposed next ray
/// until the scene is missed or the shader declines.
pub open spec fn propagate_from(
    max: nat,
    ray: RayV,
    s: &Surface,
    stack: Seq<SurfacePointV>,
) -> Seq<SurfacePointV>
    decreases max - stack.len(),
{
    match spec_intersect(s, ray) {
        None => stack,
        Some(sp) => {
            let stack2 = stack.push(sp);
            match next_ray_v(max, ray, sp, stack2.len()) {
                None => stack2,
                Some(nray) => propagate_from(max, nray, s, stack2),
            }
        },
    }
}

/// The reflection stack of a primary ray.
pub open spec fn propagate_v(max: nat, ray: RayV, s: &Surface) -> Seq<SurfacePointV> {
    propagate_from(max, ray, s, Seq::empty())
}

/// The color of one pixel: the pixel-center coordinate is mapped to
/// a camera ray, propagated, and resolved; absent when the lens
/// yields no ray or a step is unrepresentable.
#[verifier::opaque]
pub open spec fn render_pixel_v(
    lens: &LensShader,
    max: nat,
    s: &Surface,
    px: int,
    py: int,
    w: int,
    h: int,
) -> Option<ColorV> {
    match (rat_new(2 * px + 1, 2 * w), rat_new(2 * py + 1, 2 * h)) {
        (Some(nx), Some(ny)) => match lens_ray(lens, nx, ny) {
            Some(ray) => final_color_v(propagate_v(max, ray, s)),
            None => None,
        },
        _ => None,
    }
}

/// What a pixel holds after a render: its computed color, or its
/// previous color where no color was computed.
pub open spec fn expected_pixel(
    orig: ColorV,
    lens: &LensShader,
    max: nat,
    s: &Surface,
    x: int,
    y: int,
    w: int,
    h: int,
) -> ColorV {
    match render_pixel_v(lens, max, s, x, y, w, h) {
        Some(c) => c,
        None => orig,
    }
}

/// The row-major pixel index of a coordinate.
pub open spec fn pix_index(x: int, y: int, w: int) -> int {
    x + y * w
}

/// The frame `fin` is what rendering the scene over `orig` produces.
pub open spec fn renders_to(
    orig: ImageV,
    fin: ImageV,
    lens: &LensShader,
    max: nat,
    s: &Surface,
) -> bool {
    let w = orig.width as int;
    let h = orig.height as int;
    &&& fin.width == orig.width
    &&& fin.height == orig.height
    &&& fin.pixels.len() == orig.pixels.len()
    &&& orig.pixels.len() == orig.width * orig.height
    &&& forall|x: int, y: int|
        0 <= x < w && 0 <= y < h ==> fin.pixels[#[trigger] pix_index(x, y, w)] == expected_pixel(
            orig.pixels[pix_index(x, y, w)],
            lens,
            max,
            s,
            x,
            y,
            w,
            h,
        )
}

/// Mapping a push through the views commutes.
proof fn lemma_sp_views_push(s: Seq<SurfacePoint>, x: SurfacePoint)
    ensures
        sp_views(s.push(x)) == sp_views(s).push(x@),
{
    assert(sp_views(s.push(x)) =~= sp_views(s).push(x@));
}

/// Renders a scene through a fixed lens, reflection and pixel
/// policy.
pub struct Renderer {
    pub lens_shader: LensShader,
    pub reflection_shader: DefaultRayShader,
    pub fragment_shader: DefaultPixelShader,
}

impl Renderer {
    pub open spec fn wf(&self) -> bool {
        self.lens_shader.wf()
    }

    pub fn new(
        lens_shader: LensShader,
        reflection_shader: DefaultRayShader,
        fragment_shader: DefaultPixelShader,
    ) -> (r: Renderer)
        ensures
            r.lens_shader == lens_shader,
            r.reflection_shader == reflection_shader,
            r.fragment_shader == fragment_shader,
    {
        Renderer { lens_shader, reflection_shader, fragment_shader }
    }

    /// Follows a ray through the scene, recording each hit and
    /// continuing with the shader's proposed reflection until the
    /// scene is missed or the shader declines.
    #[verifier::rlimit(100)]
    pub fn propagate_ray(
        reflection_shader: &DefaultRayShader,
        ray: Ray,
        surface: &Surface,
    ) -> (r: Vec<SurfacePoint>)
        requires
            ray.wf(),
            surface.wf(),
        ensures
            sp_views(r@) == propagate_v(reflection_shader.max_reflection_count as nat, ray@, surface),
            sp_seq_wf(r@),
            reflection_shader.max_reflection_count >= 1 ==> r@.len()
                <= reflection_shader.max_reflection_count,
    {
        let max = reflection_shader.reflection_count_hint();
        let mut stack: Vec<SurfacePoint> = Vec::new();
        let mut cur: Ray = ray;
        let mut go: bool = true;
        proof {
            assert(sp_views(stack@) =~= Seq::<SurfacePointV>::empty());
        }
        while go
            invariant
                surface.wf(),
                cur.wf(),
                max == reflection_shader.max_reflection_count,
                sp_seq_wf(stack@),
                stack@.len() <= max + 1,
                go ==> stack@.len() <= max,
                go ==> propagate_from(max as nat, cur@, surface, sp_views(stack@)) == propagate_v(
                    max as nat,
                    ray@,
                    surface,
                ),
                !go ==> sp_views(stack@) == propagate_v(max as nat, ray@, surface),
            decreases max + 1 - stack@.len(), (if go { 1int } else { 0int }),
        {
            match surface.intersect(cur) {
                None => {
                    proof {
                        assert(propagate_from(max as nat, cur@, surface, sp_views(stack@))
                            == sp_views(stack@));
                    }
                    go = false;
                },
                Some(sp) => {
                    let ghost vs_old = sp_views(stack@);
                    proof {
                        lemma_sp_views_push(stack@, sp);
                    }
                    reflection_shader.on_intersection(cur, sp, &mut stack);
                    let ghost vs2 = sp_views(stack@);
                    proof {
                        assert(vs2 == vs_old.push(sp@));
                        assert(propagate_from(max as nat, cur@, surface, vs_old) == (
                        match next_ray_v(max as nat, cur@, sp@, vs2.len()) {
                            None => vs2,
                            Some(nray) => propagate_from(max as nat, nray, surface, vs2),
                        }));
                    }
                    let nr = reflection_shader.next_ray(cur, sp, &stack);
                    proof {
                        assert(vs2.len() == stack@.len());
                        assert(max == reflection_shader.max_reflection_count);
                        assert(rov(nr) == next_ray_v(max as nat, cur@, sp@, vs2.len()));
                        match nr {
                            Some(nray) => {
                                assert(next_ray_v(max as nat, cur@, sp@, vs2.len()) == Some(
                                    nray@,
                                ));
                                assert(!(vs2.len() >= max as nat)) by {
                                    if vs2.len() >= max as nat {
                                        assert(next_ray_v(max as nat, cur@, sp@, vs2.len())
                                            is None);
                                    }
                                }
                            },
                            None => {
                                assert(propagate_from(max as nat, cur@, surface, vs_old) == vs2);
                            },
                        }
                    }
                    match nr {
                        None => {
                            go = false;
                        },
                        Some(nray) => {
                            cur = nray;
                        },
                    }
                },
            }
        }
        proof {
            if max >= 1 {
                lemma_reflection_len(max as nat, ray@, surface, Seq::empty());
            }
        }
        stack
    }

    /// Computes the color of one pixel from its coordinate, the
    /// shaders and the scene.
    pub fn render_pixel(
        px: usize,
        py: usize,
        width: usize,
        height: usize,
        lens_shader: &LensShader,
        reflection_shader: &DefaultRayShader,
        fragment_shader: &DefaultPixelShader,
        surface: &Surface,
    ) -> (r: Option<Color>)
        requires
            lens_shader.wf(),
            surface.wf(),
            px < width,
            py < height,
            width < 4611686018427387904,
            height < 4611686018427387904,
        ensures
            cov(r) == render_pixel_v(
                lens_shader,
                reflection_shader.max_reflection_count as nat,
                surface,
                px as int,
                py as int,
                width as int,
                height as int,
            ),
            opt_color_wf(r),
    {
        proof {
            reveal(render_pixel_v);
        }
        let nx = match Rational::new(2 * (px as i64) + 1, 2 * (width as i64)) {
            Some(nx) => nx,
            None => {
                return None;
            },
        };
        let ny = match Rational::new(2 * (py as i64) + 1, 2 * (height as i64)) {
            Some(ny) => ny,
            None => {
                return None;
            },
        };
        let ray = match lens_shader.ray_to_lens_point(nx, ny) {
            Some(ray) => ray,
            None => {
                return None;
            },
        };
        let reflections = Self::propagate_ray(reflection_shader, ray, surface);
        fragment_shader.final_color(&reflections, surface)
    }

    /// Computes one pixel's color and paints it; a pixel whose
    /// computation yields no color keeps its previous color.
    fn render_one(
        image: &mut Image,
        px: usize,
        py: usize,
        lens_shader: &LensShader,
        reflection_shader: &DefaultRayShader,
        fragment_shader: &DefaultPixelShader,
        surface: &Surface,
    )
        requires
            old(image).wf(),
            lens_shader.wf(),
            surface.wf(),
            px < old(image)@.width,
            py < old(image)@.height,
            old(image)@.width < 4611686018427387904,
            old(image)@.height < 4611686018427387904,
        ensures
            final(image).wf(),
            final(image)@.width == old(image)@.width,
            final(image)@.height == old(image)@.height,
            final(image)@.pixels == (match render_pixel_v(
                lens_shader,
                reflection_shader.max_reflection_count as nat,
                surface,
                px as int,
                py as int,
                old(image)@.width as int,
                old(image)@.height as int,
            ) {
                Some(c) => old(image)@.pixels.update(
                    pix_index(px as int, py as int, old(image)@.width as int),
                    c,
                ),
                None => old(image)@.pixels,
            }),
    {
        let (width, height) = image.resolution();
        let color_opt = Self::render_pixel(
            px,
            py,
            width,
            height,
            lens_shader,
            reflection_shader,
            fragment_shader,
            surface,
        );
        match color_opt {
            Some(c) => {
                image.paint(px, py, c);
            },
            None => {},
        }
    }

    /// Paints every pixel of the framebuffer with its computed color;
    /// pixels whose computation yields no color keep their previous
    /// color.
    #[verifier::rlimit(100)]
    pub fn render(&self, image: &mut Image, surface: &Surface)
        requires
            self.wf(),
            old(image).wf(),
            surface.wf(),
            old(image)@.width < 4611686018427387904,
            old(image)@.height < 4611686018427387904,
        ensures
            final(image).wf(),
            renders_to(
                old(image)@,
                final(image)@,
                &self.lens_shader,
                self.reflection_shader.max_reflection_count as nat,
                surface,
            ),
    {
        let ghost orig: ImageV = image@;
        let ghost maxg: nat = self.reflection_shader.max_reflection_count as nat;
        let (width, height) = image.resolution();
        let ghost w: int = width as int;
        let ghost h: int = height as int;
        let mut py: usize = 0;
        while py < height
            invariant
                self.wf(),
                surface.wf(),
                image.wf(),
                0 <= py <= height,
                width == orig.width,
                height == orig.height,
                w == orig.width as int,
                h == orig.height as int,
                maxg == self.reflection_shader.max_reflection_count as nat,
                width < 4611686018427387904,
                height < 4611686018427387904,
                image@.width == orig.width,
                image@.height == orig.height,
                image@.pixels.len() == orig.pixels.len(),
                orig.pixels.len() == orig.width * orig.height,
                forall|x: int, y: int|
                    0 <= x < w && 0 <= y < h && y < py ==> image@.pixels[#[trigger] pix_index(
                        x,
                        y,
                        w,
                    )] == expected_pixel(
                        orig.pixels[pix_index(x, y, w)],
                        &self.lens_shader,
                        maxg,
                        surface,
                        x,
                        y,
                        w,
                        h,
                    ),
                forall|x: int, y: int|
                    0 <= x < w && 0 <= y < h && y >= py ==> image@.pixels[#[trigger] pix_index(
                        x,
                        y,
                        w,
                    )] == orig.pixels[pix_index(x, y, w)],
            decreases height - py,
        {
            let mut px: usize = 0;
            while px < width
                invariant
                    self.wf(),
                    surface.wf(),
                    image.wf(),
                    0 <= py < height,
                    0 <= px <= width,
                    width == orig.width,
                    height == orig.height,
                    w == orig.width as int,
                    h == orig.height as int,
                    maxg == self.reflection_shader.max_reflection_count as nat,
                    width < 4611686018427387904,
                    height < 4611686018427387904,
                    image@.width == orig.width,
                    image@.height == orig.height,
                    image@.pixels.len() == orig.pixels.len(),
                    orig.pixels.len() == orig.width * orig.height,
                    forall|x: int, y: int|
                        0 <= x < w && 0 <= y < h && (y < py || (y == py && x < px))
                            ==> image@.pixels[#[trigger] pix_index(x, y, w)] == expected_pixel(
                            orig.pixels[pix_index(x, y, w)],
                            &self.lens_shader,
                            maxg,
                            surface,
                            x,
                            y,
                            w,
                            h,
                        ),
                    forall|x: int, y: int|
                        0 <= x < w && 0 <= y < h && (y > py || (y == py && x >= px))
                            ==> image@.pixels[#[trigger] pix_index(x, y, w)]
                            == orig.pixels[pix_index(x, y, w)],
                decreases width - px,
            {
                let ghost before: ImageV = image@;
                Self::render_one(
                    image,
                    px,
                    py,
                    &self.lens_shader,
                    &self.reflection_shader,
                    &self.fragment_shader,
                    surface,
                );
                proof {
                    let pxi = px as int;
                    let pyi = py as int;
                    assert forall|x: int, y: int|
                        0 <= x < w && 0 <= y < h && !(x == pxi && y == pyi) implies #[trigger]
                    pix_index(x, y, w) != pix_index(pxi, pyi, w) by {
                        lemma_index_injective(x, y, pxi, pyi, w);
                    };
                    assert forall|x: int, y: int|
                        0 <= x < w && 0 <= y < h implies 0 <= #[trigger] pix_index(x, y, w)
                        < orig.pixels.len() by {
                        lemma_index_range(x, y, w, h);
                    };
                    assert(image@.pixels[pix_index(pxi, pyi, w)] == expected_pixel(
                        orig.pixels[pix_index(pxi, pyi, w)],
                        &self.lens_shader,
                        maxg,
                        surface,
                        pxi,
                        pyi,
                        w,
                        h,
                    ));
                }
                px = px + 1;
            }
            py = py + 1;
        }
    }
}

/// In-range coordinates index into the pixel store.
proof fn lemma_index_range(x: int, y: int, w: int, h: int)
    by (nonlinear_arith)
    requires
        0 <= x < w,
        0 <= y < h,
    ensures
        0 <= x + y * w < w * h,
{
}

/// Distinct in-range coordinates index distinct pixels.
proof fn lemma_index_injective(x1: int, y1: int, x2: int, y2: int, w: int)
    by (nonlinear_arith)
    requires
        0 <= x1 < w,
        0 <= x2 < w,
        0 <= y1,
        0 <= y2,
        !(x1 == x2 && y1 == y2),
    ensures
        x1 + y1 * w != x2 + y2 * w,
{
}

/// The reflection stack is bounded by the configured maximum: for a
/// positive maximum, propagation never records more hits than it.
pub proof fn lemma_reflection_bound(max: nat, ray: RayV, s: &Surface)
    requires
        1 <= max,
    ensures
        propagate_v(max, ray, s).len() <= max,
{
    lemma_reflection_len(max, ray, s, Seq::empty());
}

proof fn lemma_reflection_len(max: nat, ray: RayV, s: &Surface, stack: Seq<SurfacePointV>)
    requires
        stack.len() < max,
    ensures
        propagate_from(max, ray, s, stack).len() <= max,
    decreases max - stack.len(),
{
    match spec_intersect(s, ray) {
        None => {},
        Some(sp) => {
            let stack2 = stack.push(sp);
            match next_ray_v(max, ray, sp, stack2.len()) {
                None => {},
                Some(nray) => {
                    lemma_reflection_len(max, nray, s, stack2);
                },
            }
        },
    }
}

/// Rendering is deterministic: the frame a render produces is a
/// function of the initial frame, the shader configuration and the
/// scene alone, so two renders of the same scene into equal frames
/// agree pixel for pixel.
pub proof fn lemma_render_deterministic(
    orig: ImageV,
    f1: ImageV,
    f2: ImageV,
    lens: &LensShader,
    max: nat,
    s: &Surface,
)
    requires
        renders_to(orig, f1, lens, max, s),
        renders_to(orig, f2, lens, max, s),
    ensures
        f1.width == f2.width,
        f1.height == f2.height,
        f1.pixels == f2.pixels,
{
    let w = orig.width as int;
    let h = orig.height as int;
    assert forall|i: int| 0 <= i < f1.pixels.len() implies f1.pixels[i] == f2.pixels[i] by {
        if w > 0 {
            let x = i % w;
            let y = i / w;
            lemma_fundamental_div_mod(i, w);
            lemma_mod_division_less_than_divisor(i, w);
            lemma_div_pos_is_pos(i, w);
            assert(y < h) by (nonlinear_arith)
                requires
                    i == w * y + x,
                    0 <= x < w,
                    i < w * h,
                    0 <= y,
            ;
            assert(pix_index(x, y, w) == i) by (nonlinear_arith)
                requires
                    i == w * y + x;
            assert(f1.pixels[pix_index(x, y, w)] == f2.pixels[pix_index(x, y, w)]);
        }
    };
    assert(f1.pixels =~= f2.pixels);
}

} // verus!
