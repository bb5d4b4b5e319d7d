//! The framebuffer: a width-by-height grid of colors with
//! bounds-checked painting.  Out-of-range writes are silently
//! ignored, not errors.

use vstd::prelude::*;
use crate::color::{c_black, cv_wf, Color, ColorV};

verus! {

/// The mathematical content of a framebuffer: its resolution and the
/// row-major sequence of pixel colors.
pub ghost struct ImageV {
    pub width: nat,
    pub height: nat,
    pub pixels: Seq<ColorV>,
}

/// Well-formedness: the pixel store matches the resolution.
pub open spec fn img_wf(v: ImageV) -> bool {
    v.pixels.len() == v.width * v.height && (forall|i: int|
        0 <= i < v.pixels.len() ==> cv_wf(#[trigger] v.pixels[i]))
}

/// A bounds-checked write: out-of-range coordinates change nothing.
pub open spec fn paint_v(img: ImageV, x: int, y: int, c: ColorV) -> ImageV {
    if 0 <= x < img.width && 0 <= y < img.height {
        ImageV { width: img.width, height: img.height, pixels: img.pixels.update(x + y * img.width, c) }
    } else {
        img
    }
}

/// The folded effect of a list of writes, applied in order.
pub open spec fn paint_fold(img: ImageV, info: Seq<(usize, usize, Color)>, i: int) -> ImageV
    decreases info.len() - i,
{
    if 0 <= i < info.len() {
        paint_fold(paint_v(img, info[i].0 as int, info[i].1 as int, info[i].2@), info, i + 1)
    } else {
        img
    }
}

/// Every queued color is well-formed.
pub open spec fn info_wf(info: Seq<(usize, usize, Color)>) -> bool {
    forall|i: int| 0 <= i < info.len() ==> cv_wf((#[trigger] info[i]).2@)
}

/// A framebuffer owned by the render orchestrator.
pub struct Image {
    width: usize,
    height: usize,
    pixels: Vec<Color>,
}

impl View for Image {
    type V = ImageV;

    closed spec fn view(&self) -> ImageV {
        ImageV {
            width: self.width as nat,
            height: self.height as nat,
            pixels: self.pixels@.map_values(|c: Color| c@),
        }
    }
}

proof fn lemma_map_update(s: Seq<Color>, i: int, c: Color)
    requires
        0 <= i < s.len(),
    ensures
        s.update(i, c).map_values(|x: Color| x@) == s.map_values(|x: Color| x@).update(i, c@),
{
    assert(s.update(i, c).map_values(|x: Color| x@) =~= s.map_values(|x: Color| x@).update(
        i,
        c@,
    ));
}

impl Image {
    pub open spec fn wf(&self) -> bool {
        img_wf(self@)
    }

    /// A black framebuffer of the given resolution.
    pub fn new(width: usize, height: usize) -> (r: Image)
        requires
            width * height <= usize::MAX,
        ensures
            r@.width == width,
            r@.height == height,
            r@.pixels.len() == width * height,
            forall|i: int| 0 <= i < r@.pixels.len() ==> r@.pixels[i] == c_black(),
            r.wf(),
    {
        let count: usize = width * height;
        let mut pixels: Vec<Color> = Vec::new();
        let mut i: usize = 0;
        while i < count
            invariant
                0 <= i <= count,
                pixels@.len() == i,
                forall|k: int| 0 <= k < i ==> (#[trigger] pixels@[k])@ == c_black(),
            decreases count - i,
        {
            pixels.push(Color::black());
            i = i + 1;
        }
        Image { width, height, pixels }
    }

    /// Paints one pixel; out-of-range coordinates are ignored.
    pub fn paint(&mut self, x: usize, y: usize, color: Color)
        requires
            old(self).wf(),
            color.wf(),
        ensures
            final(self)@ == paint_v(old(self)@, x as int, y as int, color@),
            final(self).wf(),
    {
        if x < self.width && y < self.height {
            let n = self.pixels.len();
            proof {
                assert(y * self.width + x < self.width * self.height) by (nonlinear_arith)
                    requires
                        0 <= x < self.width,
                        0 <= y < self.height;
                lemma_map_update(self.pixels@, x + y * self.width, color);
            }
            let idx: usize = x + y * self.width;
            self.pixels.set(idx, color);
        }
    }

    /// Applies a list of queued writes in order.
    pub fn paint_all(&mut self, info: Vec<(usize, usize, Color)>)
        requires
            old(self).wf(),
            info_wf(info@),
        ensures
            final(self)@ == paint_fold(old(self)@, info@, 0),
            final(self).wf(),
    {
        let ghost orig: ImageV = self@;
        let n = info.len();
        let mut i: usize = 0;
        while i < n
            invariant
                0 <= i <= n,
                n == info@.len(),
                info_wf(info@),
                self.wf(),
                paint_fold(self@, info@, i as int) == paint_fold(orig, info@, 0),
            decreases n - i,
        {
            let (x, y, color) = info[i];
            self.paint(x, y, color);
            i = i + 1;
        }
    }

    /// Resets every pixel to black.
    pub fn clear(&mut self)
        requires
            old(self).wf(),
        ensures
            final(self)@.width == old(self)@.width,
            final(self)@.height == old(self)@.height,
            final(self)@.pixels.len() == old(self)@.pixels.len(),
            forall|i: int| 0 <= i < final(self)@.pixels.len() ==> final(self)@.pixels[i] == c_black(),
            final(self).wf(),
    {
        let n = self.pixels.len();
        let mut i: usize = 0;
        while i < n
            invariant
                0 <= i <= n,
                n == self.pixels@.len(),
                self@.width == old(self)@.width,
                self@.height == old(self)@.height,
                self.wf(),
                forall|k: int| 0 <= k < i ==> self@.pixels[k] == c_black(),
            decreases n - i,
        {
            let black = Color::black();
            proof {
                lemma_map_update(self.pixels@, i as int, black);
            }
            self.pixels.set(i, black);
            i = i + 1;
        }
    }

    /// The color at a coordinate, or nothing out of range.
    pub fn color_at(&self, x: usize, y: usize) -> (r: Option<Color>)
        requires
            self.wf(),
        ensures
            (match r {
                Some(c) => x < self@.width && y < self@.height && c@ == self@.pixels[x + y
                    * self@.width] && c.wf(),
                None => !(x < self@.width && y < self@.height),
            }),
    {
        if !self.is_coordinate_valid(x, y) {
            return None;
        }
        let n = self.pixels.len();
        proof {
            assert(y * self.width + x < self.width * self.height) by (nonlinear_arith)
                requires
                    0 <= x < self.width,
                    0 <= y < self.height;
        }
        Some(self.pixels[x + y * self.width])
    }

    pub fn width(&self) -> (r: usize)
        ensures
            r == self@.width,
    {
        self.width
    }

    pub fn height(&self) -> (r: usize)
        ensures
            r == self@.height,
    {
        self.height
    }

    pub fn resolution(&self) -> (r: (usize, usize))
        ensures
            r.0 == self@.width,
            r.1 == self@.height,
    {
        (self.width, self.height)
    }

    pub fn pixel_count(&self) -> (r: usize)
        requires
            self.wf(),
        ensures
            r == self@.width * self@.height,
    {
        let n = self.pixels.len();
        self.width * self.height
    }

    pub fn is_coordinate_valid(&self, x: usize, y: usize) -> (r: bool)
        ensures
            r == (x < self@.width && y < self@.height),
    {
        x < self.width && y < self.height
    }

    /// An iterator over pixel coordinates.
    pub fn pixel_positions(&self) -> (r: PixelPositionIterator)
        ensures
            r.x == 0 && r.y == 0 && r.width == self@.width && r.height == self@.height,
    {
        PixelPositionIterator { x: 0, y: 0, width: self.width, height: self.height }
    }
}

/// Walks pixel coordinates row by row, yielding every valid
/// coordinate of the resolution exactly once.
pub struct PixelPositionIterator {
    pub x: usize,
    pub y: usize,
    pub width: usize,
    pub height: usize,
}

/// The row-wrap step: a cursor past the row end moves to the start
/// of the next row (the row index saturating at the height).
pub open spec fn ppi_wrapped(s: PixelPositionIterator) -> PixelPositionIterator {
    if s.x >= s.width {
        PixelPositionIterator {
            x: 0,
            y: if s.y < s.height {
                (s.y + 1) as usize
            } else {
                s.y
            },
            width: s.width,
            height: s.height,
        }
    } else {
        s
    }
}

impl PixelPositionIterator {
    /// The coordinate under the cursor, advancing past it; nothing
    /// once the rows are exhausted.  Every yielded coordinate is in
    /// range for the resolution.
    pub fn next(&mut self) -> (r: Option<(usize, usize)>)
        ensures
            ({
                let m = ppi_wrapped(*old(self));
                if m.y >= m.height || m.width == 0 {
                    r is None && *final(self) == m
                } else {
                    r == Some((m.x, m.y)) && *final(self) == (PixelPositionIterator {
                        x: (m.x + 1) as usize,
                        y: m.y,
                        width: m.width,
                        height: m.height,
                    })
                }
            }),
            r matches Some(p) ==> p.0 < old(self).width && p.1 < old(self).height,
    {
        if self.x >= self.width {
            self.x = 0;
            if self.y < self.height {
                self.y = self.y + 1;
            }
        }
        if self.y >= self.height || self.width == 0 {
            return None;
        }
        let result = (self.x, self.y);
        self.x = self.x + 1;
        Some(result)
    }
}

} // verus!
