//! The RGBA8 framebuffer: a width x height pixel grid in row-major order,
//! a current-color register, a pixel-set operation that can only write in
//! bounds, and a full-buffer clear.

use vstd::prelude::*;
use crate::color::Rgba8;

verus! {

/// The mathematical model of a framebuffer.
pub struct FbV {
    pub width: int,
    pub height: int,
    pub data: Seq<Rgba8>,
    pub current: Rgba8,
}

/// A width x height grid of RGBA8 pixels with a current-color register.
pub struct Framebuffer {
    pub width: usize,
    pub height: usize,
    pub data: Vec<Rgba8>,
    pub current: Rgba8,
}

impl View for Framebuffer {
    type V = FbV;

    open spec fn view(&self) -> FbV {
        FbV {
            width: self.width as int,
            height: self.height as int,
            data: self.data@,
            current: self.current,
        }
    }
}

/// A well-formed framebuffer: positive bounded dimensions, one pixel per cell.
pub open spec fn fb_wf(f: FbV) -> bool {
    &&& 1 <= f.width <= 16384
    &&& 1 <= f.height <= 16384
    &&& f.data.len() == f.width * f.height
}

/// The index of pixel `(x, y)` in row-major order.
pub open spec fn pixel_index(f: FbV, x: int, y: int) -> int {
    y * f.width + x
}

/// Row-major pixel indices stay inside the buffer.
pub proof fn lemma_pixel_index_in_range(f: FbV, x: int, y: int)
    requires
        fb_wf(f),
        0 <= x < f.width,
        0 <= y < f.height,
    ensures
        0 <= pixel_index(f, x, y) < f.data.len(),
{
    assert(y * f.width + x < f.height * f.width) by (nonlinear_arith)
        requires
            0 <= x < f.width,
            0 <= y < f.height,
    ;
    assert(f.height * f.width == f.width * f.height) by (nonlinear_arith);
    assert(0 <= y * f.width) by (nonlinear_arith)
        requires
            0 <= y,
            0 <= f.width,
    ;
}

impl Framebuffer {
    /// Builds a cleared framebuffer: every pixel opaque black.
    pub fn new(width: usize, height: usize) -> (f: Framebuffer)
        requires
            1 <= width <= 16384,
            1 <= height <= 16384,
        ensures
            fb_wf(f@),
            f@.width == width as int,
            f@.height == height as int,
            f@.current == (Rgba8 { r: 0, g: 0, b: 0, a: 255 }),
            forall|i: int|
                0 <= i < f@.data.len() ==> f@.data[i] == (Rgba8 { r: 0, g: 0, b: 0, a: 255 }),
    {
        let black = Rgba8 { r: 0, g: 0, b: 0, a: 255 };
        proof {
            assert((width as int) * (height as int) <= 16384 * 16384) by (nonlinear_arith)
                requires
                    0 <= (width as int) <= 16384,
                    0 <= (height as int) <= 16384,
            ;
        }
        let n = width * height;
        let mut data: Vec<Rgba8> = Vec::new();
        let mut i: usize = 0;
        while i < n
            invariant
                i <= n,
                black == (Rgba8 { r: 0, g: 0, b: 0, a: 255 }),
                data@.len() == i as int,
                forall|j: int| 0 <= j < i ==> data@[j] == (Rgba8 { r: 0, g: 0, b: 0, a: 255 }),
            decreases n - i,
        {
            data.push(black);
            proof {
                assert(data@[i as int] == black);
            }
            i = i + 1;
        }
        Framebuffer { width, height, data, current: black }
    }

    /// Sets the current color used by `set_pixel` and `clear`.
    pub fn set_current_color(&mut self, color: Rgba8)
        ensures
            final(self).width == old(self).width,
            final(self).height == old(self).height,
            final(self)@.data == old(self)@.data,
            final(self)@.current == color,
    {
        self.current = color;
    }

    /// Writes the current color at `(x, y)`; all other pixels keep their value.
    pub fn set_pixel(&mut self, x: usize, y: usize)
        requires
            fb_wf(old(self)@),
            x < old(self)@.width,
            y < old(self)@.height,
        ensures
            fb_wf(final(self)@),
            final(self).width == old(self).width,
            final(self).height == old(self).height,
            final(self)@.current == old(self)@.current,
            final(self)@.data == old(self)@.data.update(
                pixel_index(old(self)@, x as int, y as int),
                old(self)@.current,
            ),
    {
        proof {
            lemma_pixel_index_in_range(self@, x as int, y as int);
            assert((y as int) * (self.width as int) <= 16383 * 16384) by (nonlinear_arith)
                requires
                    0 <= (y as int) <= 16383,
                    0 <= (self.width as int) <= 16384,
            ;
        }
        let idx = y * self.width + x;
        self.data[idx] = self.current;
    }

    /// Fills the whole buffer with the current color.
    pub fn clear(&mut self)
        requires
            fb_wf(old(self)@),
        ensures
            fb_wf(final(self)@),
            final(self).width == old(self).width,
            final(self).height == old(self).height,
            final(self)@.current == old(self)@.current,
            final(self)@.data.len() == old(self)@.data.len(),
            forall|i: int|
                0 <= i < final(self)@.data.len() ==> final(self)@.data[i] == old(
                    self,
                )@.current,
    {
        let n = self.data.len();
        let mut i: usize = 0;
        while i < n
            invariant
                i <= n,
                self@.data.len() == n as int,
                self.width == old(self).width,
                self.height == old(self).height,
                self@.current == old(self)@.current,
                forall|j: int| 0 <= j < i ==> self@.data[j] == old(self)@.current,
            decreases n - i,
        {
            self.data[i] = self.current;
            i = i + 1;
        }
    }
}

} // verus!
