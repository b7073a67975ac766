//! The framebuffer store: one fixed-size, row-major sequence of packed RGB565
//! pixels, allocated once at startup and never resized.
//!
//! The UI runtime writes pixels through [`Framebuffer::set_pixel`]; the
//! transfer engine only reads.  On the device the backing memory lives in the
//! bulk (slow) RAM domain so that the fast, bus-capable RAM stays free for the
//! staging buffer; placement is the embedder's concern and does not change the
//! contracts here.

use vstd::prelude::*;

use crate::platform::{DISPLAY_HEIGHT, DISPLAY_WIDTH};

verus! {

/// A width x height pixel store, row-major: the pixel at `(x, y)` lives at
/// index `y * width + x`.
pub struct Framebuffer {
    pixels: Vec<u16>,
    width: u32,
    height: u32,
}

impl Framebuffer {
    /// The pixel contents, row-major.
    pub closed spec fn view(self) -> Seq<u16> {
        self.pixels@
    }

    pub closed spec fn spec_width(self) -> u32 {
        self.width
    }

    pub closed spec fn spec_height(self) -> u32 {
        self.height
    }

    /// The length invariant: exactly width x height cells, for the lifetime
    /// of the value.
    pub open spec fn wf(self) -> bool {
        self.view().len() == self.spec_width() * self.spec_height()
    }

    /// The pixel at `(x, y)`.
    pub open spec fn pixel_at(self, x: int, y: int) -> u16 {
        self.view()[y * self.spec_width() + x]
    }

    /// The contents after one pixel write at `(x, y)`.
    pub open spec fn with_pixel(self, x: int, y: int, value: u16) -> Seq<u16> {
        self.view().update(y * self.spec_width() + x, value)
    }

    pub fn width(&self) -> (w: u32)
        ensures
            w == self.spec_width(),
    {
        self.width
    }

    pub fn height(&self) -> (h: u32)
        ensures
            h == self.spec_height(),
    {
        self.height
    }

    /// Allocate a zero-filled `width` x `height` store.
    pub fn new(width: u32, height: u32) -> (fb: Framebuffer)
        requires
            width * height <= usize::MAX,
        ensures
            fb.wf(),
            fb.spec_width() == width,
            fb.spec_height() == height,
            forall|i: int| 0 <= i < fb.view().len() ==> fb.view()[i] == 0u16,
    {
        let total: usize = (width as usize) * (height as usize);
        let mut pixels: Vec<u16> = Vec::new();
        while pixels.len() < total
            invariant
                pixels@.len() <= total,
                forall|i: int| 0 <= i < pixels@.len() ==> pixels@[i] == 0u16,
            decreases total - pixels@.len(),
        {
            pixels.push(0u16);
        }
        Framebuffer { pixels, width, height }
    }

    /// Write one pixel.  Only the cell at `(x, y)` changes.
    pub fn set_pixel(&mut self, x: u32, y: u32, value: u16)
        requires
            old(self).wf(),
            x < old(self).spec_width(),
            y < old(self).spec_height(),
        ensures
            final(self).wf(),
            final(self).spec_width() == old(self).spec_width(),
            final(self).spec_height() == old(self).spec_height(),
            final(self).view() == old(self).with_pixel(x as int, y as int, value),
    {
        proof {
            lemma_row_major_index_in_range(
                x as int,
                y as int,
                old(self).spec_width() as int,
                old(self).spec_height() as int,
            );
        }
        let total: usize = self.pixels.len();
        let index: usize = (y as usize) * (self.width as usize) + (x as usize);
        assert(index < total);
        self.pixels[index] = value;
    }

    /// Read one pixel.
    pub fn get_pixel(&self, x: u32, y: u32) -> (value: u16)
        requires
            self.wf(),
            x < self.spec_width(),
            y < self.spec_height(),
        ensures
            value == self.pixel_at(x as int, y as int),
    {
        proof {
            lemma_row_major_index_in_range(
                x as int,
                y as int,
                self.spec_width() as int,
                self.spec_height() as int,
            );
        }
        let total: usize = self.pixels.len();
        let index: usize = (y as usize) * (self.width as usize) + (x as usize);
        assert(index < total);
        self.pixels[index]
    }
}

/// A row-major index computed from in-bounds coordinates lands inside the
/// buffer.
pub proof fn lemma_row_major_index_in_range(x: int, y: int, width: int, height: int)
    requires
        0 <= x < width,
        0 <= y < height,
    ensures
        0 <= y * width + x < width * height,
{
    assert(y * width + x < width * height) by (nonlinear_arith)
        requires
            0 <= x < width,
            0 <= y < height,
    ;
    assert(y * width + x >= 0) by (nonlinear_arith)
        requires
            0 <= x,
            0 <= y,
            0 < width,
    ;
}

/// Allocate the full-display framebuffer, zero-filled, sized to the logical
/// window.  Performed once at startup; the embedder aborts if the backing
/// memory cannot be had, since the badge has no useful mode without a display
/// buffer.
pub fn allocate_framebuffer() -> (fb: Framebuffer)
    ensures
        fb.wf(),
        fb.spec_width() == DISPLAY_WIDTH,
        fb.spec_height() == DISPLAY_HEIGHT,
        forall|i: int| 0 <= i < fb.view().len() ==> fb.view()[i] == 0u16,
{
    Framebuffer::new(DISPLAY_WIDTH, DISPLAY_HEIGHT)
}

} // verus!
