//! The dirty-region transfer engine: each tick it turns the changed
//! rectangles into window transfers — one per rectangle with area — whose
//! pixel streams are extracted row-major from the framebuffer.
//!
//! The engine never touches the bus itself.  The embedder asks for the next
//! pending transfer, performs the bus write, and reports a failure back; a
//! failed write is counted and the engine moves on, so one stale rectangle
//! never stalls the rest of the tick.

use vstd::prelude::*;

use vstd::arithmetic::div_mod::lemma_fundamental_div_mod_converse;

use crate::framebuffer::Framebuffer;
use crate::framebuffer::lemma_row_major_index_in_range;
use crate::region::{DirtyRegion, Rect};

verus! {

/// The pixels of `r` read from `fb` row-major: element `i` is the pixel at
/// column `i % width`, row `i / width` of the rectangle.
pub open spec fn rect_pixel_seq(fb: Framebuffer, r: Rect) -> Seq<u16> {
    Seq::new(
        (r.width * r.height) as nat,
        |i: int|
            fb.pixel_at(r.x + i % (r.width as int), r.y + i / (r.width as int)),
    )
}

/// Read the pixels of `r` out of `fb`, row-major.
pub fn extract_rect(fb: &Framebuffer, r: &Rect) -> (pixels: Vec<u16>)
    requires
        fb.wf(),
        r.in_bounds(fb.spec_width(), fb.spec_height()),
    ensures
        pixels@ == rect_pixel_seq(*fb, *r),
{
    let mut pixels: Vec<u16> = Vec::new();
    let mut row: u32 = 0;
    while row < r.height
        invariant
            fb.wf(),
            r.in_bounds(fb.spec_width(), fb.spec_height()),
            row <= r.height,
            pixels@.len() == row * r.width,
            forall|k: int|
                0 <= k < pixels@.len() ==> pixels@[k] == rect_pixel_seq(*fb, *r)[k],
        decreases r.height - row,
    {
        let mut col: u32 = 0;
        while col < r.width
            invariant
                fb.wf(),
                r.in_bounds(fb.spec_width(), fb.spec_height()),
                row < r.height,
                col <= r.width,
                pixels@.len() == row * r.width + col,
                forall|k: int|
                    0 <= k < pixels@.len() ==> pixels@[k] == rect_pixel_seq(*fb, *r)[k],
            decreases r.width - col,
        {
            let value = fb.get_pixel(r.x + col, r.y + row);
            proof {
                let k = row * r.width + col;
                lemma_fundamental_div_mod_converse(
                    k as int,
                    r.width as int,
                    row as int,
                    col as int,
                );
                lemma_row_major_index_in_range(
                    col as int,
                    row as int,
                    r.width as int,
                    r.height as int,
                );
            }
            pixels.push(value);
            col += 1;
        }
        proof {
            assert((row + 1) * r.width == row * r.width + r.width) by (nonlinear_arith);
        }
        row += 1;
    }
    proof {
        assert(row * r.width == r.width * r.height) by (nonlinear_arith)
            requires
                row == r.height,
        ;
        assert(pixels@ =~= rect_pixel_seq(*fb, *r));
    }
    pixels
}

/// One windowed transfer: an inclusive address window and the pixel stream
/// that fills it.  The window coordinates are 16-bit because that is the width
/// of the panel's column/row address registers.
pub struct WindowTransfer {
    pub x0: u16,
    pub y0: u16,
    pub x1: u16,
    pub y1: u16,
    pub pixels: Vec<u16>,
}

/// `t` is the transfer for rectangle `r` of framebuffer `fb`: the window is
/// exactly the rectangle, and the stream holds the rectangle's pixels
/// row-major.
pub open spec fn transfer_matches(t: WindowTransfer, fb: Framebuffer, r: Rect) -> bool {
    &&& t.x0 as int == r.x as int
    &&& t.y0 as int == r.y as int
    &&& t.x1 as int == r.x + r.width - 1
    &&& t.y1 as int == r.y + r.height - 1
    &&& t.pixels@ == rect_pixel_seq(fb, r)
}

/// The rectangles of `region` that actually contain pixels, in report order.
pub open spec fn rects_with_area(region: DirtyRegion) -> Seq<Rect> {
    region.rects@.filter(|r: Rect| r.has_area())
}

/// Build the tick's transfer plan: one window transfer per rectangle with
/// area, in report order.  Rectangles with zero width or height are skipped
/// and cause no transfer.
pub fn send_dirty_region(fb: &Framebuffer, region: &DirtyRegion) -> (plan: Vec<WindowTransfer>)
    requires
        fb.wf(),
        region.wf(fb.spec_width(), fb.spec_height()),
        fb.spec_width() <= 0x10000,
        fb.spec_height() <= 0x10000,
    ensures
        plan@.len() == rects_with_area(*region).len(),
        forall|i: int|
            0 <= i < plan@.len() ==> transfer_matches(
                #[trigger] plan@[i],
                *fb,
                rects_with_area(*region)[i],
            ),
{
    let ghost pred = |r: Rect| r.has_area();
    let mut plan: Vec<WindowTransfer> = Vec::new();
    let n = region.rects.len();
    let mut i: usize = 0;
    while i < n
        invariant
            fb.wf(),
            region.wf(fb.spec_width(), fb.spec_height()),
            fb.spec_width() <= 0x10000,
            fb.spec_height() <= 0x10000,
            n == region.rects@.len(),
            i <= n,
            pred == (|r: Rect| r.has_area()),
            plan@.len() == region.rects@.take(i as int).filter(pred).len(),
            forall|k: int|
                0 <= k < plan@.len() ==> transfer_matches(
                    #[trigger] plan@[k],
                    *fb,
                    region.rects@.take(i as int).filter(pred)[k],
                ),
        decreases n - i,
    {
        let r = region.rects[i];
        proof {
            assert(region.rects@.take(i + 1) =~= region.rects@.take(i as int).push(
                region.rects@[i as int],
            ));
            region.rects@.take(i as int).lemma_filter_push(region.rects@[i as int], pred);
        }
        if r.check_has_area() {
            let pixels = extract_rect(fb, &r);
            let x1: u32 = r.x + r.width - 1;
            let y1: u32 = r.y + r.height - 1;
            let transfer = WindowTransfer {
                x0: r.x as u16,
                y0: r.y as u16,
                x1: x1 as u16,
                y1: y1 as u16,
                pixels,
            };
            plan.push(transfer);
        }
        i += 1;
    }
    proof {
        assert(region.rects@.take(n as int) =~= region.rects@);
    }
    plan
}

/// Per-tick transfer state: the plan, a cursor over it, and a count of failed
/// bus writes.  A reported failure never removes or reorders the remaining
/// transfers — the engine accepts a stale rectangle rather than stalling the
/// tick.
pub struct TransferEngine {
    transfers: Vec<WindowTransfer>,
    next_index: usize,
    failed_writes: u32,
}

impl TransferEngine {
    /// The planned transfers, in issue order.
    pub closed spec fn spec_transfers(self) -> Seq<WindowTransfer> {
        self.transfers@
    }

    /// How many transfers have been handed out so far.
    pub closed spec fn spec_next_index(self) -> int {
        self.next_index as int
    }

    /// How many bus writes were reported failed this tick.
    pub closed spec fn spec_failed_writes(self) -> u32 {
        self.failed_writes
    }

    pub open spec fn wf(self) -> bool {
        0 <= self.spec_next_index() <= self.spec_transfers().len()
    }

    /// Start a tick: plan the transfers for this region.
    pub fn begin(fb: &Framebuffer, region: &DirtyRegion) -> (engine: TransferEngine)
        requires
            fb.wf(),
            region.wf(fb.spec_width(), fb.spec_height()),
            fb.spec_width() <= 0x10000,
            fb.spec_height() <= 0x10000,
        ensures
            engine.wf(),
            engine.spec_next_index() == 0,
            engine.spec_failed_writes() == 0,
            engine.spec_transfers().len() == rects_with_area(*region).len(),
            forall|i: int|
                0 <= i < engine.spec_transfers().len() ==> transfer_matches(
                    #[trigger] engine.spec_transfers()[i],
                    *fb,
                    rects_with_area(*region)[i],
                ),
    {
        TransferEngine { transfers: send_dirty_region(fb, region), next_index: 0, failed_writes: 0 }
    }

    /// The transfer to issue next, or `None` when the tick's plan is done.
    pub fn pending(&self) -> (t: Option<&WindowTransfer>)
        requires
            self.wf(),
        ensures
            match t {
                Some(t) => {
                    &&& self.spec_next_index() < self.spec_transfers().len()
                    &&& *t == self.spec_transfers()[self.spec_next_index()]
                },
                None => self.spec_next_index() == self.spec_transfers().len(),
            },
    {
        if self.next_index < self.transfers.len() {
            Some(&self.transfers[self.next_index])
        } else {
            None
        }
    }

    /// Move past the current transfer, whether its bus write succeeded or
    /// not.
    pub fn advance(&mut self)
        requires
            old(self).wf(),
            old(self).spec_next_index() < old(self).spec_transfers().len(),
        ensures
            final(self).wf(),
            final(self).spec_transfers() == old(self).spec_transfers(),
            final(self).spec_next_index() == old(self).spec_next_index() + 1,
            final(self).spec_failed_writes() == old(self).spec_failed_writes(),
    {
        let bound: usize = self.transfers.len();
        assert(self.next_index < bound);
        self.next_index += 1;
    }

    /// Count one failed bus write.  The remaining transfers are untouched:
    /// the rest of the region is still flushed this tick.
    pub fn record_failure(&mut self)
        ensures
            final(self).spec_transfers() == old(self).spec_transfers(),
            final(self).spec_next_index() == old(self).spec_next_index(),
            final(self).spec_failed_writes() == (if old(self).spec_failed_writes() < u32::MAX {
                (old(self).spec_failed_writes() + 1) as u32
            } else {
                0u32
            }),
    {
        self.failed_writes = self.failed_writes.wrapping_add(1);
    }

    /// How many bus writes failed this tick.
    pub fn failed_writes(&self) -> (n: u32)
        ensures
            n == self.spec_failed_writes(),
    {
        self.failed_writes
    }

    /// How many transfers are still to issue.
    pub fn remaining(&self) -> (n: usize)
        requires
            self.wf(),
        ensures
            n == self.spec_transfers().len() - self.spec_next_index(),
    {
        self.transfers.len() - self.next_index
    }
}

/// Round trip through the framebuffer: after writing `value` at `(x, y)`, the
/// window transfer of any dirty rectangle whose top-left corner is `(x, y)`
/// carries `value` as the first element of its pixel stream.
pub proof fn lemma_write_then_flush_round_trip(
    fb0: Framebuffer,
    fb: Framebuffer,
    r: Rect,
    x: u32,
    y: u32,
    value: u16,
    t: WindowTransfer,
)
    requires
        fb0.wf(),
        x < fb0.spec_width(),
        y < fb0.spec_height(),
        fb.spec_width() == fb0.spec_width(),
        fb.spec_height() == fb0.spec_height(),
        fb.view() == fb0.with_pixel(x as int, y as int, value),
        r.x == x,
        r.y == y,
        r.has_area(),
        r.in_bounds(fb.spec_width(), fb.spec_height()),
        transfer_matches(t, fb, r),
    ensures
        t.pixels@.len() > 0,
        t.pixels@[0] == value,
{
    assert(r.width * r.height >= 1) by (nonlinear_arith)
        requires
            r.width >= 1,
            r.height >= 1,
    ;
    lemma_row_major_index_in_range(
        x as int,
        y as int,
        fb0.spec_width() as int,
        fb0.spec_height() as int,
    );
    assert(0int % (r.width as int) == 0);
    assert(0int / (r.width as int) == 0);
    assert(t.pixels@[0] == fb.pixel_at(x as int, y as int));
}

} // verus!
