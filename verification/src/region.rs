//! Dirty rectangles: the per-tick set of changed regions reported by the UI
//! runtime, fully consumed by the transfer engine within the same tick.

use vstd::prelude::*;

verus! {

/// An axis-aligned rectangle in framebuffer coordinates.
#[derive(Clone, Copy, Debug, PartialEq, Eq, Structural)]
pub struct Rect {
    pub x: u32,
    pub y: u32,
    pub width: u32,
    pub height: u32,
}

impl Rect {
    /// A rectangle that actually contains pixels.  Zero-width or zero-height
    /// rectangles are legal inputs but are skipped by the transfer engine.
    pub open spec fn has_area(self) -> bool {
        self.width > 0 && self.height > 0
    }

    /// The rectangle lies inside a `bound_w` x `bound_h` buffer.
    pub open spec fn in_bounds(self, bound_w: u32, bound_h: u32) -> bool {
        &&& self.x + self.width <= bound_w
        &&& self.y + self.height <= bound_h
    }

    /// The rectangle covers the cell `(x, y)`.
    pub open spec fn covers(self, x: int, y: int) -> bool {
        &&& self.x <= x < self.x + self.width
        &&& self.y <= y < self.y + self.height
    }

    /// No cell lies in both rectangles.
    pub open spec fn disjoint(self, other: Rect) -> bool {
        ||| self.x + self.width <= other.x
        ||| other.x + other.width <= self.x
        ||| self.y + self.height <= other.y
        ||| other.y + other.height <= self.y
    }

    /// Runtime check for [`Rect::has_area`].
    pub fn check_has_area(&self) -> (r: bool)
        ensures
            r == self.has_area(),
    {
        self.width > 0 && self.height > 0
    }

    /// Runtime check for [`Rect::in_bounds`].
    pub fn check_in_bounds(&self, bound_w: u32, bound_h: u32) -> (r: bool)
        ensures
            r == self.in_bounds(bound_w, bound_h),
    {
        let x_end: u64 = (self.x as u64) + (self.width as u64);
        let y_end: u64 = (self.y as u64) + (self.height as u64);
        x_end <= bound_w as u64 && y_end <= bound_h as u64
    }
}

/// The ordered set of changed rectangles produced once per tick.  The UI
/// runtime's own diffing guarantees that distinct rectangles never overlap;
/// processing order is the reported order.
pub struct DirtyRegion {
    pub rects: Vec<Rect>,
}

impl DirtyRegion {
    /// Well-formedness: every rectangle lies inside the buffer, and no two
    /// rectangles with area overlap.
    pub open spec fn wf(self, bound_w: u32, bound_h: u32) -> bool {
        &&& forall|i: int|
            0 <= i < self.rects@.len() ==> (#[trigger] self.rects@[i]).in_bounds(bound_w, bound_h)
        &&& forall|i: int, j: int|
            #![trigger self.rects@[i], self.rects@[j]]
            0 <= i < self.rects@.len() && 0 <= j < self.rects@.len() && i != j
                ==> self.rects@[i].disjoint(self.rects@[j])
    }

    pub fn new() -> (region: DirtyRegion)
        ensures
            region.rects@.len() == 0,
    {
        DirtyRegion { rects: Vec::new() }
    }

    /// Runtime check for [`DirtyRegion::wf`], for callers that receive the
    /// rectangle list from an unverified source.
    pub fn check_wf(&self, bound_w: u32, bound_h: u32) -> (r: bool)
        ensures
            r == self.wf(bound_w, bound_h),
    {
        let n = self.rects.len();
        let mut i: usize = 0;
        while i < n
            invariant
                n == self.rects@.len(),
                i <= n,
                forall|k: int| 0 <= k < i ==> (#[trigger] self.rects@[k]).in_bounds(
                    bound_w,
                    bound_h,
                ),
                forall|k: int, l: int|
                    #![trigger self.rects@[k], self.rects@[l]]
                    0 <= k < i && 0 <= l < n && k != l ==> self.rects@[k].disjoint(
                        self.rects@[l],
                    ),
            decreases n - i,
        {
            let ri = self.rects[i];
            if !ri.check_in_bounds(bound_w, bound_h) {
                return false;
            }
            let mut j: usize = 0;
            while j < n
                invariant
                    n == self.rects@.len(),
                    i < n,
                    j <= n,
                    ri == self.rects@[i as int],
                    forall|l: int|
                        0 <= l < j && l != i ==> (#[trigger] self.rects@[l]).disjoint(
                            self.rects@[i as int],
                        ),
                decreases n - j,
            {
                if j != i {
                    let rj = self.rects[j];
                    let separated = {
                        ||| (ri.x as u64) + (ri.width as u64) <= rj.x as u64
                        ||| (rj.x as u64) + (rj.width as u64) <= ri.x as u64
                        ||| (ri.y as u64) + (ri.height as u64) <= rj.y as u64
                        ||| (rj.y as u64) + (rj.height as u64) <= ri.y as u64
                    };
                    if !separated {
                        return false;
                    }
                }
                j += 1;
            }
            i += 1;
        }
        true
    }
}

} // verus!
