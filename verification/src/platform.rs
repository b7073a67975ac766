//! Fixed platform parameters: the logical window size shared by the transfer
//! engine and the input dispatcher.
//!
//! The panel is physically portrait (320 x 480) but is driven rotated, so the
//! logical window seen by the renderer and the touch remapping is landscape
//! (480 wide, 320 tall).  Both values are configuration constants, never
//! negotiated at runtime.

use vstd::prelude::*;

verus! {

/// Logical display width in pixels (landscape).
pub const DISPLAY_WIDTH: u32 = 480;

/// Logical display height in pixels (landscape).
pub const DISPLAY_HEIGHT: u32 = 320;

/// The fixed logical window size handed to the UI runtime at construction.
pub fn logical_window_size() -> (size: (u32, u32))
    ensures
        size.0 == DISPLAY_WIDTH,
        size.1 == DISPLAY_HEIGHT,
{
    (DISPLAY_WIDTH, DISPLAY_HEIGHT)
}

} // verus!
