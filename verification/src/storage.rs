//! Sizing and validation for the persisted images.  The flash filesystem and
//! key-value store themselves are the embedder's; a loaded byte buffer only
//! enters the render path after the exact-size check here.

use vstd::prelude::*;

verus! {

/// Avatar image width in pixels, matching the UI's container.
pub const AVATAR_WIDTH: u32 = 150;

/// Avatar image height in pixels.
pub const AVATAR_HEIGHT: u32 = 150;

/// Byte size of a raw 24-bit avatar image: 150 x 150 pixels, three bytes
/// each.
pub const AVATAR_IMAGE_SIZE: usize = 150 * 150 * 3;

/// Byte size of a raw 24-bit full-display background image: 480 x 320
/// pixels, three bytes each.
pub const BACKGROUND_IMAGE_SIZE: usize = 480 * 320 * 3;

/// Accept a loaded image buffer only at its exact expected size; anything
/// else — a truncated read, a stale file from another layout — is dropped.
pub fn accept_image(data: Vec<u8>, expected_size: usize) -> (image: Option<Vec<u8>>)
    ensures
        match image {
            Some(accepted) => {
                &&& data@.len() == expected_size
                &&& accepted@ == data@
            },
            None => data@.len() != expected_size,
        },
{
    if data.len() == expected_size {
        Some(data)
    } else {
        None
    }
}

} // verus!
