//! Plain data carried by the texture pipeline.
//!
//! Texture upload and filtering run against the graphics context outside this
//! crate; only the raw pixel payload and the texture error vocabulary are
//! data this core owns.
use vstd::prelude::*;

verus! {

/// Raw pixels handed to a texture upload: `bytes` holds the rows of a
/// `width` by `height` image.
#[derive(Clone, Debug)]
pub struct ImagePixelData {
    pub width: u32,
    pub height: u32,
    pub bytes: Vec<u8>,
}

/// Fatal texture failures surfaced to the caller.
#[derive(Clone, Copy, Debug, PartialEq, Eq, Structural)]
pub enum TextureError {
    CreationFailed,
    DataUploadFailed,
}

} // verus!
