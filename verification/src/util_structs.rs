//! Plain geometry and image value types shared by the configuration
//! structs and the frame state store.

use vstd::prelude::*;

verus! {

/// A width/height pair in physical pixels.
#[derive(Copy, Clone, PartialEq, Eq, Structural, Debug)]
pub struct AFSize2D {
    pub width: u32,
    pub height: u32,
}

/// Raw RGBA image data with its dimensions, used for window icons.
#[derive(Clone, PartialEq, Eq, Debug)]
pub struct AFImage {
    pub size: AFSize2D,
    pub data: Vec<u8>,
}

} // verus!
