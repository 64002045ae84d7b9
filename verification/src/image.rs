//! A rendered page as the host takes it.
use vstd::prelude::*;

verus! {

/// One pixel, with straight (not premultiplied) alpha.
#[derive(Clone, Copy, Debug, PartialEq, Eq)]
pub struct RgbaPixel {
    pub r: u8,
    pub g: u8,
    pub b: u8,
    pub a: u8,
}

/// A rendered page: `width` times `height` pixels, row by row.
pub struct RenderedImage {
    pub width: u32,
    pub height: u32,
    pub data: Vec<RgbaPixel>,
}

} // verus!
