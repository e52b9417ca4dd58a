//! Pixels and their intensity.

use vstd::prelude::*;

verus! {

/// Weight of the red channel in the luma of a pixel, in ten-thousandths.
pub const LUMA_RED: u32 = 2126;

/// Weight of the green channel in the luma of a pixel, in ten-thousandths.
pub const LUMA_GREEN: u32 = 7152;

/// Weight of the blue channel in the luma of a pixel, in ten-thousandths.
pub const LUMA_BLUE: u32 = 722;

/// Sum of the three channel weights.
pub const LUMA_SCALE: u32 = 10000;

/// An 8-bit pixel with red, green, blue and alpha channels.
#[derive(Clone, Copy, Debug, PartialEq, Eq, Structural)]
pub struct Pixel {
    pub r: u8,
    pub g: u8,
    pub b: u8,
    pub a: u8,
}

/// The luma of the colour `(r, g, b)`: the weighted channel sum, divided by
/// the total weight and rounded down.
pub open spec fn luma(r: u8, g: u8, b: u8) -> int {
    (LUMA_RED * r + LUMA_GREEN * g + LUMA_BLUE * b) / (LUMA_SCALE as int)
}

/// Calls `image::Pixel::to_luma` on the `image::Rgba<u8>` made of the four
/// channels and returns the single channel of the result. For 8-bit channels
/// the `image` crate computes `(2126 r + 7152 g + 722 b) / 10000` in `u32`
/// and narrows the quotient, which never exceeds 255; alpha plays no part.
#[verifier::external_body]
fn rgba_to_luma(r: u8, g: u8, b: u8, a: u8) -> (l: u8)
    ensures
        l == luma(r, g, b),
{
    image::Pixel::to_luma(&image::Rgba([r, g, b, a])).0[0]
}

impl Pixel {
    /// The intensity of this pixel as a specification value.
    pub open spec fn spec_intensity(self) -> int {
        luma(self.r, self.g, self.b)
    }

    /// An opaque pixel with the given channels.
    pub fn rgb(r: u8, g: u8, b: u8) -> (p: Pixel)
        ensures
            p == (Pixel { r, g, b, a: 255 }),
    {
        Pixel { r, g, b, a: 255 }
    }

    /// An opaque grey pixel of the given level.
    pub fn grey(level: u8) -> (p: Pixel)
        ensures
            p == (Pixel { r: level, g: level, b: level, a: 255 }),
            p.spec_intensity() == level,
    {
        Pixel { r: level, g: level, b: level, a: 255 }
    }

    /// The intensity of this pixel: the luma of its colour.
    pub fn intensity(&self) -> (l: u8)
        ensures
            l == self.spec_intensity(),
    {
        rgba_to_luma(self.r, self.g, self.b, self.a)
    }
}

} // verus!
