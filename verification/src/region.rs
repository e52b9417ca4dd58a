//! Rectangles, and the choice of the region that a comparison covers.

use vstd::prelude::*;

verus! {

/// A rectangular region of an image: its top-left corner and its extent.
#[derive(Clone, Copy, Debug, PartialEq, Eq, Structural)]
pub struct Rectangle {
    pub x: u32,
    pub y: u32,
    pub width: u32,
    pub height: u32,
}

impl Rectangle {
    /// Whether the rectangle lies inside an image of the given size.
    pub open spec fn fits(self, width: int, height: int) -> bool {
        self.x + self.width <= width && self.y + self.height <= height
    }

    /// The number of pixels that the rectangle covers.
    pub open spec fn area(self) -> int {
        self.width * self.height
    }

    /// The rectangle that covers all of an image of the given size.
    pub open spec fn spec_full(width: u32, height: u32) -> Rectangle {
        Rectangle { x: 0, y: 0, width, height }
    }

    /// The rectangle that covers all of an image of the given size.
    pub fn full(width: u32, height: u32) -> (r: Rectangle)
        ensures
            r == Rectangle::spec_full(width, height),
            r.fits(width as int, height as int),
    {
        Rectangle { x: 0, y: 0, width, height }
    }

    /// Decides whether the rectangle lies inside an image of the given size.
    pub fn fits_within(&self, width: u32, height: u32) -> (b: bool)
        ensures
            b == self.fits(width as int, height as int),
    {
        self.x as u64 + self.width as u64 <= width as u64 && self.y as u64 + self.height as u64
            <= height as u64
    }
}

/// The rectangles that a comparison applies to its first and to its second
/// image: the requested one for both, or else each image in full.
pub open spec fn spec_resolve(
    requested: Option<Rectangle>,
    first: (u32, u32),
    second: (u32, u32),
) -> (Rectangle, Rectangle) {
    match requested {
        Some(r) => (r, r),
        None => (Rectangle::spec_full(first.0, first.1), Rectangle::spec_full(second.0, second.1)),
    }
}

/// Chooses the region of each image. `first` and `second` are the sizes of the
/// two images as `(width, height)`.
pub fn resolve(requested: Option<Rectangle>, first: (u32, u32), second: (u32, u32)) -> (r: (
    Rectangle,
    Rectangle,
))
    ensures
        r == spec_resolve(requested, first, second),
{
    match requested {
        Some(rect) => (rect, rect),
        None => (Rectangle::full(first.0, first.1), Rectangle::full(second.0, second.1)),
    }
}

} // verus!
