//! Images held in memory as a grid of pixels.

use vstd::prelude::*;
use vstd::arithmetic::mul::*;
use crate::pixel::Pixel;

verus! {

/// Offset of the pixel at column `x` and row `y` in a row-major grid with
/// rows of `width` pixels.
pub open spec fn offset(width: int, x: int, y: int) -> int {
    y * width + x
}

/// A pixel inside a `width` by `height` grid has its offset below the number
/// of pixels of the grid.
pub proof fn lemma_offset_in_grid(width: int, height: int, x: int, y: int)
    requires
        0 <= x < width,
        0 <= y < height,
    ensures
        0 <= y * width,
        0 <= offset(width, x, y) < width * height,
{
    lemma_mul_nonnegative(y, width);
    lemma_mul_inequality(y + 1, height, width);
    lemma_mul_is_distributive_add_other_way(width, y, 1);
}

/// A rectangular grid of pixels, stored row by row.
#[derive(Debug)]
pub struct Image {
    width: u32,
    height: u32,
    pixels: Vec<Pixel>,
}

impl Image {
    /// The number of columns.
    pub closed spec fn spec_width(&self) -> u32 {
        self.width
    }

    /// The number of rows.
    pub closed spec fn spec_height(&self) -> u32 {
        self.height
    }

    /// The pixels, row by row.
    pub closed spec fn view(&self) -> Seq<Pixel> {
        self.pixels@
    }

    /// An image holds exactly one pixel for each cell of its grid.
    #[verifier::type_invariant]
    pub closed spec fn wf(&self) -> bool {
        self.pixels@.len() == self.width * self.height
    }

    /// The pixel at column `x` and row `y`.
    pub open spec fn pixel_at(&self, x: int, y: int) -> Pixel {
        self@[offset(self.spec_width() as int, x, y)]
    }

    /// Makes an image from its pixels, given row by row. There is an image
    /// exactly when the number of pixels is `width * height`.
    pub fn new(width: u32, height: u32, pixels: Vec<Pixel>) -> (r: Option<Image>)
        ensures
            r is Some <==> pixels@.len() == width * height,
            r matches Some(img) ==> img.wf() && img.spec_width() == width && img.spec_height()
                == height && img@ == pixels@,
    {
        assert(width * height <= u64::MAX) by (nonlinear_arith)
            requires
                width <= u32::MAX,
                height <= u32::MAX,
        ;
        let cells: u64 = width as u64 * height as u64;
        if pixels.len() as u64 == cells {
            Some(Image { width, height, pixels })
        } else {
            None
        }
    }

    /// The number of columns.
    pub fn width(&self) -> (w: u32)
        ensures
            w == self.spec_width(),
    {
        self.width
    }

    /// The number of rows.
    pub fn height(&self) -> (h: u32)
        ensures
            h == self.spec_height(),
    {
        self.height
    }

    /// The size as `(width, height)`.
    pub fn dimensions(&self) -> (d: (u32, u32))
        ensures
            d == (self.spec_width(), self.spec_height()),
    {
        (self.width, self.height)
    }

    /// The pixel at column `x` and row `y`, for a position inside the image.
    pub fn pixel(&self, x: u32, y: u32) -> (p: Pixel)
        requires
            x < self.spec_width(),
            y < self.spec_height(),
        ensures
            p == self.pixel_at(x as int, y as int),
    {
        proof {
            use_type_invariant(self);
            lemma_offset_in_grid(self.width as int, self.height as int, x as int, y as int);
            assert(self.pixels@.len() == self.pixels.len());
        }
        let i: usize = y as usize * self.width as usize + x as usize;
        self.pixels[i]
    }

    /// The pixel at column `x` and row `y`, if the position is inside the
    /// image.
    pub fn get_pixel(&self, x: u32, y: u32) -> (p: Option<Pixel>)
        ensures
            p is Some <==> x < self.spec_width() && y < self.spec_height(),
            p matches Some(q) ==> q == self.pixel_at(x as int, y as int),
    {
        if x < self.width && y < self.height {
            Some(self.pixel(x, y))
        } else {
            None
        }
    }
}

} // verus!
