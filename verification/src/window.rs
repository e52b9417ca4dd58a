//! Windows: read-only views of a rectangular region of an image.

use vstd::prelude::*;
use vstd::arithmetic::div_mod::*;
use crate::pixel::Pixel;
use crate::raster::{lemma_offset_in_grid, Image};
use crate::region::Rectangle;

verus! {

/// The pixels of `image` that `rect` covers, row by row.
pub open spec fn region_pixels(image: Image, rect: Rectangle) -> Seq<Pixel> {
    Seq::new(
        rect.area() as nat,
        |i: int| image.pixel_at(rect.x + i % (rect.width as int), rect.y + i / (rect.width as int)),
    )
}

/// The intensities of the pixels of `image` that `rect` covers, row by row.
pub open spec fn region_intensities(image: Image, rect: Rectangle) -> Seq<int> {
    Seq::new(rect.area() as nat, |i: int| region_pixels(image, rect)[i].spec_intensity())
}

/// A view of the part of an image that a rectangle covers. It borrows the
/// image and copies no pixel.
pub struct Window<'a> {
    image: &'a Image,
    rect: Rectangle,
}

impl<'a> Window<'a> {
    /// The image that the window looks into.
    pub closed spec fn source(&self) -> Image {
        *self.image
    }

    /// The region of the image that the window shows.
    pub closed spec fn region(&self) -> Rectangle {
        self.rect
    }

    /// A window lies inside its image.
    #[verifier::type_invariant]
    pub closed spec fn wf(&self) -> bool {
        self.image.wf() && self.rect.fits(
            self.image.spec_width() as int,
            self.image.spec_height() as int,
        )
    }

    /// The number of columns of the window.
    pub open spec fn spec_width(&self) -> u32 {
        self.region().width
    }

    /// The number of rows of the window.
    pub open spec fn spec_height(&self) -> u32 {
        self.region().height
    }

    /// The pixel at column `x` and row `y` of the window.
    pub open spec fn pixel_at(&self, x: int, y: int) -> Pixel {
        self.source().pixel_at(self.region().x + x, self.region().y + y)
    }

    /// The pixels of the window, row by row.
    pub open spec fn view(&self) -> Seq<Pixel> {
        region_pixels(self.source(), self.region())
    }

    /// The intensities of the pixels of the window, row by row.
    pub open spec fn intensities(&self) -> Seq<int> {
        region_intensities(self.source(), self.region())
    }

    /// The pixel at column `x` and row `y` of a window stands at place
    /// `y * width + x` of its view.
    pub proof fn lemma_view_index(&self, x: int, y: int)
        requires
            0 <= x < self.spec_width(),
            0 <= y < self.spec_height(),
        ensures
            0 <= y * self.spec_width() + x < self@.len(),
            self@[y * self.spec_width() + x] == self.pixel_at(x, y),
            self.intensities()[y * self.spec_width() + x] == self.pixel_at(x, y).spec_intensity(),
    {
        let w = self.spec_width() as int;
        lemma_offset_in_grid(w, self.spec_height() as int, x, y);
        lemma_fundamental_div_mod_converse(y * w + x, w, y, x);
    }

    /// Takes the window that `rect` covers in `image`. There is one exactly
    /// when the rectangle lies inside the image.
    pub fn new(image: &'a Image, rect: Rectangle) -> (r: Option<Window<'a>>)
        ensures
            r is Some <==> rect.fits(image.spec_width() as int, image.spec_height() as int),
            r matches Some(w) ==> w.wf() && w.source() == *image && w.region() == rect,
    {
        proof {
            use_type_invariant(image);
        }
        if rect.fits_within(image.width(), image.height()) {
            Some(Window { image, rect })
        } else {
            None
        }
    }

    /// The number of columns of the window.
    pub fn width(&self) -> (w: u32)
        ensures
            w == self.spec_width(),
    {
        self.rect.width
    }

    /// The number of rows of the window.
    pub fn height(&self) -> (h: u32)
        ensures
            h == self.spec_height(),
    {
        self.rect.height
    }

    /// The extent of the window as `(width, height)`.
    pub fn dimensions(&self) -> (d: (u32, u32))
        ensures
            d == (self.spec_width(), self.spec_height()),
    {
        (self.rect.width, self.rect.height)
    }

    /// The pixel at column `x` and row `y` of the window, for a position
    /// inside it.
    pub fn pixel(&self, x: u32, y: u32) -> (p: Pixel)
        requires
            x < self.spec_width(),
            y < self.spec_height(),
        ensures
            p == self.pixel_at(x as int, y as int),
    {
        proof {
            use_type_invariant(self);
        }
        self.image.pixel(self.rect.x + x, self.rect.y + y)
    }

    /// The pixel at column `x` and row `y` of the window, if the position is
    /// inside it.
    pub fn get_pixel(&self, x: u32, y: u32) -> (p: Option<Pixel>)
        ensures
            p is Some <==> x < self.spec_width() && y < self.spec_height(),
            p matches Some(q) ==> q == self.pixel_at(x as int, y as int),
    {
        if x < self.rect.width && y < self.rect.height {
            Some(self.pixel(x, y))
        } else {
            None
        }
    }
}

} // verus!
