//! The correlation of two windows: the three sums that make up the score.

use vstd::prelude::*;
use vstd::arithmetic::mul::*;
use crate::raster::Image;
use crate::region::{resolve, spec_resolve, Rectangle};
use crate::window::{region_intensities, Window};

verus! {

/// The largest product of two intensities.
pub const MAX_PRODUCT: u128 = 65025;

/// The sum of the products `a[i] * b[i]` over the places of `a`.
pub open spec fn cross_sum(a: Seq<int>, b: Seq<int>) -> int
    recommends
        a.len() == b.len(),
    decreases a.len(),
{
    if a.len() == 0 {
        0
    } else {
        cross_sum(a.drop_last(), b.drop_last()) + a.last() * b[a.len() - 1]
    }
}

/// The three sums of a comparison, as unbounded integers. The score that they
/// stand for is `nom / sqrt(sq1 * sq2)`.
pub struct Totals {
    /// The sum of the products of paired intensities.
    pub nom: int,
    /// The sum of the squared intensities of the first window.
    pub sq1: int,
    /// The sum of the squared intensities of the second window.
    pub sq2: int,
}

impl Totals {
    /// Whether the score is undefined: one side has no energy, so that the
    /// score would be zero divided by zero.
    pub open spec fn degenerate(self) -> bool {
        self.sq1 == 0 || self.sq2 == 0
    }

    /// Whether the score is defined and equal to one.
    pub open spec fn is_one(self) -> bool {
        !self.degenerate() && self.nom > 0 && self.nom * self.nom == self.sq1 * self.sq2
    }

    /// Whether two triples of sums stand for the same score: either both are
    /// undefined, or both are defined and the squares of the two scores,
    /// compared by cross-multiplication, agree.
    pub open spec fn same_score(self, other: Totals) -> bool {
        &&& self.degenerate() == other.degenerate()
        &&& (self.nom * self.nom) * (other.sq1 * other.sq2) == (other.nom * other.nom) * (self.sq1
            * self.sq2)
    }

    /// The sums with the two windows exchanged.
    pub open spec fn swapped(self) -> Totals {
        Totals { nom: self.nom, sq1: self.sq2, sq2: self.sq1 }
    }
}

/// The sums that the intensity sequences `a` and `b` give.
pub open spec fn totals(a: Seq<int>, b: Seq<int>) -> Totals
    recommends
        a.len() == b.len(),
{
    Totals { nom: cross_sum(a, b), sq1: cross_sum(a, a), sq2: cross_sum(b, b) }
}

/// The three sums of a comparison. The score is `nom / sqrt(sq1 * sq2)`.
///
/// When `sq1` or `sq2` is zero the score is undefined. The sums are returned
/// all the same, as they are, and `is_degenerate` tells: no score is put in
/// the place of the undefined one.
#[derive(Clone, Copy, Debug, PartialEq, Eq, Structural)]
pub struct Sums {
    /// The sum of the products of paired intensities.
    pub nom: u128,
    /// The sum of the squared intensities of the first window.
    pub sq1: u128,
    /// The sum of the squared intensities of the second window.
    pub sq2: u128,
}

impl Sums {
    /// The sums as unbounded integers.
    pub open spec fn view(&self) -> Totals {
        Totals { nom: self.nom as int, sq1: self.sq1 as int, sq2: self.sq2 as int }
    }

    /// Whether the score is undefined.
    pub fn is_degenerate(&self) -> (b: bool)
        ensures
            b == self@.degenerate(),
    {
        self.sq1 == 0 || self.sq2 == 0
    }
}

/// Why two images, or two windows, cannot be compared.
#[derive(Clone, Copy, Debug, PartialEq, Eq, Structural)]
pub enum BoundsError {
    /// The region does not lie inside the first image.
    OutsideFirst,
    /// The region does not lie inside the second image.
    OutsideSecond,
    /// The two windows differ in width or in height.
    ExtentMismatch,
}

/// Extending two sequences by one place each adds the product of the new
/// pair to their cross sum.
pub proof fn lemma_cross_sum_step(a: Seq<int>, b: Seq<int>, k: int)
    requires
        0 <= k < a.len(),
        k < b.len(),
    ensures
        cross_sum(a.take(k + 1), b.take(k + 1)) == cross_sum(a.take(k), b.take(k)) + a[k] * b[k],
{
    assert(a.take(k + 1).drop_last() =~= a.take(k));
    assert(b.take(k + 1).drop_last() =~= b.take(k));
}

/// The outcome of a comparison with its sums as unbounded integers.
pub open spec fn outcome(r: Result<Sums, BoundsError>) -> Result<Totals, BoundsError> {
    match r {
        Ok(s) => Ok(s@),
        Err(e) => Err(e),
    }
}

/// What correlating two windows comes to: windows that differ in width or in
/// height are refused, and two of one extent give the sums of their
/// intensities.
pub open spec fn spec_correlate(a: Window, b: Window) -> Result<Totals, BoundsError> {
    if a.spec_width() != b.spec_width() || a.spec_height() != b.spec_height() {
        Err(BoundsError::ExtentMismatch)
    } else {
        Ok(totals(a.intensities(), b.intensities()))
    }
}

/// Correlates two windows of one extent: every pair of pixels that share a
/// position adds the product of its intensities to `nom`, and the square of
/// each to `sq1` and `sq2`. Windows that differ in extent are refused.
pub fn correlate(a: &Window, b: &Window) -> (r: Result<Sums, BoundsError>)
    ensures
        outcome(r) == spec_correlate(*a, *b),
{
    let w = a.width();
    let h = a.height();
    if w != b.width() || h != b.height() {
        return Err(BoundsError::ExtentMismatch);
    }
    let ghost ia = a.intensities();
    let ghost ib = b.intensities();
    let mut acc = Sums { nom: 0, sq1: 0, sq2: 0 };
    let mut y: u32 = 0;
    proof {
        lemma_mul_nonnegative(w as int, h as int);
        assert(ia.take(0) =~= Seq::<int>::empty());
        assert(ib.take(0) =~= Seq::<int>::empty());
    }
    while y < h
        invariant
            y <= h,
            w == a.spec_width() && w == b.spec_width(),
            h == a.spec_height() && h == b.spec_height(),
            ia == a.intensities(),
            ib == b.intensities(),
            ia.len() == w * h,
            ib.len() == w * h,
            0 <= y * w <= w * h,
            acc@ == totals(ia.take(y * w), ib.take(y * w)),
            acc.nom <= MAX_PRODUCT * (y * w),
            acc.sq1 <= MAX_PRODUCT * (y * w),
            acc.sq2 <= MAX_PRODUCT * (y * w),
        decreases h - y,
    {
        proof {
            lemma_mul_is_distributive_add_other_way(w as int, y as int, 1);
            lemma_mul_inequality(y + 1, h as int, w as int);
            lemma_mul_is_commutative(h as int, w as int);
        }
        let mut x: u32 = 0;
        while x < w
            invariant
                x <= w,
                y < h,
                w == a.spec_width() && w == b.spec_width(),
                h == a.spec_height() && h == b.spec_height(),
                ia == a.intensities(),
                ib == b.intensities(),
                ia.len() == w * h,
                ib.len() == w * h,
                0 <= y * w,
                y * w + w <= w * h,
                acc@ == totals(ia.take(y * w + x), ib.take(y * w + x)),
                acc.nom <= MAX_PRODUCT * (y * w + x),
                acc.sq1 <= MAX_PRODUCT * (y * w + x),
                acc.sq2 <= MAX_PRODUCT * (y * w + x),
            decreases w - x,
        {
            let p: u128 = a.pixel(x, y).intensity() as u128;
            let q: u128 = b.pixel(x, y).intensity() as u128;
            proof {
                let k = y * w + x;
                a.lemma_view_index(x as int, y as int);
                b.lemma_view_index(x as int, y as int);
                assert(ia[k] == p && ib[k] == q);
                lemma_cross_sum_step(ia, ib, k);
                lemma_cross_sum_step(ia, ia, k);
                lemma_cross_sum_step(ib, ib, k);
                assert(p * q <= MAX_PRODUCT && p * p <= MAX_PRODUCT && q * q <= MAX_PRODUCT)
                    by (nonlinear_arith)
                    requires
                        p <= 255,
                        q <= 255,
                ;
                assert(w * h <= 0xffff_ffff_ffff_ffff) by (nonlinear_arith)
                    requires
                        w <= 0xffff_ffff,
                        h <= 0xffff_ffff,
                ;
            }
            acc.nom = acc.nom + p * q;
            acc.sq1 = acc.sq1 + p * p;
            acc.sq2 = acc.sq2 + q * q;
            x = x + 1;
        }
        y = y + 1;
    }
    proof {
        assert(ia.take(h * w) =~= ia);
        assert(ib.take(h * w) =~= ib);
    }
    Ok(acc)
}

/// What comparing two images over a requested region comes to: the region of
/// each image is chosen, each must lie inside its image, the two must agree in
/// extent, and then the sums are those of the two regions.
pub open spec fn spec_compare(first: Image, second: Image, requested: Option<Rectangle>) -> Result<
    Totals,
    BoundsError,
> {
    let (ra, rb) = spec_resolve(
        requested,
        (first.spec_width(), first.spec_height()),
        (second.spec_width(), second.spec_height()),
    );
    if !ra.fits(first.spec_width() as int, first.spec_height() as int) {
        Err(BoundsError::OutsideFirst)
    } else if !rb.fits(second.spec_width() as int, second.spec_height() as int) {
        Err(BoundsError::OutsideSecond)
    } else if ra.width != rb.width || ra.height != rb.height {
        Err(BoundsError::ExtentMismatch)
    } else {
        Ok(totals(region_intensities(first, ra), region_intensities(second, rb)))
    }
}

/// Compares two images over the requested region, or over each image in full
/// when none is requested.
pub fn compare(first: &Image, second: &Image, requested: Option<Rectangle>) -> (r: Result<
    Sums,
    BoundsError,
>)
    ensures
        outcome(r) == spec_compare(*first, *second, requested),
{
    let (ra, rb) = resolve(requested, first.dimensions(), second.dimensions());
    let a = match Window::new(first, ra) {
        Some(w) => w,
        None => { return Err(BoundsError::OutsideFirst); },
    };
    let b = match Window::new(second, rb) {
        Some(w) => w,
        None => { return Err(BoundsError::OutsideSecond); },
    };
    correlate(&a, &b)
}

} // verus!
