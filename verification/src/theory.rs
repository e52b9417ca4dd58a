//! What holds of the sums of a comparison, and so of the score, whatever the
//! pixels are.

use vstd::prelude::*;
use crate::correlate::{cross_sum, spec_compare, spec_correlate, totals, BoundsError, Totals};
use crate::raster::Image;
use crate::region::Rectangle;
use crate::window::Window;

verus! {

/// The cross sum does not depend on the order of its two sequences.
pub proof fn lemma_cross_sum_symmetric(a: Seq<int>, b: Seq<int>)
    requires
        a.len() == b.len(),
    ensures
        cross_sum(a, b) == cross_sum(b, a),
    decreases a.len(),
{
    if a.len() > 0 {
        lemma_cross_sum_symmetric(a.drop_last(), b.drop_last());
        assert(a.last() * b.last() == b.last() * a.last()) by (nonlinear_arith);
    }
}

/// A sum of squares is not negative.
pub proof fn lemma_square_sum_nonnegative(a: Seq<int>)
    ensures
        cross_sum(a, a) >= 0,
    decreases a.len(),
{
    if a.len() > 0 {
        lemma_square_sum_nonnegative(a.drop_last());
        assert(a.last() * a.last() >= 0) by (nonlinear_arith);
    }
}

/// A window compared with itself has its three sums equal, so that
/// its score, where it is defined, is one.
pub proof fn lemma_identity(a: Seq<int>)
    ensures
        totals(a, a).nom == totals(a, a).sq1,
        totals(a, a).nom == totals(a, a).sq2,
        !totals(a, a).degenerate() ==> totals(a, a).is_one(),
{
    lemma_square_sum_nonnegative(a);
}

/// Exchanging the two windows exchanges the two square sums and
/// keeps the cross sum, so that the score is the same.
pub proof fn lemma_symmetry(a: Seq<int>, b: Seq<int>)
    requires
        a.len() == b.len(),
    ensures
        totals(b, a) == totals(a, b).swapped(),
        totals(b, a).same_score(totals(a, b)),
{
    lemma_cross_sum_symmetric(a, b);
    let t = totals(a, b);
    assert((t.nom * t.nom) * (t.sq1 * t.sq2) == (t.nom * t.nom) * (t.sq2 * t.sq1))
        by (nonlinear_arith);
}

/// Correlating a window with itself is never refused and gives three equal
/// sums: the score is one wherever it is defined.
pub proof fn lemma_self_correlation(w: Window)
    ensures
        spec_correlate(w, w) matches Ok(t) && t.nom == t.sq1 && t.nom == t.sq2 && (!t.degenerate()
            ==> t.is_one()),
{
    lemma_identity(w.intensities());
}

/// Correlating two windows in the other order is refused when the first
/// order is, and else exchanges the two square sums and keeps the cross sum.
pub proof fn lemma_exchange(a: Window, b: Window)
    ensures
        spec_correlate(b, a) == match spec_correlate(a, b) {
            Ok(t) => Ok::<Totals, BoundsError>(t.swapped()),
            Err(e) => Err(e),
        },
{
    if a.spec_width() == b.spec_width() && a.spec_height() == b.spec_height() {
        lemma_symmetry(a.intensities(), b.intensities());
    }
}

/// For a number `y` that is not negative, a square that is at most the
/// square of `y` belongs to a number that is at most `y`.
proof fn lemma_square_order(x: int, y: int)
    by (nonlinear_arith)
    requires
        0 <= y,
        x * x <= y * y,
    ensures
        x <= y,
{
}

/// One step of the bound on the cross sum: adding the pair `(x, y)` keeps
/// the square of the cross sum `s` below the product of the two square sums
/// `p` and `q`.
proof fn lemma_bound_step(s: int, p: int, q: int, x: int, y: int)
    requires
        0 <= p,
        0 <= q,
        s * s <= p * q,
    ensures
        (s + x * y) * (s + x * y) <= (p + x * x) * (q + y * y),
{
    let u = p * (y * y);
    let v = q * (x * x);
    let t = 2 * (s * (x * y));
    assert(0 <= u && 0 <= v) by (nonlinear_arith)
        requires
            0 <= p,
            0 <= q,
            u == p * (y * y),
            v == q * (x * x),
    ;
    assert(t * t == 4 * ((s * s) * ((x * x) * (y * y)))) by (nonlinear_arith)
        requires
            t == 2 * (s * (x * y)),
    ;
    assert((s * s) * ((x * x) * (y * y)) <= (p * q) * ((x * x) * (y * y))) by (nonlinear_arith)
        requires
            s * s <= p * q,
    ;
    assert((p * q) * ((x * x) * (y * y)) == u * v) by (nonlinear_arith)
        requires
            u == p * (y * y),
            v == q * (x * x),
    ;
    assert(4 * (u * v) <= (u + v) * (u + v)) by (nonlinear_arith);
    lemma_square_order(t, u + v);
    assert((s + x * y) * (s + x * y) == s * s + t + (x * x) * (y * y)) by (nonlinear_arith)
        requires
            t == 2 * (s * (x * y)),
    ;
    assert((p + x * x) * (q + y * y) == p * q + u + v + (x * x) * (y * y)) by (nonlinear_arith)
        requires
            u == p * (y * y),
            v == q * (x * x),
    ;
}

/// The square of the cross sum of two sequences is at most the product of
/// their square sums, so that a score, where it is defined, lies between
/// minus one and one.
pub proof fn lemma_score_bound(a: Seq<int>, b: Seq<int>)
    requires
        a.len() == b.len(),
    ensures
        totals(a, b).nom * totals(a, b).nom <= totals(a, b).sq1 * totals(a, b).sq2,
    decreases a.len(),
{
    if a.len() == 0 {
        assert(totals(a, b).nom * totals(a, b).nom == 0) by (nonlinear_arith)
            requires
                totals(a, b).nom == 0,
        ;
        assert(totals(a, b).sq1 * totals(a, b).sq2 == 0) by (nonlinear_arith)
            requires
                totals(a, b).sq1 == 0,
        ;
    } else {
        let a0 = a.drop_last();
        let b0 = b.drop_last();
        lemma_score_bound(a0, b0);
        lemma_square_sum_nonnegative(a0);
        lemma_square_sum_nonnegative(b0);
        lemma_bound_step(
            cross_sum(a0, b0),
            cross_sum(a0, a0),
            cross_sum(b0, b0),
            a.last(),
            b.last(),
        );
    }
}

/// The sequence `a` with every value multiplied by `k`.
pub open spec fn scaled(a: Seq<int>, k: int) -> Seq<int> {
    Seq::new(a.len(), |i: int| k * a[i])
}

/// Scaling one sequence by `k` scales the cross sum by `k`.
pub proof fn lemma_cross_sum_scaled(a: Seq<int>, b: Seq<int>, k: int)
    requires
        a.len() == b.len(),
    ensures
        cross_sum(scaled(a, k), b) == k * cross_sum(a, b),
    decreases a.len(),
{
    if a.len() > 0 {
        lemma_cross_sum_scaled(a.drop_last(), b.drop_last(), k);
        assert(scaled(a, k).drop_last() =~= scaled(a.drop_last(), k));
        let s = cross_sum(a.drop_last(), b.drop_last());
        let x = a.last();
        let y = b.last();
        assert(k * s + (k * x) * y == k * (s + x * y)) by (nonlinear_arith);
    }
}

/// Multiplying every intensity of one window by a positive
/// constant leaves the score as it was.
pub proof fn lemma_scale_invariance(a: Seq<int>, b: Seq<int>, k: int)
    requires
        a.len() == b.len(),
        k > 0,
    ensures
        totals(scaled(a, k), b).same_score(totals(a, b)),
        totals(a, scaled(b, k)).same_score(totals(a, b)),
{
    let t = totals(a, b);
    let ka = scaled(a, k);
    let kb = scaled(b, k);
    lemma_cross_sum_scaled(a, b, k);
    lemma_cross_sum_scaled(a, ka, k);
    lemma_cross_sum_symmetric(ka, a);
    lemma_cross_sum_scaled(a, a, k);
    lemma_cross_sum_scaled(b, a, k);
    lemma_cross_sum_symmetric(a, kb);
    lemma_cross_sum_scaled(b, kb, k);
    lemma_cross_sum_symmetric(kb, b);
    lemma_cross_sum_scaled(b, b, k);
    lemma_cross_sum_symmetric(a, b);
    assert(cross_sum(ka, ka) == k * (k * t.sq1));
    assert(cross_sum(kb, kb) == k * (k * t.sq2));
    assert(cross_sum(a, kb) == k * t.nom);
    let n = t.nom;
    let p = t.sq1;
    let q = t.sq2;
    assert(((k * n) * (k * n)) * (p * q) == (n * n) * ((k * (k * p)) * q)) by (nonlinear_arith);
    assert(((k * n) * (k * n)) * (p * q) == (n * n) * (p * (k * (k * q)))) by (nonlinear_arith);
    assert((k * (k * p) == 0) == (p == 0)) by (nonlinear_arith)
        requires
            k > 0,
    ;
    assert((k * (k * q) == 0) == (q == 0)) by (nonlinear_arith)
        requires
            k > 0,
    ;
}

/// On two images of one size, leaving the region out gives
/// what the rectangle that covers that size gives.
pub proof fn lemma_default_region(first: Image, second: Image)
    requires
        first.spec_width() == second.spec_width(),
        first.spec_height() == second.spec_height(),
    ensures
        spec_compare(first, second, None) == spec_compare(
            first,
            second,
            Some(Rectangle::spec_full(first.spec_width(), first.spec_height())),
        ),
{
}

} // verus!
