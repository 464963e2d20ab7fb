//! Row-major pixel grids.

use vstd::prelude::*;

verus! {

/// The index of pixel `(x, y)` in a grid of width `w`.
pub open spec fn at(w: int, x: int, y: int) -> int {
    y * w + x
}

/// A pixel inside a `w` by `h` grid has an index inside the grid, and its
/// index gives its column and row back.
pub proof fn lemma_at(w: int, h: int, x: int, y: int)
    requires
        0 <= x < w,
        0 <= y < h,
    ensures
        0 <= at(w, x, y) < w * h,
        at(w, x, y) % w == x,
        at(w, x, y) / w == y,
        y * w <= at(w, x, y),
        (y + 1) * w <= w * h,
{
    assert(0 <= y * w + x < w * h && (y + 1) * w <= w * h && 0 <= y * w) by (nonlinear_arith)
        requires
            0 <= x < w,
            0 <= y < h,
    ;
    vstd::arithmetic::div_mod::lemma_fundamental_div_mod_converse(y * w + x, w, y, x);
}

/// An index inside a `w` by `h` grid is the index of its column and row.
pub proof fn lemma_cell(w: int, h: int, i: int)
    requires
        0 < w,
        0 <= i < w * h,
    ensures
        0 <= i % w < w,
        0 <= i / w < h,
        at(w, i % w, i / w) == i,
{
    vstd::arithmetic::div_mod::lemma_fundamental_div_mod(i, w);
    assert(w * (i / w) == (i / w) * w) by (nonlinear_arith);
    assert(0 <= i % w < w) by {
        vstd::arithmetic::div_mod::lemma_mod_bound(i, w);
    }
    assert(0 <= i / w < h) by (nonlinear_arith)
        requires
            0 < w,
            0 <= i < w * h,
            i == w * (i / w) + i % w,
            0 <= i % w < w,
    ;
}

/// Pixels in different places of a grid have different indices.
pub proof fn lemma_at_distinct(w: int, x0: int, y0: int, x1: int, y1: int)
    requires
        0 <= x0 < w,
        0 <= x1 < w,
        at(w, x0, y0) == at(w, x1, y1),
    ensures
        x0 == x1,
        y0 == y1,
{
    assert(y0 == y1) by (nonlinear_arith)
        requires
            0 <= x0 < w,
            0 <= x1 < w,
            y0 * w + x0 == y1 * w + x1,
    ;
}

/// The index of pixel `(x, y)`.
pub fn index_of(w: usize, h: usize, x: usize, y: usize) -> (i: usize)
    requires
        x < w,
        y < h,
        w * h <= usize::MAX,
    ensures
        i == at(w as int, x as int, y as int),
        i < w * h,
{
    proof {
        lemma_at(w as int, h as int, x as int, y as int);
    }
    y * w + x
}

/// Clamps `v` into `lo..=hi`.
pub open spec fn clamped(v: int, lo: int, hi: int) -> int {
    if v < lo {
        lo
    } else if v > hi {
        hi
    } else {
        v
    }
}

/// Clamps `v` into `lo..=hi`.
pub fn clamp_i(v: i64, lo: i64, hi: i64) -> (r: i64)
    requires
        lo <= hi,
    ensures
        r == clamped(v as int, lo as int, hi as int),
        lo <= r <= hi,
{
    if v < lo {
        lo
    } else if v > hi {
        hi
    } else {
        v
    }
}

} // verus!
