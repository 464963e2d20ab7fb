//! Pixel rectangles with exclusive far edges.

use vstd::prelude::*;

verus! {

/// A rectangle of pixels. `x1` and `y1` are exclusive.
#[derive(Clone, Copy, Debug, PartialEq, Eq, Structural)]
pub struct Rect {
    pub x0: usize,
    pub y0: usize,
    pub x1: usize,
    pub y1: usize,
}

impl Rect {
    /// Whether the far edges do not lie before the near ones.
    pub open spec fn ordered(self) -> bool {
        self.x0 <= self.x1 && self.y0 <= self.y1
    }

    /// Whether the rectangle holds at least one pixel.
    pub open spec fn nonempty(self) -> bool {
        self.x0 < self.x1 && self.y0 < self.y1
    }

    /// Whether the pixel `(x, y)` lies in the rectangle.
    pub open spec fn holds(self, x: int, y: int) -> bool {
        self.x0 <= x < self.x1 && self.y0 <= y < self.y1
    }

    /// Whether every pixel of `inner` lies in the rectangle.
    pub open spec fn covers(self, inner: Rect) -> bool {
        self.x0 <= inner.x0 && self.y0 <= inner.y0 && self.x1 >= inner.x1 && self.y1 >= inner.y1
    }

    /// Whether the two rectangles share no pixel.
    pub open spec fn apart(self, other: Rect) -> bool {
        forall|x: int, y: int| !(#[trigger] self.holds(x, y) && #[trigger] other.holds(x, y))
    }

    /// The number of pixel columns.
    pub fn width(&self) -> (w: usize)
        requires
            self.x0 <= self.x1,
        ensures
            w == self.x1 - self.x0,
    {
        self.x1 - self.x0
    }

    /// The number of pixel rows.
    pub fn height(&self) -> (h: usize)
        requires
            self.y0 <= self.y1,
        ensures
            h == self.y1 - self.y0,
    {
        self.y1 - self.y0
    }

    /// Whether the pixel `(x, y)` lies in the rectangle.
    pub fn contains(&self, x: usize, y: usize) -> (r: bool)
        ensures
            r == self.holds(x as int, y as int),
    {
        x >= self.x0 && x < self.x1 && y >= self.y0 && y < self.y1
    }
}

/// A `w` by `h` rectangle with its near corner at `(x, y)`.
pub fn mk_rect(x: usize, y: usize, w: usize, h: usize) -> (r: Rect)
    requires
        x + w <= usize::MAX,
        y + h <= usize::MAX,
    ensures
        r == (Rect { x0: x, y0: y, x1: (x + w) as usize, y1: (y + h) as usize }),
{
    Rect { x0: x, y0: y, x1: x + w, y1: y + h }
}

/// `a - b`, or zero where that would be negative.
pub open spec fn floor_sub(a: int, b: int) -> int {
    if a >= b {
        a - b
    } else {
        0
    }
}

/// Shrinks a rectangle by `n` px on each side. The far edges stop at zero.
pub fn inset(r: Rect, n: usize) -> (s: Rect)
    requires
        r.x0 + n <= usize::MAX,
        r.y0 + n <= usize::MAX,
    ensures
        s.x0 == r.x0 + n,
        s.y0 == r.y0 + n,
        s.x1 == floor_sub(r.x1 as int, n as int),
        s.y1 == floor_sub(r.y1 as int, n as int),
{
    Rect { x0: r.x0 + n, y0: r.y0 + n, x1: r.x1.saturating_sub(n), y1: r.y1.saturating_sub(n) }
}

} // verus!
