//! The selected region: the rectangle of a drag, its handles, and how it is
//! resized, moved and fitted.

use vstd::prelude::*;

use crate::annotation::Handle;
use crate::grid::clamped;
use crate::menu::{hi, lo};
use crate::rect::{floor_sub, Rect};

verus! {

/// Whether `r` is a region of a picture: not empty, and within it.
pub open spec fn is_region(r: Rect, img: (usize, usize)) -> bool {
    r.nonempty() && r.x1 <= img.0 && r.y1 <= img.1
}

/// Whether a picture has at least a pixel, and coordinates that can be told.
pub open spec fn is_picture(img: (usize, usize)) -> bool {
    1 <= img.0 <= i32::MAX && 1 <= img.1 <= i32::MAX
}

/// The pixel of an axis nearest to `v`.
pub open spec fn pixel_on(v: int, len: int) -> int {
    clamped(v, 0, len - 1)
}

/// The pixel of an axis nearest to `v`.
pub fn nearest_pixel(v: i64, len: usize) -> (p: usize)
    requires
        1 <= len <= i32::MAX,
    ensures
        p == pixel_on(v as int, len as int),
        p < len,
{
    if v < 0 {
        0
    } else if v > (len - 1) as i64 {
        len - 1
    } else {
        v as usize
    }
}

/// The rectangle between two points: both pixels belong to it.
pub open spec fn dragged(a: (i64, i64), b: (i64, i64), img: (usize, usize)) -> Rect {
    let ax = pixel_on(a.0 as int, img.0 as int);
    let ay = pixel_on(a.1 as int, img.1 as int);
    let bx = pixel_on(b.0 as int, img.0 as int);
    let by = pixel_on(b.1 as int, img.1 as int);
    Rect {
        x0: lo(ax, bx) as usize,
        y0: lo(ay, by) as usize,
        x1: (hi(ax, bx) + 1) as usize,
        y1: (hi(ay, by) + 1) as usize,
    }
}

/// The rectangle between two points, rounded to pixels and kept within the
/// picture. It holds both pixels.
pub fn dragged_rect(a: (i64, i64), b: (i64, i64), img: (usize, usize)) -> (r: Rect)
    requires
        is_picture(img),
    ensures
        r == dragged(a, b, img),
        is_region(r, img),
{
    let ax: usize = nearest_pixel(a.0, img.0);
    let ay: usize = nearest_pixel(a.1, img.1);
    let bx: usize = nearest_pixel(b.0, img.0);
    let by: usize = nearest_pixel(b.1, img.1);
    Rect {
        x0: if ax <= bx {
            ax
        } else {
            bx
        },
        y0: if ay <= by {
            ay
        } else {
            by
        },
        x1: 1 + if ax >= bx {
            ax
        } else {
            bx
        },
        y1: 1 + if ay >= by {
            ay
        } else {
            by
        },
    }
}

// ---- Handles ----

/// The whole coordinates within the grab tolerance of the pointer, on both
/// axes and both ends included.
#[derive(Clone, Copy, Debug)]
pub struct Reach {
    pub x0: i64,
    pub y0: i64,
    pub x1: i64,
    pub y1: i64,
}

impl Reach {
    /// The reach of a pointer at a whole position.
    pub fn around(p: (i64, i64), tol: i64) -> (r: Self)
        requires
            i64::MIN <= p.0 - tol,
            p.0 + tol <= i64::MAX,
            i64::MIN <= p.1 - tol,
            p.1 + tol <= i64::MAX,
            0 <= tol,
        ensures
            r == (Reach {
                x0: (p.0 - tol) as i64,
                y0: (p.1 - tol) as i64,
                x1: (p.0 + tol) as i64,
                y1: (p.1 + tol) as i64,
            }),
    {
        Reach { x0: p.0 - tol, y0: p.1 - tol, x1: p.0 + tol, y1: p.1 + tol }
    }

    /// Whether a column is within reach.
    pub open spec fn has_x(self, x: int) -> bool {
        self.x0 <= x <= self.x1
    }

    /// Whether a row is within reach.
    pub open spec fn has_y(self, y: int) -> bool {
        self.y0 <= y <= self.y1
    }

    /// Whether the columns of `r` come within reach.
    pub open spec fn meets_x(self, r: Rect) -> bool {
        r.x0 <= self.x1 && self.x0 <= r.x1
    }

    /// Whether the rows of `r` come within reach.
    pub open spec fn meets_y(self, r: Rect) -> bool {
        r.y0 <= self.y1 && self.y0 <= r.y1
    }
}

/// The handle within reach: a corner where two edges are, else the edge. An
/// edge can be grabbed anywhere along it.
pub open spec fn handle_within(r: Rect, reach: Reach) -> Option<Handle> {
    let left = reach.has_x(r.x0 as int) && reach.meets_y(r);
    let right = reach.has_x(r.x1 as int) && reach.meets_y(r);
    let top = reach.has_y(r.y0 as int) && reach.meets_x(r);
    let bottom = reach.has_y(r.y1 as int) && reach.meets_x(r);
    if left && top {
        Some(Handle::TopLeft)
    } else if right && top {
        Some(Handle::TopRight)
    } else if right && bottom {
        Some(Handle::BottomRight)
    } else if left && bottom {
        Some(Handle::BottomLeft)
    } else if top {
        Some(Handle::Top)
    } else if bottom {
        Some(Handle::Bottom)
    } else if left {
        Some(Handle::Left)
    } else if right {
        Some(Handle::Right)
    } else {
        None
    }
}

/// The handle within reach: a corner where two edges are, else the edge. An
/// edge can be grabbed anywhere along it.
pub fn hit_handle(r: Rect, reach: Reach) -> (h: Option<Handle>)
    requires
        r.x0 <= i32::MAX,
        r.y0 <= i32::MAX,
        r.x1 <= i32::MAX,
        r.y1 <= i32::MAX,
    ensures
        h == handle_within(r, reach),
{
    let x0: i64 = r.x0 as i64;
    let y0: i64 = r.y0 as i64;
    let x1: i64 = r.x1 as i64;
    let y1: i64 = r.y1 as i64;
    let rows = y0 <= reach.y1 && reach.y0 <= y1;
    let columns = x0 <= reach.x1 && reach.x0 <= x1;
    let left = reach.x0 <= x0 && x0 <= reach.x1 && rows;
    let right = reach.x0 <= x1 && x1 <= reach.x1 && rows;
    let top = reach.y0 <= y0 && y0 <= reach.y1 && columns;
    let bottom = reach.y0 <= y1 && y1 <= reach.y1 && columns;
    if left && top {
        Some(Handle::TopLeft)
    } else if right && top {
        Some(Handle::TopRight)
    } else if right && bottom {
        Some(Handle::BottomRight)
    } else if left && bottom {
        Some(Handle::BottomLeft)
    } else if top {
        Some(Handle::Top)
    } else if bottom {
        Some(Handle::Bottom)
    } else if left {
        Some(Handle::Left)
    } else if right {
        Some(Handle::Right)
    } else {
        None
    }
}

// ---- Changing a region ----

/// Whether a handle moves the left edge.
pub open spec fn pulls_left(h: Handle) -> bool {
    h == Handle::TopLeft || h == Handle::Left || h == Handle::BottomLeft
}

/// Whether a handle moves the right edge.
pub open spec fn pulls_right(h: Handle) -> bool {
    h == Handle::TopRight || h == Handle::Right || h == Handle::BottomRight
}

/// Whether a handle moves the top edge.
pub open spec fn pulls_top(h: Handle) -> bool {
    h == Handle::TopLeft || h == Handle::Top || h == Handle::TopRight
}

/// Whether a handle moves the bottom edge.
pub open spec fn pulls_bottom(h: Handle) -> bool {
    h == Handle::BottomLeft || h == Handle::Bottom || h == Handle::BottomRight
}

/// The region after its handle `h` was pulled to `p`.
pub open spec fn resized(r: Rect, h: Handle, p: (i64, i64), img: (usize, usize)) -> Rect {
    let x = pixel_on(p.0 as int, img.0 as int);
    let y = pixel_on(p.1 as int, img.1 as int);
    Rect {
        x0: if pulls_left(h) {
            lo(x, r.x1 - 1) as usize
        } else {
            r.x0
        },
        y0: if pulls_top(h) {
            lo(y, r.y1 - 1) as usize
        } else {
            r.y0
        },
        x1: if pulls_right(h) {
            hi(x + 1, r.x0 + 1) as usize
        } else {
            r.x1
        },
        y1: if pulls_bottom(h) {
            hi(y + 1, r.y0 + 1) as usize
        } else {
            r.y1
        },
    }
}

/// The region after its handle `h` was pulled to `p`: only that handle's
/// edges move, and a pixel stays.
pub fn resize_rect(r: Rect, h: Handle, p: (i64, i64), img: (usize, usize)) -> (s: Rect)
    requires
        is_picture(img),
        is_region(r, img),
    ensures
        s == resized(r, h, p, img),
        is_region(s, img),
{
    let x: usize = nearest_pixel(p.0, img.0);
    let y: usize = nearest_pixel(p.1, img.1);
    let mut s = r;
    match h {
        Handle::TopLeft | Handle::Left | Handle::BottomLeft => {
            s.x0 = if x <= r.x1 - 1 {
                x
            } else {
                r.x1 - 1
            };
        },
        Handle::TopRight | Handle::Right | Handle::BottomRight => {
            s.x1 = if x >= r.x0 {
                x + 1
            } else {
                r.x0 + 1
            };
        },
        Handle::Top | Handle::Bottom => {},
    }
    match h {
        Handle::TopLeft | Handle::Top | Handle::TopRight => {
            s.y0 = if y <= r.y1 - 1 {
                y
            } else {
                r.y1 - 1
            };
        },
        Handle::BottomLeft | Handle::Bottom | Handle::BottomRight => {
            s.y1 = if y >= r.y0 {
                y + 1
            } else {
                r.y0 + 1
            };
        },
        Handle::Left | Handle::Right => {},
    }
    s
}

/// The region moved by `d`, as far as the picture allows.
pub open spec fn shifted(r: Rect, d: (i64, i64), img: (usize, usize)) -> Rect {
    let x = clamped(r.x0 + d.0, 0, img.0 - (r.x1 - r.x0));
    let y = clamped(r.y0 + d.1, 0, img.1 - (r.y1 - r.y0));
    Rect {
        x0: x as usize,
        y0: y as usize,
        x1: (x + (r.x1 - r.x0)) as usize,
        y1: (y + (r.y1 - r.y0)) as usize,
    }
}

fn clamp_wide(v: i128, most: usize) -> (r: usize)
    ensures
        r == clamped(v as int, 0, most as int),
{
    if v < 0 {
        0
    } else if v > most as i128 {
        most
    } else {
        v as usize
    }
}

/// The rectangle moved by `d` with its size kept, as far as the picture
/// allows. It may be empty, but not larger than the picture.
pub fn move_rect(r: Rect, d: (i64, i64), img: (usize, usize)) -> (s: Rect)
    requires
        r.ordered(),
        r.x1 - r.x0 <= img.0,
        r.y1 - r.y0 <= img.1,
    ensures
        s == shifted(r, d, img),
        s.ordered() && s.x1 <= img.0 && s.y1 <= img.1,
        r.nonempty() ==> is_region(s, img),
        s.x1 - s.x0 == r.x1 - r.x0,
        s.y1 - s.y0 == r.y1 - r.y0,
{
    let w: usize = r.width();
    let h: usize = r.height();
    let x: usize = clamp_wide(r.x0 as i128 + d.0 as i128, img.0 - w);
    let y: usize = clamp_wide(r.y0 as i128 + d.1 as i128, img.1 - h);
    Rect { x0: x, y0: y, x1: x + w, y1: y + h }
}

/// A rectangle cut to the picture, with a pixel at least.
pub open spec fn fitted(r: Rect, img: (usize, usize)) -> Rect {
    let x0 = lo(r.x0 as int, floor_sub(img.0 as int, 1));
    let y0 = lo(r.y0 as int, floor_sub(img.1 as int, 1));
    Rect {
        x0: x0 as usize,
        y0: y0 as usize,
        x1: hi(lo(r.x1 as int, img.0 as int), x0 + 1) as usize,
        y1: hi(lo(r.y1 as int, img.1 as int), y0 + 1) as usize,
    }
}

/// A rectangle cut to the picture, with a pixel at least. Unlike a move this
/// does not keep the size: the picture may have become smaller.
pub fn clamp_rect_to_image(r: Rect, img: (usize, usize)) -> (s: Rect)
    ensures
        s == fitted(r, img),
        img.0 >= 1 && img.1 >= 1 ==> is_region(s, img),
{
    let fx: usize = img.0.saturating_sub(1);
    let fy: usize = img.1.saturating_sub(1);
    let x0: usize = if r.x0 <= fx {
        r.x0
    } else {
        fx
    };
    let y0: usize = if r.y0 <= fy {
        r.y0
    } else {
        fy
    };
    assert(x0 < usize::MAX && y0 < usize::MAX);
    let cut_x: usize = if r.x1 <= img.0 {
        r.x1
    } else {
        img.0
    };
    let cut_y: usize = if r.y1 <= img.1 {
        r.y1
    } else {
        img.1
    };
    Rect {
        x0,
        y0,
        x1: if cut_x >= x0 + 1 {
            cut_x
        } else {
            x0 + 1
        },
        y1: if cut_y >= y0 + 1 {
            cut_y
        } else {
            y0 + 1
        },
    }
}

// ---- Laws ----

/// Pulling a handle moves no edge but its own.
pub proof fn law_resize_spares_other_edges(r: Rect, h: Handle, p: (i64, i64), img: (usize, usize))
    ensures
        !pulls_left(h) ==> resized(r, h, p, img).x0 == r.x0,
        !pulls_right(h) ==> resized(r, h, p, img).x1 == r.x1,
        !pulls_top(h) ==> resized(r, h, p, img).y0 == r.y0,
        !pulls_bottom(h) ==> resized(r, h, p, img).y1 == r.y1,
{
}

/// A move that stays within the picture is undone by the opposite move.
pub proof fn law_move_back(r: Rect, d: (i64, i64), img: (usize, usize))
    requires
        is_picture(img),
        is_region(r, img),
        0 <= r.x0 + d.0,
        r.x1 + d.0 <= img.0,
        0 <= r.y0 + d.1,
        r.y1 + d.1 <= img.1,
    ensures
        shifted(shifted(r, d, img), ((-d.0) as i64, (-d.1) as i64), img) == r,
{
}

/// A region of the picture stays as it is when fitted, and fitting twice is
/// fitting once.
pub proof fn law_fitting_keeps_regions(r: Rect, img: (usize, usize))
    requires
        is_picture(img),
    ensures
        is_region(r, img) ==> fitted(r, img) == r,
        is_region(fitted(r, img), img),
        fitted(fitted(r, img), img) == fitted(r, img),
{
}

/// Both ends of a drag are selected, whichever way it went.
pub proof fn law_drag_holds_both_ends(a: (i64, i64), b: (i64, i64), img: (usize, usize))
    requires
        is_picture(img),
    ensures
        dragged(a, b, img) == dragged(b, a, img),
        dragged(a, b, img).holds(
            pixel_on(a.0 as int, img.0 as int),
            pixel_on(a.1 as int, img.1 as int),
        ),
        dragged(a, b, img).holds(
            pixel_on(b.0 as int, img.0 as int),
            pixel_on(b.1 as int, img.1 as int),
        ),
{
}

} // verus!
