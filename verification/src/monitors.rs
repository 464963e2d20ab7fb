//! Monitors and the still picture composited from them.

use vstd::prelude::*;

use crate::grid::{at, index_of, lemma_at, lemma_at_distinct};
use crate::menu::{hi, lo, MenuScale};
use crate::pixels::{pack, packed, Shot};
use crate::pure::{apply, pure, result};
use crate::rect::{floor_sub, Rect};

verus! {

/// A monitor's place on the desktop: left, top, width and height.
pub type Place = (i32, i32, u32, u32);

/// Whether a monitor's far edges can be told.
pub open spec fn tellable(r: Place) -> bool {
    &&& r.2 <= i32::MAX
    &&& r.3 <= i32::MAX
    &&& r.0 + r.2 <= i32::MAX
    &&& r.1 + r.3 <= i32::MAX
}

/// Whether every monitor's far edges can be told.
pub open spec fn all_tellable(rects: Seq<Place>) -> bool {
    forall|i: int| 0 <= i < rects.len() ==> tellable(#[trigger] rects[i])
}

/// The edges of the smallest rectangle around the first `n` monitors.
pub open spec fn edges_of(rects: Seq<Place>, n: int) -> (int, int, int, int)
    decreases n,
{
    let r = rects[n - 1];
    let own = (r.0 as int, r.1 as int, r.0 + r.2, r.1 + r.3);
    if n <= 1 {
        own
    } else {
        let rest = edges_of(rects, n - 1);
        (lo(rest.0, own.0), lo(rest.1, own.1), hi(rest.2, own.2), hi(rest.3, own.3))
    }
}

fn min_s(a: i32, b: i32) -> (r: i32)
    ensures
        r == lo(a as int, b as int),
{
    if a <= b {
        a
    } else {
        b
    }
}

fn max_s(a: i32, b: i32) -> (r: i32)
    ensures
        r == hi(a as int, b as int),
{
    if a >= b {
        a
    } else {
        b
    }
}

/// The smallest rectangle around all monitors, as its left, top, right and
/// bottom edges. `None` without a monitor.
pub fn monitors_bounds(rects: &[Place]) -> (b: Option<(i32, i32, i32, i32)>)
    requires
        all_tellable(rects@),
    ensures
        match b {
            None => rects@.len() == 0,
            Some(e) => rects@.len() > 0 && (e.0 as int, e.1 as int, e.2 as int, e.3 as int)
                == edges_of(rects@, rects@.len() as int),
        },
{
    if rects.len() == 0 {
        return None;
    }
    assert(tellable(rects@[0]));
    let mut e: (i32, i32, i32, i32) = (
        rects[0].0,
        rects[0].1,
        rects[0].0 + rects[0].2 as i32,
        rects[0].1 + rects[0].3 as i32,
    );
    let mut i: usize = 1;
    while i < rects.len()
        invariant
            all_tellable(rects@),
            1 <= i <= rects@.len(),
            (e.0 as int, e.1 as int, e.2 as int, e.3 as int) == edges_of(rects@, i as int),
        decreases rects.len() - i,
    {
        assert(tellable(rects@[i as int]));
        let r: Place = rects[i];
        e = (
            min_s(e.0, r.0),
            min_s(e.1, r.1),
            max_s(e.2, r.0 + r.2 as i32),
            max_s(e.3, r.1 + r.3 as i32),
        );
        i += 1;
    }
    Some(e)
}

/// Every monitor lies within the bounds.
pub proof fn law_bounds_cover_monitors(rects: Seq<Place>, n: int, i: int)
    requires
        0 <= i < n <= rects.len(),
    ensures
        ({
            let e = edges_of(rects, n);
            &&& e.0 <= rects[i].0
            &&& e.1 <= rects[i].1
            &&& rects[i].0 + rects[i].2 <= e.2
            &&& rects[i].1 + rects[i].3 <= e.3
        }),
    decreases n,
{
    if i < n - 1 {
        law_bounds_cover_monitors(rects, n - 1, i);
    }
}

/// The bounds are no larger than they need to be: whatever covers every
/// monitor covers the bounds.
pub proof fn law_bounds_are_least(rects: Seq<Place>, n: int, e: (int, int, int, int))
    requires
        1 <= n <= rects.len(),
        forall|i: int|
            0 <= i < n ==> e.0 <= (#[trigger] rects[i]).0 && e.1 <= rects[i].1 && rects[i].0
                + rects[i].2 <= e.2 && rects[i].1 + rects[i].3 <= e.3,
    ensures
        e.0 <= edges_of(rects, n).0,
        e.1 <= edges_of(rects, n).1,
        edges_of(rects, n).2 <= e.2,
        edges_of(rects, n).3 <= e.3,
    decreases n,
{
    let last = rects[n - 1];
    if n > 1 {
        law_bounds_are_least(rects, n - 1, e);
    }
}

// ---- The monitor that shows a selection ----

/// The number of pixels two rectangles share.
pub open spec fn overlap(m: Rect, sel: Rect) -> int {
    floor_sub(lo(m.x1 as int, sel.x1 as int), hi(m.x0 as int, sel.x0 as int)) * floor_sub(
        lo(m.y1 as int, sel.y1 as int),
        hi(m.y0 as int, sel.y0 as int),
    )
}

/// The first monitor from `i` on that shows all of `sel`.
pub open spec fn first_cover(monitors: Seq<Rect>, sel: Rect, i: int) -> Option<int>
    decreases monitors.len() - i,
{
    if i >= monitors.len() {
        None
    } else if monitors[i].covers(sel) {
        Some(i)
    } else {
        first_cover(monitors, sel, i + 1)
    }
}

/// Of the first `n` monitors the one that shows most of `sel`, the last one
/// of several.
pub open spec fn most_overlap(monitors: Seq<Rect>, sel: Rect, n: int) -> int
    decreases n,
{
    if n <= 1 {
        0
    } else {
        let best = most_overlap(monitors, sel, n - 1);
        if overlap(monitors[n - 1], sel) >= overlap(monitors[best], sel) {
            n - 1
        } else {
            best
        }
    }
}

/// The monitor that shows `sel`: the first that shows all of it, else the
/// one that shows most of it.
pub open spec fn monitor_of(monitors: Seq<Rect>, sel: Rect) -> Option<int> {
    match first_cover(monitors, sel, 0) {
        Some(i) => Some(i),
        None => if monitors.len() == 0 {
            None
        } else {
            Some(most_overlap(monitors, sel, monitors.len() as int))
        },
    }
}

/// The number of pixels two rectangles share.
fn overlap_of(m: Rect, sel: Rect) -> (n: u128)
    ensures
        n == overlap(m, sel),
{
    let x1: usize = if m.x1 <= sel.x1 {
        m.x1
    } else {
        sel.x1
    };
    let x0: usize = if m.x0 >= sel.x0 {
        m.x0
    } else {
        sel.x0
    };
    let y1: usize = if m.y1 <= sel.y1 {
        m.y1
    } else {
        sel.y1
    };
    let y0: usize = if m.y0 >= sel.y0 {
        m.y0
    } else {
        sel.y0
    };
    let w: u128 = x1.saturating_sub(x0) as u128;
    let h: u128 = y1.saturating_sub(y0) as u128;
    assert(0 <= w * h <= 0xffff_ffff_ffff_ffff * 0xffff_ffff_ffff_ffff) by (nonlinear_arith)
        requires
            0 <= w <= 0xffff_ffff_ffff_ffff,
            0 <= h <= 0xffff_ffff_ffff_ffff,
    ;
    w * h
}

/// The rest of a fruitless search finds nothing either.
proof fn lemma_no_cover(monitors: Seq<Rect>, sel: Rect, i: int)
    requires
        0 <= i <= monitors.len(),
        forall|k: int| 0 <= k < i ==> !(#[trigger] monitors[k]).covers(sel),
    ensures
        first_cover(monitors, sel, 0) == first_cover(monitors, sel, i),
    decreases i,
{
    if i > 0 {
        lemma_no_cover(monitors, sel, i - 1);
        assert(!monitors[i - 1].covers(sel));
    }
}

/// What a search finds covers the selection, and nothing before it does.
proof fn lemma_first_cover(monitors: Seq<Rect>, sel: Rect, i: int)
    requires
        0 <= i <= monitors.len(),
    ensures
        match first_cover(monitors, sel, i) {
            Some(k) => i <= k < monitors.len() && monitors[k].covers(sel) && forall|j: int|
                i <= j < k ==> !(#[trigger] monitors[j]).covers(sel),
            None => forall|j: int|
                i <= j < monitors.len() ==> !(#[trigger] monitors[j]).covers(sel),
        },
    decreases monitors.len() - i,
{
    if i < monitors.len() && !monitors[i].covers(sel) {
        lemma_first_cover(monitors, sel, i + 1);
    }
}

/// The best of some monitors is one of them.
proof fn lemma_most_overlap_range(monitors: Seq<Rect>, sel: Rect, n: int)
    requires
        1 <= n,
    ensures
        0 <= most_overlap(monitors, sel, n) < n,
    decreases n,
{
    if n > 1 {
        lemma_most_overlap_range(monitors, sel, n - 1);
    }
}

/// The monitor that shows `sel` is one of the monitors.
pub proof fn lemma_monitor_range(monitors: Seq<Rect>, sel: Rect)
    ensures
        monitor_of(monitors, sel) matches Some(i) ==> 0 <= i < monitors.len(),
        monitor_of(monitors, sel) is None ==> monitors.len() == 0,
{
    lemma_first_cover(monitors, sel, 0);
    if monitors.len() > 0 {
        lemma_most_overlap_range(monitors, sel, monitors.len() as int);
    }
}

/// The monitor that shows `sel`. A selection across several belongs to the
/// one that shows most of it. `None` without a monitor.
pub fn containing_monitor_index(monitors: &[Rect], sel: Rect) -> (r: Option<usize>)
    ensures
        match r {
            Some(i) => i < monitors@.len() && monitor_of(monitors@, sel) == Some(i as int),
            None => monitors@.len() == 0 && monitor_of(monitors@, sel) == None::<int>,
        },
{
    let mut i: usize = 0;
    while i < monitors.len()
        invariant
            i <= monitors@.len(),
            forall|k: int| 0 <= k < i ==> !(#[trigger] monitors@[k]).covers(sel),
        decreases monitors.len() - i,
    {
        let m = monitors[i];
        if m.x0 <= sel.x0 && m.y0 <= sel.y0 && m.x1 >= sel.x1 && m.y1 >= sel.y1 {
            proof {
                lemma_no_cover(monitors@, sel, i as int);
            }
            return Some(i);
        }
        i += 1;
    }
    proof {
        lemma_no_cover(monitors@, sel, i as int);
    }
    if monitors.len() == 0 {
        return None;
    }
    let mut best: usize = 0;
    let mut most: u128 = overlap_of(monitors[0], sel);
    let mut n: usize = 1;
    while n < monitors.len()
        invariant
            1 <= n <= monitors@.len(),
            best < n,
            best == most_overlap(monitors@, sel, n as int),
            most == overlap(monitors@[best as int], sel),
        decreases monitors.len() - n,
    {
        let shared: u128 = overlap_of(monitors[n], sel);
        if shared >= most {
            best = n;
            most = shared;
        }
        n += 1;
    }
    Some(best)
}

/// The rectangle of the monitor that shows `sel`, or `canvas` without one.
pub open spec fn bounds_of(monitors: Seq<Rect>, sel: Rect, canvas: Rect) -> Rect {
    match monitor_of(monitors, sel) {
        Some(i) => monitors[i],
        None => canvas,
    }
}

/// The rectangle of the monitor that shows `sel`, or the whole `canvas`
/// without a monitor.
pub fn containing_monitor(monitors: &[Rect], sel: Rect, canvas: Rect) -> (r: Rect)
    ensures
        r == bounds_of(monitors@, sel, canvas),
{
    match containing_monitor_index(monitors, sel) {
        Some(i) => monitors[i],
        None => canvas,
    }
}

/// A selection that some monitor shows in full belongs to such a monitor.
pub proof fn law_monitor_shows_selection(monitors: Seq<Rect>, sel: Rect, k: int)
    requires
        0 <= k < monitors.len(),
        monitors[k].covers(sel),
    ensures
        monitor_of(monitors, sel) matches Some(i) && 0 <= i <= k && monitors[i].covers(sel),
{
    lemma_first_cover(monitors, sel, 0);
}

/// A selection that no monitor shows in full belongs to one that shows as
/// much of it as any.
pub proof fn law_monitor_shows_most(monitors: Seq<Rect>, sel: Rect, k: int)
    requires
        0 <= k < monitors.len(),
        forall|j: int| 0 <= j < monitors.len() ==> !(#[trigger] monitors[j]).covers(sel),
    ensures
        monitor_of(monitors, sel) matches Some(i) && 0 <= i < monitors.len() && overlap(
            monitors[k],
            sel,
        ) <= overlap(monitors[i], sel),
{
    lemma_first_cover(monitors, sel, 0);
    lemma_most_overlap_range(monitors, sel, monitors.len() as int);
    lemma_most_overlap(monitors, sel, monitors.len() as int, k);
}

proof fn lemma_most_overlap(monitors: Seq<Rect>, sel: Rect, n: int, k: int)
    requires
        0 <= k < n <= monitors.len(),
    ensures
        overlap(monitors[k], sel) <= overlap(monitors[most_overlap(monitors, sel, n)], sel),
    decreases n,
{
    if n > 1 {
        lemma_most_overlap_range(monitors, sel, n - 1);
        if k < n - 1 {
            lemma_most_overlap(monitors, sel, n - 1, k);
        }
    }
}

// ---- Scale factors ----

/// A monitor as the windowing system reports it: its place, its size and its
/// scale factor.
pub type MonitorInfo<F> = ((i32, i32), (u32, u32), F);

/// Whether a reported monitor holds a point of the desktop.
pub open spec fn info_holds<F>(h: MonitorInfo<F>, p: (int, int)) -> bool {
    h.0.0 <= p.0 < h.0.0 + h.1.0 && h.0.1 <= p.1 < h.0.1 + h.1.1
}

/// The first reported monitor from `i` on that holds a point.
pub open spec fn info_at<F>(handles: Seq<MonitorInfo<F>>, p: (int, int), i: int) -> Option<int>
    decreases handles.len() - i,
{
    if i >= handles.len() {
        None
    } else if info_holds(handles[i], p) {
        Some(i)
    } else {
        info_at(handles, p, i + 1)
    }
}

/// The center of a monitor, on the desktop.
pub open spec fn center_of(origin: (i32, i32), m: Rect) -> (int, int) {
    (origin.0 + m.x0 + (m.x1 - m.x0) / 2, origin.1 + m.y0 + (m.y1 - m.y0) / 2)
}

/// The scale factor of a monitor: that of the reported monitor which holds
/// its center, else `one`.
pub open spec fn scale_of<F>(
    origin: (i32, i32),
    m: Rect,
    handles: Seq<MonitorInfo<F>>,
    one: F,
) -> F {
    match info_at(handles, center_of(origin, m), 0) {
        Some(i) => handles[i].2,
        None => one,
    }
}

/// Whether a rectangle's coordinates are those of a picture of the desktop.
pub open spec fn on_desktop(m: Rect) -> bool {
    m.ordered() && m.x1 <= i32::MAX && m.y1 <= i32::MAX
}

fn scale_at<F: Copy>(origin: (i32, i32), m: Rect, handles: &[MonitorInfo<F>], one: F) -> (s: F)
    requires
        on_desktop(m),
    ensures
        s == scale_of(origin, m, handles@, one),
{
    let cx: i64 = origin.0 as i64 + m.x0 as i64 + (m.x1 - m.x0) as i64 / 2;
    let cy: i64 = origin.1 as i64 + m.y0 as i64 + (m.y1 - m.y0) as i64 / 2;
    let mut i: usize = 0;
    while i < handles.len()
        invariant
            i <= handles@.len(),
            (cx as int, cy as int) == center_of(origin, m),
            info_at(handles@, center_of(origin, m), 0) == info_at(
                handles@,
                center_of(origin, m),
                i as int,
            ),
        decreases handles.len() - i,
    {
        let h = handles[i];
        let hx: i64 = h.0.0 as i64;
        let hy: i64 = h.0.1 as i64;
        if cx >= hx && cx < hx + h.1.0 as i64 && cy >= hy && cy < hy + h.1.1 as i64 {
            return h.2;
        }
        i += 1;
    }
    one
}

/// Pairs each monitor of the picture with its scale factor, by its center.
/// `origin` is where the picture's corner lies on the desktop. A monitor
/// that was not reported gets `one`.
pub fn match_monitor_dpis<F: Copy>(
    origin: (i32, i32),
    monitors: &[Rect],
    handles: &[MonitorInfo<F>],
    one: F,
) -> (scales: Vec<F>)
    requires
        forall|i: int| 0 <= i < monitors@.len() ==> on_desktop(#[trigger] monitors@[i]),
    ensures
        scales@.len() == monitors@.len(),
        forall|i: int|
            0 <= i < monitors@.len() ==> #[trigger] scales@[i] == scale_of(
                origin,
                monitors@[i],
                handles@,
                one,
            ),
{
    let mut scales: Vec<F> = Vec::new();
    let mut i: usize = 0;
    while i < monitors.len()
        invariant
            i <= monitors@.len(),
            forall|k: int| 0 <= k < monitors@.len() ==> on_desktop(#[trigger] monitors@[k]),
            scales@.len() == i,
            forall|k: int|
                0 <= k < i ==> #[trigger] scales@[k] == scale_of(origin, monitors@[k], handles@, one),
        decreases monitors.len() - i,
    {
        scales.push(scale_at(origin, monitors[i], handles, one));
        i += 1;
    }
    scales
}

// ---- The still picture ----

/// Whether a picture has the bytes its size asks for.
pub open spec fn whole(s: Shot) -> bool {
    s.rgba@.len() == 4 * (s.width * s.height)
}

/// A pixel of a picture as 0x00RRGGBB, at half its brightness if `half`.
pub open spec fn shot_color(s: Shot, x: int, y: int, half: bool) -> u32 {
    let i = 4 * at(s.width as int, x, y);
    let r = s.rgba@[i] as u32;
    let g = s.rgba@[i + 1] as u32;
    let b = s.rgba@[i + 2] as u32;
    if half {
        packed(r / 2, g / 2, b / 2)
    } else {
        packed(r, g, b)
    }
}

/// Whether a picture laid at `corner` reaches a pixel.
pub open spec fn reaches(s: Shot, corner: (int, int), x: int, y: int) -> bool {
    corner.0 <= x < corner.0 + s.width && corner.1 <= y < corner.1 + s.height
}

/// A pixel of the canvas after a picture has been laid at `corner`.
pub open spec fn laid(
    under: u32,
    s: Shot,
    corner: (int, int),
    half: bool,
    x: int,
    y: int,
) -> u32 {
    if reaches(s, corner, x, y) {
        shot_color(s, x - corner.0, y - corner.1, half)
    } else {
        under
    }
}

/// Reads a pixel of a picture.
fn color_at(s: &Shot, x: usize, y: usize, half: bool) -> (c: u32)
    requires
        whole(*s),
        x < s.width,
        y < s.height,
    ensures
        c == shot_color(*s, x as int, y as int, half),
{
    proof {
        lemma_at(s.width as int, s.height as int, x as int, y as int);
        assert(4 * at(s.width as int, x as int, y as int) + 3 < s.rgba@.len());
    }
    let total: usize = s.rgba.len();
    let row: usize = y * s.width as usize;
    let i: usize = 4 * (row + x);
    let r: u32 = s.rgba[i] as u32;
    let g: u32 = s.rgba[i + 1] as u32;
    let b: u32 = s.rgba[i + 2] as u32;
    if half {
        pack(r / 2, g / 2, b / 2)
    } else {
        pack(r, g, b)
    }
}

/// Lays a picture onto a canvas, as far as it reaches.
fn lay(
    buf: &mut Vec<u32>,
    width: usize,
    height: usize,
    corner: (usize, usize),
    s: &Shot,
    half: bool,
)
    requires
        old(buf)@.len() == width * height,
        width * height <= usize::MAX,
        whole(*s),
        corner.0 <= width,
        corner.1 <= height,
    ensures
        final(buf)@.len() == width * height,
        forall|x: int, y: int|
            #![trigger at(width as int, x, y)]
            0 <= x < width && 0 <= y < height ==> final(buf)@[at(width as int, x, y)] == laid(
                old(buf)@[at(width as int, x, y)],
                *s,
                (corner.0 as int, corner.1 as int),
                half,
                x,
                y,
            ),
{
    let ghost before = buf@;
    let ghost w = width as int;
    let ghost c = (corner.0 as int, corner.1 as int);
    let cols: usize = if (s.width as usize) < width - corner.0 {
        s.width as usize
    } else {
        width - corner.0
    };
    let rows: usize = if (s.height as usize) < height - corner.1 {
        s.height as usize
    } else {
        height - corner.1
    };
    let mut y: usize = 0;
    while y < rows
        invariant
            y <= rows,
            w == width,
            c == (corner.0 as int, corner.1 as int),
            corner.0 <= width,
            corner.1 <= height,
            cols <= s.width,
            rows <= s.height,
            cols <= width - corner.0,
            rows <= height - corner.1,
            cols == s.width || cols == width - corner.0,
            width * height <= usize::MAX,
            whole(*s),
            before.len() == width * height,
            buf@.len() == width * height,
            forall|qx: int, qy: int|
                #![trigger at(w, qx, qy)]
                0 <= qx < width && 0 <= qy < height ==> buf@[at(w, qx, qy)] == (if qy < c.1 + y {
                    laid(before[at(w, qx, qy)], *s, c, half, qx, qy)
                } else {
                    before[at(w, qx, qy)]
                }),
        decreases rows - y,
    {
        let mut x: usize = 0;
        while x < cols
            invariant
                y < rows,
                x <= cols,
                w == width,
                c == (corner.0 as int, corner.1 as int),
                corner.0 <= width,
                corner.1 <= height,
                cols <= s.width,
                rows <= s.height,
                cols <= width - corner.0,
                rows <= height - corner.1,
                cols == s.width || cols == width - corner.0,
                width * height <= usize::MAX,
                whole(*s),
                before.len() == width * height,
                buf@.len() == width * height,
                forall|qx: int, qy: int|
                    #![trigger at(w, qx, qy)]
                    0 <= qx < width && 0 <= qy < height ==> buf@[at(w, qx, qy)] == (if qy < c.1 + y
                        || (qy == c.1 + y && qx < c.0 + x) {
                        laid(before[at(w, qx, qy)], *s, c, half, qx, qy)
                    } else {
                        before[at(w, qx, qy)]
                    }),
            decreases cols - x,
        {
            let color: u32 = color_at(s, x, y, half);
            let ghost prior = buf@;
            let i: usize = index_of(width, height, corner.0 + x, corner.1 + y);
            buf.set(i, color);
            assert forall|qx: int, qy: int|
                #![trigger at(w, qx, qy)]
                0 <= qx < width && 0 <= qy < height implies buf@[at(w, qx, qy)] == (if qy < c.1 + y
                || (qy == c.1 + y && qx < c.0 + x + 1) {
                laid(before[at(w, qx, qy)], *s, c, half, qx, qy)
            } else {
                before[at(w, qx, qy)]
            }) by {
                lemma_at(w, height as int, qx, qy);
                if at(w, qx, qy) == i {
                    lemma_at_distinct(w, qx, qy, c.0 + x, c.1 + y);
                } else {
                    assert(buf@[at(w, qx, qy)] == prior[at(w, qx, qy)]);
                }
            }
            x += 1;
        }
        y += 1;
    }
}

/// The still picture of the whole desktop.
#[derive(Debug)]
pub struct Frozen {
    pub width: usize,
    pub height: usize,
    /// Each pixel as 0x00RRGGBB.
    pub bright: Vec<u32>,
    /// Each pixel at half its brightness.
    pub dim: Vec<u32>,
    /// Where the picture's corner lies on the desktop.
    pub origin: (i32, i32),
    /// Each monitor's part of the picture. What lies in none of them is
    /// never on a screen.
    pub monitors: Vec<Rect>,
    /// The menu's measures on each monitor.
    pub scales: Vec<MenuScale>,
}

/// The picture cannot be taken.
#[derive(Clone, Copy, Debug, PartialEq, Eq, Structural)]
pub enum CaptureError {
    /// There is no monitor.
    NoMonitor,
}

/// The picture's size: as large as the bounds, and a pixel at least.
pub open spec fn picture_size(rects: Seq<Place>) -> (int, int) {
    let e = edges_of(rects, rects.len() as int);
    (hi(e.2 - e.0, 1), hi(e.3 - e.1, 1))
}

/// A monitor's part of the picture.
pub open spec fn monitor_rect(rects: Seq<Place>, i: int) -> Rect {
    let e = edges_of(rects, rects.len() as int);
    Rect {
        x0: (rects[i].0 - e.0) as usize,
        y0: (rects[i].1 - e.1) as usize,
        x1: (rects[i].0 - e.0 + rects[i].2) as usize,
        y1: (rects[i].1 - e.1 + rects[i].3) as usize,
    }
}

/// A pixel of the picture: that of the last monitor's capture which reaches
/// it, or black.
pub open spec fn composed(
    rects: Seq<Place>,
    images: Seq<Option<Shot>>,
    half: bool,
    x: int,
    y: int,
    n: int,
) -> u32
    decreases n,
{
    if n <= 0 {
        0
    } else {
        let under = composed(rects, images, half, x, y, n - 1);
        let m = monitor_rect(rects, n - 1);
        match images[n - 1] {
            Some(s) => laid(under, s, (m.x0 as int, m.y0 as int), half, x, y),
            None => under,
        }
    }
}

/// Whether the pictures are whole and the result fits into memory.
pub open spec fn can_compose(rects: Seq<Place>, images: Seq<Option<Shot>>) -> bool {
    &&& all_tellable(rects)
    &&& images.len() == rects.len()
    &&& forall|i: int| 0 <= i < images.len() ==> ((#[trigger] images[i]) matches Some(s) ==> whole(s))
    &&& rects.len() > 0 ==> {
        &&& picture_size(rects).0 <= i32::MAX
        &&& picture_size(rects).1 <= i32::MAX
        &&& picture_size(rects).0 * picture_size(rects).1 <= usize::MAX
    }
}

/// Whether every monitor's far edges can be told.
fn are_tellable(rects: &[Place]) -> (r: bool)
    ensures
        r == all_tellable(rects@),
{
    let most: i64 = 0x7fff_ffff;
    let mut i: usize = 0;
    while i < rects.len()
        invariant
            i <= rects@.len(),
            most == 0x7fff_ffff,
            forall|k: int| 0 <= k < i ==> tellable(#[trigger] rects@[k]),
        decreases rects.len() - i,
    {
        let r: Place = rects[i];
        if r.2 as i64 > most || r.3 as i64 > most || r.0 as i64 + r.2 as i64 > most || r.1 as i64
            + r.3 as i64 > most {
            assert(!tellable(rects@[i as int]));
            return false;
        }
        i += 1;
    }
    true
}

/// Whether every picture has the bytes its size asks for.
fn are_whole(images: &[Option<Shot>]) -> (r: bool)
    ensures
        r == (forall|i: int|
            0 <= i < images@.len() ==> ((#[trigger] images@[i]) matches Some(s) ==> whole(s))),
{
    let mut i: usize = 0;
    while i < images.len()
        invariant
            i <= images@.len(),
            forall|k: int| 0 <= k < i ==> ((#[trigger] images@[k]) matches Some(s) ==> whole(s)),
        decreases images.len() - i,
    {
        if let Some(s) = &images[i] {
            proof {
                assert(0 <= s.width * s.height <= 0xFFFF_FFFF * 0xFFFF_FFFFint) by (nonlinear_arith)
                    requires
                        0 <= s.width <= 0xFFFF_FFFF,
                        0 <= s.height <= 0xFFFF_FFFF,
                ;
            }
            let area: u64 = s.width as u64 * s.height as u64;
            if s.rgba.len() as u128 != area as u128 * 4 {
                assert(images@[i as int] matches Some(t) && !whole(t));
                return false;
            }
        }
        i += 1;
    }
    true
}

/// Whether the captures of the monitors can be composited.
pub fn is_composable(rects: &[Place], images: &[Option<Shot>]) -> (r: bool)
    ensures
        r == can_compose(rects@, images@),
{
    if !are_tellable(rects) || images.len() != rects.len() || !are_whole(images) {
        return false;
    }
    match monitors_bounds(rects) {
        None => true,
        Some(e) => {
            let w: i64 = e.2 as i64 - e.0 as i64;
            let h: i64 = e.3 as i64 - e.1 as i64;
            let most: i64 = 0x7fff_ffff;
            if w > most || h > most {
                return false;
            }
            let width: u64 = if w >= 1 {
                w as u64
            } else {
                1
            };
            let height: u64 = if h >= 1 {
                h as u64
            } else {
                1
            };
            proof {
                assert(0 <= width * height <= 0x7fff_ffff * 0x7fff_ffff) by (nonlinear_arith)
                    requires
                        0 <= width <= 0x7fff_ffff,
                        0 <= height <= 0x7fff_ffff,
                ;
            }
            width * height <= usize::MAX as u64
        },
    }
}

impl Frozen {
    /// Whether the picture is what the monitors and their captures make of
    /// it.
    pub open spec fn shows(self, rects: Seq<Place>, images: Seq<Option<Shot>>) -> bool {
        let e = edges_of(rects, rects.len() as int);
        let n = rects.len() as int;
        &&& (self.width as int, self.height as int) == picture_size(rects)
        &&& (self.origin.0 as int, self.origin.1 as int) == (e.0, e.1)
        &&& self.monitors@.len() == rects.len()
        &&& forall|i: int|
            0 <= i < rects.len() ==> #[trigger] self.monitors@[i] == monitor_rect(rects, i)
        &&& self.bright@.len() == self.width * self.height
        &&& self.dim@.len() == self.width * self.height
        &&& forall|x: int, y: int|
            #![trigger at(self.width as int, x, y)]
            0 <= x < self.width && 0 <= y < self.height ==> self.bright@[at(
                self.width as int,
                x,
                y,
            )] == composed(rects, images, false, x, y, n) && self.dim@[at(self.width as int, x, y)]
                == composed(rects, images, true, x, y, n)
    }

    /// Composites the captures of all monitors into one picture of the
    /// desktop. A monitor whose capture failed stays black. `handles` are
    /// the monitors as the windowing system reports them, `one` is the scale
    /// factor of any other, and `measure` gives the menu's measures at a
    /// scale factor.
    pub fn capture<F: Copy, P: Fn(F) -> MenuScale>(
        rects: &[Place],
        images: &[Option<Shot>],
        handles: &[MonitorInfo<F>],
        one: F,
        measure: &P,
    ) -> (frozen: Result<Self, CaptureError>)
        requires
            can_compose(rects@, images@),
            pure(*measure),
        ensures
            match frozen {
                Ok(f) => rects@.len() > 0 && f.shows(rects@, images@) && f.scales@.len()
                    == rects@.len() && forall|i: int|
                    0 <= i < rects@.len() ==> #[trigger] f.scales@[i] == result(
                        *measure,
                        scale_of(f.origin, f.monitors@[i], handles@, one),
                    ),
                Err(CaptureError::NoMonitor) => rects@.len() == 0,
            },
    {
        let e: (i32, i32, i32, i32) = match monitors_bounds(rects) {
            Some(e) => e,
            None => {
                return Err(CaptureError::NoMonitor);
            },
        };
        let w: i64 = e.2 as i64 - e.0 as i64;
        let h: i64 = e.3 as i64 - e.1 as i64;
        let width: usize = if w >= 1 {
            w as usize
        } else {
            1
        };
        let height: usize = if h >= 1 {
            h as usize
        } else {
            1
        };
        let monitors = monitor_rects(rects, e);
        let factors = match_monitor_dpis((e.0, e.1), monitors.as_slice(), handles, one);
        let mut scales: Vec<MenuScale> = Vec::new();
        let mut i: usize = 0;
        while i < factors.len()
            invariant
                pure(*measure),
                i <= factors@.len(),
                scales@.len() == i,
                forall|k: int| 0 <= k < i ==> #[trigger] scales@[k] == result(*measure, factors@[k]),
            decreases factors.len() - i,
        {
            scales.push(apply(measure, factors[i]));
            i += 1;
        }
        let bright = composite(rects, images, monitors.as_slice(), width, height, false);
        let dim = composite(rects, images, monitors.as_slice(), width, height, true);
        Ok(Frozen { width, height, bright, dim, origin: (e.0, e.1), monitors, scales })
    }
}

/// Each monitor's part of the picture.
fn monitor_rects(rects: &[Place], e: (i32, i32, i32, i32)) -> (monitors: Vec<Rect>)
    requires
        rects@.len() > 0,
        all_tellable(rects@),
        (e.0 as int, e.1 as int, e.2 as int, e.3 as int) == edges_of(
            rects@,
            rects@.len() as int,
        ),
        e.2 - e.0 <= i32::MAX,
        e.3 - e.1 <= i32::MAX,
    ensures
        monitors@.len() == rects@.len(),
        forall|i: int|
            0 <= i < rects@.len() ==> #[trigger] monitors@[i] == monitor_rect(rects@, i)
                && on_desktop(monitors@[i]) && monitors@[i].x1 <= e.2 - e.0 && monitors@[i].y1
                <= e.3 - e.1,
{
    let mut monitors: Vec<Rect> = Vec::new();
    let mut i: usize = 0;
    while i < rects.len()
        invariant
            i <= rects@.len(),
            all_tellable(rects@),
            (e.0 as int, e.1 as int, e.2 as int, e.3 as int) == edges_of(
                rects@,
                rects@.len() as int,
            ),
            e.2 - e.0 <= i32::MAX,
            e.3 - e.1 <= i32::MAX,
            monitors@.len() == i,
            forall|k: int|
                0 <= k < i ==> #[trigger] monitors@[k] == monitor_rect(rects@, k) && on_desktop(
                    monitors@[k],
                ) && monitors@[k].x1 <= e.2 - e.0 && monitors@[k].y1 <= e.3 - e.1,
        decreases rects.len() - i,
    {
        proof {
            law_bounds_cover_monitors(rects@, rects@.len() as int, i as int);
            assert(tellable(rects@[i as int]));
        }
        let r: Place = rects[i];
        let x: i64 = r.0 as i64 - e.0 as i64;
        let y: i64 = r.1 as i64 - e.1 as i64;
        monitors.push(
            Rect {
                x0: x as usize,
                y0: y as usize,
                x1: (x + r.2 as i64) as usize,
                y1: (y + r.3 as i64) as usize,
            },
        );
        i += 1;
    }
    monitors
}

/// The pixels of the picture.
fn composite(
    rects: &[Place],
    images: &[Option<Shot>],
    monitors: &[Rect],
    width: usize,
    height: usize,
    half: bool,
) -> (buf: Vec<u32>)
    requires
        can_compose(rects@, images@),
        monitors@.len() == rects@.len(),
        width * height <= usize::MAX,
        forall|i: int|
            0 <= i < rects@.len() ==> #[trigger] monitors@[i] == monitor_rect(rects@, i)
                && monitors@[i].x0 <= width && monitors@[i].y0 <= height,
    ensures
        buf@.len() == width * height,
        forall|x: int, y: int|
            #![trigger at(width as int, x, y)]
            0 <= x < width && 0 <= y < height ==> buf@[at(width as int, x, y)] == composed(
                rects@,
                images@,
                half,
                x,
                y,
                rects@.len() as int,
            ),
{
    let ghost w = width as int;
    let n: usize = width * height;
    let mut buf: Vec<u32> = Vec::new();
    let mut k: usize = 0;
    while k < n
        invariant
            k <= n,
            buf@.len() == k,
            forall|j: int| 0 <= j < k ==> #[trigger] buf@[j] == 0,
        decreases n - k,
    {
        buf.push(0);
        k += 1;
    }
    assert forall|x: int, y: int|
        #![trigger at(w, x, y)]
        0 <= x < width && 0 <= y < height implies buf@[at(w, x, y)] == composed(
        rects@,
        images@,
        half,
        x,
        y,
        0,
    ) by {
        lemma_at(w, height as int, x, y);
    }
    let mut i: usize = 0;
    while i < images.len()
        invariant
            w == width,
            i <= images@.len(),
            can_compose(rects@, images@),
            monitors@.len() == rects@.len(),
            width * height <= usize::MAX,
            forall|j: int|
                0 <= j < rects@.len() ==> #[trigger] monitors@[j] == monitor_rect(rects@, j)
                    && monitors@[j].x0 <= width && monitors@[j].y0 <= height,
            buf@.len() == width * height,
            forall|x: int, y: int|
                #![trigger at(w, x, y)]
                0 <= x < width && 0 <= y < height ==> buf@[at(w, x, y)] == composed(
                    rects@,
                    images@,
                    half,
                    x,
                    y,
                    i as int,
                ),
        decreases images.len() - i,
    {
        assert(monitors@[i as int] == monitor_rect(rects@, i as int));
        let ghost before = buf@;
        match &images[i] {
            Some(s) => {
                lay(&mut buf, width, height, (monitors[i].x0, monitors[i].y0), s, half);
            },
            None => {},
        }
        assert forall|x: int, y: int|
            #![trigger at(w, x, y)]
            0 <= x < width && 0 <= y < height implies buf@[at(w, x, y)] == composed(
            rects@,
            images@,
            half,
            x,
            y,
            i + 1,
        ) by {
            assert(before[at(w, x, y)] == composed(rects@, images@, half, x, y, i as int));
        }
        i += 1;
    }
    buf
}

/// The parts of the monitors lie within the picture.
pub proof fn law_monitors_lie_in_picture(rects: Seq<Place>, i: int)
    requires
        all_tellable(rects),
        0 <= i < rects.len(),
        picture_size(rects).0 <= i32::MAX,
        picture_size(rects).1 <= i32::MAX,
    ensures
        on_desktop(monitor_rect(rects, i)),
        monitor_rect(rects, i).x1 <= picture_size(rects).0,
        monitor_rect(rects, i).y1 <= picture_size(rects).1,
{
    law_bounds_cover_monitors(rects, rects.len() as int, i);
    assert(tellable(rects[i]));
}

} // verus!
