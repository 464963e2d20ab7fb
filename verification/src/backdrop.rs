//! What the overlay paints: the dimmed picture with the selection cut out,
//! the selection's frame, and the crosshair.

use vstd::prelude::*;

use crate::grid::{at, index_of, lemma_at, lemma_at_distinct};
use crate::menu::{hi, lo};
use crate::overlay::{is_choice, Mode, Overlay, OverlayModel, Spot};
use crate::pure::{apply, pure, result};
use crate::rect::Rect;

verus! {

/// The color of the selection's frame and of the crosshair's inner part.
pub const ACCENT: u32 = 0x004D_A6FF;

/// The thickness of the selection's frame.
pub const BORDER: usize = 2;

/// The crosshair: its gap around the pointer, how far its thin and its thick
/// part reach, and the length of a stripe beyond.
pub const CROSS_GAP: i64 = 4;

pub const CROSS_INNER: i64 = 50;

pub const CROSS_OUTER: i64 = 100;

pub const CROSS_STRIPE: i64 = 6;

/// The number of pixels from which rows are composed in parallel, and the
/// most parts they are split into.
pub const PAR_PIXEL_THRESHOLD: usize = 200_000;

pub const PAR_MOST: usize = 8;

// ---- What is to be painted ----

/// What the overlay's window shows, beside its menu.
#[derive(Clone, Copy, Debug)]
pub struct Sight {
    /// The rectangle shown at full brightness, in the picture.
    pub rect: Option<Rect>,
    pub crosshair: bool,
    pub zoomed: bool,
}

impl OverlayModel {
    /// The rectangle shown at full brightness: the selection, else what a
    /// release would select. The crosshair stands for the hidden pointer.
    pub open spec fn sight(self, s: Spot) -> Sight {
        Sight {
            rect: match self.scene.selection {
                Some(r) => Some(r),
                None => self.candidate(s),
            },
            crosshair: self.scene.fine || (self.scene.mode == Mode::Selecting
                && self.scene.selection is None),
            zoomed: self.scene.zoomed,
        }
    }
}

impl Overlay {
    /// What the overlay's window shows, beside its menu.
    pub fn draw(&self, s: &Spot) -> (sight: Sight)
        requires
            self@.wf(),
        ensures
            sight == self@.sight(*s),
            is_choice(sight.rect, self@.img()),
    {
        Sight {
            rect: match self.scene.selection {
                Some(r) => Some(r),
                None => self.candidate_rect(s),
            },
            crosshair: self.scene.fine || (self.scene.mode == Mode::Selecting
                && self.scene.selection.is_none()),
            zoomed: self.scene.zoomed,
        }
    }
}

// ---- The picture as it is ----

/// A pixel of the window that is not magnified: bright inside `rect`, dimmed
/// around it, and black below the picture.
pub open spec fn plain_pixel(
    bright: Seq<u32>,
    dim: Seq<u32>,
    rect: Option<Rect>,
    rows: int,
    w: int,
    x: int,
    y: int,
) -> u32 {
    if y >= rows {
        0
    } else if rect matches Some(r) && r.holds(x, y) {
        bright[at(w, x, y)]
    } else {
        dim[at(w, x, y)]
    }
}

/// Paints the picture where nothing is magnified. The window has the
/// picture's width; what it has below the picture is black.
pub fn paint_plain(
    buf: &mut [u32],
    size: (usize, usize),
    bright: &[u32],
    dim: &[u32],
    img_h: usize,
    rect: Option<Rect>,
)
    requires
        old(buf)@.len() == size.0 * size.1,
        bright@.len() == size.0 * img_h,
        dim@.len() == size.0 * img_h,
    ensures
        final(buf)@.len() == size.0 * size.1,
        forall|x: int, y: int|
            #![trigger at(size.0 as int, x, y)]
            0 <= x < size.0 && 0 <= y < size.1 ==> final(buf)@[at(size.0 as int, x, y)]
                == plain_pixel(
                bright@,
                dim@,
                rect,
                lo(size.1 as int, img_h as int),
                size.0 as int,
                x,
                y,
            ),
{
    let n: usize = buf.len();
    let ghost w = size.0 as int;
    let ghost rows = lo(size.1 as int, img_h as int);
    let mut y: usize = 0;
    let mut i: usize = 0;
    while y < size.1
        invariant
            w == size.0,
            n == size.0 * size.1,
            n <= usize::MAX,
            rows == lo(size.1 as int, img_h as int),
            bright@.len() == size.0 * img_h,
            dim@.len() == size.0 * img_h,
            buf@.len() == n,
            y <= size.1,
            i == at(w, 0, y as int),
            forall|qx: int, qy: int|
                #![trigger at(w, qx, qy)]
                0 <= qx < w && 0 <= qy < y ==> buf@[at(w, qx, qy)] == plain_pixel(
                    bright@,
                    dim@,
                    rect,
                    rows,
                    w,
                    qx,
                    qy,
                ),
        decreases size.1 - y,
    {
        let mut x: usize = 0;
        while x < size.0
            invariant
                w == size.0,
                n == size.0 * size.1,
                n <= usize::MAX,
                rows == lo(size.1 as int, img_h as int),
                bright@.len() == size.0 * img_h,
                dim@.len() == size.0 * img_h,
                buf@.len() == n,
                y < size.1,
                x <= size.0,
                i == at(w, x as int, y as int),
                forall|qx: int, qy: int|
                    #![trigger at(w, qx, qy)]
                    0 <= qx < w && (0 <= qy < y || (qy == y && qx < x)) ==> buf@[at(w, qx, qy)]
                        == plain_pixel(bright@, dim@, rect, rows, w, qx, qy),
            decreases size.0 - x,
        {
            proof {
                lemma_at(w, size.1 as int, x as int, y as int);
                if y < img_h {
                    lemma_at(w, img_h as int, x as int, y as int);
                }
            }
            let lit = match rect {
                Some(r) => r.contains(x, y),
                None => false,
            };
            let color: u32 = if y >= img_h {
                0
            } else if lit {
                bright[i]
            } else {
                dim[i]
            };
            let ghost before = buf@;
            buf[i] = color;
            assert forall|qx: int, qy: int|
                #![trigger at(w, qx, qy)]
                0 <= qx < w && (0 <= qy < y || (qy == y && qx < x + 1)) implies buf@[at(w, qx, qy)]
                == plain_pixel(bright@, dim@, rect, rows, w, qx, qy) by {
                lemma_at(w, size.1 as int, qx, qy);
                if at(w, qx, qy) == i {
                    lemma_at_distinct(w, qx, qy, x as int, y as int);
                } else {
                    assert(buf@[at(w, qx, qy)] == before[at(w, qx, qy)]);
                }
            }
            i += 1;
            x += 1;
        }
        assert(at(w, w, y as int) == at(w, 0, y + 1)) by (nonlinear_arith)
            requires
                at(w, w, y as int) == y * w + w,
                at(w, 0, y + 1) == (y + 1) * w + 0,
        ;
        y += 1;
    }
}

// ---- The magnified picture ----

/// The source of a pixel of the window, where there is none.
pub const NO_SOURCE: usize = usize::MAX;

/// The source of a pixel of the window: the picture's pixel, if it has one
/// there.
pub open spec fn source_of(v: i64, len: int) -> usize {
    if 0 <= v < len {
        v as usize
    } else {
        NO_SOURCE
    }
}

/// The sources of the pixels along an axis of the window. `find` gives the
/// picture's coordinate for a pixel, rounded down.
pub fn axis_map<P: Fn(usize) -> i64>(screen_len: usize, img_len: usize, find: &P) -> (map: Vec<
    usize,
>)
    requires
        pure(*find),
        img_len <= i32::MAX,
    ensures
        map@.len() == screen_len,
        forall|i: int|
            0 <= i < screen_len ==> #[trigger] map@[i] == source_of(
                result(*find, i as usize),
                img_len as int,
            ),
{
    let mut map: Vec<usize> = Vec::new();
    let mut i: usize = 0;
    while i < screen_len
        invariant
            pure(*find),
            img_len <= i32::MAX,
            i <= screen_len,
            map@.len() == i,
            forall|k: int|
                0 <= k < i ==> #[trigger] map@[k] == source_of(
                    result(*find, k as usize),
                    img_len as int,
                ),
        decreases screen_len - i,
    {
        let v: i64 = apply(find, i);
        if 0 <= v && v < img_len as i64 {
            map.push(v as usize);
        } else {
            map.push(NO_SOURCE);
        }
        i += 1;
    }
    map
}

/// Whether a pixel of the window shows a column of `x0..x1`.
pub open spec fn shows_column(cols: Seq<usize>, i: int, x0: int, x1: int) -> bool {
    cols[i] != NO_SOURCE && x0 <= cols[i] < x1
}

/// The first of the window's columns from `i` on that shows one of
/// `x0..x1`, or the end.
pub open spec fn first_column(cols: Seq<usize>, x0: int, x1: int, i: int) -> int
    decreases cols.len() - i,
{
    if i >= cols.len() || shows_column(cols, i, x0, x1) {
        i
    } else {
        first_column(cols, x0, x1, i + 1)
    }
}

/// The end of the window's columns, of the first `n`, that show one of
/// `x0..x1`, or 0.
pub open spec fn end_column(cols: Seq<usize>, x0: int, x1: int, n: int) -> int
    decreases n,
{
    if n <= 0 {
        0
    } else if shows_column(cols, n - 1, x0, x1) {
        n
    } else {
        end_column(cols, x0, x1, n - 1)
    }
}

/// The window's columns that show one of `x0..x1`: from the first such
/// column to the last. Nothing, at 0, if there is none.
pub open spec fn columns_of(cols: Seq<usize>, x0: int, x1: int) -> (int, int) {
    let end = end_column(cols, x0, x1, cols.len() as int);
    if end == 0 {
        (0, 0)
    } else {
        (first_column(cols, x0, x1, 0), end)
    }
}

/// The window's columns that show one of `x0..x1`.
pub fn bright_col_range(cols: &[usize], x0: usize, x1: usize) -> (r: (usize, usize))
    ensures
        (r.0 as int, r.1 as int) == columns_of(cols@, x0 as int, x1 as int),
        r.0 <= r.1 <= cols@.len(),
{
    let n: usize = cols.len();
    let mut end: usize = n;
    while end > 0 && !(cols[end - 1] != NO_SOURCE && x0 <= cols[end - 1] && cols[end - 1] < x1)
        invariant
            n == cols@.len(),
            end <= n,
            end_column(cols@, x0 as int, x1 as int, n as int) == end_column(
                cols@,
                x0 as int,
                x1 as int,
                end as int,
            ),
        decreases end,
    {
        end -= 1;
    }
    if end == 0 {
        return (0, 0);
    }
    let mut start: usize = 0;
    while start + 1 < end && !(cols[start] != NO_SOURCE && x0 <= cols[start] && cols[start] < x1)
        invariant
            n == cols@.len(),
            start < end <= n,
            shows_column(cols@, end - 1, x0 as int, x1 as int),
            first_column(cols@, x0 as int, x1 as int, 0) == first_column(
                cols@,
                x0 as int,
                x1 as int,
                start as int,
            ),
        decreases end - start,
    {
        start += 1;
    }
    (start, end)
}

/// Outside of the columns that are lit, none shows one of `x0..x1`.
pub proof fn law_bright_columns_hold_all(cols: Seq<usize>, x0: int, x1: int, i: int)
    requires
        0 <= i < cols.len(),
        shows_column(cols, i, x0, x1),
    ensures
        columns_of(cols, x0, x1).0 <= i < columns_of(cols, x0, x1).1,
{
    lemma_end_column(cols, x0, x1, cols.len() as int, i);
    lemma_first_column(cols, x0, x1, 0, i);
}

proof fn lemma_end_column(cols: Seq<usize>, x0: int, x1: int, n: int, i: int)
    requires
        0 <= i < n <= cols.len(),
        shows_column(cols, i, x0, x1),
    ensures
        i < end_column(cols, x0, x1, n) <= n,
    decreases n,
{
    if i < n - 1 {
        lemma_end_column(cols, x0, x1, n - 1, i);
    }
}

proof fn lemma_first_column(cols: Seq<usize>, x0: int, x1: int, k: int, i: int)
    requires
        0 <= k <= i < cols.len(),
        shows_column(cols, i, x0, x1),
    ensures
        k <= first_column(cols, x0, x1, k) <= i,
    decreases cols.len() - k,
{
    if k < i && !shows_column(cols, k, x0, x1) {
        lemma_first_column(cols, x0, x1, k + 1, i);
    }
}

/// What every row of the magnified picture is composed from.
pub struct ZoomRowCtx<'a> {
    /// The source of each of the window's columns.
    pub cols: &'a [usize],
    pub dim: &'a [u32],
    pub bright: &'a [u32],
    /// The picture's size.
    pub img: (usize, usize),
    /// The rectangle shown at full brightness.
    pub rect: Option<Rect>,
    /// The window's columns that show it.
    pub lit: (usize, usize),
}

impl<'a> ZoomRowCtx<'a> {
    /// Whether the sources lie in the picture, and the lit columns show it.
    pub open spec fn wf(self) -> bool {
        &&& self.dim@.len() == self.img.0 * self.img.1
        &&& self.bright@.len() == self.img.0 * self.img.1
        &&& forall|i: int|
            0 <= i < self.cols@.len() ==> (#[trigger] self.cols@[i]) == NO_SOURCE || self.cols@[i]
                < self.img.0
        &&& self.lit.0 <= self.lit.1 <= self.cols@.len()
        &&& forall|i: int|
            self.lit.0 <= i < self.lit.1 ==> #[trigger] self.cols@[i] != NO_SOURCE
    }

    /// A pixel of a row that shows the picture's row `y`, or none.
    pub open spec fn pixel(self, y: usize, x: int) -> u32 {
        if y == NO_SOURCE || self.cols@[x] == NO_SOURCE {
            0
        } else if self.rect matches Some(r) && r.y0 <= y < r.y1 && self.lit.0 <= x < self.lit.1 {
            self.bright@[at(self.img.0 as int, self.cols@[x] as int, y as int)]
        } else {
            self.dim@[at(self.img.0 as int, self.cols@[x] as int, y as int)]
        }
    }
}

/// Composes a row of the magnified picture, which shows the picture's row
/// `y`: dimmed, bright where it shows the rectangle, black where there is no
/// picture.
pub fn compose_zoomed_row(row: &mut [u32], y: usize, ctx: &ZoomRowCtx)
    requires
        ctx.wf(),
        old(row)@.len() == ctx.cols@.len(),
        y == NO_SOURCE || y < ctx.img.1,
    ensures
        final(row)@.len() == old(row)@.len(),
        forall|x: int| 0 <= x < final(row)@.len() ==> #[trigger] final(row)@[x] == ctx.pixel(y, x),
{
    let n: usize = ctx.cols.len();
    let in_rect = match ctx.rect {
        Some(r) => r.y0 <= y && y < r.y1,
        None => false,
    };
    let total: usize = ctx.dim.len();
    let mut x: usize = 0;
    while x < n
        invariant
            ctx.wf(),
            n == ctx.cols@.len(),
            row@.len() == n,
            x <= n,
            total == ctx.dim@.len(),
            y == NO_SOURCE || y < ctx.img.1,
            in_rect == (ctx.rect matches Some(r) && r.y0 <= y < r.y1),
            forall|k: int| 0 <= k < x ==> #[trigger] row@[k] == ctx.pixel(y, k),
        decreases n - x,
    {
        let src: usize = ctx.cols[x];
        let color: u32 = if y == NO_SOURCE || src == NO_SOURCE {
            0
        } else {
            let i: usize = index_of(ctx.img.0, ctx.img.1, src, y);
            if in_rect && ctx.lit.0 <= x && x < ctx.lit.1 {
                ctx.bright[i]
            } else {
                ctx.dim[i]
            }
        };
        row[x] = color;
        x += 1;
    }
}

/// How many rows a part has when rows are composed in parallel by `threads`,
/// or `None` when they are better composed in turn.
pub fn rows_per_part(size: (usize, usize), threads: usize) -> (rows: Option<usize>)
    requires
        size.0 * size.1 <= usize::MAX,
    ensures
        ({
            let n = lo(threads as int, PAR_MOST as int);
            match rows {
                Some(k) => n > 1 && size.0 * size.1 >= PAR_PIXEL_THRESHOLD && n * (k - 1) < size.1
                    <= n * k,
                None => n <= 1 || size.0 * size.1 < PAR_PIXEL_THRESHOLD,
            }
        }),
{
    let n: usize = if threads <= PAR_MOST {
        threads
    } else {
        PAR_MOST
    };
    if n <= 1 || size.0 * size.1 < PAR_PIXEL_THRESHOLD {
        return None;
    }
    proof {
        assert(0 < size.1) by (nonlinear_arith)
            requires
                size.0 * size.1 >= 200_000,
                0 <= size.0,
                0 <= size.1,
        ;
    }
    let whole: usize = size.1 / n;
    let ghost h = size.1 as int;
    proof {
        vstd::arithmetic::div_mod::lemma_fundamental_div_mod(h, n as int);
        assert(whole <= h) by (nonlinear_arith)
            requires
                h == n * whole + h % (n as int),
                0 <= h % (n as int),
                1 < n,
                0 <= whole,
        ;
        assert(n * (whole + 1) == n * whole + n) by (nonlinear_arith);
        assert(n * (whole - 1) == n * whole - n) by (nonlinear_arith);
    }
    if size.1 % n == 0 {
        Some(whole)
    } else {
        proof {
            assert(whole < h) by (nonlinear_arith)
                requires
                    h == n * whole + h % (n as int),
                    0 < h % (n as int),
                    1 < n,
                    0 <= whole,
            ;
        }
        Some(whole + 1)
    }
}

// ---- The frame ----

/// A rectangle of the window cut to it, if anything is left. The edges come
/// rounded down.
pub fn screen_rect(x0: i64, y0: i64, x1: i64, y1: i64, size: (usize, usize)) -> (r: Option<Rect>)
    requires
        size.0 <= i32::MAX,
        size.1 <= i32::MAX,
    ensures
        ({
            let ax = crate::grid::clamped(x0 as int, 0, size.0 as int);
            let ay = crate::grid::clamped(y0 as int, 0, size.1 as int);
            let bx = crate::grid::clamped(x1 as int, 0, size.0 as int);
            let by = crate::grid::clamped(y1 as int, 0, size.1 as int);
            r == (if bx <= ax || by <= ay {
                None
            } else {
                Some(
                    Rect { x0: ax as usize, y0: ay as usize, x1: bx as usize, y1: by as usize },
                )
            })
        }),
{
    let w: i64 = size.0 as i64;
    let h: i64 = size.1 as i64;
    let ax: i64 = crate::grid::clamp_i(x0, 0, w);
    let ay: i64 = crate::grid::clamp_i(y0, 0, h);
    let bx: i64 = crate::grid::clamp_i(x1, 0, w);
    let by: i64 = crate::grid::clamp_i(y1, 0, h);
    if bx <= ax || by <= ay {
        None
    } else {
        Some(Rect { x0: ax as usize, y0: ay as usize, x1: bx as usize, y1: by as usize })
    }
}

/// Whether a pixel belongs to the frame of `r`: inside, and within two
/// pixels of an edge.
pub open spec fn on_frame(r: Rect, x: int, y: int) -> bool {
    r.holds(x, y) && (x < r.x0 + BORDER || x >= r.x1 - BORDER || y < r.y0 + BORDER || y >= r.y1
        - BORDER)
}

/// Paints the pixels `xa..xb` of a row.
fn fill_span(buf: &mut [u32], size: (usize, usize), y: usize, xa: usize, xb: usize, color: u32)
    requires
        old(buf)@.len() == size.0 * size.1,
        size.0 * size.1 <= usize::MAX,
        y < size.1,
        xa <= xb <= size.0,
    ensures
        final(buf)@.len() == old(buf)@.len(),
        forall|qx: int, qy: int|
            #![trigger at(size.0 as int, qx, qy)]
            0 <= qx < size.0 && 0 <= qy < size.1 ==> final(buf)@[at(size.0 as int, qx, qy)] == (
            if qy == y && xa <= qx < xb {
                color
            } else {
                old(buf)@[at(size.0 as int, qx, qy)]
            }),
{
    let ghost w = size.0 as int;
    let ghost before = buf@;
    let mut x: usize = xa;
    while x < xb
        invariant
            w == size.0,
            size.0 * size.1 <= usize::MAX,
            buf@.len() == size.0 * size.1,
            before.len() == size.0 * size.1,
            y < size.1,
            xa <= x,
            x <= xb,
            xb <= size.0,
            forall|qx: int, qy: int|
                #![trigger at(w, qx, qy)]
                0 <= qx < w && 0 <= qy < size.1 ==> buf@[at(w, qx, qy)] == (if qy == y && xa <= qx
                    < x {
                    color
                } else {
                    before[at(w, qx, qy)]
                }),
        decreases xb - x,
    {
        let ghost prior = buf@;
        let i: usize = index_of(size.0, size.1, x, y);
        buf[i] = color;
        assert forall|qx: int, qy: int|
            #![trigger at(w, qx, qy)]
            0 <= qx < w && 0 <= qy < size.1 implies buf@[at(w, qx, qy)] == (if qy == y && xa <= qx
            < x + 1 {
            color
        } else {
            before[at(w, qx, qy)]
        }) by {
            lemma_at(w, size.1 as int, qx, qy);
            if at(w, qx, qy) == i {
                lemma_at_distinct(w, qx, qy, x as int, y as int);
            } else {
                assert(buf@[at(w, qx, qy)] == prior[at(w, qx, qy)]);
            }
        }
        x += 1;
    }
}

/// Draws the frame of a rectangle, two pixels thick and inside it.
pub fn draw_border(buf: &mut [u32], size: (usize, usize), r: Rect)
    requires
        old(buf)@.len() == size.0 * size.1,
        size.0 * size.1 <= usize::MAX,
        r.ordered(),
        r.x1 <= size.0,
        r.y1 <= size.1,
    ensures
        final(buf)@.len() == old(buf)@.len(),
        forall|x: int, y: int|
            #![trigger at(size.0 as int, x, y)]
            0 <= x < size.0 && 0 <= y < size.1 ==> final(buf)@[at(size.0 as int, x, y)] == (
            if on_frame(r, x, y) {
                ACCENT
            } else {
                old(buf)@[at(size.0 as int, x, y)]
            }),
{
    let ghost w = size.0 as int;
    let ghost before = buf@;
    let mut y: usize = r.y0;
    while y < r.y1
        invariant
            w == size.0,
            size.0 * size.1 <= usize::MAX,
            buf@.len() == size.0 * size.1,
            r.ordered(),
            r.x1 <= size.0,
            r.y1 <= size.1,
            r.y0 <= y <= r.y1,
            forall|qx: int, qy: int|
                #![trigger at(w, qx, qy)]
                0 <= qx < w && 0 <= qy < size.1 ==> buf@[at(w, qx, qy)] == (if on_frame(r, qx, qy)
                    && qy < y {
                    ACCENT
                } else {
                    before[at(w, qx, qy)]
                }),
        decreases r.y1 - y,
    {
        let whole = y - r.y0 < BORDER || r.y1 - y <= BORDER || r.x1 - r.x0 <= 2 * BORDER;
        if whole {
            fill_span(buf, size, y, r.x0, r.x1, ACCENT);
        } else {
            fill_span(buf, size, y, r.x0, r.x0 + BORDER, ACCENT);
            fill_span(buf, size, y, r.x1 - BORDER, r.x1, ACCENT);
        }
        y += 1;
    }
}

// ---- The crosshair ----

/// The color of a crosshair's arm at a distance from its center, and how far
/// it reaches to either side there.
pub open spec fn arm_at(d: int) -> (int, u32) {
    if d <= CROSS_INNER {
        (0, ACCENT)
    } else if d <= CROSS_OUTER {
        (1, ACCENT)
    } else if (d / CROSS_STRIPE as int) % 2 == 0 {
        (0, 0x00FF_FFFFu32)
    } else {
        (0, 0x0000_0000u32)
    }
}

/// The distance of two coordinates.
pub open spec fn gap(a: int, b: int) -> int {
    if a >= b {
        a - b
    } else {
        b - a
    }
}

/// The color the crosshair gives a pixel that is `dx` and `dy` away from its
/// center, if it is on an arm. Arms end at `reach`.
pub open spec fn cross_color(dx: int, dy: int, reach: int) -> Option<u32> {
    if CROSS_GAP <= dx <= reach && dy <= arm_at(dx).0 {
        Some(arm_at(dx).1)
    } else if CROSS_GAP <= dy <= reach && dx <= arm_at(dy).0 {
        Some(arm_at(dy).1)
    } else {
        None
    }
}

/// The color of an arm at a distance.
fn arm(d: i64) -> (a: (i64, u32))
    requires
        0 <= d,
    ensures
        (a.0 as int, a.1) == arm_at(d as int),
{
    if d <= CROSS_INNER {
        (0, ACCENT)
    } else if d <= CROSS_OUTER {
        (1, ACCENT)
    } else if (d / CROSS_STRIPE) % 2 == 0 {
        (0, 0x00FF_FFFF)
    } else {
        (0, 0x0000_0000)
    }
}

fn distance(a: i64, b: i64) -> (d: i64)
    requires
        -0x1_0000_0000 <= a <= 0x1_0000_0000,
        -0x1_0000_0000 <= b <= 0x1_0000_0000,
    ensures
        d == gap(a as int, b as int),
        d >= 0,
{
    if a >= b {
        a - b
    } else {
        b - a
    }
}

/// The color of a pixel under the crosshair.
fn crossed(dx: i64, dy: i64, reach: i64) -> (c: Option<u32>)
    requires
        0 <= dx,
        0 <= dy,
    ensures
        c == cross_color(dx as int, dy as int, reach as int),
{
    if CROSS_GAP <= dx && dx <= reach && dy <= arm(dx).0 {
        Some(arm(dx).1)
    } else if CROSS_GAP <= dy && dy <= reach && dx <= arm(dy).0 {
        Some(arm(dy).1)
    } else {
        None
    }
}

/// A pixel under the crosshair around `c`.
pub open spec fn crossed_pixel(under: u32, c: (i64, i64), reach: int, x: int, y: int) -> u32 {
    match cross_color(gap(x, c.0 as int), gap(y, c.1 as int), reach) {
        Some(color) => color,
        None => under,
    }
}

/// Paints a pixel under the crosshair.
fn cross_pixel(
    buf: &mut [u32],
    size: (usize, usize),
    c: (i64, i64),
    reach: i64,
    x: usize,
    y: usize,
)
    requires
        old(buf)@.len() == size.0 * size.1,
        size.0 * size.1 <= usize::MAX,
        x < size.0 <= i32::MAX,
        y < size.1 <= i32::MAX,
        i32::MIN <= c.0 <= i32::MAX,
        i32::MIN <= c.1 <= i32::MAX,
    ensures
        final(buf)@ == old(buf)@.update(
            at(size.0 as int, x as int, y as int),
            crossed_pixel(
                old(buf)@[at(size.0 as int, x as int, y as int)],
                c,
                reach as int,
                x as int,
                y as int,
            ),
        ),
{
    let i: usize = index_of(size.0, size.1, x, y);
    let dx: i64 = distance(x as i64, c.0);
    let dy: i64 = distance(y as i64, c.1);
    match crossed(dx, dy, reach) {
        Some(color) => {
            buf[i] = color;
        },
        None => {
            assert(buf@.update(i as int, buf@[i as int]) =~= buf@);
        },
    }
}

/// Whether a pixel is on one of the three rows around the center.
pub open spec fn in_rows(c: (i64, i64), y: int) -> bool {
    gap(y, c.1 as int) <= 1
}

/// Whether a pixel is on one of the three columns around the center.
pub open spec fn in_columns(c: (i64, i64), x: int) -> bool {
    gap(x, c.0 as int) <= 1
}

/// Draws the crosshair's horizontal arms.
fn cross_rows(buf: &mut [u32], size: (usize, usize), c: (i64, i64), reach: i64)
    requires
        old(buf)@.len() == size.0 * size.1,
        size.0 * size.1 <= usize::MAX,
        size.0 <= i32::MAX,
        size.1 <= i32::MAX,
        i32::MIN <= c.0 <= i32::MAX,
        i32::MIN <= c.1 <= i32::MAX,
    ensures
        final(buf)@.len() == old(buf)@.len(),
        forall|x: int, y: int|
            #![trigger at(size.0 as int, x, y)]
            0 <= x < size.0 && 0 <= y < size.1 ==> final(buf)@[at(size.0 as int, x, y)] == (
            if in_rows(c, y) {
                crossed_pixel(old(buf)@[at(size.0 as int, x, y)], c, reach as int, x, y)
            } else {
                old(buf)@[at(size.0 as int, x, y)]
            }),
{
    let ghost w = size.0 as int;
    let ghost before = buf@;
    let mut y: usize = 0;
    while y < size.1
        invariant
            w == size.0,
            size.0 * size.1 <= usize::MAX,
            size.0 <= i32::MAX,
            size.1 <= i32::MAX,
            i32::MIN <= c.0 <= i32::MAX,
            i32::MIN <= c.1 <= i32::MAX,
            buf@.len() == size.0 * size.1,
            y <= size.1,
            forall|qx: int, qy: int|
                #![trigger at(w, qx, qy)]
                0 <= qx < w && 0 <= qy < size.1 ==> buf@[at(w, qx, qy)] == (if in_rows(c, qy) && qy
                    < y {
                    crossed_pixel(before[at(w, qx, qy)], c, reach as int, qx, qy)
                } else {
                    before[at(w, qx, qy)]
                }),
        decreases size.1 - y,
    {
        if distance(y as i64, c.1) <= 1 {
            let mut x: usize = 0;
            while x < size.0
                invariant
                    w == size.0,
                    size.0 * size.1 <= usize::MAX,
                    size.0 <= i32::MAX,
                    size.1 <= i32::MAX,
                    i32::MIN <= c.0 <= i32::MAX,
                    i32::MIN <= c.1 <= i32::MAX,
                    buf@.len() == size.0 * size.1,
                    y < size.1,
                    x <= size.0,
                    in_rows(c, y as int),
                    forall|qx: int, qy: int|
                        #![trigger at(w, qx, qy)]
                        0 <= qx < w && 0 <= qy < size.1 ==> buf@[at(w, qx, qy)] == (if in_rows(
                            c,
                            qy,
                        ) && (qy < y || (qy == y && qx < x)) {
                            crossed_pixel(before[at(w, qx, qy)], c, reach as int, qx, qy)
                        } else {
                            before[at(w, qx, qy)]
                        }),
                decreases size.0 - x,
            {
                let ghost prior = buf@;
                proof {
                    lemma_at(w, size.1 as int, x as int, y as int);
                }
                cross_pixel(buf, size, c, reach, x, y);
                assert forall|qx: int, qy: int|
                    #![trigger at(w, qx, qy)]
                    0 <= qx < w && 0 <= qy < size.1 implies buf@[at(w, qx, qy)] == (if in_rows(
                    c,
                    qy,
                ) && (qy < y || (qy == y && qx < x + 1)) {
                    crossed_pixel(before[at(w, qx, qy)], c, reach as int, qx, qy)
                } else {
                    before[at(w, qx, qy)]
                }) by {
                    lemma_at(w, size.1 as int, qx, qy);
                    if at(w, qx, qy) == at(w, x as int, y as int) {
                        lemma_at_distinct(w, qx, qy, x as int, y as int);
                    } else {
                        assert(buf@[at(w, qx, qy)] == prior[at(w, qx, qy)]);
                    }
                }
                x += 1;
            }
        }
        y += 1;
    }
}

/// Draws the crosshair's vertical arms.
fn cross_columns(buf: &mut [u32], size: (usize, usize), c: (i64, i64), reach: i64)
    requires
        old(buf)@.len() == size.0 * size.1,
        size.0 * size.1 <= usize::MAX,
        size.0 <= i32::MAX,
        size.1 <= i32::MAX,
        i32::MIN <= c.0 <= i32::MAX,
        i32::MIN <= c.1 <= i32::MAX,
    ensures
        final(buf)@.len() == old(buf)@.len(),
        forall|x: int, y: int|
            #![trigger at(size.0 as int, x, y)]
            0 <= x < size.0 && 0 <= y < size.1 ==> final(buf)@[at(size.0 as int, x, y)] == (
            if in_columns(c, x) {
                crossed_pixel(old(buf)@[at(size.0 as int, x, y)], c, reach as int, x, y)
            } else {
                old(buf)@[at(size.0 as int, x, y)]
            }),
{
    let ghost w = size.0 as int;
    let ghost before = buf@;
    let mut x: usize = 0;
    while x < size.0
        invariant
            w == size.0,
            size.0 * size.1 <= usize::MAX,
            size.0 <= i32::MAX,
            size.1 <= i32::MAX,
            i32::MIN <= c.0 <= i32::MAX,
            i32::MIN <= c.1 <= i32::MAX,
            buf@.len() == size.0 * size.1,
            x <= size.0,
            forall|qx: int, qy: int|
                #![trigger at(w, qx, qy)]
                0 <= qx < w && 0 <= qy < size.1 ==> buf@[at(w, qx, qy)] == (if in_columns(c, qx)
                    && qx < x {
                    crossed_pixel(before[at(w, qx, qy)], c, reach as int, qx, qy)
                } else {
                    before[at(w, qx, qy)]
                }),
        decreases size.0 - x,
    {
        if distance(x as i64, c.0) <= 1 {
            let mut y: usize = 0;
            while y < size.1
                invariant
                    w == size.0,
                    size.0 * size.1 <= usize::MAX,
                    size.0 <= i32::MAX,
                    size.1 <= i32::MAX,
                    i32::MIN <= c.0 <= i32::MAX,
                    i32::MIN <= c.1 <= i32::MAX,
                    buf@.len() == size.0 * size.1,
                    x < size.0,
                    y <= size.1,
                    in_columns(c, x as int),
                    forall|qx: int, qy: int|
                        #![trigger at(w, qx, qy)]
                        0 <= qx < w && 0 <= qy < size.1 ==> buf@[at(w, qx, qy)] == (if in_columns(
                            c,
                            qx,
                        ) && (qx < x || (qx == x && qy < y)) {
                            crossed_pixel(before[at(w, qx, qy)], c, reach as int, qx, qy)
                        } else {
                            before[at(w, qx, qy)]
                        }),
                decreases size.1 - y,
            {
                let ghost prior = buf@;
                proof {
                    lemma_at(w, size.1 as int, x as int, y as int);
                }
                cross_pixel(buf, size, c, reach, x, y);
                assert forall|qx: int, qy: int|
                    #![trigger at(w, qx, qy)]
                    0 <= qx < w && 0 <= qy < size.1 implies buf@[at(w, qx, qy)] == (if in_columns(
                    c,
                    qx,
                ) && (qx < x || (qx == x && qy < y + 1)) {
                    crossed_pixel(before[at(w, qx, qy)], c, reach as int, qx, qy)
                } else {
                    before[at(w, qx, qy)]
                }) by {
                    lemma_at(w, size.1 as int, qx, qy);
                    if at(w, qx, qy) == at(w, x as int, y as int) {
                        lemma_at_distinct(w, qx, qy, x as int, y as int);
                    } else {
                        assert(buf@[at(w, qx, qy)] == prior[at(w, qx, qy)]);
                    }
                }
                y += 1;
            }
        }
        x += 1;
    }
}

/// Draws the crosshair around `c`: four arms up to the window's edges, with
/// a gap at the center, in the accent color near it and striped beyond.
pub fn draw_selection_crosshair(buf: &mut [u32], size: (usize, usize), c: (i64, i64))
    requires
        old(buf)@.len() == size.0 * size.1,
        size.0 * size.1 <= usize::MAX,
        size.0 <= i32::MAX,
        size.1 <= i32::MAX,
        i32::MIN <= c.0 <= i32::MAX,
        i32::MIN <= c.1 <= i32::MAX,
    ensures
        final(buf)@.len() == old(buf)@.len(),
        forall|x: int, y: int|
            #![trigger at(size.0 as int, x, y)]
            0 <= x < size.0 && 0 <= y < size.1 ==> final(buf)@[at(size.0 as int, x, y)]
                == crossed_pixel(
                old(buf)@[at(size.0 as int, x, y)],
                c,
                hi(size.0 as int, size.1 as int),
                x,
                y,
            ),
{
    let reach: i64 = if size.0 >= size.1 {
        size.0 as i64
    } else {
        size.1 as i64
    };
    cross_rows(buf, size, c, reach);
    cross_columns(buf, size, c, reach);
}

/// The pixel under the pointer and its neighbors stay visible.
pub proof fn law_crosshair_spares_the_center(under: u32, c: (i64, i64), reach: int, x: int, y: int)
    requires
        gap(x, c.0 as int) < CROSS_GAP,
        gap(y, c.1 as int) < CROSS_GAP,
    ensures
        crossed_pixel(under, c, reach, x, y) == under,
{
}

} // verus!
