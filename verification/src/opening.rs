//! Opening and closing the editor: what it starts with, how large its window
//! is, and what is kept of it.

use std::rc::Rc;
use vstd::prelude::*;

use crate::annotation::{items_of, Annotation, Item};
use crate::measure::side;
use crate::pixels::{packed_alpha, rgba_to_packed_alpha, Shot};
use crate::pure::{apply, pure, result};
use crate::rect::floor_sub;
use crate::release::{lift_rect, lifted};
use crate::toolbar::{TOOLBAR_H, TOOLBAR_W};

verus! {

/// The least size of the window.
pub const MIN_W: usize = 470;

pub const MIN_H: usize = 300;

/// The canvas of an editor opened without a picture.
pub const BLANK_DISP_W: usize = 800;

pub const BLANK_DISP_H: usize = 500;

/// What the editor starts with.
#[derive(Debug)]
pub enum EditorInit<F, S> {
    /// Nothing.
    Blank,
    /// A captured picture.
    Shot(Shot),
    /// The items of a saved session.
    Session { width: usize, height: usize, annotations: Vec<Annotation<F, S>> },
}

/// Whether a picture's bytes are as many as its size says.
pub open spec fn shot_whole(s: Shot) -> bool {
    s.width * s.height <= usize::MAX && 4 * (s.width * s.height) <= s.rgba@.len()
}

/// Whether a picture's bytes are as many as its size says.
pub fn is_whole(s: &Shot) -> (r: bool)
    ensures
        r == shot_whole(*s),
{
    let n: u64 = s.width as u64;
    assert(s.width * s.height <= 0xFFFF_FFFF * 0xFFFF_FFFFint) by (nonlinear_arith)
        requires
            0 <= s.width <= 0xFFFF_FFFF,
            0 <= s.height <= 0xFFFF_FFFF,
    ;
    let area: u64 = n * s.height as u64;
    area <= usize::MAX as u64 && area as u128 * 4 <= s.rgba.len() as u128
}

/// The picture's pixels, as 0xAARRGGBB.
pub open spec fn shot_pixels(s: Shot) -> Seq<u32> {
    Seq::new(
        (s.width * s.height) as nat,
        |i: int|
            packed_alpha(
                s.rgba@[4 * i + 3] as u32,
                s.rgba@[4 * i] as u32,
                s.rgba@[4 * i + 1] as u32,
                s.rgba@[4 * i + 2] as u32,
            ),
    )
}

/// The items that the editor starts with: a captured picture stands at the
/// origin at its own size.
pub open spec fn first_items<F, S, L: Fn(i64) -> F>(
    init: EditorInit<F, S>,
    zero: F,
    lift: L,
) -> Seq<Item<F, S>> {
    match init {
        EditorInit::Blank => Seq::empty(),
        EditorInit::Shot(s) => seq![
            Item::Image {
                r: lifted(lift, (0, 0, s.width as i64, s.height as i64)),
                src_w: s.width as i64,
                src_h: s.height as i64,
                pixels: shot_pixels(s),
                rot: zero,
            },
        ],
        EditorInit::Session { annotations, .. } => items_of(annotations@),
    }
}

/// The size of the picture that the editor opens on.
pub open spec fn first_size<F, S>(init: EditorInit<F, S>) -> Option<(usize, usize)> {
    match init {
        EditorInit::Blank => None,
        EditorInit::Shot(s) => Some((s.width as usize, s.height as usize)),
        EditorInit::Session { width, height, .. } => Some((width, height)),
    }
}

/// What the editor starts with: the size of its picture, if there is one, and
/// its items.
pub fn initial_items<F: Copy, S: Copy, L: Fn(i64) -> F>(
    init: EditorInit<F, S>,
    zero: F,
    lift: &L,
) -> (out: (Option<(usize, usize)>, Vec<Annotation<F, S>>))
    requires
        init matches EditorInit::Shot(s) ==> shot_whole(s),
        pure(*lift),
    ensures
        out.0 == first_size(init),
        items_of(out.1@) == first_items(init, zero, *lift),
{
    match init {
        EditorInit::Blank => {
            let list: Vec<Annotation<F, S>> = Vec::new();
            assert(items_of(list@) =~= Seq::empty());
            (None, list)
        },
        EditorInit::Shot(s) => {
            let w: usize = s.width as usize;
            let h: usize = s.height as usize;
            let pixels = rgba_to_packed_alpha(w, h, s.rgba.as_slice());
            assert(pixels@ =~= shot_pixels(s));
            let mut list: Vec<Annotation<F, S>> = Vec::new();
            list.push(
                Annotation::Image {
                    r: lift_rect((0, 0, s.width as i64, s.height as i64), lift),
                    src_w: s.width as i64,
                    src_h: s.height as i64,
                    pixels: Rc::new(pixels),
                    rot: zero,
                },
            );
            assert(items_of(list@) =~= first_items(init, zero, *lift));
            (Some((w, h)), list)
        },
        EditorInit::Session { width, height, annotations } => (Some((width, height)), annotations),
    }
}

/// The editor's window and the picture in it, in logical px.
#[derive(Debug)]
pub struct WindowPlan {
    /// The room for the picture.
    pub room: (usize, usize),
    /// The picture as it is shown.
    pub disp: (usize, usize),
    /// The window.
    pub win: (usize, usize),
    /// Where the picture starts in the window.
    pub offset: (usize, usize),
    /// Where the window starts on the monitor.
    pub pos: (usize, usize),
}

/// The larger of two sizes.
pub open spec fn most(a: int, b: int) -> int {
    if a >= b {
        a
    } else {
        b
    }
}

fn largest(a: usize, b: usize) -> (r: usize)
    ensures
        r == most(a as int, b as int),
{
    if a >= b {
        a
    } else {
        b
    }
}

/// Nine tenths of a side, less a bar: the room for a picture.
pub open spec fn room_along(side: int, bar: int) -> int {
    most(floor_sub(side * 9 / 10, bar), 1)
}

fn room(side: usize, bar: usize) -> (r: usize)
    ensures
        r == room_along(side as int, bar as int),
{
    let nine: usize = (side as u128 * 9 / 10) as usize;
    largest(nine.saturating_sub(bar), 1)
}

/// Plans the window for a picture on a monitor: the picture shown by `fit` in
/// nine tenths of the monitor, centered in the canvas beside the bars, the
/// window at least of its least size and centered on the monitor. `fit` takes
/// the picture's size and the room.
pub fn window_plan<P>(img: Option<(usize, usize)>, monitor: (usize, usize), fit: &P) -> (plan:
    WindowPlan) where P: Fn(((usize, usize), (usize, usize))) -> (usize, usize)
    requires
        pure(*fit),
        forall|a: ((usize, usize), (usize, usize)), r: (usize, usize)| #[trigger]
            call_ensures(*fit, (a,), r) ==> r.0 <= i32::MAX && r.1 <= i32::MAX,
    ensures
        plan.room.0 == room_along(monitor.0 as int, TOOLBAR_W as int),
        plan.room.1 == room_along(monitor.1 as int, TOOLBAR_H as int),
        match img {
            Some(size) => {
                let shown = result(*fit, (size, plan.room));
                plan.disp.0 == most(shown.0 as int, 1) && plan.disp.1 == most(shown.1 as int, 1)
            },
            None => plan.disp == (BLANK_DISP_W, BLANK_DISP_H),
        },
        plan.win.0 == most(TOOLBAR_W + plan.disp.0, MIN_W as int),
        plan.win.1 == most(TOOLBAR_H + plan.disp.1, MIN_H as int),
        plan.offset.0 == TOOLBAR_W + (plan.win.0 - TOOLBAR_W - plan.disp.0) / 2,
        plan.offset.1 == TOOLBAR_H + (plan.win.1 - TOOLBAR_H - plan.disp.1) / 2,
        plan.pos.0 == floor_sub(monitor.0 as int, plan.win.0 as int) / 2,
        plan.pos.1 == floor_sub(monitor.1 as int, plan.win.1 as int) / 2,
{
    let room_size: (usize, usize) = (room(monitor.0, TOOLBAR_W), room(monitor.1, TOOLBAR_H));
    let disp: (usize, usize) = match img {
        Some(size) => {
            let shown = apply(fit, (size, room_size));
            (largest(shown.0, 1), largest(shown.1, 1))
        },
        None => (BLANK_DISP_W, BLANK_DISP_H),
    };
    let win: (usize, usize) = (
        largest(TOOLBAR_W + disp.0, MIN_W),
        largest(TOOLBAR_H + disp.1, MIN_H),
    );
    WindowPlan {
        room: room_size,
        disp,
        win,
        offset: (
            TOOLBAR_W + (win.0 - TOOLBAR_W - disp.0) / 2,
            TOOLBAR_H + (win.1 - TOOLBAR_H - disp.1) / 2,
        ),
        pos: (monitor.0.saturating_sub(win.0) / 2, monitor.1.saturating_sub(win.1) / 2),
    }
}

/// The picture lies inside the window, right of the left bar and below the
/// top bar.
pub proof fn law_picture_lies_in_canvas(disp: int, bar: int, least: int)
    requires
        0 <= disp,
        0 <= bar,
    ensures
        ({
            let win = most(bar + disp, least);
            let offset = bar + (win - bar - disp) / 2;
            bar <= offset && offset + disp <= win
        }),
{
}

/// Whether a window pixel is on the canvas, not on a bar.
pub fn on_canvas(x: usize, y: usize) -> (r: bool)
    ensures
        r == (x >= TOOLBAR_W && y >= TOOLBAR_H),
{
    x >= TOOLBAR_W && y >= TOOLBAR_H
}

/// Where a dropped picture goes: to the pointer if it is on the canvas, else
/// to the middle of the view.
pub fn drop_center(x: usize, y: usize, pointer: (i64, i64), middle: (i64, i64)) -> (c: (i64, i64))
    ensures
        c == (if x >= TOOLBAR_W && y >= TOOLBAR_H {
            pointer
        } else {
            middle
        }),
{
    if on_canvas(x, y) {
        pointer
    } else {
        middle
    }
}

/// The size under which a session is recorded: that of its export bounds, at
/// least one pixel a side. `None` without any item: an editor closed blank
/// leaves no session.
pub fn session_size(items: usize, b: (i64, i64, i64, i64)) -> (s: Option<(u32, u32)>)
    requires
        b.2 - b.0 <= u32::MAX,
        b.3 - b.1 <= u32::MAX,
    ensures
        s == (if items == 0 {
            None
        } else {
            Some((side(b.0 as int, b.2 as int) as u32, side(b.1 as int, b.3 as int) as u32))
        }),
{
    if items == 0 {
        return None;
    }
    let w: i128 = b.2 as i128 - b.0 as i128;
    let h: i128 = b.3 as i128 - b.1 as i128;
    let w: u32 = if w < 1 {
        1
    } else {
        w as u32
    };
    let h: u32 = if h < 1 {
        1
    } else {
        h as u32
    };
    Some((w, h))
}

/// Whether a session can be opened, by the outcome of loading it: what was
/// loaded is dropped, an error is passed on.
pub fn session_is_loadable<T>(loaded: Result<T, String>) -> (r: Result<(), String>)
    ensures
        match loaded {
            Ok(_) => r == Ok::<(), String>(()),
            Err(e) => r == Err::<(), String>(e),
        },
{
    match loaded {
        Ok(_) => Ok(()),
        Err(e) => Err(e),
    }
}

/// What the editor was asked to open, once it has been read.
#[derive(Debug)]
pub enum Opened<F, S> {
    /// Nothing was asked for.
    Nothing,
    /// A session folder.
    Session(Result<(usize, usize, Vec<Annotation<F, S>>), String>),
    /// A picture handed over in a temporary file.
    Picture(Result<Shot, String>),
}

/// How opening goes on.
#[derive(Debug)]
pub enum Opening<F, S> {
    /// The editor starts, and the temporary file is deleted if so.
    Start { init: EditorInit<F, S>, delete_file: bool },
    /// The program ends. A session that could not be read is told to the user
    /// in a dialog, since there is no other window.
    Fail { error: String, dialog: bool },
}

/// How opening goes on: a picture's file was only a relay and is deleted once
/// read, a session's folder stays.
pub fn opening<F, S>(what: Opened<F, S>) -> (o: Opening<F, S>)
    ensures
        o == match what {
            Opened::Nothing => Opening::Start { init: EditorInit::Blank, delete_file: false },
            Opened::Session(Ok((width, height, annotations))) => Opening::Start {
                init: EditorInit::Session { width, height, annotations },
                delete_file: false,
            },
            Opened::Session(Err(error)) => Opening::Fail { error, dialog: true },
            Opened::Picture(Ok(s)) => Opening::Start {
                init: EditorInit::Shot(s),
                delete_file: true,
            },
            Opened::Picture(Err(error)) => Opening::Fail { error, dialog: false },
        },
{
    match what {
        Opened::Nothing => Opening::Start { init: EditorInit::Blank, delete_file: false },
        Opened::Session(Ok((width, height, annotations))) => Opening::Start {
            init: EditorInit::Session { width, height, annotations },
            delete_file: false,
        },
        Opened::Session(Err(error)) => Opening::Fail { error, dialog: true },
        Opened::Picture(Ok(s)) => Opening::Start { init: EditorInit::Shot(s), delete_file: true },
        Opened::Picture(Err(error)) => Opening::Fail { error, dialog: false },
    }
}

} // verus!
