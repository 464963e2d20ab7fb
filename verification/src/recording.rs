//! Recording a region: its border, the control bar, and the settings that
//! the bar changes.

use vstd::prelude::*;

use crate::fields::{decimal, decimal_text};
use crate::menu::{hi, lo, ACTION_BTN};
use crate::monitors::{bounds_of, containing_monitor};
use crate::overlay::{
    lemma_seen, Chores, CtrlBtn, Mode, Outcome, OutcomeModel, Overlay, OverlayModel, Recording,
    Scene, Spot,
};
use crate::pixels::{blue, brighter, green, lighten, packed, red};
use crate::pure::{apply, pure, result};
use crate::rect::{floor_sub, Rect};
use crate::selecting::{event_ok, OverlayEvent};

verus! {

/// The control bar's padding, and the size it makes for six buttons and some
/// slack.
pub const CTRL_PAD: usize = 12;

pub const CONTROL_W: usize = 420;

pub const CONTROL_H: usize = 80;

/// The gap between the region and the control bar.
pub const CONTROL_GAP: usize = 12;

/// The thickness of the region's border.
pub const BORDER_STRIP: usize = 3;

/// The time between two redraws of the control bar, in milliseconds.
pub const CONTROL_REDRAW_MS: u64 = 50;

// ---- Frame rates ----

/// The place of a number in a list, from `i` on.
pub open spec fn place_in(list: Seq<u32>, n: u32, i: int) -> Option<int>
    decreases list.len() - i,
{
    if i >= list.len() {
        None
    } else if list[i] == n {
        Some(i)
    } else {
        place_in(list, n, i + 1)
    }
}

/// The frame rate after `current`: the next preset, the first one after the
/// last or if `current` is none of them.
pub open spec fn fps_after(current: u32, presets: Seq<u32>) -> u32 {
    if presets.len() == 0 {
        current
    } else {
        match place_in(presets, current, 0) {
            Some(i) => presets[(i + 1) % presets.len() as int],
            None => presets[0],
        }
    }
}

/// The frame rate after `current`: the next preset, the first one after the
/// last or if `current` is none of them. Without presets it stays.
pub fn next_fps(current: u32, presets: &[u32]) -> (r: u32)
    ensures
        r == fps_after(current, presets@),
{
    let n: usize = presets.len();
    if n == 0 {
        return current;
    }
    let mut i: usize = 0;
    while i < n
        invariant
            n == presets@.len(),
            i <= n,
            place_in(presets@, current, 0) == place_in(presets@, current, i as int),
        decreases n - i,
    {
        if presets[i] == current {
            return if i + 1 < n {
                assert((i + 1) % n as int == i + 1) by (nonlinear_arith)
                    requires
                        0 <= i + 1 < n,
                ;
                presets[i + 1]
            } else {
                assert((i + 1) % n as int == 0) by (nonlinear_arith)
                    requires
                        i + 1 == n,
                        0 < n,
                ;
                presets[0]
            };
        }
        i += 1;
    }
    presets[0]
}

// ---- Places ----

/// Where the control bar goes: below the region if there is room, else
/// above, else at the lower edge of its monitor.
pub open spec fn control_origin(r: Rect, bounds: Rect) -> (int, int) {
    let x = lo(
        hi(r.x0 as int, bounds.x0 as int),
        hi(floor_sub(bounds.x1 as int, CONTROL_W as int), bounds.x0 as int),
    );
    let y = if r.y1 + CONTROL_GAP + CONTROL_H <= bounds.y1 {
        r.y1 + CONTROL_GAP
    } else if r.y0 >= bounds.y0 + CONTROL_H + CONTROL_GAP {
        r.y0 - CONTROL_H - CONTROL_GAP
    } else {
        hi(floor_sub(bounds.y1 as int, CONTROL_H as int), bounds.y0 as int)
    };
    (x, y)
}

/// Where the control bar goes.
pub fn control_place(r: Rect, bounds: Rect) -> (at: (usize, usize))
    requires
        r.y1 + CONTROL_GAP + CONTROL_H <= usize::MAX,
        bounds.y0 + CONTROL_H + CONTROL_GAP <= usize::MAX,
    ensures
        (at.0 as int, at.1 as int) == control_origin(r, bounds),
{
    let near: usize = if r.x0 >= bounds.x0 {
        r.x0
    } else {
        bounds.x0
    };
    let cut_x: usize = bounds.x1.saturating_sub(CONTROL_W);
    let far: usize = if cut_x >= bounds.x0 {
        cut_x
    } else {
        bounds.x0
    };
    let cut_y: usize = bounds.y1.saturating_sub(CONTROL_H);
    let x: usize = if near <= far {
        near
    } else {
        far
    };
    let y: usize = if r.y1 + CONTROL_GAP + CONTROL_H <= bounds.y1 {
        r.y1 + CONTROL_GAP
    } else if r.y0 >= bounds.y0 + CONTROL_H + CONTROL_GAP {
        r.y0 - CONTROL_H - CONTROL_GAP
    } else if cut_y >= bounds.y0 {
        cut_y
    } else {
        bounds.y0
    };
    (x, y)
}

/// A strip of the border: its place on the desktop and its size.
#[derive(Clone, Copy, Debug, PartialEq, Eq, Structural)]
pub struct Strip {
    pub x: i64,
    pub y: i64,
    pub w: u64,
    pub h: u64,
}

impl Strip {
    /// Whether the strip holds a point of the desktop.
    pub open spec fn holds(self, x: int, y: int) -> bool {
        self.x <= x < self.x + self.w && self.y <= y < self.y + self.h
    }
}

/// The strips around a region: top, bottom, left and right, just outside it.
pub open spec fn strips_of(origin: (i32, i32), r: Rect) -> Seq<Strip> {
    let x0 = (r.x0 + origin.0) as i64;
    let y0 = (r.y0 + origin.1) as i64;
    let x1 = (r.x1 + origin.0) as i64;
    let y1 = (r.y1 + origin.1) as i64;
    let w = (r.x1 - r.x0) as u64;
    let h = (r.y1 - r.y0) as u64;
    seq![
        Strip { x: (x0 - 3) as i64, y: (y0 - 3) as i64, w: (w + 6) as u64, h: 3 },
        Strip { x: (x0 - 3) as i64, y: y1, w: (w + 6) as u64, h: 3 },
        Strip { x: (x0 - 3) as i64, y: y0, w: 3, h },
        Strip { x: x1, y: y0, w: 3, h },
    ]
}

/// The border's strips. `origin` is where the picture's corner lies on the
/// desktop.
pub fn border_strips(origin: (i32, i32), r: Rect) -> (strips: Vec<Strip>)
    requires
        r.ordered(),
        r.x1 <= i32::MAX,
        r.y1 <= i32::MAX,
    ensures
        strips@ == strips_of(origin, r),
{
    let t: i64 = BORDER_STRIP as i64;
    let tt: u64 = BORDER_STRIP as u64;
    let x0: i64 = r.x0 as i64 + origin.0 as i64;
    let y0: i64 = r.y0 as i64 + origin.1 as i64;
    let x1: i64 = r.x1 as i64 + origin.0 as i64;
    let y1: i64 = r.y1 as i64 + origin.1 as i64;
    let w: u64 = r.width() as u64;
    let h: u64 = r.height() as u64;
    let left: i64 = x0 - t;
    let above: i64 = y0 - t;
    let wide: u64 = w + tt * 2;
    let strips = vec![
        Strip { x: left, y: above, w: wide, h: tt },
        Strip { x: left, y: y1, w: wide, h: tt },
        Strip { x: left, y: y0, w: tt, h },
        Strip { x: x1, y: y0, w: tt, h },
    ];
    assert(strips@ =~= strips_of(origin, r));
    strips
}

/// The border lies outside the region, and leaves no gap around it: a point
/// is within three pixels of the region if and only if it is in the region
/// or in a strip, and never in both.
pub proof fn law_border_surrounds_region(origin: (i32, i32), r: Rect, x: int, y: int)
    requires
        r.ordered(),
        r.x1 <= i32::MAX,
        r.y1 <= i32::MAX,
    ensures
        ({
            let s = strips_of(origin, r);
            let inside = r.holds(x - origin.0, y - origin.1);
            let on_strip = s[0].holds(x, y) || s[1].holds(x, y) || s[2].holds(x, y) || s[3].holds(
                x,
                y,
            );
            let around = r.x0 + origin.0 - 3 <= x < r.x1 + origin.0 + 3 && r.y0 + origin.1 - 3 <= y
                < r.y1 + origin.1 + 3;
            around == (inside || on_strip) && !(inside && on_strip)
        }),
{
}

// ---- The control bar ----

/// The buttons of the control bar: the format and the frame rate only before
/// a recording, the sounds before and during one.
pub open spec fn bar_of(mode: Mode) -> Seq<CtrlBtn> {
    match mode {
        Mode::Selecting => seq![CtrlBtn::Primary, CtrlBtn::Quit],
        Mode::RecordSetup => seq![
            CtrlBtn::Primary,
            CtrlBtn::Format,
            CtrlBtn::Fps,
            CtrlBtn::Desktop,
            CtrlBtn::Mic,
            CtrlBtn::Quit,
        ],
        Mode::Recording => seq![CtrlBtn::Primary, CtrlBtn::Desktop, CtrlBtn::Mic, CtrlBtn::Quit],
    }
}

fn bar_buttons(mode: Mode) -> (bar: Vec<CtrlBtn>)
    ensures
        bar@ == bar_of(mode),
        bar@.len() <= 6,
{
    let bar = match mode {
        Mode::Selecting => vec![CtrlBtn::Primary, CtrlBtn::Quit],
        Mode::RecordSetup => vec![
            CtrlBtn::Primary,
            CtrlBtn::Format,
            CtrlBtn::Fps,
            CtrlBtn::Desktop,
            CtrlBtn::Mic,
            CtrlBtn::Quit,
        ],
        Mode::Recording => vec![CtrlBtn::Primary, CtrlBtn::Desktop, CtrlBtn::Mic, CtrlBtn::Quit],
    };
    assert(bar@ =~= bar_of(mode));
    bar
}

/// The place of the `i`-th button of a bar of height `h`: side by side, in
/// the middle of the height.
pub open spec fn bar_rect(h: int, i: int) -> Rect {
    let y = floor_sub(h, 56) / 2;
    Rect {
        x0: (12 + 56 * i) as usize,
        y0: y as usize,
        x1: (12 + 56 * i + 56) as usize,
        y1: (y + 56) as usize,
    }
}

/// The first button from `i` on that holds a point.
pub open spec fn bar_at(mode: Mode, h: int, x: int, y: int, i: int) -> Option<CtrlBtn>
    decreases bar_of(mode).len() - i,
{
    if i >= bar_of(mode).len() {
        None
    } else if bar_rect(h, i).holds(x, y) {
        Some(bar_of(mode)[i])
    } else {
        bar_at(mode, h, x, y, i + 1)
    }
}

/// How a button of the control bar looks.
#[derive(Debug)]
pub struct CtrlLook {
    pub rect: Rect,
    pub bg: u32,
    pub text: u32,
    pub label: String,
    /// The level meter's track and the part of it that is lit.
    pub meter: Option<(Rect, Option<Rect>)>,
}

/// The color of a button that is not hovered, and whether it can be used.
pub open spec fn base_of(btn: CtrlBtn, recording: bool, rec: Recording) -> (u32, bool) {
    match btn {
        CtrlBtn::Primary => if recording {
            (0x00E0_4040u32, true)
        } else {
            (0x0033_A852u32, true)
        },
        CtrlBtn::Format | CtrlBtn::Fps | CtrlBtn::Quit => (0x0044_4444u32, true),
        CtrlBtn::Desktop => if rec.gif {
            (0x0033_3333u32, false)
        } else if rec.desktop_audio {
            (0x004D_A6FFu32, true)
        } else {
            (0x0044_4444u32, true)
        },
        CtrlBtn::Mic => if rec.gif {
            (0x0033_3333u32, false)
        } else if rec.mic {
            (0x004D_A6FFu32, true)
        } else {
            (0x0044_4444u32, true)
        },
    }
}

fn base_color(btn: CtrlBtn, recording: bool, rec: &Recording) -> (b: (u32, bool))
    ensures
        b == base_of(btn, recording, *rec),
{
    match btn {
        CtrlBtn::Primary => if recording {
            (0x00E0_4040, true)
        } else {
            (0x0033_A852, true)
        },
        CtrlBtn::Format | CtrlBtn::Fps | CtrlBtn::Quit => (0x0044_4444, true),
        CtrlBtn::Desktop => if rec.gif {
            (0x0033_3333, false)
        } else if rec.desktop_audio {
            (0x004D_A6FF, true)
        } else {
            (0x0044_4444, true)
        },
        CtrlBtn::Mic => if rec.gif {
            (0x0033_3333, false)
        } else if rec.mic {
            (0x004D_A6FF, true)
        } else {
            (0x0044_4444, true)
        },
    }
}

/// The label of a button.
pub open spec fn ctrl_caption(btn: CtrlBtn, recording: bool, rec: Recording) -> Seq<char> {
    match btn {
        CtrlBtn::Primary => if recording {
            "Stop"@
        } else {
            "Start"@
        },
        CtrlBtn::Format => if rec.gif {
            "GIF"@
        } else {
            "MP4"@
        },
        CtrlBtn::Fps => decimal_text(rec.fps as int) + " FPS"@,
        CtrlBtn::Desktop => "Desktop"@,
        CtrlBtn::Mic => "Mic"@,
        CtrlBtn::Quit => "Quit"@,
    }
}

fn ctrl_label(btn: CtrlBtn, recording: bool, rec: &Recording) -> (s: String)
    ensures
        s@ == ctrl_caption(btn, recording, *rec),
{
    match btn {
        CtrlBtn::Primary => if recording {
            "Stop".to_string()
        } else {
            "Start".to_string()
        },
        CtrlBtn::Format => if rec.gif {
            "GIF".to_string()
        } else {
            "MP4".to_string()
        },
        CtrlBtn::Fps => {
            let mut s = decimal(rec.fps as i64);
            s.append(" FPS");
            s
        },
        CtrlBtn::Desktop => "Desktop".to_string(),
        CtrlBtn::Mic => "Mic".to_string(),
        CtrlBtn::Quit => "Quit".to_string(),
    }
}

/// A slightly lighter color.
pub open spec fn lightened(c: u32) -> u32 {
    packed(brighter(red(c)), brighter(green(c)), brighter(blue(c)))
}

/// The track of the level meter within a button: four pixels wide, four
/// pixels from the button's right, upper and lower edge. `None` if the
/// button is too small.
pub open spec fn meter_track(r: Rect) -> Option<Rect> {
    let x1 = floor_sub(r.x1 as int, 4);
    let x0 = floor_sub(x1, 4);
    let y0 = r.y0 + 4;
    let y1 = floor_sub(r.y1 as int, 4);
    if x0 >= x1 || y0 >= y1 {
        None
    } else {
        Some(Rect { x0: x0 as usize, y0: y0 as usize, x1: x1 as usize, y1: y1 as usize })
    }
}

/// The level meter: its track, and the part that is lit from below. `lit` is
/// its height.
pub open spec fn meter_of(r: Rect, lit: spec_fn(int) -> int) -> Option<(Rect, Option<Rect>)> {
    match meter_track(r) {
        None => None,
        Some(t) => {
            let h = lit(t.y1 - t.y0);
            Some(
                (
                    t,
                    if h > 0 {
                        Some(Rect { y0: floor_sub(t.y1 as int, h) as usize, ..t })
                    } else {
                        None
                    },
                ),
            )
        },
    }
}

/// The level meter of a button, lit to the height that `lit` gives for the
/// height of its track.
pub fn level_meter<P: Fn(usize) -> usize>(r: Rect, lit: &P) -> (m: Option<(Rect, Option<Rect>)>)
    requires
        r.y0 + 4 <= usize::MAX,
        pure(*lit),
    ensures
        m == meter_of(r, |h: int| result(*lit, h as usize) as int),
{
    let x1: usize = r.x1.saturating_sub(4);
    let x0: usize = x1.saturating_sub(4);
    let y0: usize = r.y0 + 4;
    let y1: usize = r.y1.saturating_sub(4);
    if x0 >= x1 || y0 >= y1 {
        return None;
    }
    let t = Rect { x0, y0, x1, y1 };
    let h: usize = apply(lit, y1 - y0);
    if h > 0 {
        Some((t, Some(Rect { x0, y0: y1.saturating_sub(h), x1, y1 })))
    } else {
        Some((t, None))
    }
}

/// A number below a hundred with two digits, a larger one as it is.
pub open spec fn two_digits(n: int) -> Seq<char> {
    if n < 10 {
        seq!['0'] + decimal_text(n)
    } else {
        decimal_text(n)
    }
}

/// The elapsed time as minutes and seconds.
pub open spec fn elapsed_of(secs: int) -> Seq<char> {
    (two_digits(secs / 60).push(':')) + two_digits(secs % 60)
}

fn push_two_digits(s: &mut String, n: i64)
    requires
        0 <= n,
    ensures
        final(s)@ == old(s)@ + two_digits(n as int),
{
    let ghost before = s@;
    if n < 10 {
        s.push('0');
        s.append(decimal(n).as_str());
        assert(s@ =~= before + two_digits(n as int));
    } else {
        s.append(decimal(n).as_str());
    }
}

/// The elapsed time as minutes and seconds, each with two digits at least.
pub fn elapsed_text(secs: u64) -> (s: String)
    requires
        secs <= i64::MAX,
    ensures
        s@ == elapsed_of(secs as int),
{
    let mut s = "".to_string();
    proof {
        reveal_strlit("");
        assert(s@ =~= Seq::empty());
    }
    push_two_digits(&mut s, (secs / 60) as i64);
    s.push(':');
    push_two_digits(&mut s, (secs % 60) as i64);
    assert(s@ =~= elapsed_of(secs as int));
    s
}

/// Whether a button looks as it should.
pub open spec fn looks_like(
    look: CtrlLook,
    btn: CtrlBtn,
    i: int,
    mode: Mode,
    rec: Recording,
    desktop: spec_fn(int) -> int,
    mic: spec_fn(int) -> int,
) -> bool {
    let recording = mode == Mode::Recording;
    let base = base_of(btn, recording, rec);
    let rect = bar_rect(rec.control_size.1 as int, i);
    &&& look.rect == rect
    &&& look.bg == (if base.1 && rec.hover == Some(btn) {
        lightened(base.0)
    } else {
        base.0
    })
    &&& look.text == (if base.1 {
        0x00FF_FFFFu32
    } else {
        0x0088_8888u32
    })
    &&& look.label@ == ctrl_caption(btn, recording, rec)
    &&& look.meter == (if btn == CtrlBtn::Desktop && base.1 {
        meter_of(rect, desktop)
    } else if btn == CtrlBtn::Mic && base.1 {
        meter_of(rect, mic)
    } else {
        None
    })
}

/// What the control bar asks of its window.
#[derive(Clone, Copy, Debug, PartialEq, Eq, Structural)]
pub enum ControlJob {
    Nothing,
    /// Start recording.
    Begin,
    /// Listen anew, with the format that was chosen.
    Relisten,
    /// Switch the desktop's sound.
    Desktop(bool),
    /// Switch the microphone.
    Mic(bool),
}

/// An event of the control bar.
#[derive(Clone, Copy, Debug)]
pub enum ControlEvent {
    Resized(usize, usize),
    /// The left button, released.
    Release,
    Moved(usize, usize),
    Left,
    Other,
}

/// What a recording is made of.
#[derive(Clone, Copy, Debug, PartialEq, Eq, Structural)]
pub struct RecordPlan {
    /// The region on the desktop.
    pub x0: i64,
    pub y0: i64,
    pub x1: i64,
    pub y1: i64,
    pub gif: bool,
    pub desktop_audio: bool,
    pub mic: bool,
    pub fps: u32,
}

impl OverlayModel {
    /// The recording over, with the file it went to.
    pub open spec fn stopped(self) -> OverlayModel {
        OverlayModel {
            outcome: match self.record_path {
                Some(p) => Some(OutcomeModel::Recorded(p)),
                None => self.outcome,
            },
            record_path: None,
            ..self
        }.over()
    }

    /// A recording stopped and saved, or its setup canceled.
    pub open spec fn given_up(self) -> OverlayModel {
        if self.scene.mode == Mode::Recording {
            self.stopped()
        } else {
            self.over()
        }
    }

    /// Other settings, which the bar shows.
    pub open spec fn rec_set(self, rec: Recording) -> OverlayModel {
        OverlayModel { rec, chores: Chores { redraw_control: true, ..self.chores }, ..self }
    }

    /// Other settings, which are kept for the next time too.
    pub open spec fn rec_kept(self, rec: Recording) -> OverlayModel {
        OverlayModel {
            rec,
            chores: Chores { redraw_control: true, save_prefs: true, ..self.chores },
            ..self
        }
    }

    /// The recording that is about to start, of the region on the desktop. A
    /// GIF has no sound.
    pub open spec fn plan(self, r: Rect) -> RecordPlan {
        let o = self.kit.frozen.origin;
        RecordPlan {
            x0: (r.x0 + o.0) as i64,
            y0: (r.y0 + o.1) as i64,
            x1: (r.x1 + o.0) as i64,
            y1: (r.y1 + o.1) as i64,
            gif: self.rec.gif,
            desktop_audio: !self.rec.gif && self.rec.desktop_audio,
            mic: !self.rec.gif && self.rec.mic,
            fps: self.rec.fps,
        }
    }

    /// What the button of the control bar under the pointer does. The sounds
    /// cannot be switched for a GIF.
    pub open spec fn control_used(self) -> (OverlayModel, ControlJob) {
        match self.rec.hover {
            Some(CtrlBtn::Primary) => if self.scene.mode == Mode::Recording {
                (self.stopped(), ControlJob::Nothing)
            } else {
                (self, ControlJob::Begin)
            },
            Some(CtrlBtn::Format) => (
                self.rec_kept(
                    Recording { gif: !self.rec.gif, previewing: self.rec.gif, ..self.rec },
                ),
                ControlJob::Relisten,
            ),
            Some(CtrlBtn::Fps) => (
                self.rec_kept(
                    Recording {
                        fps: fps_after(self.rec.fps, self.kit.fps_presets@),
                        ..self.rec
                    },
                ),
                ControlJob::Nothing,
            ),
            Some(CtrlBtn::Desktop) => if self.rec.gif {
                (self, ControlJob::Nothing)
            } else {
                (
                    self.rec_kept(
                        Recording { desktop_audio: !self.rec.desktop_audio, ..self.rec },
                    ),
                    ControlJob::Desktop(!self.rec.desktop_audio),
                )
            },
            Some(CtrlBtn::Mic) => if self.rec.gif {
                (self, ControlJob::Nothing)
            } else {
                (
                    self.rec_kept(Recording { mic: !self.rec.mic, ..self.rec }),
                    ControlJob::Mic(!self.rec.mic),
                )
            },
            Some(CtrlBtn::Quit) => (self.given_up(), ControlJob::Nothing),
            None => (self, ControlJob::Nothing),
        }
    }

    /// The pointer over another button of the control bar, or over none.
    pub open spec fn control_hovered(self, hit: Option<CtrlBtn>) -> OverlayModel {
        if hit == self.rec.hover {
            self
        } else {
            self.rec_set(Recording { hover: hit, ..self.rec })
        }
    }

    /// What an event of the control bar does.
    pub open spec fn control_event(self, e: ControlEvent) -> (OverlayModel, ControlJob) {
        match e {
            ControlEvent::Resized(w, h) => (
                self.rec_set(Recording { control_size: (w, h), ..self.rec }),
                ControlJob::Nothing,
            ),
            ControlEvent::Release => self.control_used(),
            ControlEvent::Moved(x, y) => (
                self.control_hovered(
                    bar_at(
                        self.scene.mode,
                        self.rec.control_size.1 as int,
                        x as int,
                        y as int,
                        0,
                    ),
                ),
                ControlJob::Nothing,
            ),
            ControlEvent::Left => (self.control_hovered(None), ControlJob::Nothing),
            ControlEvent::Other => (self, ControlJob::Nothing),
        }
    }

    /// The recording running, into a file.
    pub open spec fn started(self, path: Seq<char>) -> OverlayModel {
        OverlayModel {
            record_path: Some(path),
            scene: Scene { mode: Mode::Recording, ..self.scene },
            chores: Chores { redraw_control: true, ..self.chores },
            ..self
        }
    }

    /// What an event of the window does. Once the selection is hidden in
    /// favor of a recording, only closing does anything.
    pub open spec fn event(self, e: OverlayEvent, s: Spot) -> OverlayModel {
        if self.scene.mode == Mode::Selecting {
            self.selecting_event(e, s)
        } else if e is Close {
            self.given_up()
        } else {
            self
        }
    }
}

impl Overlay {
    /// Ends a recording. Its file is what the session ends with.
    #[verifier::rlimit(40)]
    pub fn stop_recording(&mut self)
        requires
            old(self)@.wf(),
        ensures
            final(self)@.wf(),
            final(self)@ == old(self)@.stopped(),
    {
        let mut path: Option<String> = None;
        proof {
            lemma_seen(self.record_path);
            lemma_seen(self.outcome);
        }
        std::mem::swap(&mut path, &mut self.record_path);
        if let Some(p) = path {
            self.outcome = Some(Outcome::Recorded(p));
            proof {
                lemma_seen(self.outcome);
            }
        }
        self.finish();
    }

    /// Closing cancels a setup, and stops and saves a recording.
    pub fn cancel_or_stop(&mut self)
        requires
            old(self)@.wf(),
        ensures
            final(self)@.wf(),
            final(self)@ == old(self)@.given_up(),
    {
        if self.scene.mode == Mode::Recording {
            self.stop_recording();
        } else {
            self.finish();
        }
    }

    /// The control bar's buttons and their places.
    pub fn control_buttons(&self) -> (v: Vec<(CtrlBtn, Rect)>)
        requires
            self@.wf(),
        ensures
            v@.len() == bar_of(self@.scene.mode).len(),
            forall|i: int|
                0 <= i < v@.len() ==> #[trigger] v@[i] == (
                    bar_of(self@.scene.mode)[i],
                    bar_rect(self@.rec.control_size.1 as int, i),
                ),
    {
        let bar = bar_buttons(self.scene.mode);
        let y0: usize = self.rec.control_size.1.saturating_sub(ACTION_BTN) / 2;
        let mut v: Vec<(CtrlBtn, Rect)> = Vec::new();
        let mut i: usize = 0;
        while i < bar.len()
            invariant
                i <= bar@.len() <= 6,
                bar@ == bar_of(self@.scene.mode),
                self.rec.control_size.1 + 56 <= usize::MAX,
                y0 == floor_sub(self.rec.control_size.1 as int, 56) / 2,
                v@.len() == i,
                forall|k: int|
                    0 <= k < i ==> #[trigger] v@[k] == (
                        bar_of(self@.scene.mode)[k],
                        bar_rect(self@.rec.control_size.1 as int, k),
                    ),
            decreases bar.len() - i,
        {
            let x: usize = CTRL_PAD + ACTION_BTN * i;
            v.push((bar[i], Rect { x0: x, y0, x1: x + ACTION_BTN, y1: y0 + ACTION_BTN }));
            i += 1;
        }
        v
    }

    /// The button of the control bar at a point.
    pub fn control_hit(&self, x: usize, y: usize) -> (b: Option<CtrlBtn>)
        requires
            self@.wf(),
        ensures
            b == bar_at(
                self@.scene.mode,
                self@.rec.control_size.1 as int,
                x as int,
                y as int,
                0,
            ),
    {
        let v = self.control_buttons();
        let ghost mode = self@.scene.mode;
        let ghost h = self@.rec.control_size.1 as int;
        let mut i: usize = 0;
        while i < v.len()
            invariant
                mode == self@.scene.mode,
                h == self@.rec.control_size.1 as int,
                i <= v@.len() == bar_of(mode).len(),
                forall|k: int|
                    0 <= k < v@.len() ==> #[trigger] v@[k] == (bar_of(mode)[k], bar_rect(h, k)),
                bar_at(mode, h, x as int, y as int, 0) == bar_at(
                    mode,
                    h,
                    x as int,
                    y as int,
                    i as int,
                ),
            decreases v.len() - i,
        {
            assert(v@[i as int] == (bar_of(mode)[i as int], bar_rect(h, i as int)));
            if v[i].1.contains(x, y) {
                return Some(v[i].0);
            }
            i += 1;
        }
        None
    }

    /// How the control bar's buttons look. `desktop` and `mic` give the lit
    /// height of a level meter of some height.
    pub fn draw_control<P: Fn(usize) -> usize, Q: Fn(usize) -> usize>(
        &self,
        desktop: &P,
        mic: &Q,
    ) -> (looks: Vec<CtrlLook>)
        requires
            self@.wf(),
            pure(*desktop),
            pure(*mic),
        ensures
            looks@.len() == bar_of(self@.scene.mode).len(),
            forall|i: int|
                0 <= i < looks@.len() ==> looks_like(
                    #[trigger] looks@[i],
                    bar_of(self@.scene.mode)[i],
                    i,
                    self@.scene.mode,
                    self@.rec,
                    |h: int| result(*desktop, h as usize) as int,
                    |h: int| result(*mic, h as usize) as int,
                ),
    {
        let buttons = self.control_buttons();
        let recording = self.scene.mode == Mode::Recording;
        let mut looks: Vec<CtrlLook> = Vec::new();
        let ghost d = |h: int| result(*desktop, h as usize) as int;
        let ghost m = |h: int| result(*mic, h as usize) as int;
        let ghost mode = self@.scene.mode;
        let ghost rec = self@.rec;
        let mut i: usize = 0;
        while i < buttons.len()
            invariant
                i <= buttons@.len() == bar_of(mode).len(),
                recording == (mode == Mode::Recording),
                rec == self.rec,
                rec.control_size.1 + 56 <= usize::MAX,
                pure(*desktop),
                pure(*mic),
                d == (|h: int| result(*desktop, h as usize) as int),
                m == (|h: int| result(*mic, h as usize) as int),
                forall|k: int|
                    0 <= k < buttons@.len() ==> #[trigger] buttons@[k] == (
                        bar_of(mode)[k],
                        bar_rect(rec.control_size.1 as int, k),
                    ),
                looks@.len() == i,
                forall|k: int|
                    0 <= k < i ==> looks_like(
                        #[trigger] looks@[k],
                        bar_of(mode)[k],
                        k,
                        mode,
                        rec,
                        d,
                        m,
                    ),
            decreases buttons.len() - i,
        {
            assert(buttons@[i as int] == (
                bar_of(mode)[i as int],
                bar_rect(rec.control_size.1 as int, i as int),
            ));
            let btn = buttons[i].0;
            let rect = buttons[i].1;
            let (base, enabled) = base_color(btn, recording, &self.rec);
            let hovered = match self.rec.hover {
                Some(h) => h == btn,
                None => false,
            };
            let bg: u32 = if enabled && hovered {
                lighten(base)
            } else {
                base
            };
            let text: u32 = if enabled {
                0x00FF_FFFF
            } else {
                0x0088_8888
            };
            let label = ctrl_label(btn, recording, &self.rec);
            let meter = match btn {
                CtrlBtn::Desktop => if enabled {
                    level_meter(rect, desktop)
                } else {
                    None
                },
                CtrlBtn::Mic => if enabled {
                    level_meter(rect, mic)
                } else {
                    None
                },
                _ => None,
            };
            looks.push(CtrlLook { rect, bg, text, label, meter });
            i += 1;
        }
        looks
    }

    fn set_rec(&mut self, rec: Recording, keep: bool)
        requires
            old(self)@.wf(),
            rec.region == old(self)@.rec.region,
            rec.control_size.1 <= i32::MAX,
        ensures
            final(self)@.wf(),
            final(self)@ == (if keep {
                old(self)@.rec_kept(rec)
            } else {
                old(self)@.rec_set(rec)
            }),
    {
        self.rec = rec;
        if keep {
            self.chores = Chores { redraw_control: true, save_prefs: true, ..self.chores };
        } else {
            self.chores = Chores { redraw_control: true, ..self.chores };
        }
    }

    /// The button of the control bar under the pointer is used.
    pub fn use_control(&mut self) -> (job: ControlJob)
        requires
            old(self)@.wf(),
        ensures
            final(self)@.wf(),
            (final(self)@, job) == old(self)@.control_used(),
    {
        let rec = self.rec;
        match rec.hover {
            Some(CtrlBtn::Primary) => {
                if self.scene.mode == Mode::Recording {
                    self.stop_recording();
                    ControlJob::Nothing
                } else {
                    ControlJob::Begin
                }
            },
            Some(CtrlBtn::Format) => {
                self.set_rec(Recording { gif: !rec.gif, previewing: rec.gif, ..rec }, true);
                ControlJob::Relisten
            },
            Some(CtrlBtn::Fps) => {
                let fps: u32 = next_fps(rec.fps, self.kit.fps_presets.as_slice());
                self.set_rec(Recording { fps, ..rec }, true);
                ControlJob::Nothing
            },
            Some(CtrlBtn::Desktop) => {
                if rec.gif {
                    ControlJob::Nothing
                } else {
                    self.set_rec(Recording { desktop_audio: !rec.desktop_audio, ..rec }, true);
                    ControlJob::Desktop(!rec.desktop_audio)
                }
            },
            Some(CtrlBtn::Mic) => {
                if rec.gif {
                    ControlJob::Nothing
                } else {
                    self.set_rec(Recording { mic: !rec.mic, ..rec }, true);
                    ControlJob::Mic(!rec.mic)
                }
            },
            Some(CtrlBtn::Quit) => {
                self.cancel_or_stop();
                ControlJob::Nothing
            },
            None => ControlJob::Nothing,
        }
    }

    fn hover_control(&mut self, hit: Option<CtrlBtn>)
        requires
            old(self)@.wf(),
        ensures
            final(self)@.wf(),
            final(self)@ == old(self)@.control_hovered(hit),
    {
        let same = match (hit, self.rec.hover) {
            (Some(a), Some(b)) => a == b,
            (None, None) => true,
            _ => false,
        };
        if !same {
            self.set_rec(Recording { hover: hit, ..self.rec }, false);
        }
    }

    /// Does what an event of the control bar says.
    pub fn control_event(&mut self, e: ControlEvent) -> (job: ControlJob)
        requires
            old(self)@.wf(),
            e matches ControlEvent::Resized(w, h) ==> h <= i32::MAX,
        ensures
            final(self)@.wf(),
            (final(self)@, job) == old(self)@.control_event(e),
    {
        match e {
            ControlEvent::Resized(w, h) => {
                self.set_rec(Recording { control_size: (w, h), ..self.rec }, false);
                ControlJob::Nothing
            },
            ControlEvent::Release => self.use_control(),
            ControlEvent::Moved(x, y) => {
                let hit = self.control_hit(x, y);
                self.hover_control(hit);
                ControlJob::Nothing
            },
            ControlEvent::Left => {
                self.hover_control(None);
                ControlJob::Nothing
            },
            ControlEvent::Other => ControlJob::Nothing,
        }
    }

    /// The recording to start, with its region on the desktop. `None`
    /// without a region. The level meters' own listening ends.
    pub fn begin_recording(&mut self) -> (plan: Option<RecordPlan>)
        requires
            old(self)@.wf(),
        ensures
            final(self)@.wf(),
            match old(self)@.rec.region {
                None => plan == None::<RecordPlan> && final(self)@ == old(self)@,
                Some(r) => plan == Some(old(self)@.plan(r)) && final(self)@ == (OverlayModel {
                    rec: Recording { previewing: false, ..old(self)@.rec },
                    ..old(self)@
                }),
            },
    {
        let r = match self.rec.region {
            Some(r) => r,
            None => {
                return None;
            },
        };
        self.rec = Recording { previewing: false, ..self.rec };
        let o: (i32, i32) = self.kit.frozen.origin;
        Some(
            RecordPlan {
                x0: r.x0 as i64 + o.0 as i64,
                y0: r.y0 as i64 + o.1 as i64,
                x1: r.x1 as i64 + o.0 as i64,
                y1: r.y1 as i64 + o.1 as i64,
                gif: self.rec.gif,
                desktop_audio: !self.rec.gif && self.rec.desktop_audio,
                mic: !self.rec.gif && self.rec.mic,
                fps: self.rec.fps,
            },
        )
    }

    /// A recording has started, into a file.
    pub fn recording_started(&mut self, path: String)
        requires
            old(self)@.wf(),
        ensures
            final(self)@.wf(),
            final(self)@ == old(self)@.started(path@),
    {
        self.record_path = Some(path);
        proof {
            lemma_seen(self.record_path);
        }
        self.scene = Scene { mode: Mode::Recording, ..self.scene };
        self.chores = Chores { redraw_control: true, ..self.chores };
    }

    /// Where the control bar's window goes on the desktop.
    pub fn control_position(&self, r: Rect) -> (at: (i64, i64))
        requires
            self@.wf(),
            r.x0 <= i32::MAX,
            r.y0 <= i32::MAX,
            r.x1 <= i32::MAX,
            r.y1 <= i32::MAX,
        ensures
            ({
                let o = self@.kit.frozen.origin;
                let bounds = bounds_of(self@.kit.frozen.monitors@, r, self@.window_rect());
                (at.0 as int, at.1 as int) == (
                    control_origin(r, bounds).0 + o.0,
                    control_origin(r, bounds).1 + o.1,
                )
            }),
    {
        proof {
            reveal(crate::overlay::is_furnished);
            crate::monitors::lemma_monitor_range(self.kit.frozen.monitors@, r);
        }
        let canvas = Rect {
            x0: 0,
            y0: 0,
            x1: self.scene.surface_size.0,
            y1: self.scene.surface_size.1,
        };
        let bounds = containing_monitor(self.kit.frozen.monitors.as_slice(), r, canvas);
        assert(bounds.x0 <= i32::MAX && bounds.y0 <= i32::MAX && bounds.x1 <= i32::MAX && bounds.y1
            <= i32::MAX);
        let at: (usize, usize) = control_place(r, bounds);
        let o: (i32, i32) = self.kit.frozen.origin;
        (at.0 as i64 + o.0 as i64, at.1 as i64 + o.1 as i64)
    }

    /// Does what an event of the window says.
    pub fn window_event(&mut self, e: OverlayEvent, s: &Spot)
        requires
            old(self)@.wf(),
            event_ok(e, old(self)@.img()),
        ensures
            final(self)@.wf(),
            final(self)@ == old(self)@.event(e, *s),
    {
        if self.scene.mode == Mode::Selecting {
            self.on_selecting(e, s);
        } else {
            match e {
                OverlayEvent::Close => self.cancel_or_stop(),
                _ => {},
            }
        }
    }

    /// Whether the control bar has to be redrawn again after a while, for
    /// the elapsed time and the level meters.
    pub fn about_to_wait(&mut self) -> (soon: bool)
        requires
            old(self)@.wf(),
        ensures
            final(self)@.wf(),
            soon == (old(self)@.scene.mode != Mode::Selecting),
            final(self)@ == (if soon {
                OverlayModel {
                    chores: Chores { redraw_control: true, ..old(self)@.chores },
                    ..old(self)@
                }
            } else {
                old(self)@
            }),
    {
        if self.in_record_flow() {
            self.chores = Chores { redraw_control: true, ..self.chores };
            true
        } else {
            false
        }
    }
}

} // verus!
