//! The region-selection overlay: a still picture of the desktop on which a
//! region is dragged, adjusted, and handed on.
//!
//! The pointer's position is kept by the window, and comes in as a [`Spot`].
//! What the window has to do after an event is in [`Chores`].

use vstd::prelude::*;

use crate::annotation::Handle;
use crate::canvas::{handle_cursor, handle_shape, CursorShape};
use crate::grid::{at, lemma_cell};
use crate::history::{History, UndoStack};
use crate::keys::RegionKeys;
use crate::menu::{
    width_of, Action, Menu, MenuAvailability, MenuButton, MenuModel, MenuScale, ACTION_BTN, MARGIN,
};
use crate::monitors::{
    bounds_of, containing_monitor, containing_monitor_index, lemma_monitor_range, monitor_of,
    on_desktop, Frozen,
};
use crate::pixels::{crop_region, exported, has_pixel, Shot};
use crate::rect::Rect;
use crate::region::{
    clamp_rect_to_image, dragged, dragged_rect, fitted, handle_within, hit_handle, is_picture,
    is_region, move_rect, resize_rect, resized, shifted, Reach,
};

verus! {

/// What the overlay is doing.
#[derive(Clone, Copy, Debug, PartialEq, Eq, Structural)]
pub enum Mode {
    /// A region is being selected.
    Selecting,
    /// A recording is being prepared: the picture is hidden, and the region's
    /// border and the control bar are shown.
    RecordSetup,
    /// A recording runs.
    Recording,
}

/// A button of the control bar.
#[derive(Clone, Copy, Debug, PartialEq, Eq, Structural)]
pub enum CtrlBtn {
    /// Starts or stops.
    Primary,
    /// Switches between MP4 and GIF.
    Format,
    /// Goes to the next frame rate.
    Fps,
    /// Switches the desktop's sound on or off.
    Desktop,
    /// Switches the microphone on or off.
    Mic,
    /// Cancels, or stops and saves.
    Quit,
}

/// How a committed selection is being changed.
#[derive(Clone, Copy, Debug, PartialEq, Eq, Structural)]
pub enum Adjust {
    Idle,
    /// Moved as a whole, from where it was when it was grabbed.
    Moving { orig: Rect },
    /// Resized by a handle.
    Resizing(Handle),
}

/// What the overlay ends with.
#[derive(Debug)]
pub enum Outcome {
    /// An action with the selected part of the picture.
    Captured { action: Action, shot: Shot },
    /// The file of a finished recording.
    Recorded(String),
    /// The file the picture was saved to.
    Saved(String),
}

/// What an [`Outcome`] stands for.
pub enum OutcomeModel {
    Captured { action: Action, width: u32, height: u32, rgba: Seq<u8> },
    Recorded(Seq<char>),
    Saved(Seq<char>),
}

impl View for Outcome {
    type V = OutcomeModel;

    open spec fn view(&self) -> OutcomeModel {
        match self {
            Outcome::Captured { action, shot } => OutcomeModel::Captured {
                action: *action,
                width: shot.width,
                height: shot.height,
                rgba: shot.rgba@,
            },
            Outcome::Recorded(path) => OutcomeModel::Recorded(path@),
            Outcome::Saved(path) => OutcomeModel::Saved(path@),
        }
    }
}

/// One byte of a pixel.
pub open spec fn channel(p: (u8, u8, u8, u8), i: int) -> u8 {
    if i == 0 {
        p.0
    } else if i == 1 {
        p.1
    } else if i == 2 {
        p.2
    } else {
        p.3
    }
}

/// The bytes of the part `r` of a picture of width `w`.
#[verifier::opaque]
pub open spec fn cut(bright: Seq<u32>, w: int, r: Rect) -> Seq<u8> {
    let rw = r.x1 - r.x0;
    Seq::new(
        (4 * (rw * (r.y1 - r.y0))) as nat,
        |i: int|
            channel(
                exported(bright[at(w, r.x0 + (i / 4) % rw, r.y0 + (i / 4) / rw)], 0),
                i % 4,
            ),
    )
}

/// Cuts `r` out of the picture.
fn cut_out(f: &Frozen, r: Rect) -> (shot: Shot)
    requires
        f.bright@.len() == f.width * f.height,
        is_picture((f.width, f.height)),
        is_region(r, (f.width, f.height)),
    ensures
        shot.width == r.x1 - r.x0,
        shot.height == r.y1 - r.y0,
        shot.rgba@ == cut(f.bright@, f.width as int, r),
{
    proof {
        assert(r.y1 * f.width <= f.width * f.height) by (nonlinear_arith)
            requires
                r.y1 <= f.height,
                0 <= f.width,
        ;
    }
    let shot = crop_region(f.bright.as_slice(), f.width, r);
    proof {
        reveal(cut);
        let w = f.width as int;
        let rw = r.x1 - r.x0;
        let rh = r.y1 - r.y0;
        let bytes = cut(f.bright@, w, r);
        assert(0 < rw * rh) by (nonlinear_arith)
            requires
                0 < rw,
                0 < rh,
        ;
        assert(shot.rgba@.len() == bytes.len());
        assert forall|i: int| 0 <= i < bytes.len() implies #[trigger] shot.rgba@[i] == bytes[i] by {
            let j = i / 4;
            lemma_cell(rw, rh, j);
            let x = r.x0 + j % rw;
            let y = r.y0 + j / rw;
            assert(r.holds(x, y));
            let k = at(w, x, y);
            assert(has_pixel(shot.rgba@, at(rw, x - r.x0, y - r.y0), exported(f.bright@[k], 0)));
            assert(at(rw, x - r.x0, y - r.y0) == j);
        }
        assert(shot.rgba@ =~= bytes);
    }
    shot
}

/// Where the window's pointer goes.
#[derive(Clone, Copy, Debug, PartialEq, Eq, Structural)]
pub enum Warp {
    Stay,
    /// To the window's center, to keep getting raw motion.
    Center,
    /// Back to the position it stands for.
    Back,
}

/// What the window has to do.
#[derive(Clone, Copy, Debug)]
pub struct Chores {
    pub redraw: bool,
    pub cursor: Option<CursorShape>,
    pub visible: Option<bool>,
    pub warp: Warp,
    /// Hide the picture, and show the region's border and the control bar.
    pub setup: bool,
    /// Ask for a file to save the selection to.
    pub save_as: bool,
    /// Redraw the control bar.
    pub redraw_control: bool,
    /// Keep the recording settings for the next time.
    pub save_prefs: bool,
}

impl Chores {
    /// Nothing to do.
    pub open spec fn none_left() -> Chores {
        Chores {
            redraw: false,
            cursor: None,
            visible: None,
            warp: Warp::Stay,
            setup: false,
            save_as: false,
            redraw_control: false,
            save_prefs: false,
        }
    }

    /// Nothing to do.
    pub fn idle() -> (c: Self)
        ensures
            c == Self::none_left(),
    {
        Chores {
            redraw: false,
            cursor: None,
            visible: None,
            warp: Warp::Stay,
            setup: false,
            save_as: false,
            redraw_control: false,
            save_prefs: false,
        }
    }
}

/// The settings and the state of a recording.
#[derive(Clone, Copy, Debug)]
pub struct Recording {
    /// The region, with an even width and height.
    pub region: Option<Rect>,
    pub gif: bool,
    pub fps: u32,
    pub desktop_audio: bool,
    pub mic: bool,
    /// The control bar's size, before it is scaled.
    pub control_size: (usize, usize),
    /// The button of the control bar under the pointer.
    pub hover: Option<CtrlBtn>,
    /// Whether sound is listened to for the level meters alone.
    pub previewing: bool,
}

/// The pointer, as far as the overlay reads it.
#[derive(Clone, Copy, Debug)]
pub struct Spot {
    /// The position in the picture, rounded to the nearest whole one.
    pub pixel: (i64, i64),
    /// The position in the picture, rounded down.
    pub cell: (i64, i64),
    /// The whole coordinates within the grab tolerance, and those within it
    /// when nothing is magnified.
    pub reach: Reach,
    pub plain_reach: Reach,
    /// The window's pixel.
    pub window: (usize, usize),
    /// The way from where the button was pressed, rounded.
    pub moved: (i64, i64),
    /// Whether that way is short enough for a click.
    pub still: bool,
}

/// What an overlay works with, and never changes.
#[derive(Debug)]
pub struct Kit {
    pub frozen: Frozen,
    pub keys: RegionKeys,
    /// The menu's entries.
    pub order: Vec<MenuButton>,
    pub fps_presets: Vec<u32>,
}

/// The state of the selection.
#[derive(Clone, Copy, Debug)]
pub struct Scene {
    pub surface_size: (usize, usize),
    /// Whether the session is over.
    pub finished: bool,
    /// The committed selection. Set, the menu is shown.
    pub selection: Option<Rect>,
    /// Where a drag began, while there is one.
    pub drag_start: Option<(i64, i64)>,
    pub dragging: bool,
    /// Whether the picture is magnified.
    pub zoomed: bool,
    /// Whether the pointer is driven by raw motion, slowed down.
    pub fine: bool,
    pub adjust: Adjust,
    /// The menu's button under the pointer, and the pressed one.
    pub hovered: Option<usize>,
    pub pressed: Option<usize>,
    /// The window under the pointer, to be selected by a click.
    pub snap_rect: Option<Rect>,
    pub ctrl: bool,
    pub shift: bool,
    pub alt: bool,
    /// The region that was last used.
    pub last_region: Option<Rect>,
    /// Whether there is a place to upload to.
    pub uploaders: bool,
    /// Whether there is an external editor.
    pub external_editor: bool,
    /// Whether a recording may be started.
    pub allow_record: bool,
    pub mode: Mode,
}

impl Scene {
    /// Nothing selected yet.
    pub open spec fn fresh() -> Scene {
        Scene {
            surface_size: (0, 0),
            finished: false,
            selection: None,
            drag_start: None,
            dragging: false,
            zoomed: false,
            fine: false,
            adjust: Adjust::Idle,
            hovered: None,
            pressed: None,
            snap_rect: None,
            ctrl: false,
            shift: false,
            alt: false,
            last_region: None,
            uploaders: false,
            external_editor: false,
            allow_record: true,
            mode: Mode::Selecting,
        }
    }

    /// Nothing selected yet.
    pub fn new() -> (s: Self)
        ensures
            s == Self::fresh(),
    {
        Scene {
            surface_size: (0, 0),
            finished: false,
            selection: None,
            drag_start: None,
            dragging: false,
            zoomed: false,
            fine: false,
            adjust: Adjust::Idle,
            hovered: None,
            pressed: None,
            snap_rect: None,
            ctrl: false,
            shift: false,
            alt: false,
            last_region: None,
            uploaders: false,
            external_editor: false,
            allow_record: true,
            mode: Mode::Selecting,
        }
    }
}

impl Recording {
    /// The settings a recording starts from. The frame rate is one at least.
    pub open spec fn fresh(prefs: RecordPrefs) -> Recording {
        Recording {
            region: None,
            gif: prefs.gif,
            fps: if prefs.fps >= 1 {
                prefs.fps
            } else {
                1
            },
            desktop_audio: prefs.desktop_audio,
            mic: prefs.mic,
            control_size: (0, 0),
            hover: None,
            previewing: false,
        }
    }

    /// The settings a recording starts from. The frame rate is one at least.
    pub fn new(prefs: RecordPrefs) -> (r: Self)
        ensures
            r == Self::fresh(prefs),
    {
        Recording {
            region: None,
            gif: prefs.gif,
            fps: if prefs.fps >= 1 {
                prefs.fps
            } else {
                1
            },
            desktop_audio: prefs.desktop_audio,
            mic: prefs.mic,
            control_size: (0, 0),
            hover: None,
            previewing: false,
        }
    }
}

/// The overlay.
#[derive(Debug)]
pub struct Overlay {
    pub kit: Kit,
    pub scene: Scene,
    pub menu: Option<Menu>,
    /// The earlier selections.
    pub history: UndoStack<Option<Rect>>,
    /// What the session ended with. `None` if it was canceled.
    pub outcome: Option<Outcome>,
    pub rec: Recording,
    /// The file being recorded to.
    pub record_path: Option<String>,
    pub chores: Chores,
}

/// What an optional value stands for.
#[verifier::opaque]
pub open spec fn seen<T: View>(o: Option<T>) -> Option<T::V> {
    match o {
        Some(v) => Some(v@),
        None => None,
    }
}

/// Something is seen where something is.
pub proof fn lemma_seen<T: View>(o: Option<T>)
    ensures
        seen(o) == (match o {
            Some(v) => Some(v@),
            None => None,
        }),
        seen(None::<T>) == None::<T::V>,
{
    reveal(seen);
}

/// What an [`Overlay`] stands for.
pub struct OverlayModel {
    pub kit: Kit,
    pub scene: Scene,
    pub menu: Option<MenuModel>,
    pub history: History<Option<Rect>>,
    pub outcome: Option<OutcomeModel>,
    pub rec: Recording,
    pub record_path: Option<Seq<char>>,
    pub chores: Chores,
}

impl View for Overlay {
    type V = OverlayModel;

    open spec fn view(&self) -> OverlayModel {
        OverlayModel {
            kit: self.kit,
            scene: self.scene,
            menu: seen(self.menu),
            history: self.history@,
            outcome: seen(self.outcome),
            rec: self.rec,
            record_path: seen(self.record_path),
            chores: self.chores,
        }
    }
}

/// The menu's measures on a monitor that is not scaled.
pub open spec fn plain_scale() -> MenuScale {
    MenuScale { action_btn: ACTION_BTN, margin: MARGIN }
}

/// Whether a menu of these entries has coordinates that can be told.
pub open spec fn can_scale(s: MenuScale, order: Seq<MenuButton>) -> bool {
    &&& s.action_btn <= 0x1000_0000
    &&& s.margin <= 0x1000_0000
    &&& width_of(order, s.action_btn as int, order.len() as int) <= 0x1000_0000
}

/// Whether a picture has all its pixels, and monitors on which a menu of
/// these entries can be laid out.
#[verifier::opaque]
pub open spec fn is_furnished(f: Frozen, order: Seq<MenuButton>) -> bool {
    &&& f.bright@.len() == f.width * f.height
    &&& f.dim@.len() == f.width * f.height
    &&& forall|i: int| 0 <= i < f.monitors@.len() ==> on_desktop(#[trigger] f.monitors@[i])
    &&& forall|i: int| 0 <= i < f.scales@.len() ==> can_scale(#[trigger] f.scales@[i], order)
    &&& can_scale(plain_scale(), order)
}

/// Whether an overlay can be opened on a picture, with these menu entries.
pub open spec fn can_open(f: Frozen, order: Seq<MenuButton>) -> bool {
    is_picture((f.width, f.height)) && is_furnished(f, order)
}

/// Whether a state of the selection is valid: none, or a region.
pub open spec fn is_choice(o: Option<Rect>, img: (usize, usize)) -> bool {
    o matches Some(r) ==> is_region(r, img)
}

/// Whether every state of a history is valid.
pub open spec fn are_choices(s: Seq<Option<Rect>>, img: (usize, usize)) -> bool {
    forall|i: int| 0 <= i < s.len() ==> is_choice(#[trigger] s[i], img)
}

impl OverlayModel {
    /// The picture's size.
    pub open spec fn img(self) -> (usize, usize) {
        (self.kit.frozen.width, self.kit.frozen.height)
    }

    /// What holds of every overlay: whatever is selected, was selected, or
    /// can be selected by a click is a region of the picture, and a menu is
    /// shown beside a selection only. What is recorded is such a region too.
    /// The pointer is driven by raw motion only while something is magnified.
    pub open spec fn wf(self) -> bool {
        &&& can_open(self.kit.frozen, self.kit.order@)
        &&& self.scene.surface_size.0 <= i32::MAX
        &&& self.scene.surface_size.1 <= i32::MAX
        &&& is_choice(self.scene.selection, self.img())
        &&& is_choice(self.scene.snap_rect, self.img())
        &&& are_choices(self.history.past, self.img())
        &&& are_choices(self.history.future, self.img())
        &&& self.scene.adjust matches Adjust::Moving { orig } ==> is_region(orig, self.img())
        &&& self.menu is Some ==> self.scene.selection is Some
        &&& self.scene.dragging == (self.scene.drag_start is Some)
        &&& self.scene.fine ==> self.scene.zoomed
        &&& is_choice(self.rec.region, self.img())
        &&& self.rec.control_size.1 <= i32::MAX
    }

    /// The actions that can be used.
    pub open spec fn avail(self) -> MenuAvailability {
        MenuAvailability {
            uploaders: self.scene.uploaders,
            external_editor: self.scene.external_editor,
            undo: self.history.past.len() > 0,
            redo: self.history.future.len() > 0,
            reuse_region: self.scene.last_region is Some,
        }
    }

    /// The menu's measures on the monitor that shows `sel`.
    pub open spec fn scale_for(self, sel: Rect) -> MenuScale {
        match monitor_of(self.kit.frozen.monitors@, sel) {
            Some(i) if i < self.kit.frozen.scales@.len() => self.kit.frozen.scales@[i],
            _ => plain_scale(),
        }
    }

    /// The whole window.
    pub open spec fn window_rect(self) -> Rect {
        Rect { x0: 0, y0: 0, x1: self.scene.surface_size.0, y1: self.scene.surface_size.1 }
    }

    /// The menu beside `sel`, on the monitor that shows it.
    pub open spec fn menu_for(self, sel: Rect) -> MenuModel {
        MenuModel::laid_out(
            sel,
            bounds_of(self.kit.frozen.monitors@, sel, self.window_rect()),
            self.kit.keys,
            self.kit.order@,
            self.avail(),
            None,
            self.scale_for(sel),
        )
    }

    /// Another state of the selection.
    pub open spec fn with(self, scene: Scene) -> OverlayModel {
        OverlayModel { scene, ..self }
    }

    /// The menu laid out anew.
    pub open spec fn menu_built(self) -> OverlayModel {
        OverlayModel {
            menu: match self.scene.selection {
                Some(sel) => Some(self.menu_for(sel)),
                None => None,
            },
            ..self
        }
    }

    /// A redraw asked for.
    pub open spec fn redrawn(self) -> OverlayModel {
        OverlayModel { chores: Chores { redraw: true, ..self.chores }, ..self }
    }

    /// The pointer shown or hidden.
    pub open spec fn shown(self, visible: bool) -> OverlayModel {
        OverlayModel { chores: Chores { visible: Some(visible), ..self.chores }, ..self }
    }

    /// The pointer's shape set.
    pub open spec fn shaped(self, c: CursorShape) -> OverlayModel {
        OverlayModel { chores: Chores { cursor: Some(c), ..self.chores }, ..self }
    }

    /// The selection remembered before a change.
    pub open spec fn remembered(self) -> OverlayModel {
        OverlayModel { history: self.history.after_push(self.scene.selection), ..self }
    }

    /// Whether a click would select the window under the pointer: nothing is
    /// selected yet, and the button is up or has barely moved.
    pub open spec fn snapping(self, still: bool) -> bool {
        self.scene.mode == Mode::Selecting && self.scene.selection is None && self.scene.snap_rect is Some && (
        !self.scene.dragging || still)
    }

    /// The rectangle of the drag so far.
    pub open spec fn current(self, p: (i64, i64)) -> Option<Rect> {
        match self.scene.drag_start {
            Some(a) => Some(dragged(a, p, self.img())),
            None => None,
        }
    }

    /// The rectangle a release would select.
    pub open spec fn candidate(self, s: Spot) -> Option<Rect> {
        if self.snapping(s.still) {
            self.scene.snap_rect
        } else {
            self.current(s.pixel)
        }
    }

    /// Whether the pointer is over the selection.
    pub open spec fn over_selection(self, s: Spot) -> bool {
        match self.scene.selection {
            Some(r) => r.holds(s.cell.0 as int, s.cell.1 as int),
            None => false,
        }
    }

    /// The selection's handle under the pointer.
    pub open spec fn handle(self, s: Spot) -> Option<Handle> {
        match self.scene.selection {
            Some(r) => handle_within(r, s.reach),
            None => None,
        }
    }

    /// The selection's handle under the pointer when nothing is magnified.
    pub open spec fn plain_handle(self, s: Spot) -> Option<Handle> {
        match self.scene.selection {
            Some(r) => handle_within(r, s.plain_reach),
            None => None,
        }
    }

    /// The pointer's shape beside a committed selection. It changes only
    /// while nothing is magnified.
    pub open spec fn shape(self, s: Spot) -> CursorShape {
        match self.plain_handle(s) {
            Some(h) => handle_shape(h),
            None => if self.over_selection(s) {
                CursorShape::Move
            } else {
                CursorShape::Default
            },
        }
    }

    /// The pointer's shape brought up to date, unless it is hidden.
    pub open spec fn shape_updated(self, s: Spot) -> OverlayModel {
        if self.scene.fine {
            self
        } else {
            self.shaped(self.shape(s))
        }
    }

    /// The selection after the adjustment in progress.
    pub open spec fn adjusted(self, s: Spot) -> OverlayModel {
        match self.scene.selection {
            None => self,
            Some(sel) => match self.scene.adjust {
                Adjust::Idle => self,
                Adjust::Resizing(h) => self.with(
                    Scene { selection: Some(resized(sel, h, s.pixel, self.img())), ..self.scene },
                ),
                Adjust::Moving { orig } => self.with(
                    Scene { selection: Some(shifted(orig, s.moved, self.img())), ..self.scene },
                ),
            },
        }
    }

    /// The pointer hidden in favor of the crosshair, unless it is already.
    pub open spec fn crosshair(self) -> OverlayModel {
        if self.scene.fine {
            self.redrawn()
        } else {
            self.shown(false).redrawn()
        }
    }

    /// A new drag begun at `p`. The window under the pointer is kept: a
    /// release without a move still selects it.
    pub open spec fn drag_begun(self, p: (i64, i64)) -> OverlayModel {
        OverlayModel {
            scene: Scene {
                selection: None,
                hovered: None,
                pressed: None,
                drag_start: Some(p),
                dragging: true,
                ..self.scene
            },
            menu: None,
            ..self.remembered()
        }.crosshair()
    }

    /// The selection given up, if there is one.
    pub open spec fn cleared(self) -> OverlayModel {
        if self.scene.selection is None {
            self
        } else {
            OverlayModel {
                scene: Scene {
                    selection: None,
                    hovered: None,
                    pressed: None,
                    adjust: Adjust::Idle,
                    dragging: false,
                    snap_rect: None,
                    drag_start: None,
                    ..self.scene
                },
                menu: None,
                ..self.remembered()
            }.crosshair()
        }
    }

    /// A rectangle selected, as far as the picture goes, with its menu. The
    /// magnifier is put away.
    pub open spec fn chosen(self, r: Rect) -> OverlayModel {
        self.remembered().with(
            Scene {
                selection: Some(fitted(r, self.img())),
                dragging: false,
                drag_start: None,
                adjust: Adjust::Idle,
                hovered: None,
                pressed: None,
                snap_rect: None,
                ..self.scene
            },
        ).unzoomed().menu_built().shaped(CursorShape::Default).shown(true).redrawn()
    }

    /// The last used region selected, if there is one.
    pub open spec fn reused(self) -> OverlayModel {
        match self.scene.last_region {
            Some(r) => self.chosen(r),
            None => self,
        }
    }

    /// A whole monitor selected, if there is one of that number.
    pub open spec fn monitor_chosen(self, i: int) -> OverlayModel {
        if 0 <= i < self.kit.frozen.monitors@.len() {
            self.chosen(self.kit.frozen.monitors@[i])
        } else {
            self
        }
    }

    /// The whole picture selected.
    pub open spec fn all_chosen(self) -> OverlayModel {
        self.chosen(Rect { x0: 0, y0: 0, x1: self.img().0, y1: self.img().1 })
    }

    /// The pointer back under normal control. It stays hidden while nothing
    /// is selected.
    pub open spec fn fine_left(self) -> OverlayModel {
        let hidden = self.scene.selection is None && self.scene.mode == Mode::Selecting;
        OverlayModel {
            scene: Scene { fine: false, ..self.scene },
            chores: Chores { warp: Warp::Back, ..self.chores },
            ..self
        }.shown(!hidden)
    }

    /// The magnifier put away.
    pub open spec fn unzoomed(self) -> OverlayModel {
        let m = self.with(Scene { zoomed: false, ..self.scene });
        if m.scene.fine {
            m.fine_left()
        } else {
            m
        }
    }

    /// An earlier or later state of the selection restored.
    pub open spec fn restored(self, sel: Option<Rect>) -> OverlayModel {
        self.with(
            Scene {
                selection: sel,
                hovered: None,
                pressed: None,
                adjust: Adjust::Idle,
                dragging: false,
                drag_start: None,
                snap_rect: None,
                ..self.scene
            },
        ).unzoomed().menu_built().shaped(CursorShape::Default).shown(sel is Some).redrawn()
    }

    /// Whether a gesture is in progress.
    pub open spec fn busy(self) -> bool {
        self.scene.dragging || self.scene.adjust != Adjust::Idle
    }

    /// One change of the selection taken back, unless a gesture is in
    /// progress.
    pub open spec fn undone(self) -> OverlayModel {
        if self.busy() {
            self
        } else {
            match self.history.undo_target() {
                Some(prev) => OverlayModel {
                    history: self.history.after_undo(self.scene.selection),
                    ..self
                }.restored(prev),
                None => self,
            }
        }
    }

    /// One change of the selection made again, unless a gesture is in
    /// progress.
    pub open spec fn redone(self) -> OverlayModel {
        if self.busy() {
            self
        } else {
            match self.history.redo_target() {
                Some(next) => OverlayModel {
                    history: self.history.after_redo(self.scene.selection),
                    ..self
                }.restored(next),
                None => self,
            }
        }
    }

    /// The session over. The pointer is shown again.
    pub open spec fn over(self) -> OverlayModel {
        OverlayModel {
            scene: Scene { finished: true, ..self.scene },
            rec: Recording { previewing: false, ..self.rec },
            ..self.shown(true)
        }
    }

    /// The session over with an action on the selection, if there is one.
    pub open spec fn captured(self, action: Action) -> OverlayModel {
        match self.scene.selection {
            Some(r) => OverlayModel {
                scene: Scene { last_region: Some(r), ..self.scene },
                outcome: Some(
                    OutcomeModel::Captured {
                        action,
                        width: (r.x1 - r.x0) as u32,
                        height: (r.y1 - r.y0) as u32,
                        rgba: cut(self.kit.frozen.bright@, self.kit.frozen.width as int, r),
                    },
                ),
                ..self
            }.over(),
            None => self.over(),
        }
    }

    /// The recording of a region prepared.
    pub open spec fn prepared(self, region: Rect) -> OverlayModel {
        OverlayModel {
            scene: Scene { mode: Mode::RecordSetup, ..self.scene },
            rec: Recording {
                region: Some(region),
                previewing: self.rec.previewing || !self.rec.gif,
                ..self.rec
            },
            chores: Chores { setup: true, ..self.chores },
            ..self
        }
    }

    /// A recording of the selection prepared, if there is one. A region
    /// below two pixels by two ends the session.
    pub open spec fn set_up(self) -> OverlayModel {
        match self.scene.selection {
            None => self,
            Some(sel) => {
                let m = self.with(Scene { last_region: Some(sel), ..self.scene });
                let region = even_part(sel);
                if region.x1 - region.x0 < 2 || region.y1 - region.y0 < 2 {
                    m.over()
                } else {
                    m.prepared(region)
                }
            },
        }
    }

    /// What an action does.
    pub open spec fn triggered(self, action: Action) -> OverlayModel {
        match action {
            Action::Record => if self.scene.allow_record {
                self.set_up()
            } else {
                self
            },
            Action::Quit => self.over(),
            Action::Undo => self.undone(),
            Action::Redo => self.redone(),
            Action::ReuseRegion => self.reused(),
            Action::ClearSelection => self.cleared(),
            Action::SaveAs => self.save_asked(),
            _ => self.captured(action),
        }
    }

    /// A file asked for, if there is a selection to save.
    pub open spec fn save_asked(self) -> OverlayModel {
        if self.scene.selection is Some {
            OverlayModel { chores: Chores { save_as: true, ..self.chores }, ..self }
        } else {
            self
        }
    }
}

/// The largest part of a rectangle, from its near corner, that has an even
/// width and height.
pub open spec fn even_part(r: Rect) -> Rect {
    Rect {
        x0: r.x0,
        y0: r.y0,
        x1: (r.x1 - (r.x1 - r.x0) % 2) as usize,
        y1: (r.y1 - (r.y1 - r.y0) % 2) as usize,
    }
}

/// The largest part of a rectangle, from its near corner, that has an even
/// width and height. Video needs both.
pub fn even_region(r: Rect) -> (e: Rect)
    requires
        r.ordered(),
    ensures
        e == even_part(r),
        e.ordered(),
        (e.x1 - e.x0) % 2 == 0,
        (e.y1 - e.y0) % 2 == 0,
{
    Rect { x0: r.x0, y0: r.y0, x1: r.x1 - r.width() % 2, y1: r.y1 - r.height() % 2 }
}

/// The settings a recording starts from.
#[derive(Clone, Copy, Debug)]
pub struct RecordPrefs {
    pub gif: bool,
    pub fps: u32,
    pub desktop_audio: bool,
    pub mic: bool,
}

/// Pushing a valid state keeps a history valid, and so does taking one off.
proof fn lemma_choices(s: Seq<Option<Rect>>, o: Option<Rect>, img: (usize, usize))
    requires
        are_choices(s, img),
        is_choice(o, img),
    ensures
        are_choices(s.push(o), img),
        are_choices(Seq::empty(), img),
        s.len() > 0 ==> are_choices(s.drop_last(), img) && is_choice(s.last(), img),
{
}

/// Tells whether a menu of these entries has coordinates that can be told.
fn scale_fits(s: MenuScale, order: &Vec<MenuButton>) -> (r: bool)
    ensures
        r == can_scale(s, order@),
{
    let limit: u128 = 0x1000_0000;
    let btn: u128 = s.action_btn as u128;
    if btn > limit || s.margin > 0x1000_0000 {
        return false;
    }
    let narrow: u128 = if btn / 6 >= 6 {
        btn / 6
    } else {
        6
    };
    let mut w: u128 = 0;
    let mut i: usize = 0;
    while i < order.len()
        invariant
            i <= order@.len(),
            limit == 0x1000_0000,
            btn == s.action_btn <= limit,
            narrow == crate::menu::divider_width(btn as int),
            narrow <= limit,
            w == width_of(order@, btn as int, i as int),
            w <= limit * i,
        decreases order.len() - i,
    {
        assert(limit * i <= 0x1000_0000 * 0xffff_ffff_ffff_ffff);
        w = w + match order[i] {
            MenuButton::Divider | MenuButton::Spacer => narrow,
            _ => btn,
        };
        i += 1;
        assert(limit * i == limit * (i - 1) + limit);
    }
    w <= limit
}

/// Tells whether an overlay can be opened on a picture, with these menu
/// entries.
pub fn is_openable(f: &Frozen, order: &Vec<MenuButton>) -> (r: bool)
    ensures
        r == can_open(*f, order@),
{
    proof {
        reveal(is_furnished);
    }
    let most: usize = 0x7fff_ffff;
    if f.width < 1 || f.width > most || f.height < 1 || f.height > most {
        return false;
    }
    proof {
        assert(0 <= f.width * f.height <= 0x7fff_ffff * 0x7fff_ffff) by (nonlinear_arith)
            requires
                0 <= f.width <= 0x7fff_ffff,
                0 <= f.height <= 0x7fff_ffff,
        ;
    }
    let area: u64 = f.width as u64 * f.height as u64;
    if f.bright.len() as u64 != area || f.dim.len() as u64 != area {
        return false;
    }
    let mut i: usize = 0;
    while i < f.monitors.len()
        invariant
            i <= f.monitors@.len(),
            most == 0x7fff_ffff,
            forall|k: int| 0 <= k < i ==> on_desktop(#[trigger] f.monitors@[k]),
        decreases f.monitors.len() - i,
    {
        let m = f.monitors[i];
        if m.x0 > m.x1 || m.y0 > m.y1 || m.x1 > most || m.y1 > most {
            assert(!can_open(*f, order@)) by {
                reveal(is_furnished);
                assert(!on_desktop(f.monitors@[i as int]));
            }
            return false;
        }
        i += 1;
    }
    let mut k: usize = 0;
    while k < f.scales.len()
        invariant
            k <= f.scales@.len(),
            forall|j: int| 0 <= j < k ==> can_scale(#[trigger] f.scales@[j], order@),
        decreases f.scales.len() - k,
    {
        if !scale_fits(f.scales[k], order) {
            assert(!can_open(*f, order@)) by {
                reveal(is_furnished);
                assert(!can_scale(f.scales@[k as int], order@));
            }
            return false;
        }
        k += 1;
    }
    scale_fits(MenuScale::plain(), order)
}

impl Overlay {
    /// A new overlay over a picture, with nothing selected.
    pub fn new(
        frozen: Frozen,
        keys: RegionKeys,
        order: Vec<MenuButton>,
        fps_presets: Vec<u32>,
        prefs: RecordPrefs,
    ) -> (ov: Self)
        requires
            can_open(frozen, order@),
        ensures
            ov@.wf(),
            ov@ == (OverlayModel {
                kit: Kit { frozen, keys, order, fps_presets },
                scene: Scene::fresh(),
                menu: None,
                history: History::empty(),
                outcome: None,
                rec: Recording::fresh(prefs),
                record_path: None,
                chores: Chores::none_left(),
            }),
    {
        proof {
            lemma_seen(None::<Menu>);
            lemma_seen(None::<Outcome>);
            lemma_seen(None::<String>);
        }
        Overlay {
            kit: Kit { frozen, keys, order, fps_presets },
            scene: Scene::new(),
            menu: None,
            history: UndoStack::new(),
            outcome: None,
            rec: Recording::new(prefs),
            record_path: None,
            chores: Chores::idle(),
        }
    }

    /// What the window has to do, taken from the list.
    pub fn take_chores(&mut self) -> (c: Chores)
        requires
            old(self)@.wf(),
        ensures
            final(self)@.wf(),
            c == old(self)@.chores,
            final(self)@ == (OverlayModel { chores: Chores::none_left(), ..old(self)@ }),
    {
        let c = self.chores;
        self.chores = Chores::idle();
        c
    }

    /// Takes what the session ended with. `None` if it was canceled.
    pub fn take_outcome(&mut self) -> (o: Option<Outcome>)
        requires
            old(self)@.wf(),
        ensures
            final(self)@.wf(),
            o == old(self).outcome,
            final(self)@ == (OverlayModel { outcome: None, ..old(self)@ }),
    {
        proof {
            lemma_seen(self.outcome);
        }
        let mut o: Option<Outcome> = None;
        std::mem::swap(&mut o, &mut self.outcome);
        o
    }

    /// Whether the selection is hidden in favor of a recording, so that a
    /// second session can be opened.
    pub fn in_record_flow(&self) -> (r: bool)
        ensures
            r == (self@.scene.mode != Mode::Selecting),
    {
        self.scene.mode != Mode::Selecting
    }

    /// Sets whether a recording may be started. A session beside a recording
    /// may not.
    pub fn set_allow_record(&mut self, allow: bool)
        requires
            old(self)@.wf(),
        ensures
            final(self)@.wf(),
            final(self)@ == old(self)@.with(
                Scene { allow_record: allow, ..old(self)@.scene },
            ),
    {
        self.scene = Scene { allow_record: allow, ..self.scene };
    }

    /// The rectangle of the drag so far. Its far edges lie behind the pixel
    /// under the pointer.
    pub fn current_rect(&self, p: (i64, i64)) -> (r: Option<Rect>)
        requires
            self@.wf(),
        ensures
            r == self@.current(p),
            is_choice(r, self@.img()),
    {
        match self.scene.drag_start {
            Some(a) => Some(dragged_rect(a, p, (self.kit.frozen.width, self.kit.frozen.height))),
            None => None,
        }
    }

    /// Whether a click would select the window under the pointer.
    pub fn snap_active(&self, still: bool) -> (r: bool)
        ensures
            r == self@.snapping(still),
    {
        self.scene.mode == Mode::Selecting && self.scene.selection.is_none() && self.scene.snap_rect.is_some() && (
        !self.scene.dragging || still)
    }

    /// The rectangle a release would select.
    pub fn candidate_rect(&self, s: &Spot) -> (r: Option<Rect>)
        requires
            self@.wf(),
        ensures
            r == self@.candidate(*s),
            is_choice(r, self@.img()),
    {
        if self.snap_active(s.still) {
            self.scene.snap_rect
        } else {
            self.current_rect(s.pixel)
        }
    }

    pub(crate) fn request_redraw(&mut self)
        requires
            old(self)@.wf(),
        ensures
            final(self)@.wf(),
            final(self)@ == old(self)@.redrawn(),
    {
        self.chores = Chores { redraw: true, ..self.chores };
    }

    pub(crate) fn set_visible(&mut self, visible: bool)
        requires
            old(self)@.wf(),
        ensures
            final(self)@.wf(),
            final(self)@ == old(self)@.shown(visible),
    {
        self.chores = Chores { visible: Some(visible), ..self.chores };
    }

    pub(crate) fn set_cursor(&mut self, c: CursorShape)
        requires
            old(self)@.wf(),
        ensures
            final(self)@.wf(),
            final(self)@ == old(self)@.shaped(c),
    {
        self.chores = Chores { cursor: Some(c), ..self.chores };
    }

    /// Lays the menu out anew beside the selection, within the monitor that
    /// shows it and at that monitor's scale.
    pub fn build_menu(&mut self)
        requires
            old(self)@.wf(),
        ensures
            final(self)@.wf(),
            final(self)@ == old(self)@.menu_built(),
    {
        let sel = match self.scene.selection {
            Some(sel) => sel,
            None => {
                proof {
                    lemma_seen(self.menu);
                }
                self.menu = None;
                return;
            },
        };
        let canvas = Rect { x0: 0, y0: 0, x1: self.scene.surface_size.0, y1: self.scene.surface_size.1 };
        proof {
            reveal(is_furnished);
            lemma_monitor_range(self.kit.frozen.monitors@, sel);
        }
        let bounds = containing_monitor(self.kit.frozen.monitors.as_slice(), sel, canvas);
        let scale = match containing_monitor_index(self.kit.frozen.monitors.as_slice(), sel) {
            Some(i) => if i < self.kit.frozen.scales.len() {
                self.kit.frozen.scales[i]
            } else {
                MenuScale::plain()
            },
            None => MenuScale::plain(),
        };
        let avail = MenuAvailability {
            uploaders: self.scene.uploaders,
            external_editor: self.scene.external_editor,
            undo: self.history.can_undo(),
            redo: self.history.can_redo(),
            reuse_region: self.scene.last_region.is_some(),
        };
        assert(can_scale(scale, self.kit.order@));
        assert(bounds.x0 <= i32::MAX && bounds.y0 <= i32::MAX && bounds.x1 <= i32::MAX);
        let menu = Menu::layout(
            sel,
            bounds,
            &self.kit.keys,
            self.kit.order.as_slice(),
            &avail,
            None,
            scale,
        );
        self.menu = Some(menu);
        proof {
            lemma_seen(self.menu);
        }
    }

    /// The selection's handle under the pointer.
    pub fn handle_at(&self, s: &Spot) -> (h: Option<Handle>)
        requires
            self@.wf(),
        ensures
            h == self@.handle(*s),
    {
        match self.scene.selection {
            Some(r) => hit_handle(r, s.reach),
            None => None,
        }
    }

    /// Whether the pointer is over the selection.
    pub fn cursor_in_selection(&self, s: &Spot) -> (r: bool)
        requires
            self@.wf(),
        ensures
            r == self@.over_selection(*s),
    {
        match self.scene.selection {
            Some(r) => s.cell.0 >= 0 && s.cell.1 >= 0 && s.cell.0 <= 0x7fff_ffff && s.cell.1
                <= 0x7fff_ffff && r.contains(s.cell.0 as usize, s.cell.1 as usize),
            None => false,
        }
    }

    /// Applies the adjustment in progress to the selection.
    pub fn apply_adjust(&mut self, s: &Spot)
        requires
            old(self)@.wf(),
        ensures
            final(self)@.wf(),
            final(self)@ == old(self)@.adjusted(*s),
    {
        let img: (usize, usize) = (self.kit.frozen.width, self.kit.frozen.height);
        if let Some(sel) = self.scene.selection {
            match self.scene.adjust {
                Adjust::Idle => {},
                Adjust::Resizing(h) => {
                    let r = resize_rect(sel, h, s.pixel, img);
                    self.scene = Scene { selection: Some(r), ..self.scene };
                },
                Adjust::Moving { orig } => {
                    let r = move_rect(orig, s.moved, img);
                    self.scene = Scene { selection: Some(r), ..self.scene };
                },
            }
        }
    }

    /// The pointer's shape beside a committed selection: that of a handle,
    /// of a move, or the normal one. A hidden pointer keeps its shape.
    pub fn update_adjust_cursor(&mut self, s: &Spot)
        requires
            old(self)@.wf(),
        ensures
            final(self)@.wf(),
            final(self)@ == old(self)@.shape_updated(*s),
    {
        if self.scene.fine {
            return;
        }
        let handle = match self.scene.selection {
            Some(r) => hit_handle(r, s.plain_reach),
            None => None,
        };
        let shape = match handle {
            Some(h) => handle_cursor(h),
            None => if self.cursor_in_selection(s) {
                CursorShape::Move
            } else {
                CursorShape::Default
            },
        };
        self.set_cursor(shape);
    }

    /// Remembers the selection before a change. What was undone is gone.
    pub fn push_undo(&mut self)
        requires
            old(self)@.wf(),
        ensures
            final(self)@.wf(),
            final(self)@ == old(self)@.remembered(),
    {
        proof {
            lemma_choices(self@.history.past, self@.scene.selection, self@.img());
        }
        self.history.push(self.scene.selection);
    }

    fn show_crosshair(&mut self)
        requires
            old(self)@.wf(),
        ensures
            final(self)@.wf(),
            final(self)@ == old(self)@.crosshair(),
    {
        if !self.scene.fine {
            self.set_visible(false);
        }
        self.request_redraw();
    }

    /// Starts a new drag at `p`.
    pub fn begin_drag(&mut self, p: (i64, i64))
        requires
            old(self)@.wf(),
        ensures
            final(self)@.wf(),
            final(self)@ == old(self)@.drag_begun(p),
    {
        self.push_undo();
        proof {
            lemma_seen(self.menu);
        }
        self.menu = None;
        self.scene = Scene {
            selection: None,
            hovered: None,
            pressed: None,
            drag_start: Some(p),
            dragging: true,
            ..self.scene
        };
        self.show_crosshair();
    }

    /// Gives the selection up, so that it can be drawn again. With nothing
    /// selected, nothing happens.
    pub fn clear_selection(&mut self)
        requires
            old(self)@.wf(),
        ensures
            final(self)@.wf(),
            final(self)@ == old(self)@.cleared(),
            old(self)@.scene.selection is None ==> final(self)@ == old(self)@,
    {
        if self.scene.selection.is_none() {
            return;
        }
        self.push_undo();
        proof {
            lemma_seen(self.menu);
        }
        self.menu = None;
        self.scene = Scene {
            selection: None,
            hovered: None,
            pressed: None,
            adjust: Adjust::Idle,
            dragging: false,
            snap_rect: None,
            drag_start: None,
            ..self.scene
        };
        self.show_crosshair();
    }

    /// Selects a rectangle, as far as the picture goes, whatever was
    /// selected or in progress, and shows its menu. The magnifier is put away
    /// and the pointer given back.
    pub fn select_rect(&mut self, rect: Rect)
        requires
            old(self)@.wf(),
        ensures
            final(self)@.wf(),
            final(self)@ == old(self)@.chosen(rect),
            !final(self)@.scene.zoomed && !final(self)@.scene.fine,
    {
        self.push_undo();
        let sel = clamp_rect_to_image(rect, (self.kit.frozen.width, self.kit.frozen.height));
        self.scene = Scene {
            selection: Some(sel),
            dragging: false,
            drag_start: None,
            adjust: Adjust::Idle,
            hovered: None,
            pressed: None,
            snap_rect: None,
            ..self.scene
        };
        self.reset_zoom();
        self.build_menu();
        self.set_cursor(CursorShape::Default);
        self.set_visible(true);
        self.request_redraw();
    }

    /// Selects the last used region, if there is one. The desktop may have
    /// changed since: it is cut to the picture.
    pub fn use_previous_region(&mut self)
        requires
            old(self)@.wf(),
        ensures
            final(self)@.wf(),
            final(self)@ == old(self)@.reused(),
    {
        if let Some(r) = self.scene.last_region {
            self.select_rect(r);
        }
    }

    /// Selects a whole monitor, if there is one of that number.
    pub fn select_monitor(&mut self, idx: usize)
        requires
            old(self)@.wf(),
        ensures
            final(self)@.wf(),
            final(self)@ == old(self)@.monitor_chosen(idx as int),
    {
        if idx < self.kit.frozen.monitors.len() {
            let r = self.kit.frozen.monitors[idx];
            self.select_rect(r);
        }
    }

    /// Selects the whole picture.
    pub fn select_all_monitors(&mut self)
        requires
            old(self)@.wf(),
        ensures
            final(self)@.wf(),
            final(self)@ == old(self)@.all_chosen(),
    {
        self.select_rect(Rect { x0: 0, y0: 0, x1: self.kit.frozen.width, y1: self.kit.frozen.height });
    }

    /// Gives the pointer back: it moves to the position it stands for, and
    /// stays hidden while nothing is selected.
    pub fn exit_fine(&mut self)
        requires
            old(self)@.wf(),
        ensures
            final(self)@.wf(),
            final(self)@ == old(self)@.fine_left(),
    {
        self.scene = Scene { fine: false, ..self.scene };
        self.chores = Chores { warp: Warp::Back, ..self.chores };
        let hidden = self.scene.selection.is_none() && self.scene.mode == Mode::Selecting;
        self.set_visible(!hidden);
    }

    pub(crate) fn reset_zoom(&mut self)
        requires
            old(self)@.wf(),
        ensures
            final(self)@.wf(),
            final(self)@ == old(self)@.unzoomed(),
    {
        if self.scene.fine {
            self.exit_fine();
        }
        self.scene = Scene { zoomed: false, ..self.scene };
    }

    fn restore_selection(&mut self, sel: Option<Rect>)
        requires
            old(self)@.wf(),
            is_choice(sel, old(self)@.img()),
        ensures
            final(self)@.wf(),
            final(self)@ == old(self)@.restored(sel),
    {
        proof {
            lemma_seen(self.menu);
        }
        self.menu = None;
        self.scene = Scene {
            selection: sel,
            hovered: None,
            pressed: None,
            adjust: Adjust::Idle,
            dragging: false,
            drag_start: None,
            snap_rect: None,
            ..self.scene
        };
        self.reset_zoom();
        self.build_menu();
        self.set_cursor(CursorShape::Default);
        self.set_visible(sel.is_some());
        self.request_redraw();
    }

    /// Whether a gesture is in progress.
    pub fn is_busy(&self) -> (r: bool)
        ensures
            r == self@.busy(),
    {
        self.scene.dragging || self.scene.adjust != Adjust::Idle
    }

    /// Takes one change of the selection back. Nothing happens during a
    /// gesture, where it would not be clear which change is meant.
    pub fn undo(&mut self)
        requires
            old(self)@.wf(),
        ensures
            final(self)@.wf(),
            final(self)@ == old(self)@.undone(),
    {
        if self.is_busy() {
            return;
        }
        proof {
            lemma_choices(self@.history.past, self@.scene.selection, self@.img());
            lemma_choices(self@.history.future, self@.scene.selection, self@.img());
        }
        let prev = self.history.undo(self.scene.selection);
        if let Some(sel) = prev {
            self.restore_selection(sel);
        }
    }

    /// Makes one change of the selection again.
    pub fn redo(&mut self)
        requires
            old(self)@.wf(),
        ensures
            final(self)@.wf(),
            final(self)@ == old(self)@.redone(),
    {
        if self.is_busy() {
            return;
        }
        proof {
            lemma_choices(self@.history.past, self@.scene.selection, self@.img());
            lemma_choices(self@.history.future, self@.scene.selection, self@.img());
        }
        let next = self.history.redo(self.scene.selection);
        if let Some(sel) = next {
            self.restore_selection(sel);
        }
    }

    /// Ends the session. The pointer is shown again: hidden, it would stay so
    /// over every other window too.
    pub fn finish(&mut self)
        requires
            old(self)@.wf(),
        ensures
            final(self)@.wf(),
            final(self)@ == old(self)@.over(),
    {
        self.set_visible(true);
        self.rec = Recording { previewing: false, ..self.rec };
        self.scene = Scene { finished: true, ..self.scene };
    }

    /// Prepares a recording of the selection.
    pub fn enter_record_setup(&mut self)
        requires
            old(self)@.wf(),
        ensures
            final(self)@.wf(),
            final(self)@ == old(self)@.set_up(),
    {
        let sel = match self.scene.selection {
            Some(sel) => sel,
            None => {
                return;
            },
        };
        self.scene = Scene { last_region: Some(sel), ..self.scene };
        let region = even_region(sel);
        if region.width() < 2 || region.height() < 2 {
            self.finish();
            return;
        }
        self.prepare(region);
    }

    fn prepare(&mut self, region: Rect)
        requires
            old(self)@.wf(),
            is_region(region, old(self)@.img()),
        ensures
            final(self)@.wf(),
            final(self)@ == old(self)@.prepared(region),
    {
        self.rec = Recording {
            region: Some(region),
            previewing: self.rec.previewing || !self.rec.gif,
            ..self.rec
        };
        self.scene = Scene { mode: Mode::RecordSetup, ..self.scene };
        self.chores = Chores { setup: true, ..self.chores };
    }

    pub(crate) fn ask_save(&mut self)
        requires
            old(self)@.wf(),
        ensures
            final(self)@.wf(),
            final(self)@ == old(self)@.save_asked(),
    {
        if self.scene.selection.is_some() {
            self.chores = Chores { save_as: true, ..self.chores };
        }
    }

    /// The selected part of the picture.
    pub fn selected_shot(&self) -> (shot: Option<Shot>)
        requires
            self@.wf(),
        ensures
            match self@.scene.selection {
                Some(r) => shot matches Some(s) && s.width == r.x1 - r.x0 && s.height == r.y1 - r.y0
                    && s.rgba@ == cut(
                    self@.kit.frozen.bright@,
                    self@.kit.frozen.width as int,
                    r,
                ),
                None => shot is None,
            },
    {
        match self.scene.selection {
            Some(r) => {
                proof {
                    reveal(is_furnished);
                }
                Some(cut_out(&self.kit.frozen, r))
            },
            None => None,
        }
    }

    fn capture_selection(&mut self, action: Action)
        requires
            old(self)@.wf(),
        ensures
            final(self)@.wf(),
            final(self)@ == old(self)@.captured(action),
    {
        if let Some(r) = self.scene.selection {
            self.scene = Scene { last_region: Some(r), ..self.scene };
            proof {
                reveal(is_furnished);
            }
            let shot = cut_out(&self.kit.frozen, r);
            self.outcome = Some(Outcome::Captured { action, shot });
            proof {
                lemma_seen(self.outcome);
            }
        }
        self.finish();
    }

    /// Does what an action says. Saving, copying, editing and uploading end
    /// the session with the selected part of the picture. A recording goes
    /// on to its setup, unless one is not allowed.
    pub fn trigger(&mut self, action: Action)
        requires
            old(self)@.wf(),
        ensures
            final(self)@.wf(),
            final(self)@ == old(self)@.triggered(action),
    {
        match action {
            Action::Record => {
                if self.scene.allow_record {
                    self.enter_record_setup();
                }
            },
            Action::Quit => self.finish(),
            Action::Undo => self.undo(),
            Action::Redo => self.redo(),
            Action::ReuseRegion => self.use_previous_region(),
            Action::ClearSelection => self.clear_selection(),
            Action::SaveAs => self.ask_save(),
            Action::Save | Action::Copy | Action::Edit | Action::EditExternal | Action::Upload => {
                self.capture_selection(action);
            },
        }
    }
}

} // verus!
