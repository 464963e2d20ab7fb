//! What selecting, capturing and recording do, from the pointer and the
//! keyboard to what the session ends with.

use vstd::prelude::*;

use crate::annotation::Handle;
use crate::backdrop::plain_pixel;
use crate::canvas::{handle_shape, CursorShape};
use crate::fields::{decimal_text, digits_of};
use crate::files::picture_name;
use crate::grid::at;
use crate::keys::{key_from, spelled, EditorAction, EditorKeys, LocalKey, RegionKeys};
use crate::menu::{
    aspect_text, buttons_of, disabled, keys_of, Action, MenuAvailability, MenuButton, MenuModel,
    MenuScale,
};
use crate::overlay::{
    Adjust, CtrlBtn, Mode, OutcomeModel, OverlayModel, RecordPrefs, Recording, Scene, Spot,
};
use crate::recording::{
    bar_at, bar_of, bar_rect, control_origin, elapsed_of, place_in, two_digits, ControlEvent,
    ControlJob,
};
use crate::rect::Rect;
use crate::region::{handle_within, is_region, resized, shifted, Reach};
use crate::resident::{follows, FollowUp};
use crate::selecting::{OverlayEvent, ZoomStep};

verus! {

// ---- Recording ----

/// A recording that begins has what the control bar shows: the format, the
/// frame rate and, unless it is a GIF, each sound that is switched on. It
/// records the region where that lies on the desktop.
pub proof fn law_plan_is_what_the_bar_shows(m: OverlayModel, r: Rect)
    requires
        r.x1 <= i32::MAX,
        r.y1 <= i32::MAX,
        r.ordered(),
    ensures
        ({
            let plan = m.plan(r);
            &&& plan.fps == m.rec.fps
            &&& plan.gif == m.rec.gif
            &&& plan.desktop_audio <==> (m.rec.desktop_audio && !m.rec.gif)
            &&& plan.mic <==> (m.rec.mic && !m.rec.gif)
            &&& plan.x0 - m.kit.frozen.origin.0 == r.x0
            &&& plan.y0 - m.kit.frozen.origin.1 == r.y0
            &&& plan.x1 - plan.x0 == r.x1 - r.x0
            &&& plan.y1 - plan.y0 == r.y1 - r.y0
        }),
{
}

proof fn lemma_first_place(list: Seq<u32>, n: u32, i: int, k: int)
    requires
        0 <= i <= k < list.len(),
        list[k] == n,
        forall|j: int| i <= j < k ==> #[trigger] list[j] != n,
    ensures
        place_in(list, n, i) == Some(k),
    decreases k - i,
{
    if i < k {
        assert(list[i] != n);
        lemma_first_place(list, n, i + 1, k);
    }
}

proof fn lemma_no_place(list: Seq<u32>, n: u32, i: int)
    requires
        0 <= i <= list.len(),
        forall|j: int| i <= j < list.len() ==> #[trigger] list[j] != n,
    ensures
        place_in(list, n, i) is None,
    decreases list.len() - i,
{
    if i < list.len() {
        assert(list[i] != n);
        lemma_no_place(list, n, i + 1);
    }
}

/// The frame rate's button goes to the preset behind the current one, from the
/// last to the first, and to the first if the current one is no preset. A
/// recording that begins afterwards has that frame rate.
pub proof fn law_frame_rate_button(m: OverlayModel, k: int, r: Rect)
    requires
        m.rec.hover == Some(CtrlBtn::Fps),
    ensures
        ({
            let presets = m.kit.fps_presets@;
            let (after, job) = m.control_event(ControlEvent::Release);
            &&& 0 <= k < presets.len() && presets[k] == m.rec.fps && (forall|j: int|
                0 <= j < k ==> #[trigger] presets[j] != m.rec.fps) ==> after.rec.fps == presets[if k
                + 1 < presets.len() {
                k + 1
            } else {
                0
            }]
            &&& presets.len() > 0 && (forall|j: int|
                0 <= j < presets.len() ==> #[trigger] presets[j] != m.rec.fps) ==> after.rec.fps
                == presets[0]
            &&& after.plan(r).fps == after.rec.fps
            &&& after.rec.gif == m.rec.gif
            &&& after.rec.mic == m.rec.mic
            &&& after.rec.desktop_audio == m.rec.desktop_audio
            &&& after.chores.save_prefs
            &&& job == ControlJob::Nothing
        }),
{
    let presets = m.kit.fps_presets@;
    if 0 <= k < presets.len() && presets[k] == m.rec.fps && (forall|j: int|
        0 <= j < k ==> #[trigger] presets[j] != m.rec.fps) {
        lemma_first_place(presets, m.rec.fps, 0, k);
        if k + 1 < presets.len() {
            vstd::arithmetic::div_mod::lemma_small_mod((k + 1) as nat, presets.len());
        } else {
            vstd::arithmetic::div_mod::lemma_mod_self_0(presets.len() as int);
        }
    }
    if presets.len() > 0 && (forall|j: int|
        0 <= j < presets.len() ==> #[trigger] presets[j] != m.rec.fps) {
        lemma_no_place(presets, m.rec.fps, 0);
    }
}

/// The other buttons of the control bar: the format's switches between MP4 and
/// GIF; the sounds' switch theirs on or off and say so, but for a GIF, which
/// has none; each leaves the other settings.
pub proof fn law_control_buttons_switch(m: OverlayModel)
    ensures
        m.rec.hover == Some(CtrlBtn::Format) ==> ({
            let (after, job) = m.control_event(ControlEvent::Release);
            after.rec.gif == !m.rec.gif && after.rec.fps == m.rec.fps && after.rec.mic == m.rec.mic
                && after.rec.desktop_audio == m.rec.desktop_audio && job == ControlJob::Relisten
                && after.chores.save_prefs && after.rec.region == m.rec.region
        }),
        m.rec.hover == Some(CtrlBtn::Desktop) && !m.rec.gif ==> ({
            let (after, job) = m.control_event(ControlEvent::Release);
            after.rec.desktop_audio == !m.rec.desktop_audio && after.rec.mic == m.rec.mic
                && after.rec.gif == m.rec.gif && after.rec.fps == m.rec.fps && job
                == ControlJob::Desktop(!m.rec.desktop_audio) && after.chores.save_prefs
        }),
        m.rec.hover == Some(CtrlBtn::Mic) && !m.rec.gif ==> ({
            let (after, job) = m.control_event(ControlEvent::Release);
            after.rec.mic == !m.rec.mic && after.rec.desktop_audio == m.rec.desktop_audio
                && after.rec.gif == m.rec.gif && after.rec.fps == m.rec.fps && job
                == ControlJob::Mic(!m.rec.mic) && after.chores.save_prefs
        }),
        (m.rec.hover == Some(CtrlBtn::Desktop) || m.rec.hover == Some(CtrlBtn::Mic)) && m.rec.gif
            ==> m.control_event(ControlEvent::Release) == (m, ControlJob::Nothing),
        m.rec.hover == Some(CtrlBtn::Primary) && m.scene.mode != Mode::Recording
            ==> m.control_event(ControlEvent::Release) == (m, ControlJob::Begin),
        m.rec.hover is None ==> m.control_event(ControlEvent::Release) == (m, ControlJob::Nothing),
{
}

/// Stop and Quit end a running recording with the file that is being written;
/// Quit ends one that is being prepared with nothing new.
pub proof fn law_stop_keeps_the_file(m: OverlayModel, path: Seq<char>)
    requires
        m.rec.hover == Some(CtrlBtn::Primary) || m.rec.hover == Some(CtrlBtn::Quit),
    ensures
        m.scene.mode == Mode::Recording && m.record_path == Some(path) ==> ({
            let after = m.control_event(ControlEvent::Release).0;
            after.scene.finished && after.outcome == Some(OutcomeModel::Recorded(path))
        }),
        m.scene.mode == Mode::RecordSetup && m.rec.hover == Some(CtrlBtn::Quit) ==> ({
            let after = m.control_event(ControlEvent::Release).0;
            after.scene.finished && after.outcome == m.outcome
        }),
{
}

/// A recording that has begun runs, into the given file.
pub proof fn law_started_recording_runs(m: OverlayModel, path: Seq<char>)
    ensures
        m.started(path).scene.mode == Mode::Recording,
        m.started(path).record_path == Some(path),
        m.started(path).rec == m.rec,
{
}

proof fn lemma_bar_at(mode: Mode, h: int, x: int, y: int, i: int, k: int)
    requires
        0 <= i <= k < bar_of(mode).len() <= 6,
        0 <= h <= 0x1000_0000,
        12 + 56 * k <= x < 12 + 56 * k + 56,
        bar_rect(h, 0).y0 <= y < bar_rect(h, 0).y0 + 56,
    ensures
        bar_at(mode, h, x, y, i) == Some(bar_of(mode)[k]),
    decreases k - i,
{
    if i < k {
        assert(!bar_rect(h, i).holds(x, y));
        lemma_bar_at(mode, h, x, y, i + 1, k);
    } else {
        assert(bar_rect(h, k).holds(x, y));
    }
}

/// The control bar's buttons stand side by side from the left, each 56 px
/// wide and 56 px high, in the middle of the bar's height. Before a recording
/// they are Start, the format, the frame rate, the two sounds and Quit; during
/// one, Stop, the two sounds and Quit. The pointer meets the one it is over.
pub proof fn law_control_bar_buttons(h: int, x: int, y: int, k: int)
    requires
        56 <= h <= 0x1000_0000,
        0 <= k,
        12 + 56 * k <= x < 12 + 56 * k + 56,
        (h - 56) / 2 <= y < (h - 56) / 2 + 56,
    ensures
        k < 6 ==> bar_at(Mode::RecordSetup, h, x, y, 0) == Some(
            seq![
                CtrlBtn::Primary,
                CtrlBtn::Format,
                CtrlBtn::Fps,
                CtrlBtn::Desktop,
                CtrlBtn::Mic,
                CtrlBtn::Quit,
            ][k],
        ),
        k < 4 ==> bar_at(Mode::Recording, h, x, y, 0) == Some(
            seq![CtrlBtn::Primary, CtrlBtn::Desktop, CtrlBtn::Mic, CtrlBtn::Quit][k],
        ),
{
    if k < 6 {
        lemma_bar_at(Mode::RecordSetup, h, x, y, 0, k);
    }
    if k < 4 {
        lemma_bar_at(Mode::Recording, h, x, y, 0, k);
    }
}

/// The control bar lies below the region if there is room, else above it if
/// there is room, and starts at the region's left where it fits.
pub proof fn law_control_bar_spares_the_region(r: Rect, bounds: Rect)
    requires
        r.ordered(),
        bounds.x0 + 420 <= bounds.x1,
        bounds.y0 + 80 <= bounds.y1,
        bounds.covers(r),
    ensures
        ({
            let (x, y) = control_origin(r, bounds);
            &&& bounds.x0 <= x && x + 420 <= bounds.x1
            &&& bounds.y0 <= y && y + 80 <= bounds.y1
            &&& r.x0 + 420 <= bounds.x1 ==> x == r.x0
            &&& r.y1 + 92 <= bounds.y1 ==> y == r.y1 + 12
            &&& r.y1 + 92 > bounds.y1 && r.y0 >= bounds.y0 + 92 ==> y + 92 == r.y0
        }),
{
}

/// The time shown is minutes, a colon and seconds, two digits each.
pub proof fn law_elapsed_time_reads(minutes: int, seconds: int)
    requires
        0 <= minutes < 100,
        0 <= seconds < 60,
    ensures
        elapsed_of(60 * minutes + seconds) == seq![
            ('0' as int + minutes / 10) as char,
            ('0' as int + minutes % 10) as char,
            ':',
            ('0' as int + seconds / 10) as char,
            ('0' as int + seconds % 10) as char,
        ],
{
    let t = 60 * minutes + seconds;
    assert(t / 60 == minutes && t % 60 == seconds);
    lemma_two_digits(minutes);
    lemma_two_digits(seconds);
    assert(elapsed_of(t) =~= seq![
        ('0' as int + minutes / 10) as char,
        ('0' as int + minutes % 10) as char,
        ':',
        ('0' as int + seconds / 10) as char,
        ('0' as int + seconds % 10) as char,
    ]);
}

proof fn lemma_two_digits(n: int)
    requires
        0 <= n < 100,
    ensures
        two_digits(n) == seq![
            ('0' as int + n / 10) as char,
            ('0' as int + n % 10) as char,
        ],
{
    if n < 10 {
        assert(digits_of(n) == seq![(n + '0' as int) as char]);
        assert(two_digits(n) =~= seq![
            ('0' as int + n / 10) as char,
            ('0' as int + n % 10) as char,
        ]);
    } else {
        assert(digits_of(n / 10) == seq![(n / 10 + '0' as int) as char]);
        assert(digits_of(n) == digits_of(n / 10).push((n % 10 + '0' as int) as char));
        assert(two_digits(n) =~= seq![
            ('0' as int + n / 10) as char,
            ('0' as int + n % 10) as char,
        ]);
    }
}

// ---- Selecting ----

/// A drag of the left button from one pixel of the picture to another selects
/// the box that has both in its corners.
pub proof fn law_drag_selects_the_box(m: OverlayModel, s: Spot, t: Spot)
    requires
        m.wf(),
        m.scene.mode == Mode::Selecting,
        m.scene.selection is None,
        m.menu is None,
        m.scene.adjust == Adjust::Idle,
        !t.still,
        0 <= s.pixel.0 < m.kit.frozen.width,
        0 <= s.pixel.1 < m.kit.frozen.height,
        0 <= t.pixel.0 < m.kit.frozen.width,
        0 <= t.pixel.1 < m.kit.frozen.height,
    ensures
        ({
            let after = m.button_pressed(s).button_released(t);
            let left = if s.pixel.0 <= t.pixel.0 {
                s.pixel.0
            } else {
                t.pixel.0
            };
            let right = if s.pixel.0 <= t.pixel.0 {
                t.pixel.0
            } else {
                s.pixel.0
            };
            let top = if s.pixel.1 <= t.pixel.1 {
                s.pixel.1
            } else {
                t.pixel.1
            };
            let bottom = if s.pixel.1 <= t.pixel.1 {
                t.pixel.1
            } else {
                s.pixel.1
            };
            after.scene.selection matches Some(r) && r.x0 == left && r.y0 == top && r.x1 == right
                + 1 && r.y1 == bottom + 1
        }),
{
}

/// Key 0 selects the whole picture, and key 1 to 9 the monitor of that number,
/// unless Ctrl or Alt is held or the key is bound to something else.
pub proof fn law_digits_select_monitors(m: OverlayModel, d: int)
    requires
        m.wf(),
        !m.scene.ctrl,
        !m.scene.alt,
        0 <= d <= 9,
        ({
            let k = m.held(('0' as int + d) as char);
            !m.kit.keys.undo@.contains(k) && !m.kit.keys.redo@.contains(k)
                && !m.kit.keys.reuse_region@.contains(k)
        }),
    ensures
        d == 0 ==> (m.char_typed('0').scene.selection matches Some(r) && r.x0 == 0 && r.y0 == 0
            && r.x1 == m.kit.frozen.width && r.y1 == m.kit.frozen.height),
        1 <= d <= m.kit.frozen.monitors@.len() && is_region(
            m.kit.frozen.monitors@[d - 1],
            (m.kit.frozen.width, m.kit.frozen.height),
        ) ==> m.char_typed(('0' as int + d) as char).scene.selection == Some(
            m.kit.frozen.monitors@[d - 1],
        ),
        d > m.kit.frozen.monitors@.len() ==> m.char_typed(('0' as int + d) as char) == m,
{
    let ch = ('0' as int + d) as char;
    assert(ch as int == '0' as int + d);
    assert(('0' as int + 0) as char == '0');
}

/// A dragged edge of the selection goes to the pointer, as far as the picture
/// goes and no further than a pixel from the opposite edge; the edges that do
/// not belong to the handle stay.
pub proof fn law_edges_follow_the_pointer(r: Rect, h: Handle, p: (i64, i64), img: (usize, usize))
    requires
        is_region(r, img),
        0 <= p.0 < img.0,
        0 <= p.1 < img.1,
    ensures
        ({
            let q = resized(r, h, p, img);
            let left = h == Handle::TopLeft || h == Handle::Left || h == Handle::BottomLeft;
            let right = h == Handle::TopRight || h == Handle::Right || h == Handle::BottomRight;
            let top = h == Handle::TopLeft || h == Handle::Top || h == Handle::TopRight;
            let bottom = h == Handle::BottomLeft || h == Handle::Bottom || h == Handle::BottomRight;
            &&& left && p.0 < r.x1 ==> q.x0 == p.0
            &&& left && p.0 >= r.x1 ==> q.x0 == r.x1 - 1
            &&& !left ==> q.x0 == r.x0
            &&& right && p.0 >= r.x0 ==> q.x1 == p.0 + 1
            &&& right && p.0 < r.x0 ==> q.x1 == r.x0 + 1
            &&& !right ==> q.x1 == r.x1
            &&& top && p.1 < r.y1 ==> q.y0 == p.1
            &&& top && p.1 >= r.y1 ==> q.y0 == r.y1 - 1
            &&& !top ==> q.y0 == r.y0
            &&& bottom && p.1 >= r.y0 ==> q.y1 == p.1 + 1
            &&& bottom && p.1 < r.y0 ==> q.y1 == r.y0 + 1
            &&& !bottom ==> q.y1 == r.y1
        }),
{
}

/// A dragged selection keeps its size and moves by the way of the pointer, as
/// far as the picture goes.
pub proof fn law_selection_follows_the_pointer(r: Rect, d: (i64, i64), img: (usize, usize))
    requires
        is_region(r, img),
    ensures
        ({
            let q = shifted(r, d, img);
            &&& q.x1 - q.x0 == r.x1 - r.x0
            &&& q.y1 - q.y0 == r.y1 - r.y0
            &&& 0 <= r.x0 + d.0 && r.x1 + d.0 <= img.0 ==> q.x0 == r.x0 + d.0
            &&& 0 <= r.y0 + d.1 && r.y1 + d.1 <= img.1 ==> q.y0 == r.y0 + d.1
            &&& r.x0 + d.0 < 0 ==> q.x0 == 0
            &&& r.y0 + d.1 < 0 ==> q.y0 == 0
            &&& r.x1 + d.0 > img.0 ==> q.x1 == img.0
            &&& r.y1 + d.1 > img.1 ==> q.y1 == img.1
        }),
{
}

/// What a press on the selection grabs: a corner or an edge that is within
/// reach, nothing where none is, and a corner rather than an edge.
pub proof fn law_press_grabs_the_edge(r: Rect, p: Reach)
    requires
        r.nonempty(),
        p.x0 <= p.x1,
        p.y0 <= p.y1,
        r.x0 <= p.x1 && p.x0 <= r.x1,
        r.y0 <= p.y1 && p.y0 <= r.y1,
    ensures
        ({
            let left = p.x0 <= r.x0 <= p.x1;
            let right = p.x0 <= r.x1 <= p.x1;
            let top = p.y0 <= r.y0 <= p.y1;
            let bottom = p.y0 <= r.y1 <= p.y1;
            let h = handle_within(r, p);
            &&& left && top ==> h == Some(Handle::TopLeft)
            &&& right && top && !left ==> h == Some(Handle::TopRight)
            &&& right && bottom && !top ==> h == Some(Handle::BottomRight)
            &&& left && bottom && !top && !right ==> h == Some(Handle::BottomLeft)
            &&& top && !left && !right ==> h == Some(Handle::Top)
            &&& bottom && !top && !left && !right ==> h == Some(Handle::Bottom)
            &&& left && !top && !bottom ==> h == Some(Handle::Left)
            &&& right && !top && !bottom && !left ==> h == Some(Handle::Right)
            &&& !left && !right && !top && !bottom ==> h is None
        }),
{
}

/// The pointer over a handle shows the way that the handle goes.
pub proof fn law_handles_show_their_way()
    ensures
        handle_shape(Handle::TopLeft) == CursorShape::NwseResize,
        handle_shape(Handle::BottomRight) == CursorShape::NwseResize,
        handle_shape(Handle::TopRight) == CursorShape::NeswResize,
        handle_shape(Handle::BottomLeft) == CursorShape::NeswResize,
        handle_shape(Handle::Top) == CursorShape::NsResize,
        handle_shape(Handle::Bottom) == CursorShape::NsResize,
        handle_shape(Handle::Left) == CursorShape::EwResize,
        handle_shape(Handle::Right) == CursorShape::EwResize,
{
}

/// Over the picture and with nothing selected, dragged or magnified, the
/// window under the pointer is the one that a click would select.
pub proof fn law_hover_offers_the_window(m: OverlayModel, s: Spot, snap: Option<Rect>)
    requires
        !m.scene.fine,
        !m.scene.dragging,
        m.scene.adjust == Adjust::Idle,
        m.menu is None,
    ensures
        m.pointer_moved(s, snap).scene.snap_rect == snap,
        m.pointer_moved(s, snap).scene.selection == m.scene.selection,
{
}

/// The selection is shown bright and the rest of the picture dimmed.
pub proof fn law_selection_is_bright(
    bright: Seq<u32>,
    dim: Seq<u32>,
    r: Rect,
    rows: int,
    w: int,
    x: int,
    y: int,
)
    requires
        0 <= x < w,
        0 <= y < rows,
    ensures
        r.x0 <= x < r.x1 && r.y0 <= y < r.y1 ==> plain_pixel(
            bright,
            dim,
            Some(r),
            rows,
            w,
            x,
            y,
        ) == bright[y * w + x],
        !(r.x0 <= x < r.x1 && r.y0 <= y < r.y1) ==> plain_pixel(
            bright,
            dim,
            Some(r),
            rows,
            w,
            x,
            y,
        ) == dim[y * w + x],
        plain_pixel(bright, dim, None, rows, w, x, y) == dim[y * w + x],
{
    assert(at(w, x, y) == y * w + x);
}

// ---- What a session ends with ----

/// What the other actions do: Quit ends the session as it is; Clear gives up the
/// selection; Reuse selects the region that was last used; Save as asks for a
/// file and ends nothing; Undo brings back the selection before the last
/// change, and Redo the one that an undo took away.
pub proof fn law_other_actions(m: OverlayModel, r: Rect)
    requires
        m.wf(),
    ensures
        m.triggered(Action::Quit).scene.finished && m.triggered(Action::Quit).outcome == m.outcome,
        m.scene.selection is Some ==> m.triggered(Action::ClearSelection).scene.selection is None,
        m.scene.last_region == Some(r) && is_region(
            r,
            (m.kit.frozen.width, m.kit.frozen.height),
        ) ==> m.triggered(Action::ReuseRegion).scene.selection == Some(r),
        m.scene.last_region is None ==> m.triggered(Action::ReuseRegion) == m,
        m.scene.selection is Some ==> m.triggered(Action::SaveAs).chores.save_as
            && m.triggered(Action::SaveAs).scene == m.scene,
        m.history.past.len() > 0 && !m.scene.dragging && m.scene.adjust == Adjust::Idle
            ==> m.triggered(Action::Undo).scene.selection == m.history.past.last(),
        m.history.future.len() > 0 && !m.scene.dragging && m.scene.adjust == Adjust::Idle
            ==> m.triggered(Action::Redo).scene.selection == m.history.future.last(),
{
}

/// What follows a session: a captured picture is saved, copied, edited, handed
/// to the external editor or uploaded, as was asked, and it is that picture; a
/// file is shown; and nothing follows a canceled session.
pub proof fn law_what_follows_a_session(
    width: u32,
    height: u32,
    rgba: Seq<u8>,
    path: Seq<char>,
    f: FollowUp,
)
    ensures
        follows(
            Some(OutcomeModel::Captured { action: Action::Save, width, height, rgba }),
            f,
        ) ==> (f matches FollowUp::Save(s) && s.width == width && s.height == height && s.rgba@
            == rgba),
        follows(
            Some(OutcomeModel::Captured { action: Action::Copy, width, height, rgba }),
            f,
        ) ==> (f matches FollowUp::Copy(s) && s.width == width && s.height == height && s.rgba@
            == rgba),
        follows(
            Some(OutcomeModel::Captured { action: Action::Edit, width, height, rgba }),
            f,
        ) ==> (f matches FollowUp::Edit(s) && s.width == width && s.height == height && s.rgba@
            == rgba),
        follows(
            Some(OutcomeModel::Captured { action: Action::EditExternal, width, height, rgba }),
            f,
        ) ==> (f matches FollowUp::EditExternal(s) && s.width == width && s.height == height
            && s.rgba@ == rgba),
        follows(
            Some(OutcomeModel::Captured { action: Action::Upload, width, height, rgba }),
            f,
        ) ==> (f matches FollowUp::Upload(s) && s.width == width && s.height == height && s.rgba@
            == rgba),
        follows(Some(OutcomeModel::Recorded(path)), f) ==> (f matches FollowUp::Reveal(p) && p@
            == path),
        follows(Some(OutcomeModel::Saved(path)), f) ==> (f matches FollowUp::Reveal(p) && p@
            == path),
        follows(None, f) ==> f is Cancelled,
{
}

// ---- The menu ----

/// Each entry of the menu triggers the action it is named after.
pub proof fn law_entries_do_what_they_say()
    ensures
        MenuButton::Save.action_of() == Some(Action::Save),
        MenuButton::Copy.action_of() == Some(Action::Copy),
        MenuButton::Edit.action_of() == Some(Action::Edit),
        MenuButton::EditExternal.action_of() == Some(Action::EditExternal),
        MenuButton::Upload.action_of() == Some(Action::Upload),
        MenuButton::Video.action_of() == Some(Action::Record),
        MenuButton::Quit.action_of() == Some(Action::Quit),
        MenuButton::Undo.action_of() == Some(Action::Undo),
        MenuButton::Redo.action_of() == Some(Action::Redo),
        MenuButton::ReuseRegion.action_of() == Some(Action::ReuseRegion),
        MenuButton::ClearSelection.action_of() == Some(Action::ClearSelection),
        MenuButton::SaveAs.action_of() == Some(Action::SaveAs),
        MenuButton::Size.action_of() is None,
        MenuButton::AspectRatio.action_of() is None,
        MenuButton::Divider.action_of() is None,
        MenuButton::Spacer.action_of() is None,
{
}

/// Each action of the menu is triggered by its own keys.
pub proof fn law_actions_have_their_keys(keys: RegionKeys)
    ensures
        keys_of(Action::Save, keys) == keys.menu.save@,
        keys_of(Action::Copy, keys) == keys.menu.copy@,
        keys_of(Action::Edit, keys) == keys.menu.edit@,
        keys_of(Action::Upload, keys) == keys.menu.upload@,
        keys_of(Action::Record, keys) == keys.menu.record@,
        keys_of(Action::Quit, keys) == keys.menu.quit@,
        keys_of(Action::EditExternal, keys) == keys.edit_external@,
        keys_of(Action::Undo, keys) == keys.undo@,
        keys_of(Action::Redo, keys) == keys.redo@,
        keys_of(Action::ReuseRegion, keys) == keys.reuse_region@,
        keys_of(Action::ClearSelection, keys) == keys.clear_selection@,
        keys_of(Action::SaveAs, keys) == keys.save_as@,
{
}

/// An entry is disabled exactly where there is nothing for it to do: no place
/// to upload to, no external editor, nothing to undo or redo, no region to
/// reuse.
pub proof fn law_disabled_where_useless(action: Action, a: MenuAvailability)
    ensures
        disabled(action, a) <==> (action == Action::Upload && !a.uploaders) || (action
            == Action::EditExternal && !a.external_editor) || (action == Action::Undo && !a.undo)
            || (action == Action::Redo && !a.redo) || (action == Action::ReuseRegion
            && !a.reuse_region),
{
}

/// Each entry with an action has a button, with the entry's action, label and
/// keys, disabled where it is useless.
pub proof fn law_menu_has_its_entries(
    order: Seq<MenuButton>,
    keys: RegionKeys,
    avail: MenuAvailability,
    btn: int,
    at: (int, int),
    n: int,
    i: int,
)
    requires
        0 <= i < n <= order.len(),
        order[i].action_of() is Some,
    ensures
        exists|t: int|
            0 <= t < buttons_of(order, keys, avail, btn, at, n).len() && {
                let b = #[trigger] buttons_of(order, keys, avail, btn, at, n)[t];
                &&& b.action == order[i].action_of()->0
                &&& b.label == order[i].caption()
                &&& b.hotkeys == keys_of(b.action, keys)
                &&& b.disabled == disabled(b.action, avail)
            },
    decreases n,
{
    let all = buttons_of(order, keys, avail, btn, at, n);
    let rest = buttons_of(order, keys, avail, btn, at, n - 1);
    if i == n - 1 {
        assert(all[all.len() - 1].action == order[i].action_of()->0);
    } else {
        law_menu_has_its_entries(order, keys, avail, btn, at, n - 1, i);
        let t = choose|t: int|
            0 <= t < rest.len() && {
                let b = #[trigger] rest[t];
                &&& b.action == order[i].action_of()->0
                &&& b.label == order[i].caption()
                &&& b.hotkeys == keys_of(b.action, keys)
                &&& b.disabled == disabled(b.action, avail)
            };
        assert(all[t] == rest[t]);
    }
}

/// The menu of a selection shows its width and height.
pub proof fn law_menu_shows_the_size(
    sel: Rect,
    bounds: Rect,
    keys: RegionKeys,
    order: Seq<MenuButton>,
    avail: MenuAvailability,
    scale: MenuScale,
)
    ensures
        ({
            let m = MenuModel::laid_out(sel, bounds, keys, order, avail, None, scale);
            &&& m.size_w_label == decimal_text(sel.x1 - sel.x0)
            &&& m.size_h_label == decimal_text(sel.y1 - sel.y0)
        }),
{
    reveal(MenuModel::laid_out);
}

/// A click on a button of the menu triggers that button's action.
pub proof fn law_click_triggers_the_button(m: OverlayModel, s: Spot, i: usize)
    requires
        m.menu is Some,
        m.menu_hit(s) == Some(i),
        !m.menu->0.buttons[i as int].disabled,
        m.scene.adjust == Adjust::Idle,
    ensures
        ({
            let pressed = m.button_pressed(s);
            pressed.button_released(s) == pressed.triggered(m.menu->0.buttons[i as int].action)
                && pressed.scene.selection == m.scene.selection && pressed.outcome == m.outcome
        }),
{
}

/// A key that is bound to undoing, redoing, reusing the last region or
/// quitting does so.
pub proof fn law_keys_do_what_they_are_bound_to(m: OverlayModel, ch: char)
    requires
        !('0' <= ch && ch <= '9'),
    ensures
        ({
            let k = LocalKey {
                ctrl: m.scene.ctrl,
                shift: m.scene.shift,
                alt: m.scene.alt,
                ch: if 'A' <= ch && ch <= 'Z' {
                    (ch as int + 32) as char
                } else {
                    ch
                },
            };
            let keys = m.kit.keys;
            let undo = keys.undo@.contains(k);
            let redo = keys.redo@.contains(k);
            let reuse = keys.reuse_region@.contains(k);
            let quit = keys.menu.quit@.contains(k);
            let other = keys.clear_selection@.contains(k) || keys.save_as@.contains(k)
                || keys.edit_external@.contains(k);
            &&& undo ==> m.char_typed(ch) == m.triggered(Action::Undo)
            &&& redo && !undo ==> m.char_typed(ch) == m.triggered(Action::Redo)
            &&& reuse && !undo && !redo ==> m.char_typed(ch) == m.triggered(Action::ReuseRegion)
            &&& quit && !undo && !redo && !reuse && !other ==> m.char_typed(ch) == m.triggered(
                Action::Quit,
            )
            &&& keys.clear_selection@.contains(k) && m.scene.selection is Some && !undo && !redo
                && !reuse ==> m.char_typed(ch) == m.triggered(Action::ClearSelection)
            &&& keys.save_as@.contains(k) && !keys.clear_selection@.contains(k)
                && m.scene.selection is Some && !undo && !redo && !reuse ==> m.char_typed(ch)
                == m.triggered(Action::SaveAs)
        }),
{
}

// ---- Keys ----

/// A key is spelled as modifiers in front of a character: `Ctrl+`, `Shift+`
/// and `Alt+` each set theirs and leave the others, and an upper-case letter
/// stands for the lower-case one.
pub proof fn law_keys_are_spelled(c: char, mods: (bool, bool, bool))
    ensures
        key_from(seq![c], 0, mods) matches Some(k) && k.ctrl == mods.0 && k.shift == mods.1 && k.alt
            == mods.2 && k.ch == (if 'A' <= c && c <= 'Z' {
            (c as int + 32) as char
        } else {
            c
        }),
        key_from(seq!['C', 't', 'r', 'l', '+', c], 0, (false, false, false)) matches Some(k) && k.ctrl
            && !k.shift && !k.alt,
        key_from(seq!['S', 'h', 'i', 'f', 't', '+', c], 0, (false, false, false)) matches Some(k)
            && !k.ctrl && k.shift && !k.alt,
        key_from(seq!['A', 'l', 't', '+', c], 0, (false, false, false)) matches Some(k) && !k.ctrl
            && !k.shift && k.alt,
        key_from(Seq::<char>::empty(), 0, mods) is None,
{
    reveal_with_fuel(key_from, 3);
    let one = seq![c];
    let ctrl = seq!['C', 't', 'r', 'l', '+', c];
    let shift = seq!['S', 'h', 'i', 'f', 't', '+', c];
    let alt = seq!['A', 'l', 't', '+', c];
    assert(crate::keys::word_at(ctrl, 0, crate::keys::ctrl_word()));
    assert(crate::keys::word_at(shift, 0, crate::keys::shift_word()));
    assert(crate::keys::word_at(alt, 0, crate::keys::alt_word()));
    assert(crate::keys::shift_word()[0] == 'S');
    assert(crate::keys::ctrl_word()[0] == 'C');
    assert(!crate::keys::word_at(shift, 0, crate::keys::ctrl_word())) by {
        if crate::keys::word_at(shift, 0, crate::keys::ctrl_word()) {
            assert(shift[0] == crate::keys::ctrl_word()[0]);
        }
    }
    assert(!crate::keys::word_at(alt, 0, crate::keys::ctrl_word())) by {
        if crate::keys::word_at(alt, 0, crate::keys::ctrl_word()) {
            assert(alt[0] == crate::keys::ctrl_word()[0]);
        }
    }
    assert(!crate::keys::word_at(alt, 0, crate::keys::shift_word())) by {
        if crate::keys::word_at(alt, 0, crate::keys::shift_word()) {
            assert(alt[0] == crate::keys::shift_word()[0]);
        }
    }
}

/// A key of the editor that is bound once does what it is bound to.
pub proof fn law_editor_keys_do_what_they_are_bound_to(e: EditorKeys, k: LocalKey)
    requires
        !(k.ctrl && !k.shift && !k.alt && (k.ch == 'v' || k.ch == 's' || k.ch == 'c')),
    ensures
        ({
            let redo = e.redo@.contains(k);
            let undo = e.undo@.contains(k);
            let zoom = e.reset_zoom@.contains(k);
            let early = redo || undo || zoom;
            let select = e.tool_select@.contains(k);
            let arrow = e.tool_arrow@.contains(k);
            let polyline = e.tool_polyline@.contains(k);
            let draw = e.tool_draw@.contains(k);
            let rect = e.tool_rect@.contains(k);
            let ellipse = e.tool_ellipse@.contains(k);
            let text = e.tool_text@.contains(k);
            let marker = e.tool_number_marker@.contains(k);
            &&& redo ==> e.action_of(k) == Some(EditorAction::Redo)
            &&& undo && !redo ==> e.action_of(k) == Some(EditorAction::Undo)
            &&& zoom && !redo && !undo ==> e.action_of(k) == Some(EditorAction::ResetZoom)
            &&& select && !early ==> e.action_of(k) == Some(EditorAction::ToolSelect)
            &&& arrow && !early && !select ==> e.action_of(k) == Some(EditorAction::ToolArrow)
            &&& polyline && !early && !select && !arrow ==> e.action_of(k) == Some(
                EditorAction::ToolPolyline,
            )
            &&& draw && !early && !select && !arrow && !polyline ==> e.action_of(k) == Some(
                EditorAction::ToolDraw,
            )
            &&& rect && !early && !select && !arrow && !polyline && !draw ==> e.action_of(k) == Some(
                EditorAction::ToolRect,
            )
            &&& ellipse && !early && !select && !arrow && !polyline && !draw && !rect
                ==> e.action_of(k) == Some(EditorAction::ToolEllipse)
            &&& text && !early && !select && !arrow && !polyline && !draw && !rect && !ellipse
                ==> e.action_of(k) == Some(EditorAction::ToolText)
            &&& marker && !early && !select && !arrow && !polyline && !draw && !rect && !ellipse
                && !text ==> e.action_of(k) == Some(EditorAction::ToolNumberMarker)
            &&& !early && !select && !arrow && !polyline && !draw && !rect && !ellipse && !text
                && !marker ==> e.action_of(k) is None
        }),
{
}

/// A list of keys means each of its texts that spells one, in its order.
pub proof fn law_lists_of_keys(specs: Seq<String>, more: String)
    ensures
        spelled(Seq::<String>::empty()).len() == 0,
        ({
            let before = spelled(specs);
            let after = spelled(specs.push(more));
            match key_from(more@, 0, (false, false, false)) {
                Some(k) => after == before.push(k),
                None => after == before,
            }
        }),
{
    assert(specs.push(more).drop_last() =~= specs);
}

// ---- The course of a session ----

/// A session starts with the recording settings that were kept, at one frame a
/// second at least, and with nothing selected or held.
pub proof fn law_session_starts_fresh(prefs: RecordPrefs)
    ensures
        ({
            let rec = Recording::fresh(prefs);
            &&& rec.gif == prefs.gif
            &&& rec.desktop_audio == prefs.desktop_audio
            &&& rec.mic == prefs.mic
            &&& prefs.fps >= 1 ==> rec.fps == prefs.fps
            &&& prefs.fps == 0 ==> rec.fps == 1
            &&& rec.region is None
        }),
        ({
            let s = Scene::fresh();
            &&& !s.finished && !s.dragging && !s.zoomed && !s.fine
            &&& !s.ctrl && !s.shift && !s.alt
            &&& s.selection is None && s.snap_rect is None && s.drag_start is None
            &&& s.mode == Mode::Selecting && s.adjust == Adjust::Idle && s.allow_record
        }),
{
}

/// Recording is prepared for the selection, less a column or a row where its
/// width or height is odd; beside a recording nothing is prepared.
pub proof fn law_recording_takes_the_selection(m: OverlayModel, r: Rect)
    requires
        m.scene.selection == Some(r),
        r.x1 - r.x0 >= 2,
        r.y1 - r.y0 >= 2,
    ensures
        m.scene.allow_record ==> ({
            let after = m.triggered(Action::Record);
            &&& after.scene.mode == Mode::RecordSetup
            &&& !after.scene.finished || m.scene.finished
            &&& after.scene.last_region == Some(r)
            &&& after.chores.setup
            &&& after.rec.region matches Some(q) && q.x0 == r.x0 && q.y0 == r.y0 && (q.x1 == r.x1
                || q.x1 == r.x1 - 1) && (q.y1 == r.y1 || q.y1 == r.y1 - 1) && (q.x1 - q.x0) % 2 == 0
                && (q.y1 - q.y0) % 2 == 0
            &&& after.rec.fps == m.rec.fps && after.rec.gif == m.rec.gif
        }),
        !m.scene.allow_record ==> m.triggered(Action::Record) == m,
{
}

/// Saving to a chosen file ends the session with that file, and the region is
/// remembered.
pub proof fn law_saving_ends_with_the_file(m: OverlayModel, path: Seq<char>)
    ensures
        m.saved(path).scene.finished,
        m.saved(path).outcome == Some(OutcomeModel::Saved(path)),
        m.saved(path).scene.last_region == m.scene.selection,
{
}

/// A picture's file is named after the moment.
pub proof fn law_files_are_named_after_the_moment(stamp: Seq<char>)
    ensures
        ({
            let name = picture_name(stamp);
            &&& name.len() == stamp.len() + 12
            &&& name.take(8) == "pashari_"@
            &&& name.subrange(8, 8 + stamp.len() as int) == stamp
            &&& name.skip(8 + stamp.len() as int) == ".png"@
        }),
{
    reveal_strlit("pashari_");
    reveal_strlit(".png");
    let name = picture_name(stamp);
    assert(name.take(8) =~= "pashari_"@);
    assert(name.subrange(8, 8 + stamp.len() as int) =~= stamp);
    assert(name.skip(8 + stamp.len() as int) =~= ".png"@);
}

/// A press on an edge of the selection and a motion pull that edge to the
/// pointer; a press inside and a motion move the selection along. What was
/// selected before can be brought back.
pub proof fn law_press_and_motion_adjust(m: OverlayModel, s: Spot, t: Spot, r: Rect)
    requires
        m.scene.selection == Some(r),
        m.menu_hit(s) is None,
        !m.over_menu(s),
        !m.scene.fine,
        !m.scene.dragging,
    ensures
        handle_within(r, s.reach) matches Some(h) ==> ({
            let after = m.button_pressed(s).pointer_moved(t, None);
            after.scene.selection == Some(resized(r, h, t.pixel, m.img())) && after.history.past
                == m.history.past.push(Some(r))
        }),
        handle_within(r, s.reach) is None && r.holds(s.cell.0 as int, s.cell.1 as int) ==> ({
            let after = m.button_pressed(s).pointer_moved(t, None);
            after.scene.selection == Some(shifted(r, t.moved, m.img())) && after.history.past
                == m.history.past.push(Some(r))
        }),
        handle_within(r, s.reach) is None && !r.holds(s.cell.0 as int, s.cell.1 as int) ==> ({
            let after = m.button_pressed(s);
            after.scene.selection is None && after.scene.dragging && after.scene.drag_start == Some(
                s.pixel,
            ) && after.history.past == m.history.past.push(Some(r))
        }),
{
}

/// Letting go of an edge or of the moved selection leaves it where it is.
pub proof fn law_release_keeps_the_adjusted(m: OverlayModel, s: Spot)
    requires
        m.scene.adjust != Adjust::Idle,
    ensures
        m.button_released(s).scene.selection == m.scene.selection,
        m.button_released(s).scene.adjust == Adjust::Idle,
        m.button_released(s).history == m.history,
{
}

/// The pointer over the selection shows what a press would do: pull an edge,
/// move it, or neither.
pub proof fn law_overlay_pointer_shows_the_grip(m: OverlayModel, s: Spot, r: Rect)
    requires
        m.scene.selection == Some(r),
    ensures
        handle_within(r, s.plain_reach) matches Some(h) ==> m.shape(s) == handle_shape(h),
        handle_within(r, s.plain_reach) is None && r.holds(s.cell.0 as int, s.cell.1 as int)
            ==> m.shape(s) == CursorShape::Move,
        handle_within(r, s.plain_reach) is None && !r.holds(s.cell.0 as int, s.cell.1 as int)
            ==> m.shape(s) == CursorShape::Default,
{
}

/// While a region is being selected, the modifier keys are known as they are
/// held, and the window's size as it is.
pub proof fn law_overlay_events(
    m: OverlayModel,
    s: Spot,
    ctrl: bool,
    shift: bool,
    alt: bool,
    w: u32,
    h: u32,
)
    requires
        m.scene.mode == Mode::Selecting,
    ensures
        ({
            let after = m.event(OverlayEvent::Modifiers { ctrl, shift, alt }, s);
            after.scene.ctrl == ctrl && after.scene.shift == shift && after.scene.alt == alt
                && after.scene.selection == m.scene.selection
        }),
        w >= 1 && h >= 1 ==> m.event(OverlayEvent::Resized(w, h), s).scene.surface_size == (
            w as usize,
            h as usize,
        ),
{
}

/// While a region is being selected, the left button presses and releases, and
/// the pointer's motion is followed.
pub proof fn law_overlay_follows_the_pointer(m: OverlayModel, s: Spot, snap: Option<Rect>)
    requires
        m.scene.mode == Mode::Selecting,
    ensures
        m.event(OverlayEvent::Press, s) == m.button_pressed(s),
        m.event(OverlayEvent::Release, s) == m.button_released(s),
        m.event(OverlayEvent::Moved { snap }, s) == m.pointer_moved(s, snap),
{
}

/// While a region is being selected, the wheel magnifies, unless a selection
/// rests.
pub proof fn law_wheel_magnifies(m: OverlayModel, s: Spot, z: ZoomStep)
    requires
        m.scene.mode == Mode::Selecting,
    ensures
        m.scene.selection is None && z.changed ==> m.event(OverlayEvent::Wheel(z), s).scene.zoomed
            == z.above && m.event(OverlayEvent::Wheel(z), s).scene.fine == z.above,
        !z.changed ==> m.event(OverlayEvent::Wheel(z), s) == m,
        m.scene.selection is Some && m.scene.adjust == Adjust::Idle ==> m.event(
            OverlayEvent::Wheel(z),
            s,
        ) == m,
{
}

/// What the menu offers is what there is: a place to upload to, an external
/// editor, selections to undo and redo, and a region to reuse.
pub proof fn law_menu_offers_what_there_is(m: OverlayModel)
    ensures
        m.avail().uploaders == m.scene.uploaders,
        m.avail().external_editor == m.scene.external_editor,
        m.avail().undo <==> m.history.past.len() > 0,
        m.avail().redo <==> m.history.future.len() > 0,
        m.avail().reuse_region <==> m.scene.last_region is Some,
{
}

/// What stands on the menu's entries.
pub proof fn law_entries_are_labeled()
    ensures
        MenuButton::Size.caption() == "Size"@,
        MenuButton::AspectRatio.caption() == "Aspect"@,
        MenuButton::Save.caption() == "Save"@,
        MenuButton::Copy.caption() == "Copy"@,
        MenuButton::Edit.caption() == "Edit"@,
        MenuButton::Upload.caption() == "Upload"@,
        MenuButton::Video.caption() == "Video"@,
        MenuButton::Quit.caption() == "Quit"@,
        MenuButton::Undo.caption() == "Undo"@,
        MenuButton::Redo.caption() == "Redo"@,
        MenuButton::ReuseRegion.caption() == "Reuse"@,
        MenuButton::ClearSelection.caption() == "Clear"@,
        MenuButton::SaveAs.caption() == "SaveAs"@,
        MenuButton::EditExternal.caption() == "External"@,
{
}

/// An aspect ratio reads as its two numbers with a colon between, and none as
/// "Free".
pub proof fn law_aspect_ratio_reads(w: u32, h: u32)
    ensures
        aspect_text(None) == "Free"@,
        aspect_text(Some((w, h))) == decimal_text(w as int) + seq![':'] + decimal_text(h as int),
{
    assert(aspect_text(Some((w, h))) =~= decimal_text(w as int) + seq![':'] + decimal_text(
        h as int,
    ));
}

proof fn lemma_keyed(m: MenuModel, k: LocalKey, i: int, t: int)
    requires
        0 <= i <= t < m.buttons.len(),
        !m.buttons[t].disabled && m.buttons[t].hotkeys.contains(k),
        forall|j: int|
            i <= j < t ==> (#[trigger] m.buttons[j]).disabled || !m.buttons[j].hotkeys.contains(k),
    ensures
        m.keyed_from(k, i) == Some(m.buttons[t].action),
    decreases t - i,
{
    if i < t {
        assert(m.buttons[i].disabled || !m.buttons[i].hotkeys.contains(k));
        lemma_keyed(m, k, i + 1, t);
    }
}

/// A key of the shown menu triggers the first enabled button that has it.
pub proof fn law_menu_key_triggers_the_button(m: OverlayModel, ch: char, t: int)
    requires
        m.menu matches Some(menu) && 0 <= t < menu.buttons.len() && !menu.buttons[t].disabled
            && menu.buttons[t].hotkeys.contains(m.held(ch)) && (forall|j: int|
            0 <= j < t ==> (#[trigger] menu.buttons[j]).disabled || !menu.buttons[j].hotkeys.contains(
                m.held(ch),
            )),
        !('0' <= ch && ch <= '9'),
        ({
            let k = m.held(ch);
            let keys = m.kit.keys;
            !keys.undo@.contains(k) && !keys.redo@.contains(k) && !keys.reuse_region@.contains(k)
                && !keys.clear_selection@.contains(k) && !keys.save_as@.contains(k)
                && !keys.edit_external@.contains(k) && !keys.menu.quit@.contains(k)
        }),
    ensures
        m.char_typed(ch) == m.triggered(m.menu->0.buttons[t].action),
{
    lemma_keyed(m.menu->0, m.held(ch), 0, t);
}

} // verus!
