//! What holds of the overlay across its operations.

use vstd::prelude::*;

use crate::history::{law_redo_reverts_undo, law_undo_reverts_redo};
use crate::menu::Action;
use crate::overlay::{Adjust, Mode, OutcomeModel, OverlayModel, Recording, Scene, Spot};
use crate::rect::Rect;
use crate::region::{is_region, law_fitting_keeps_regions};
use crate::selecting::{KeyName, OverlayEvent, ZoomStep};

verus! {

/// A redo takes an undo back: the selection and its history are as before.
pub proof fn law_redo_restores_selection(m: OverlayModel)
    requires
        !m.busy(),
        m.history.past.len() > 0,
    ensures
        m.undone().redone().scene.selection == m.scene.selection,
        m.undone().redone().history == m.history,
        Some(m.undone().scene.selection) == m.history.undo_target(),
{
    law_redo_reverts_undo(m.history, m.scene.selection);
}

/// An undo takes a redo back.
pub proof fn law_undo_restores_selection(m: OverlayModel)
    requires
        !m.busy(),
        m.history.future.len() > 0,
    ensures
        m.redone().undone().scene.selection == m.scene.selection,
        m.redone().undone().history == m.history,
{
    law_undo_reverts_redo(m.history, m.scene.selection);
}

/// Nothing is undone or redone during a drag or an adjustment.
pub proof fn law_gestures_are_not_undone(m: OverlayModel)
    requires
        m.scene.dragging || m.scene.adjust != Adjust::Idle,
    ensures
        m.undone() == m,
        m.redone() == m,
{
}

/// A change of the selection makes what was undone unreachable. Clearing is
/// one where something is selected.
pub proof fn law_changes_forget_the_undone(m: OverlayModel, r: Rect, p: (i64, i64))
    ensures
        m.chosen(r).history.future.len() == 0,
        m.scene.selection is Some ==> m.cleared().history.future.len() == 0,
        m.drag_begun(p).history.future.len() == 0,
{
}

/// Clearing with nothing selected changes nothing: no step is recorded, what
/// was undone can still be redone, and a gesture goes on.
pub proof fn law_clearing_nothing_does_nothing(m: OverlayModel)
    requires
        m.scene.selection is None,
    ensures
        m.cleared() == m,
        m.triggered(Action::ClearSelection) == m,
{
}

/// Whatever is selected at once (a region used before, a monitor, the whole
/// picture), the magnifier is put away, and a pointer that raw motion drove
/// is given back.
pub proof fn law_choosing_leaves_the_magnifier(m: OverlayModel, r: Rect, i: int)
    ensures
        !m.chosen(r).scene.zoomed && !m.chosen(r).scene.fine,
        !m.all_chosen().scene.fine,
        m.scene.last_region is Some ==> !m.reused().scene.fine,
        0 <= i < m.kit.frozen.monitors@.len() ==> !m.monitor_chosen(i).scene.fine,
        m.scene.fine ==> m.chosen(r).chores.warp == crate::overlay::Warp::Back,
        m.chosen(r).chores.visible == Some(true),
{
}

/// A cleared or replaced selection comes back with one undo.
pub proof fn law_undo_brings_selection_back(m: OverlayModel, r: Rect)
    ensures
        m.scene.selection is Some ==> m.cleared().undone().scene.selection == m.scene.selection,
        m.chosen(r).undone().scene.selection == m.scene.selection,
        m.scene.selection is Some ==> m.cleared().undone().history.past == m.history.past,
        m.chosen(r).undone().history.past == m.history.past,
{
    let pushed = m.history.after_push(m.scene.selection);
    assert(pushed.past.drop_last() =~= m.history.past);
    lemma_chosen(m, r);
    lemma_undone(m.chosen(r));
    if m.scene.selection is Some {
        assert(m.cleared().history == pushed);
        lemma_undone(m.cleared());
    }
}

/// A rectangle selected is one recorded change, and leaves no gesture in
/// progress.
proof fn lemma_chosen(m: OverlayModel, r: Rect)
    ensures
        m.chosen(r).history == m.history.after_push(m.scene.selection),
        !m.chosen(r).busy(),
{
}

/// A drag that replaces the selection is one change: however it ends, one
/// undo brings back what was selected before.
pub proof fn law_drag_is_one_change(m: OverlayModel, p: (i64, i64), s: Spot)
    requires
        m.scene.adjust == Adjust::Idle,
    ensures
        m.drag_begun(p).drag_ended(s).undone().scene.selection == m.scene.selection,
{
    let pushed = m.history.after_push(m.scene.selection);
    assert(pushed.past.last() == m.scene.selection);
    let begun = m.drag_begun(p);
    assert(begun.history == pushed);
    assert(begun.scene.adjust == Adjust::Idle);
    lemma_drag_ended(begun, s);
    lemma_undone(begun.drag_ended(s));
}

/// The end of a drag leaves the history as it is, and no gesture in
/// progress.
proof fn lemma_drag_ended(m: OverlayModel, s: Spot)
    ensures
        m.drag_ended(s).history == m.history,
        !m.drag_ended(s).scene.dragging,
        m.drag_ended(s).scene.adjust == m.scene.adjust,
{
}

/// An undo leads to the state before.
proof fn lemma_undone(m: OverlayModel)
    requires
        !m.busy(),
        m.history.past.len() > 0,
    ensures
        m.undone().scene.selection == m.history.past.last(),
        m.undone().history.past == m.history.past.drop_last(),
{
}

/// Moving the pointer never changes the history: an adjustment is recorded
/// when it is grabbed, and only there.
pub proof fn law_motion_is_not_recorded(m: OverlayModel, s: Spot, snap: Option<Rect>)
    ensures
        m.pointer_moved(s, snap).history == m.history,
        m.nudged(s, snap).history == m.history,
        m.adjust_ended(s).history == m.history,
{
}

/// A synthetic key does nothing, whatever it is.
pub proof fn law_synthetic_keys_are_ignored(m: OverlayModel, key: KeyName, down: bool, s: Spot)
    requires
        m.scene.mode == Mode::Selecting,
    ensures
        m.event(OverlayEvent::Key { key, down, synthetic: true }, s) == m,
{
}

/// Escape and closing the window end a selection with nothing, and show the
/// pointer again.
pub proof fn law_escape_cancels(m: OverlayModel, s: Spot)
    requires
        m.scene.mode == Mode::Selecting,
        m.outcome is None,
    ensures
        ({
            let key = OverlayEvent::Key { key: KeyName::Escape, down: true, synthetic: false };
            let escaped = m.event(key, s);
            let closed = m.event(OverlayEvent::Close, s);
            &&& escaped == closed
            &&& escaped.scene.finished
            &&& escaped.outcome is None
            &&& escaped.chores.visible == Some(true)
        }),
{
}

/// However a session ends, the pointer is shown again.
pub proof fn law_ending_shows_pointer(m: OverlayModel, action: Action)
    requires
        !m.scene.finished,
        m.triggered(action).scene.finished,
    ensures
        m.triggered(action).chores.visible == Some(true),
{
}

/// A press and a release in one place select the window there.
pub proof fn law_click_selects_window(m: OverlayModel, s: Spot)
    requires
        m.scene.mode == Mode::Selecting,
        m.scene.selection is None,
        m.menu is None,
        m.scene.adjust == Adjust::Idle,
        m.scene.snap_rect is Some,
        s.still,
    ensures
        m.button_pressed(s).button_released(s).scene.selection == m.scene.snap_rect,
{
}

/// A click on a disabled button does nothing, and does not begin a drag.
pub proof fn law_disabled_button_absorbs_click(m: OverlayModel, s: Spot, i: usize)
    requires
        m.menu is Some,
        m.menu_hit(s) == Some(i),
        m.menu->0.buttons[i as int].disabled,
        m.scene.adjust == Adjust::Idle,
    ensures
        ({
            let clicked = m.button_pressed(s).button_released(s);
            &&& clicked.scene.selection == m.scene.selection
            &&& clicked.scene.dragging == m.scene.dragging
            &&& clicked.scene.finished == m.scene.finished
            &&& clicked.outcome == m.outcome
            &&& clicked.history == m.history
        }),
{
}

/// A click on the menu's panel beside its buttons, such as on a divider, does
/// not reach the selection underneath: it grabs nothing and begins no drag.
pub proof fn law_menu_absorbs_clicks(m: OverlayModel, s: Spot)
    requires
        m.menu is Some,
        m.over_menu(s),
        m.menu_hit(s) is None,
        m.scene.adjust == Adjust::Idle,
    ensures
        m.button_pressed(s) == m,
        m.button_pressed(s).button_released(s) == m.with(
            Scene { pressed: None, ..m.scene },
        ).redrawn(),
{
}

/// Where a recording is not allowed, asking for one does nothing.
pub proof fn law_no_second_recording(m: OverlayModel)
    requires
        !m.scene.allow_record,
    ensures
        m.triggered(Action::Record) == m,
{
}

/// What is recorded is even in width and height, two pixels at least, and
/// the selection but for a row and a column at most.
pub proof fn law_recorded_region_is_even(m: OverlayModel)
    requires
        m.wf(),
        m.scene.mode == Mode::Selecting,
        m.set_up().scene.mode == Mode::RecordSetup,
    ensures
        m.set_up().rec.region matches Some(r) && m.scene.selection matches Some(sel) && {
            &&& (r.x1 - r.x0) % 2 == 0
            &&& (r.y1 - r.y0) % 2 == 0
            &&& r.x1 - r.x0 >= 2
            &&& r.y1 - r.y0 >= 2
            &&& sel.covers(r)
            &&& sel.x1 - r.x1 <= 1
            &&& sel.y1 - r.y1 <= 1
        },
{
}

/// A region that was used is selected again in full, on a picture that still
/// has it.
pub proof fn law_used_region_can_be_reused(m: OverlayModel, action: Action, next: OverlayModel)
    requires
        m.scene.selection matches Some(r) && is_region(r, next.img()),
        crate::region::is_picture(next.img()),
        next.scene.last_region == m.captured(action).scene.last_region,
    ensures
        next.reused().scene.selection == m.scene.selection,
{
    law_fitting_keeps_regions(m.scene.selection->0, next.img());
}

/// What is handed on is the selected part of the picture, with the action
/// that was chosen.
pub proof fn law_capture_hands_on_selection(m: OverlayModel, r: Rect)
    requires
        m.scene.selection == Some(r),
    ensures
        forall|action: Action|
            action == Action::Save || action == Action::Copy || action == Action::Edit || action
                == Action::EditExternal || action == Action::Upload ==> {
                let done = #[trigger] m.triggered(action);
                &&& done.scene.finished
                &&& done.outcome matches Some(
                    OutcomeModel::Captured { action: a, width, height, rgba },
                ) && a == action && width == (r.x1 - r.x0) as u32 && height == (r.y1 - r.y0) as u32
                    && rgba == crate::overlay::cut(
                    m.kit.frozen.bright@,
                    m.kit.frozen.width as int,
                    r,
                )
            },
{
}

/// The menu of a selection is not shown while anything is magnified.
pub proof fn law_magnified_hides_menu(m: OverlayModel)
    requires
        m.scene.selection is Some,
    ensures
        m.zoom_changed(ZoomStep { changed: true, above: true }).menu is None,
        m.zoom_changed(ZoomStep { changed: true, above: false }).menu is Some,
{
}

/// The wheel does nothing beside a selection that is not being adjusted.
pub proof fn law_wheel_spares_idle_selection(m: OverlayModel, z: ZoomStep, s: Spot)
    requires
        m.scene.mode == Mode::Selecting,
        m.scene.selection is Some,
        m.scene.adjust == Adjust::Idle,
    ensures
        m.event(OverlayEvent::Wheel(z), s) == m,
{
}

/// Closing a window while a recording runs stops it and keeps its file, and
/// cancels it before one runs.
pub proof fn law_closing_keeps_recording(m: OverlayModel, path: Seq<char>, s: Spot)
    requires
        m.record_path == Some(path),
    ensures
        m.scene.mode == Mode::Recording ==> {
            &&& m.event(OverlayEvent::Close, s).scene.finished
            &&& m.event(OverlayEvent::Close, s).outcome == Some(OutcomeModel::Recorded(path))
        },
        m.scene.mode == Mode::RecordSetup ==> {
            &&& m.event(OverlayEvent::Close, s).scene.finished
            &&& m.event(OverlayEvent::Close, s).outcome == m.outcome
        },
{
}

/// A GIF has no sound, whatever is switched on.
pub proof fn law_gif_is_silent(m: OverlayModel, r: Rect)
    requires
        m.rec.gif,
    ensures
        !m.plan(r).desktop_audio,
        !m.plan(r).mic,
{
}

/// A stopped recording ends the session with its file.
pub proof fn law_started_recording_ends_with_its_file(m: OverlayModel, path: Seq<char>)
    ensures
        m.started(path).stopped().outcome == Some(OutcomeModel::Recorded(path)),
        m.started(path).stopped().scene.finished,
        m.started(path).scene.mode == Mode::Recording,
{
}

} // verus!
