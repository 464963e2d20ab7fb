//! The editor's events: what each changes at once, and which part of the
//! editor takes it on.

use vstd::prelude::*;

use crate::editor::{EditDrag, Editor, Model};

verus! {

/// An event of the editor's window.
#[derive(Debug)]
pub enum EditorEvent {
    Close,
    /// The window has a new size or a new scale.
    Resized,
    Modifiers { ctrl: bool, shift: bool, alt: bool },
    Key { down: bool },
    /// The input method shows, commits, or ends a text.
    ImePreedit(String),
    ImeCommit(String),
    ImeEnabled,
    ImeDisabled,
    LeftButton { down: bool },
    MiddleButton { down: bool },
    Moved,
    /// The wheel, and whether it was turned at all.
    Wheel { turned: bool },
    Dropped,
    Redraw,
    Other,
}

/// The part of the editor that takes an event on.
#[derive(Clone, Copy, Debug, PartialEq, Eq, Structural)]
pub enum Turn {
    Nothing,
    /// Save the session and close.
    Close,
    Key,
    Press,
    Release,
    /// The picture is grabbed, let go, or moved along.
    PanStart,
    PanEnd,
    Pan,
    /// The color picker follows the pointer.
    Pick,
    /// The edit in progress follows the pointer.
    Edit,
    Hover,
    Zoom,
    /// A file was dropped.
    Drop,
    Draw,
}

impl<F, S> Model<F, S> {
    /// What an event changes at once.
    pub open spec fn after_event(self, e: EditorEvent, panning: bool) -> Model<F, S> {
        match e {
            EditorEvent::Resized => self.redraw(),
            EditorEvent::Modifiers { ctrl, shift, alt } => Model { ctrl, shift, alt, ..self },
            EditorEvent::ImePreedit(text) => Model { ime_preedit: text@, ..self }.redraw(),
            EditorEvent::ImeCommit(text) => Model {
                ime_preedit: Seq::empty(),
                editing: match self.editing {
                    Some((pos, buf)) => Some((pos, buf + text@)),
                    None => None,
                },
                ..self
            }.redraw(),
            EditorEvent::ImeEnabled => self.redraw(),
            EditorEvent::ImeDisabled => Model { ime_preedit: Seq::empty(), ..self }.redraw(),
            EditorEvent::Moved => if panning {
                self.redraw()
            } else {
                self
            },
            _ => self,
        }
    }

    /// The part of the editor that takes an event on. While the picture is
    /// moved along, nothing else follows the pointer. Otherwise the color
    /// picker does first, and next an edit in progress.
    pub open spec fn turn(self, e: EditorEvent, panning: bool) -> Turn {
        match e {
            EditorEvent::Close => Turn::Close,
            EditorEvent::Key { down } => if down {
                Turn::Key
            } else {
                Turn::Nothing
            },
            EditorEvent::LeftButton { down } => if down {
                Turn::Press
            } else {
                Turn::Release
            },
            EditorEvent::MiddleButton { down } => if down {
                Turn::PanStart
            } else {
                Turn::PanEnd
            },
            EditorEvent::Moved => if panning {
                Turn::Pan
            } else if self.picker_drag is Some {
                Turn::Pick
            } else if !(self.edit is Idle) {
                Turn::Edit
            } else {
                Turn::Hover
            },
            EditorEvent::Wheel { turned } => if turned {
                Turn::Zoom
            } else {
                Turn::Nothing
            },
            EditorEvent::Dropped => Turn::Drop,
            EditorEvent::Redraw => Turn::Draw,
            _ => Turn::Nothing,
        }
    }
}

impl<F: Copy, S: Copy> Editor<F, S> {
    /// Changes what an event changes at once, and tells which part of the
    /// editor takes it on. `panning` tells whether the picture is being
    /// moved along.
    pub fn handle_event(&mut self, e: EditorEvent, panning: bool) -> (turn: Turn)
        requires
            old(self)@.wf(),
        ensures
            final(self)@ == old(self)@.after_event(e, panning),
            turn == old(self)@.turn(e, panning),
            final(self)@.wf(),
    {
        match e {
            EditorEvent::Close => Turn::Close,
            EditorEvent::Resized => {
                self.request_redraw();
                Turn::Nothing
            },
            EditorEvent::Modifiers { ctrl, shift, alt } => {
                self.set_modifiers(ctrl, shift, alt);
                Turn::Nothing
            },
            EditorEvent::Key { down } => if down {
                Turn::Key
            } else {
                Turn::Nothing
            },
            EditorEvent::ImePreedit(text) => {
                self.on_ime_preedit(text);
                Turn::Nothing
            },
            EditorEvent::ImeCommit(text) => {
                self.on_ime_commit(text);
                Turn::Nothing
            },
            EditorEvent::ImeEnabled => {
                self.request_redraw();
                Turn::Nothing
            },
            EditorEvent::ImeDisabled => {
                self.on_ime_disabled();
                Turn::Nothing
            },
            EditorEvent::LeftButton { down } => if down {
                Turn::Press
            } else {
                Turn::Release
            },
            EditorEvent::MiddleButton { down } => if down {
                Turn::PanStart
            } else {
                Turn::PanEnd
            },
            EditorEvent::Moved => {
                if panning {
                    self.request_redraw();
                    Turn::Pan
                } else if self.picker_drag.is_some() {
                    Turn::Pick
                } else {
                    match self.edit {
                        EditDrag::Idle => Turn::Hover,
                        _ => Turn::Edit,
                    }
                }
            },
            EditorEvent::Wheel { turned } => if turned {
                Turn::Zoom
            } else {
                Turn::Nothing
            },
            EditorEvent::Dropped => Turn::Drop,
            EditorEvent::Redraw => Turn::Draw,
            EditorEvent::Other => Turn::Nothing,
        }
    }
}

} // verus!
