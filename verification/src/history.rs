//! Undo and redo history of whole-state snapshots.

use vstd::prelude::*;

verus! {

/// Undo/redo history. `T` is a full snapshot of the state at a point in
/// time, not a difference.
#[derive(Debug)]
pub struct UndoStack<T> {
    undo: Vec<T>,
    redo: Vec<T>,
}

/// What a history holds: the states to go back to, oldest first, and the
/// undone states, the next one to redo last.
#[verifier::ext_equal]
pub struct History<T> {
    pub past: Seq<T>,
    pub future: Seq<T>,
}

impl<T> History<T> {
    /// No past and no future.
    pub open spec fn empty() -> History<T> {
        History { past: Seq::empty(), future: Seq::empty() }
    }

    /// The history after a change away from `current`: any undone states are
    /// gone.
    pub open spec fn after_push(self, current: T) -> History<T> {
        History { past: self.past.push(current), future: Seq::empty() }
    }

    /// The history after going back one state from `current`.
    pub open spec fn after_undo(self, current: T) -> History<T> {
        if self.past.len() == 0 {
            self
        } else {
            History { past: self.past.drop_last(), future: self.future.push(current) }
        }
    }

    /// The history after redoing one state from `current`.
    pub open spec fn after_redo(self, current: T) -> History<T> {
        if self.future.len() == 0 {
            self
        } else {
            History { past: self.past.push(current), future: self.future.drop_last() }
        }
    }

    /// The state an undo leads to, if there is one.
    pub open spec fn undo_target(self) -> Option<T> {
        if self.past.len() == 0 {
            None
        } else {
            Some(self.past.last())
        }
    }

    /// The state a redo leads to, if there is one.
    pub open spec fn redo_target(self) -> Option<T> {
        if self.future.len() == 0 {
            None
        } else {
            Some(self.future.last())
        }
    }
}

impl<T> View for UndoStack<T> {
    type V = History<T>;

    closed spec fn view(&self) -> History<T> {
        History { past: self.undo@, future: self.redo@ }
    }
}

impl<T> UndoStack<T> {
    /// A history with nothing to undo or redo.
    pub fn new() -> (h: Self)
        ensures
            h@ == History::<T>::empty(),
    {
        UndoStack { undo: Vec::new(), redo: Vec::new() }
    }

    /// Records the state before a change. A new change makes any later redo
    /// meaningless, so the redo side is cleared.
    pub fn push(&mut self, current: T)
        ensures
            final(self)@ == old(self)@.after_push(current),
    {
        self.undo.push(current);
        self.redo.clear();
    }

    /// The previous state, with `current` kept for a redo. `None`, and no
    /// change, if there is nothing to undo.
    pub fn undo(&mut self, current: T) -> (prev: Option<T>)
        ensures
            prev == old(self)@.undo_target(),
            final(self)@ == old(self)@.after_undo(current),
    {
        match self.undo.pop() {
            Some(prev) => {
                self.redo.push(current);
                Some(prev)
            },
            None => None,
        }
    }

    /// Redoes one undo. `None`, and no change, if there is nothing to redo.
    pub fn redo(&mut self, current: T) -> (next: Option<T>)
        ensures
            next == old(self)@.redo_target(),
            final(self)@ == old(self)@.after_redo(current),
    {
        match self.redo.pop() {
            Some(next) => {
                self.undo.push(current);
                Some(next)
            },
            None => None,
        }
    }

    /// Whether there is a state to go back to.
    pub fn can_undo(&self) -> (r: bool)
        ensures
            r == (self@.past.len() > 0),
    {
        !self.undo.is_empty()
    }

    /// Whether there is an undone state to return to.
    pub fn can_redo(&self) -> (r: bool)
        ensures
            r == (self@.future.len() > 0),
    {
        !self.redo.is_empty()
    }
}

/// An undo followed by a redo gives back the state and the history, whenever
/// there was something to undo.
pub proof fn law_redo_reverts_undo<T>(h: History<T>, current: T)
    requires
        h.past.len() > 0,
    ensures
        ({
            let prev = h.undo_target().unwrap();
            let undone = h.after_undo(current);
            undone.redo_target() == Some(current) && undone.after_redo(prev) == h
        }),
{
    let prev = h.undo_target().unwrap();
    let undone = h.after_undo(current);
    assert(undone.after_redo(prev).past =~= h.past);
    assert(undone.after_redo(prev).future =~= h.future);
}

/// A redo followed by an undo gives back the state and the history, whenever
/// there was something to redo.
pub proof fn law_undo_reverts_redo<T>(h: History<T>, current: T)
    requires
        h.future.len() > 0,
    ensures
        ({
            let next = h.redo_target().unwrap();
            let redone = h.after_redo(current);
            redone.undo_target() == Some(current) && redone.after_undo(next) == h
        }),
{
    let next = h.redo_target().unwrap();
    let redone = h.after_redo(current);
    assert(redone.after_undo(next).past =~= h.past);
    assert(redone.after_undo(next).future =~= h.future);
}

/// After a change has been recorded there is nothing to redo, and an undo
/// leads to the state before the change.
pub proof fn law_push_forgets_the_future<T>(h: History<T>, current: T)
    ensures
        h.after_push(current).redo_target() == None::<T>,
        h.after_push(current).undo_target() == Some(current),
        h.after_push(current).after_undo(current).past == h.past,
{
    assert(h.after_push(current).after_undo(current).past =~= h.past);
}

/// The number of remembered states is the same before and after an undo or a
/// redo: no snapshot is lost or invented.
pub proof fn law_undo_redo_keep_the_count<T>(h: History<T>, current: T)
    ensures
        h.after_undo(current).past.len() + h.after_undo(current).future.len() == h.past.len()
            + h.future.len(),
        h.after_redo(current).past.len() + h.after_redo(current).future.len() == h.past.len()
            + h.future.len(),
{
}

} // verus!
