//! The overlay's events while a region is selected: keys, the pointer's
//! button, its motion and its wheel.

use vstd::prelude::*;

use crate::canvas::CursorShape;
use crate::keys::{folded_char, has_key, LocalKey};
use crate::menu::{Action, MenuModel};
use crate::overlay::{
    is_choice, lemma_seen, Adjust, Chores, Overlay, OverlayModel, Scene, Spot, Warp,
};
use crate::rect::Rect;
use crate::region::is_region;

verus! {

/// What a turn of the wheel makes of the magnification.
#[derive(Clone, Copy, Debug)]
pub struct ZoomStep {
    /// Whether it changes at all.
    pub changed: bool,
    /// Whether anything is magnified afterwards.
    pub above: bool,
}

/// A key, as far as the overlay reads it.
#[derive(Clone, Copy, Debug)]
pub enum KeyName {
    Escape,
    Char(char),
    Other,
}

/// An event of the overlay's window.
#[derive(Clone, Copy, Debug)]
pub enum OverlayEvent {
    Close,
    Modifiers { ctrl: bool, shift: bool, alt: bool },
    Resized(u32, u32),
    /// A key. A synthetic one was pressed before the window had the focus.
    Key { key: KeyName, down: bool, synthetic: bool },
    Wheel(ZoomStep),
    /// The left button.
    Press,
    Release,
    /// The pointer moved, and would snap to the window there, if any.
    Moved { snap: Option<Rect> },
    Other,
}

/// The number of a digit key.
pub open spec fn digit_of(ch: char) -> Option<int> {
    if '0' <= ch && ch <= '9' {
        Some(ch as int - '0' as int)
    } else {
        None
    }
}

/// The number of a digit key.
fn digit(ch: char) -> (d: Option<usize>)
    ensures
        match d {
            Some(n) => digit_of(ch) == Some(n as int) && n <= 9,
            None => digit_of(ch) == None::<int>,
        },
{
    match ch {
        '0' => Some(0),
        '1' => Some(1),
        '2' => Some(2),
        '3' => Some(3),
        '4' => Some(4),
        '5' => Some(5),
        '6' => Some(6),
        '7' => Some(7),
        '8' => Some(8),
        '9' => Some(9),
        _ => None,
    }
}

impl OverlayModel {
    /// The window's pointer to its center.
    pub open spec fn centered(self) -> OverlayModel {
        OverlayModel { chores: Chores { warp: Warp::Center, ..self.chores }, ..self }
    }

    /// The pointer taken over when something becomes magnified, and given
    /// back when nothing is any more.
    pub open spec fn zoom_set(self, above: bool) -> OverlayModel {
        let m = self.with(Scene { zoomed: above, fine: above, ..self.scene });
        if above && !self.scene.fine {
            m.centered().shown(false)
        } else if !above && self.scene.fine {
            m.fine_left()
        } else {
            m
        }
    }

    /// The menu beside a selection: shown only while nothing is magnified.
    pub open spec fn menu_at_zoom(self, above: bool) -> OverlayModel {
        if self.scene.selection is None {
            self
        } else if above {
            OverlayModel { menu: None, scene: Scene { hovered: None, ..self.scene }, ..self }
        } else {
            self.menu_built()
        }
    }

    /// The magnification changed.
    pub open spec fn zoom_changed(self, z: ZoomStep) -> OverlayModel {
        if !z.changed {
            self
        } else {
            self.zoom_set(z.above).menu_at_zoom(z.above).redrawn()
        }
    }

    /// The key with the modifiers that are held.
    pub open spec fn held(self, ch: char) -> LocalKey {
        LocalKey {
            ctrl: self.scene.ctrl,
            shift: self.scene.shift,
            alt: self.scene.alt,
            ch: folded_char(ch),
        }
    }

    /// What a character key does: undo, redo and the last region at any time,
    /// a digit for a monitor, the rest only with a selection, and a button's
    /// key only while the menu is shown.
    pub open spec fn char_typed(self, ch: char) -> OverlayModel {
        let k = self.held(ch);
        let keys = self.kit.keys;
        let bare = !self.scene.ctrl && !self.scene.alt;
        let chosen = self.scene.selection is Some;
        if keys.undo@.contains(k) {
            self.undone()
        } else if keys.redo@.contains(k) {
            self.redone()
        } else if keys.reuse_region@.contains(k) {
            self.reused()
        } else if ch == '0' && bare {
            self.all_chosen()
        } else if digit_of(ch) is Some && bare {
            self.monitor_chosen(digit_of(ch)->0 - 1)
        } else if keys.clear_selection@.contains(k) && chosen {
            self.cleared()
        } else if keys.save_as@.contains(k) && chosen {
            self.save_asked()
        } else if keys.edit_external@.contains(k) && chosen && self.scene.external_editor {
            self.triggered(Action::EditExternal)
        } else if keys.menu.quit@.contains(k) {
            self.triggered(Action::Quit)
        } else {
            match self.menu {
                Some(m) => match m.keyed_from(k, 0) {
                    Some(action) => self.triggered(action),
                    None => self,
                },
                None => self,
            }
        }
    }

    /// The menu's button under the pointer.
    pub open spec fn menu_hit(self, s: Spot) -> Option<usize> {
        match self.menu {
            Some(m) => m.hit_from(s.window.0 as int, s.window.1 as int, 0),
            None => None,
        }
    }

    /// Whether the pointer is over the menu's panel, on a button or not.
    pub open spec fn over_menu(self, s: Spot) -> bool {
        match self.menu {
            Some(m) => m.rect.holds(s.window.0 as int, s.window.1 as int),
            None => false,
        }
    }

    /// The left button pressed beside the menu: on a handle, on the
    /// selection, or anywhere else for a new drag.
    pub open spec fn picture_pressed(self, s: Spot) -> OverlayModel {
        match self.scene.selection {
            Some(sel) => match self.handle(s) {
                Some(h) => self.remembered().with(
                    Scene { adjust: Adjust::Resizing(h), ..self.scene },
                ),
                None => if self.over_selection(s) {
                    self.remembered().with(
                        Scene { adjust: Adjust::Moving { orig: sel }, ..self.scene },
                    )
                } else {
                    self.drag_begun(s.pixel)
                },
            },
            None => self.drag_begun(s.pixel),
        }
    }

    /// The left button pressed. A button of the menu takes it first; the rest
    /// of the panel, such as a divider, keeps it from what is underneath.
    pub open spec fn button_pressed(self, s: Spot) -> OverlayModel {
        match self.menu_hit(s) {
            Some(i) => self.with(Scene { pressed: Some(i), ..self.scene }).redrawn(),
            None => if self.over_menu(s) {
                self
            } else {
                self.picture_pressed(s)
            },
        }
    }

    /// An adjustment committed. The magnifier was an aid for it alone.
    pub open spec fn adjust_ended(self, s: Spot) -> OverlayModel {
        self.with(
            Scene { adjust: Adjust::Idle, ..self.scene },
        ).unzoomed().menu_built().shape_updated(s).redrawn()
    }

    /// The left button released over the menu. The pressed button acts, if
    /// it is the one released on and not disabled.
    pub open spec fn menu_released(self, m: MenuModel, s: Spot) -> OverlayModel {
        match self.scene.pressed {
            Some(i) if self.menu_hit(s) == Some(i) => if m.buttons[i as int].disabled {
                self
            } else {
                self.triggered(m.buttons[i as int].action)
            },
            _ => self.with(Scene { pressed: None, ..self.scene }).redrawn(),
        }
    }

    /// A drag ended: what it made is selected.
    pub open spec fn drag_ended(self, s: Spot) -> OverlayModel {
        let m = self.with(Scene { dragging: false, drag_start: None, ..self.scene });
        match self.candidate(s) {
            Some(r) => m.with(
                Scene { selection: Some(r), snap_rect: None, hovered: None, ..m.scene },
            ).unzoomed().menu_built().shaped(CursorShape::Default).shown(true).redrawn(),
            None => m,
        }
    }

    /// The left button released.
    pub open spec fn button_released(self, s: Spot) -> OverlayModel {
        if self.scene.adjust != Adjust::Idle {
            self.adjust_ended(s)
        } else {
            match self.menu {
                Some(m) => self.menu_released(m, s),
                None => if self.scene.dragging {
                    self.drag_ended(s)
                } else {
                    self
                },
            }
        }
    }

    /// The pointer moved. Driven by raw motion, it does not follow.
    pub open spec fn pointer_moved(self, s: Spot, snap: Option<Rect>) -> OverlayModel {
        if self.scene.fine {
            self
        } else if self.scene.dragging {
            self.redrawn()
        } else if self.scene.adjust != Adjust::Idle {
            self.adjusted(s).menu_built().redrawn()
        } else if self.menu is Some {
            let h = self.menu_hit(s);
            let m = if h != self.scene.hovered {
                self.with(Scene { hovered: h, ..self.scene }).redrawn()
            } else {
                self
            };
            m.shape_updated(s)
        } else {
            self.with(Scene { snap_rect: snap, ..self.scene }).redrawn()
        }
    }

    /// What follows the pointer: the adjustment in progress, or the window
    /// to snap to while nothing is selected.
    pub open spec fn followed(self, s: Spot, snap: Option<Rect>) -> OverlayModel {
        if self.scene.adjust != Adjust::Idle {
            self.adjusted(s)
        } else if !self.scene.dragging && self.scene.selection is None {
            self.with(Scene { snap_rect: snap, ..self.scene })
        } else {
            self
        }
    }

    /// Raw motion, while the pointer is driven by it.
    pub open spec fn nudged(self, s: Spot, snap: Option<Rect>) -> OverlayModel {
        if !self.scene.fine {
            self
        } else {
            self.followed(s, snap).centered().redrawn()
        }
    }

    /// The window has a new size.
    pub open spec fn window_resized(self, w: u32, h: u32) -> OverlayModel {
        self.with(
            Scene { surface_size: (at_least_one(w) as usize, at_least_one(h) as usize), ..self.scene },
        ).menu_built().redrawn()
    }

    /// What an event does while a region is selected. A synthetic key does
    /// nothing: it may be the one that opened the window.
    pub open spec fn selecting_event(self, e: OverlayEvent, s: Spot) -> OverlayModel {
        match e {
            OverlayEvent::Close => self.over(),
            OverlayEvent::Modifiers { ctrl, shift, alt } => self.with(
                Scene { ctrl, shift, alt, ..self.scene },
            ),
            OverlayEvent::Resized(w, h) => self.window_resized(w, h),
            OverlayEvent::Key { key, down, synthetic } => if synthetic || !down {
                self
            } else {
                match key {
                    KeyName::Escape => self.over(),
                    KeyName::Char(ch) => self.char_typed(ch),
                    KeyName::Other => self,
                }
            },
            OverlayEvent::Wheel(z) => if self.scene.selection is None || self.scene.adjust
                != Adjust::Idle {
                self.zoom_changed(z)
            } else {
                self
            },
            OverlayEvent::Press => self.button_pressed(s),
            OverlayEvent::Release => self.button_released(s),
            OverlayEvent::Moved { snap } => self.pointer_moved(s, snap),
            OverlayEvent::Other => self,
        }
    }
}

/// A length of a window: one at least.
pub open spec fn at_least_one(n: u32) -> u32 {
    if n >= 1 {
        n
    } else {
        1
    }
}

fn one_or_more(n: u32) -> (r: u32)
    ensures
        r == at_least_one(n),
{
    if n >= 1 {
        n
    } else {
        1
    }
}

/// Whether an event's values are valid: a window it snaps to lies in the
/// picture, and a size can be told.
pub open spec fn event_ok(e: OverlayEvent, img: (usize, usize)) -> bool {
    match e {
        OverlayEvent::Moved { snap } => is_choice(snap, img),
        OverlayEvent::Resized(w, h) => w <= i32::MAX && h <= i32::MAX,
        _ => true,
    }
}

impl Overlay {
    fn center_pointer(&mut self)
        requires
            old(self)@.wf(),
        ensures
            final(self)@.wf(),
            final(self)@ == old(self)@.centered(),
    {
        self.chores = Chores { warp: Warp::Center, ..self.chores };
    }

    fn set_zoom(&mut self, above: bool)
        requires
            old(self)@.wf(),
        ensures
            final(self)@.wf(),
            final(self)@ == old(self)@.zoom_set(above),
    {
        let was_fine = self.scene.fine;
        self.scene = Scene { zoomed: above, fine: above, ..self.scene };
        if above && !was_fine {
            self.center_pointer();
            self.set_visible(false);
        } else if !above && was_fine {
            self.exit_fine();
        }
    }

    fn set_menu_at_zoom(&mut self, above: bool)
        requires
            old(self)@.wf(),
        ensures
            final(self)@.wf(),
            final(self)@ == old(self)@.menu_at_zoom(above),
    {
        if self.scene.selection.is_none() {
            return;
        }
        if !above {
            self.build_menu();
            return;
        }
        proof {
            lemma_seen(self.menu);
        }
        self.menu = None;
        self.scene = Scene { hovered: None, ..self.scene };
    }

    /// Magnifies more or less. Magnified, the pointer is hidden and driven
    /// by raw motion, and the menu is not shown.
    pub fn change_zoom(&mut self, z: ZoomStep)
        requires
            old(self)@.wf(),
        ensures
            final(self)@.wf(),
            final(self)@ == old(self)@.zoom_changed(z),
    {
        if !z.changed {
            return;
        }
        self.set_zoom(z.above);
        self.set_menu_at_zoom(z.above);
        self.request_redraw();
    }

    /// The action of the menu's button with a key, if the menu is shown.
    fn keyed_action(&self, k: LocalKey) -> (a: Option<Action>)
        ensures
            a == (match self@.menu {
                Some(m) => m.keyed_from(k, 0),
                None => None,
            }),
    {
        proof {
            lemma_seen(self.menu);
        }
        match &self.menu {
            Some(m) => m.keyed(k),
            None => None,
        }
    }

    /// Does what a character key says.
    pub fn on_char(&mut self, ch: char)
        requires
            old(self)@.wf(),
        ensures
            final(self)@.wf(),
            final(self)@ == old(self)@.char_typed(ch),
    {
        let k = LocalKey::new(self.scene.ctrl, self.scene.shift, self.scene.alt, ch);
        let bare = !self.scene.ctrl && !self.scene.alt;
        let number = digit(ch);
        let chosen = self.scene.selection.is_some();
        if has_key(&self.kit.keys.undo, k) {
            self.undo();
        } else if has_key(&self.kit.keys.redo, k) {
            self.redo();
        } else if has_key(&self.kit.keys.reuse_region, k) {
            self.use_previous_region();
        } else if ch == '0' && bare {
            self.select_all_monitors();
        } else if number.is_some() && bare {
            if let Some(n) = number {
                self.select_monitor(n - 1);
            }
        } else if has_key(&self.kit.keys.clear_selection, k) && chosen {
            self.clear_selection();
        } else if has_key(&self.kit.keys.save_as, k) && chosen {
            self.ask_save();
        } else if has_key(&self.kit.keys.edit_external, k) && chosen && self.scene.external_editor {
            self.trigger(Action::EditExternal);
        } else if has_key(&self.kit.keys.menu.quit, k) {
            self.trigger(Action::Quit);
        } else if let Some(action) = self.keyed_action(k) {
            self.trigger(action);
        }
    }

    /// The menu's button under the pointer.
    pub fn menu_at(&self, s: &Spot) -> (i: Option<usize>)
        ensures
            i == self@.menu_hit(*s),
            i matches Some(k) ==> self@.menu is Some && k < self@.menu->0.buttons.len(),
    {
        proof {
            lemma_seen(self.menu);
        }
        match &self.menu {
            Some(m) => m.hit(s.window.0, s.window.1),
            None => None,
        }
    }

    /// Whether the pointer is over the menu's panel.
    fn menu_holds(&self, s: &Spot) -> (r: bool)
        ensures
            r == self@.over_menu(*s),
    {
        proof {
            lemma_seen(self.menu);
        }
        match &self.menu {
            Some(m) => m.rect.contains(s.window.0, s.window.1),
            None => false,
        }
    }

    /// The left button is pressed. A button of the menu takes it first, and
    /// the rest of the panel keeps it from what is underneath.
    pub fn on_press(&mut self, s: &Spot)
        requires
            old(self)@.wf(),
        ensures
            final(self)@.wf(),
            final(self)@ == old(self)@.button_pressed(*s),
    {
        if let Some(i) = self.menu_at(s) {
            self.scene = Scene { pressed: Some(i), ..self.scene };
            self.request_redraw();
            return;
        }
        if self.menu_holds(s) {
            return;
        }
        self.press_picture(s);
    }

    fn press_picture(&mut self, s: &Spot)
        requires
            old(self)@.wf(),
        ensures
            final(self)@.wf(),
            final(self)@ == old(self)@.picture_pressed(*s),
    {
        let sel = match self.scene.selection {
            Some(sel) => sel,
            None => {
                self.begin_drag(s.pixel);
                return;
            },
        };
        if let Some(h) = self.handle_at(s) {
            self.grab(Adjust::Resizing(h));
        } else if self.cursor_in_selection(s) {
            self.grab(Adjust::Moving { orig: sel });
        } else {
            self.begin_drag(s.pixel);
        }
    }

    fn grab(&mut self, adjust: Adjust)
        requires
            old(self)@.wf(),
            adjust matches Adjust::Moving { orig } ==> is_region(orig, old(self)@.img()),
        ensures
            final(self)@.wf(),
            final(self)@ == old(self)@.remembered().with(Scene { adjust, ..old(self)@.scene }),
    {
        self.push_undo();
        self.scene = Scene { adjust, ..self.scene };
    }

    fn release_menu(&mut self, s: &Spot)
        requires
            old(self)@.wf(),
            old(self)@.menu is Some,
        ensures
            final(self)@.wf(),
            final(self)@ == old(self)@.menu_released(old(self)@.menu->0, *s),
    {
        match self.released_button(s) {
            Some(Some(action)) => self.trigger(action),
            Some(None) => {},
            None => {
                self.scene = Scene { pressed: None, ..self.scene };
                self.request_redraw();
            },
        }
    }

    /// The action of the button that was pressed and is now released on, if
    /// there is such a button and if it is not disabled.
    fn released_button(&self, s: &Spot) -> (r: Option<Option<Action>>)
        requires
            self@.menu is Some,
        ensures
            r == (match self@.scene.pressed {
                Some(i) if self@.menu_hit(*s) == Some(i) => Some(
                    if self@.menu->0.buttons[i as int].disabled {
                        None
                    } else {
                        Some(self@.menu->0.buttons[i as int].action)
                    },
                ),
                _ => None,
            }),
    {
        proof {
            lemma_seen(self.menu);
        }
        let hit = self.menu_at(s);
        match (self.scene.pressed, hit, &self.menu) {
            (Some(i), Some(k), Some(m)) => if i == k {
                Some(m.usable(i))
            } else {
                None
            },
            _ => None,
        }
    }

    fn end_drag(&mut self, s: &Spot)
        requires
            old(self)@.wf(),
            old(self)@.menu is None,
        ensures
            final(self)@.wf(),
            final(self)@ == old(self)@.drag_ended(*s),
    {
        let chosen = self.candidate_rect(s);
        self.scene = Scene { dragging: false, drag_start: None, ..self.scene };
        if let Some(r) = chosen {
            self.scene = Scene {
                selection: Some(r),
                snap_rect: None,
                hovered: None,
                ..self.scene
            };
            self.reset_zoom();
            self.build_menu();
            self.set_cursor(CursorShape::Default);
            self.set_visible(true);
            self.request_redraw();
        }
    }

    /// The left button is released: an adjustment is committed first, next
    /// the menu's pressed button acts, else a drag becomes the selection.
    pub fn on_release(&mut self, s: &Spot)
        requires
            old(self)@.wf(),
        ensures
            final(self)@.wf(),
            final(self)@ == old(self)@.button_released(*s),
    {
        if self.scene.adjust != Adjust::Idle {
            self.scene = Scene { adjust: Adjust::Idle, ..self.scene };
            self.reset_zoom();
            self.build_menu();
            self.update_adjust_cursor(s);
            self.request_redraw();
            return;
        }
        proof {
            lemma_seen(self.menu);
        }
        if self.menu.is_some() {
            self.release_menu(s);
        } else if self.scene.dragging {
            self.end_drag(s);
        }
    }

    /// The pointer moved.
    pub fn on_moved(&mut self, s: &Spot, snap: Option<Rect>)
        requires
            old(self)@.wf(),
            is_choice(snap, old(self)@.img()),
        ensures
            final(self)@.wf(),
            final(self)@ == old(self)@.pointer_moved(*s, snap),
    {
        proof {
            lemma_seen(self.menu);
        }
        if self.scene.fine {
            return;
        }
        if self.scene.dragging {
            self.request_redraw();
        } else if self.scene.adjust != Adjust::Idle {
            self.apply_adjust(s);
            self.build_menu();
            self.request_redraw();
        } else if self.menu.is_some() {
            let h = self.menu_at(s);
            let same = match (h, self.scene.hovered) {
                (Some(a), Some(b)) => a == b,
                (None, None) => true,
                _ => false,
            };
            if !same {
                self.scene = Scene { hovered: h, ..self.scene };
                self.request_redraw();
            }
            self.update_adjust_cursor(s);
        } else {
            self.scene = Scene { snap_rect: snap, ..self.scene };
            self.request_redraw();
        }
    }

    /// The pointer moved by raw motion. The window's own pointer goes back to
    /// the center, to keep getting it.
    pub fn device_event(&mut self, s: &Spot, snap: Option<Rect>)
        requires
            old(self)@.wf(),
            is_choice(snap, old(self)@.img()),
        ensures
            final(self)@.wf(),
            final(self)@ == old(self)@.nudged(*s, snap),
    {
        if !self.scene.fine {
            return;
        }
        self.follow(s, snap);
        self.center_pointer();
        self.request_redraw();
    }

    fn follow(&mut self, s: &Spot, snap: Option<Rect>)
        requires
            old(self)@.wf(),
            is_choice(snap, old(self)@.img()),
        ensures
            final(self)@.wf(),
            final(self)@ == old(self)@.followed(*s, snap),
    {
        if self.scene.adjust != Adjust::Idle {
            self.apply_adjust(s);
        } else if !self.scene.dragging && self.scene.selection.is_none() {
            self.scene = Scene { snap_rect: snap, ..self.scene };
        }
    }

    /// Does what an event says while a region is selected.
    pub fn on_selecting(&mut self, e: OverlayEvent, s: &Spot)
        requires
            old(self)@.wf(),
            event_ok(e, old(self)@.img()),
        ensures
            final(self)@.wf(),
            final(self)@ == old(self)@.selecting_event(e, *s),
    {
        match e {
            OverlayEvent::Close => self.finish(),
            OverlayEvent::Modifiers { ctrl, shift, alt } => {
                self.scene = Scene { ctrl, shift, alt, ..self.scene };
            },
            OverlayEvent::Resized(w, h) => {
                let size: (usize, usize) = (one_or_more(w) as usize, one_or_more(h) as usize);
                self.scene = Scene { surface_size: size, ..self.scene };
                self.build_menu();
                self.request_redraw();
            },
            OverlayEvent::Key { key, down, synthetic } => {
                if !synthetic && down {
                    match key {
                        KeyName::Escape => self.finish(),
                        KeyName::Char(ch) => self.on_char(ch),
                        KeyName::Other => {},
                    }
                }
            },
            OverlayEvent::Wheel(z) => {
                if self.scene.selection.is_none() || self.scene.adjust != Adjust::Idle {
                    self.change_zoom(z);
                }
            },
            OverlayEvent::Press => self.on_press(s),
            OverlayEvent::Release => self.on_release(s),
            OverlayEvent::Moved { snap } => self.on_moved(s, snap),
            OverlayEvent::Other => {},
        }
    }
}

} // verus!
