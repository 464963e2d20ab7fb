//! The action menu shown beside a committed selection: its layout, hit-test
//! and looks.

use vstd::prelude::*;

use crate::fields::{decimal, decimal_text};
use crate::keys::{copy_keys, has_key, LocalKey, RegionKeys};
use crate::rect::{floor_sub, Rect};
use crate::toolbar::boxed;

verus! {

/// Side of a square button, shared with the recording control bar.
pub const ACTION_BTN: usize = 56;

/// Gap between the selection and the menu.
pub const MARGIN: usize = 10;

/// Height of a row of the aspect-ratio list.
pub const ASPECT_ROW_H: usize = 22;

/// A divider's width as a part of a button's, and its least width.
pub const DIVIDER_W_DIVISOR: usize = 6;

pub const DIVIDER_W_MIN: usize = 6;

pub const MENU_BG: u32 = 0x0033_3333;

pub const MENU_HOVER: u32 = 0x0045_4545;

pub const MENU_PRESSED: u32 = 0x004D_A6FF;

pub const MENU_TEXT: u32 = 0x00EA_EAEA;

pub const MENU_ICON: u32 = 0x0099_9999;

pub const MENU_DISABLED_BG: u32 = 0x0026_2626;

pub const MENU_DISABLED_TEXT: u32 = 0x0066_6666;

pub const MENU_DISABLED_ICON: u32 = 0x0055_5555;

/// What can be done with a selection.
#[derive(Clone, Copy, Debug, PartialEq, Eq, Structural)]
pub enum Action {
    Save,
    Copy,
    Edit,
    /// Hands the picture to an external editor.
    EditExternal,
    Upload,
    Record,
    /// Discards the selection and ends the session.
    Quit,
    Undo,
    Redo,
    ReuseRegion,
    ClearSelection,
    SaveAs,
}

/// An entry of the menu, in an order of the user's choice.
#[derive(Clone, Copy, Debug, PartialEq, Eq, Structural)]
pub enum MenuButton {
    Size,
    AspectRatio,
    Save,
    Copy,
    Edit,
    Upload,
    Video,
    Quit,
    Undo,
    Redo,
    ReuseRegion,
    ClearSelection,
    SaveAs,
    EditExternal,
    /// A line between buttons.
    Divider,
    /// A gap between buttons.
    Spacer,
}

impl MenuButton {
    /// The entry's short label.
    pub open spec fn caption(self) -> Seq<char> {
        match self {
            MenuButton::Size => "Size"@,
            MenuButton::AspectRatio => "Aspect"@,
            MenuButton::Save => "Save"@,
            MenuButton::Copy => "Copy"@,
            MenuButton::Edit => "Edit"@,
            MenuButton::Upload => "Upload"@,
            MenuButton::Video => "Video"@,
            MenuButton::Quit => "Quit"@,
            MenuButton::Undo => "Undo"@,
            MenuButton::Redo => "Redo"@,
            MenuButton::ReuseRegion => "Reuse"@,
            MenuButton::ClearSelection => "Clear"@,
            MenuButton::SaveAs => "SaveAs"@,
            MenuButton::EditExternal => "External"@,
            MenuButton::Divider => "Divider"@,
            MenuButton::Spacer => "Spacer"@,
        }
    }

    /// The entry's short label.
    pub fn label(self) -> (s: &'static str)
        ensures
            s@ == self.caption(),
    {
        match self {
            MenuButton::Size => "Size",
            MenuButton::AspectRatio => "Aspect",
            MenuButton::Save => "Save",
            MenuButton::Copy => "Copy",
            MenuButton::Edit => "Edit",
            MenuButton::Upload => "Upload",
            MenuButton::Video => "Video",
            MenuButton::Quit => "Quit",
            MenuButton::Undo => "Undo",
            MenuButton::Redo => "Redo",
            MenuButton::ReuseRegion => "Reuse",
            MenuButton::ClearSelection => "Clear",
            MenuButton::SaveAs => "SaveAs",
            MenuButton::EditExternal => "External",
            MenuButton::Divider => "Divider",
            MenuButton::Spacer => "Spacer",
        }
    }

    /// The action of an entry that is a button.
    pub open spec fn action_of(self) -> Option<Action> {
        match self {
            MenuButton::Size | MenuButton::AspectRatio | MenuButton::Divider
            | MenuButton::Spacer => None,
            MenuButton::Save => Some(Action::Save),
            MenuButton::Copy => Some(Action::Copy),
            MenuButton::Edit => Some(Action::Edit),
            MenuButton::Upload => Some(Action::Upload),
            MenuButton::Video => Some(Action::Record),
            MenuButton::Quit => Some(Action::Quit),
            MenuButton::Undo => Some(Action::Undo),
            MenuButton::Redo => Some(Action::Redo),
            MenuButton::ReuseRegion => Some(Action::ReuseRegion),
            MenuButton::ClearSelection => Some(Action::ClearSelection),
            MenuButton::SaveAs => Some(Action::SaveAs),
            MenuButton::EditExternal => Some(Action::EditExternal),
        }
    }

    /// Every entry that does or shows something, in its first order.
    pub open spec fn every() -> Seq<MenuButton> {
        seq![
            MenuButton::Size,
            MenuButton::AspectRatio,
            MenuButton::Save,
            MenuButton::Copy,
            MenuButton::Edit,
            MenuButton::Upload,
            MenuButton::Video,
            MenuButton::Quit,
            MenuButton::Undo,
            MenuButton::Redo,
            MenuButton::ReuseRegion,
            MenuButton::ClearSelection,
            MenuButton::SaveAs,
            MenuButton::EditExternal,
        ]
    }

    /// Every entry that does or shows something, in its first order.
    pub fn all() -> (v: Vec<MenuButton>)
        ensures
            v@ == Self::every(),
    {
        let v = vec![
            MenuButton::Size,
            MenuButton::AspectRatio,
            MenuButton::Save,
            MenuButton::Copy,
            MenuButton::Edit,
            MenuButton::Upload,
            MenuButton::Video,
            MenuButton::Quit,
            MenuButton::Undo,
            MenuButton::Redo,
            MenuButton::ReuseRegion,
            MenuButton::ClearSelection,
            MenuButton::SaveAs,
            MenuButton::EditExternal,
        ];
        assert(v@ =~= Self::every());
        v
    }
}

/// Which actions can be used at the moment.
#[derive(Clone, Copy, Debug)]
pub struct MenuAvailability {
    pub uploaders: bool,
    pub external_editor: bool,
    pub undo: bool,
    pub redo: bool,
    pub reuse_region: bool,
}

/// Whether an action's button is disabled. An action without a condition
/// never is.
pub open spec fn disabled(action: Action, avail: MenuAvailability) -> bool {
    match action {
        Action::Upload => !avail.uploaders,
        Action::EditExternal => !avail.external_editor,
        Action::Undo => !avail.undo,
        Action::Redo => !avail.redo,
        Action::ReuseRegion => !avail.reuse_region,
        _ => false,
    }
}

/// Whether an action's button is disabled.
pub fn action_disabled(action: Action, avail: &MenuAvailability) -> (r: bool)
    ensures
        r == disabled(action, *avail),
{
    match action {
        Action::Upload => !avail.uploaders,
        Action::EditExternal => !avail.external_editor,
        Action::Undo => !avail.undo,
        Action::Redo => !avail.redo,
        Action::ReuseRegion => !avail.reuse_region,
        _ => false,
    }
}

// ---- Aspect ratios ----

/// The aspect ratios on offer, `None` for a free one.
pub open spec fn presets() -> Seq<Option<(u32, u32)>> {
    seq![None, Some((1u32, 1u32)), Some((16u32, 9u32)), Some((4u32, 3u32))]
}

/// The aspect ratios on offer, in the order they are shown.
pub fn aspect_presets() -> (p: [Option<(u32, u32)>; 4])
    ensures
        p@ == presets(),
{
    let p: [Option<(u32, u32)>; 4] = [None, Some((1, 1)), Some((16, 9)), Some((4, 3))];
    assert(p@ =~= presets());
    p
}

/// The label of an aspect ratio.
pub open spec fn aspect_text(preset: Option<(u32, u32)>) -> Seq<char> {
    match preset {
        None => "Free"@,
        Some((w, h)) => decimal_text(w as int).push(':') + decimal_text(h as int),
    }
}

/// The label of an aspect ratio: "Free", "1:1" and so on.
pub fn aspect_option_label(preset: Option<(u32, u32)>) -> (s: String)
    ensures
        s@ == aspect_text(preset),
{
    match preset {
        None => "Free".to_string(),
        Some((w, h)) => {
            let mut s = decimal(w as i64);
            s.push(':');
            s.append(decimal(h as i64).as_str());
            s
        },
    }
}

/// The `i`-th row of the open list, below the closed button.
pub open spec fn option_row(closed: Rect, i: int) -> Rect {
    Rect {
        x0: closed.x0,
        y0: (closed.y1 + i * 22) as usize,
        x1: closed.x1,
        y1: (closed.y1 + i * 22 + 22) as usize,
    }
}

/// The rows of the open list, stacked directly below the closed button.
pub fn aspect_option_rects(closed: Rect) -> (rows: [Rect; 4])
    requires
        closed.y1 + 88 <= usize::MAX,
    ensures
        forall|i: int| 0 <= i < 4 ==> #[trigger] rows@[i] == option_row(closed, i),
{
    let y: usize = closed.y1;
    let h: usize = ASPECT_ROW_H;
    [
        Rect { x0: closed.x0, y0: y, x1: closed.x1, y1: y + h },
        Rect { x0: closed.x0, y0: y + h, x1: closed.x1, y1: y + 2 * h },
        Rect { x0: closed.x0, y0: y + 2 * h, x1: closed.x1, y1: y + 3 * h },
        Rect { x0: closed.x0, y0: y + 3 * h, x1: closed.x1, y1: y + 4 * h },
    ]
}

/// The row of the open list at a pixel, as its place among the presets.
pub fn aspect_option_hit(closed: Rect, x: usize, y: usize) -> (row: Option<usize>)
    requires
        closed.y1 + 88 <= usize::MAX,
    ensures
        match row {
            Some(i) => i < 4 && option_row(closed, i as int).holds(x as int, y as int),
            None => forall|i: int|
                0 <= i < 4 ==> !(#[trigger] option_row(closed, i)).holds(x as int, y as int),
        },
{
    let rows = aspect_option_rects(closed);
    let mut i: usize = 0;
    while i < 4
        invariant
            i <= 4,
            forall|k: int| 0 <= k < 4 ==> #[trigger] rows@[k] == option_row(closed, k),
            forall|k: int|
                0 <= k < i ==> !(#[trigger] option_row(closed, k)).holds(x as int, y as int),
        decreases 4 - i,
    {
        assert(rows@[i as int] == option_row(closed, i as int));
        if rows[i].contains(x, y) {
            return Some(i);
        }
        i += 1;
    }
    None
}

/// The rows follow each other without a gap or an overlap, so a pixel is in
/// one of them at most.
pub proof fn law_option_rows_stack(closed: Rect, i: int, j: int)
    requires
        0 <= i < j < 4,
        closed.y1 + 88 <= usize::MAX,
    ensures
        option_row(closed, 0).y0 == closed.y1,
        option_row(closed, i).y1 <= option_row(closed, j).y0,
        j == i + 1 ==> option_row(closed, i).y1 == option_row(closed, j).y0,
        option_row(closed, i).apart(option_row(closed, j)),
{
}

// ---- Layout ----

/// The menu's measures on a monitor: a button's side and the gap to the
/// selection.
#[derive(Clone, Copy, Debug)]
pub struct MenuScale {
    pub action_btn: usize,
    pub margin: usize,
}

impl MenuScale {
    /// The measures on a monitor that is not scaled.
    pub fn plain() -> (s: Self)
        ensures
            s == (MenuScale { action_btn: ACTION_BTN, margin: MARGIN }),
    {
        MenuScale { action_btn: ACTION_BTN, margin: MARGIN }
    }
}

/// The larger of two numbers.
pub open spec fn hi(a: int, b: int) -> int {
    if a >= b {
        a
    } else {
        b
    }
}

/// The smaller of two numbers.
pub open spec fn lo(a: int, b: int) -> int {
    if a <= b {
        a
    } else {
        b
    }
}

fn max_u(a: usize, b: usize) -> (r: usize)
    ensures
        r == hi(a as int, b as int),
{
    if a >= b {
        a
    } else {
        b
    }
}

fn min_u(a: usize, b: usize) -> (r: usize)
    ensures
        r == lo(a as int, b as int),
{
    if a <= b {
        a
    } else {
        b
    }
}

/// The width of a divider or a spacer.
pub open spec fn divider_width(action_btn: int) -> int {
    hi(action_btn / 6, 6)
}

/// The width of an entry.
pub open spec fn slot_width(b: MenuButton, action_btn: int) -> int {
    match b {
        MenuButton::Divider | MenuButton::Spacer => divider_width(action_btn),
        _ => action_btn,
    }
}

/// The width of the first `i` entries.
pub open spec fn width_of(order: Seq<MenuButton>, action_btn: int, i: int) -> int
    decreases i,
{
    if i <= 0 {
        0
    } else {
        width_of(order, action_btn, i - 1) + slot_width(order[i - 1], action_btn)
    }
}

/// Where the menu starts: centered on the selection as far as the bounds
/// allow, below it if there is room, else above, else at the bounds' lower
/// edge.
pub open spec fn menu_origin(sel: Rect, bounds: Rect, w: int, scale: MenuScale) -> (int, int) {
    let h = scale.action_btn as int;
    let gap = scale.margin as int;
    let center = (sel.x0 + sel.x1) / 2;
    let x = lo(
        hi(floor_sub(center, w / 2), bounds.x0 as int),
        hi(floor_sub(bounds.x1 as int, w), bounds.x0 as int),
    );
    let y = if sel.y1 + gap + h <= bounds.y1 {
        sel.y1 + gap
    } else if sel.y0 >= bounds.y0 + h + gap {
        sel.y0 - h - gap
    } else {
        hi(floor_sub(bounds.y1 as int, h), bounds.y0 as int)
    };
    (x, y)
}

/// Whether the coordinates of the menu fit.
pub open spec fn menu_fits(sel: Rect, bounds: Rect, w: int, scale: MenuScale) -> bool {
    let h = scale.action_btn as int;
    &&& sel.ordered()
    &&& sel.x1 - sel.x0 <= i64::MAX
    &&& sel.y1 - sel.y0 <= i64::MAX
    &&& sel.x0 + sel.x1 <= usize::MAX
    &&& sel.y1 + scale.margin + h <= usize::MAX
    &&& bounds.y0 + h + scale.margin <= usize::MAX
    &&& bounds.x0 + w <= usize::MAX
    &&& bounds.x1 + w <= usize::MAX
}

/// A button of the menu.
#[derive(Debug)]
pub struct Button {
    pub rect: Rect,
    pub action: Action,
    pub label: &'static str,
    /// The keys that trigger it.
    pub hotkeys: Vec<LocalKey>,
    /// Neither a click nor a key triggers it. It still takes clicks.
    pub disabled: bool,
}

/// What a [`Button`] stands for.
#[verifier::ext_equal]
pub struct ButtonModel {
    pub rect: Rect,
    pub action: Action,
    pub label: Seq<char>,
    pub hotkeys: Seq<LocalKey>,
    pub disabled: bool,
}

impl View for Button {
    type V = ButtonModel;

    open spec fn view(&self) -> ButtonModel {
        ButtonModel {
            rect: self.rect,
            action: self.action,
            label: self.label@,
            hotkeys: self.hotkeys@,
            disabled: self.disabled,
        }
    }
}

/// The keys of an action.
pub open spec fn keys_of(action: Action, keys: RegionKeys) -> Seq<LocalKey> {
    match action {
        Action::Save => keys.menu.save@,
        Action::Copy => keys.menu.copy@,
        Action::Edit => keys.menu.edit@,
        Action::EditExternal => keys.edit_external@,
        Action::Upload => keys.menu.upload@,
        Action::Record => keys.menu.record@,
        Action::Quit => keys.menu.quit@,
        Action::Undo => keys.undo@,
        Action::Redo => keys.redo@,
        Action::ReuseRegion => keys.reuse_region@,
        Action::ClearSelection => keys.clear_selection@,
        Action::SaveAs => keys.save_as@,
    }
}

fn action_keys(action: Action, keys: &RegionKeys) -> (k: Vec<LocalKey>)
    ensures
        k@ == keys_of(action, *keys),
{
    match action {
        Action::Save => copy_keys(&keys.menu.save),
        Action::Copy => copy_keys(&keys.menu.copy),
        Action::Edit => copy_keys(&keys.menu.edit),
        Action::EditExternal => copy_keys(&keys.edit_external),
        Action::Upload => copy_keys(&keys.menu.upload),
        Action::Record => copy_keys(&keys.menu.record),
        Action::Quit => copy_keys(&keys.menu.quit),
        Action::Undo => copy_keys(&keys.undo),
        Action::Redo => copy_keys(&keys.redo),
        Action::ReuseRegion => copy_keys(&keys.reuse_region),
        Action::ClearSelection => copy_keys(&keys.clear_selection),
        Action::SaveAs => copy_keys(&keys.save_as),
    }
}

/// What an entry is, when it is laid out.
pub enum MenuSlot {
    Size,
    Aspect,
    Action(Action),
    Divider,
    Spacer,
}

/// What an entry is.
pub open spec fn slot_of(b: MenuButton) -> MenuSlot {
    match b {
        MenuButton::Size => MenuSlot::Size,
        MenuButton::AspectRatio => MenuSlot::Aspect,
        MenuButton::Divider => MenuSlot::Divider,
        MenuButton::Spacer => MenuSlot::Spacer,
        _ => MenuSlot::Action(b.action_of()->0),
    }
}

/// What an entry is.
pub fn menu_slot(b: MenuButton) -> (s: MenuSlot)
    ensures
        s == slot_of(b),
{
    match b {
        MenuButton::Size => MenuSlot::Size,
        MenuButton::AspectRatio => MenuSlot::Aspect,
        MenuButton::Save => MenuSlot::Action(Action::Save),
        MenuButton::Copy => MenuSlot::Action(Action::Copy),
        MenuButton::Edit => MenuSlot::Action(Action::Edit),
        MenuButton::Upload => MenuSlot::Action(Action::Upload),
        MenuButton::Video => MenuSlot::Action(Action::Record),
        MenuButton::Quit => MenuSlot::Action(Action::Quit),
        MenuButton::Undo => MenuSlot::Action(Action::Undo),
        MenuButton::Redo => MenuSlot::Action(Action::Redo),
        MenuButton::ReuseRegion => MenuSlot::Action(Action::ReuseRegion),
        MenuButton::ClearSelection => MenuSlot::Action(Action::ClearSelection),
        MenuButton::SaveAs => MenuSlot::Action(Action::SaveAs),
        MenuButton::EditExternal => MenuSlot::Action(Action::EditExternal),
        MenuButton::Divider => MenuSlot::Divider,
        MenuButton::Spacer => MenuSlot::Spacer,
    }
}

/// The place of the `i`-th entry of a menu that starts at `at`.
pub open spec fn slot_rect(order: Seq<MenuButton>, action_btn: int, at: (int, int), i: int) -> Rect {
    boxed(
        at.0 + width_of(order, action_btn, i),
        at.1,
        slot_width(order[i], action_btn),
        action_btn,
    )
}

/// The buttons among the first `n` entries.
pub open spec fn buttons_of(
    order: Seq<MenuButton>,
    keys: RegionKeys,
    avail: MenuAvailability,
    action_btn: int,
    at: (int, int),
    n: int,
) -> Seq<ButtonModel>
    decreases n,
{
    if n <= 0 {
        Seq::empty()
    } else {
        let rest = buttons_of(order, keys, avail, action_btn, at, n - 1);
        let b = order[n - 1];
        match b.action_of() {
            Some(action) => rest.push(
                ButtonModel {
                    rect: slot_rect(order, action_btn, at, n - 1),
                    action,
                    label: b.caption(),
                    hotkeys: keys_of(action, keys),
                    disabled: disabled(action, avail),
                },
            ),
            None => rest,
        }
    }
}

/// The places of the dividers among the first `n` entries.
pub open spec fn dividers_of(
    order: Seq<MenuButton>,
    action_btn: int,
    at: (int, int),
    n: int,
) -> Seq<Rect>
    decreases n,
{
    if n <= 0 {
        Seq::empty()
    } else {
        let rest = dividers_of(order, action_btn, at, n - 1);
        if order[n - 1] == MenuButton::Divider {
            rest.push(slot_rect(order, action_btn, at, n - 1))
        } else {
            rest
        }
    }
}

/// The place of the last entry `b` among the first `n`.
pub open spec fn place_of(
    order: Seq<MenuButton>,
    b: MenuButton,
    action_btn: int,
    at: (int, int),
    n: int,
) -> Option<Rect>
    decreases n,
{
    if n <= 0 {
        None
    } else if order[n - 1] == b {
        Some(slot_rect(order, action_btn, at, n - 1))
    } else {
        place_of(order, b, action_btn, at, n - 1)
    }
}

/// What a list of buttons stands for.
pub open spec fn models_of(list: Seq<Button>) -> Seq<ButtonModel> {
    list.map_values(|b: Button| b@)
}

/// The menu beside a selection.
#[derive(Debug)]
pub struct Menu {
    pub buttons: Vec<Button>,
    /// The selection's size, as text.
    pub size_w_label: String,
    pub size_h_label: String,
    /// The aspect ratio, as text.
    pub aspect_label: String,
    /// Where the size is shown, if it is.
    pub size_rect: Option<Rect>,
    /// Where the aspect ratio is shown, if it is.
    pub aspect_rect: Option<Rect>,
    pub divider_rects: Vec<Rect>,
    /// The whole panel. A click anywhere in it stays with the menu.
    pub rect: Rect,
}

/// What a [`Menu`] stands for.
#[verifier::ext_equal]
pub struct MenuModel {
    pub buttons: Seq<ButtonModel>,
    pub size_w_label: Seq<char>,
    pub size_h_label: Seq<char>,
    pub aspect_label: Seq<char>,
    pub size_rect: Option<Rect>,
    pub aspect_rect: Option<Rect>,
    pub divider_rects: Seq<Rect>,
    pub rect: Rect,
}

impl View for Menu {
    type V = MenuModel;

    open spec fn view(&self) -> MenuModel {
        MenuModel {
            buttons: models_of(self.buttons@),
            size_w_label: self.size_w_label@,
            size_h_label: self.size_h_label@,
            aspect_label: self.aspect_label@,
            size_rect: self.size_rect,
            aspect_rect: self.aspect_rect,
            divider_rects: self.divider_rects@,
            rect: self.rect,
        }
    }
}

impl MenuModel {
    /// The menu beside the selection `sel`, on the monitor `bounds`.
    #[verifier::opaque]
    pub open spec fn laid_out(
        sel: Rect,
        bounds: Rect,
        keys: RegionKeys,
        order: Seq<MenuButton>,
        avail: MenuAvailability,
        lock: Option<(u32, u32)>,
        scale: MenuScale,
    ) -> MenuModel {
        let n = order.len() as int;
        let btn = scale.action_btn as int;
        let w = width_of(order, btn, n);
        let at = menu_origin(sel, bounds, w, scale);
        MenuModel {
            buttons: buttons_of(order, keys, avail, btn, at, n),
            size_w_label: decimal_text(sel.x1 - sel.x0),
            size_h_label: decimal_text(sel.y1 - sel.y0),
            aspect_label: aspect_text(lock),
            size_rect: place_of(order, MenuButton::Size, btn, at, n),
            aspect_rect: place_of(order, MenuButton::AspectRatio, btn, at, n),
            divider_rects: dividers_of(order, btn, at, n),
            rect: boxed(at.0, at.1, w, btn),
        }
    }

    /// The first button from `i` on at a pixel, disabled or not.
    pub open spec fn hit_from(self, x: int, y: int, i: int) -> Option<usize>
        decreases self.buttons.len() - i,
    {
        if i >= self.buttons.len() {
            None
        } else if self.buttons[i].rect.holds(x, y) {
            Some(i as usize)
        } else {
            self.hit_from(x, y, i + 1)
        }
    }

    /// The action of the first usable button from `i` on that has a key.
    pub open spec fn keyed_from(self, k: LocalKey, i: int) -> Option<Action>
        decreases self.buttons.len() - i,
    {
        if i >= self.buttons.len() {
            None
        } else if !self.buttons[i].disabled && self.buttons[i].hotkeys.contains(k) {
            Some(self.buttons[i].action)
        } else {
            self.keyed_from(k, i + 1)
        }
    }
}

/// The panel's entries never get narrower as more are added.
proof fn lemma_width_grows(order: Seq<MenuButton>, action_btn: int, i: int, j: int)
    requires
        0 <= i <= j,
        0 <= action_btn,
    ensures
        0 <= width_of(order, action_btn, i) <= width_of(order, action_btn, j),
    decreases j,
{
    if i < j {
        lemma_width_grows(order, action_btn, i, j - 1);
    } else if i > 0 {
        lemma_width_grows(order, action_btn, i - 1, i - 1);
    }
}

/// The panel's width.
pub fn panel_width(order: &[MenuButton], action_btn: usize) -> (w: usize)
    requires
        width_of(order@, action_btn as int, order@.len() as int) <= usize::MAX,
    ensures
        w == width_of(order@, action_btn as int, order@.len() as int),
{
    let divider_w: usize = max_u(action_btn / DIVIDER_W_DIVISOR, DIVIDER_W_MIN);
    let mut w: usize = 0;
    let mut i: usize = 0;
    while i < order.len()
        invariant
            i <= order@.len(),
            divider_w == divider_width(action_btn as int),
            w == width_of(order@, action_btn as int, i as int),
            width_of(order@, action_btn as int, order@.len() as int) <= usize::MAX,
        decreases order.len() - i,
    {
        proof {
            lemma_width_grows(order@, action_btn as int, i + 1, order@.len() as int);
        }
        w += match order[i] {
            MenuButton::Divider | MenuButton::Spacer => divider_w,
            _ => action_btn,
        };
        i += 1;
    }
    w
}

/// Where the menu starts.
fn origin(sel: Rect, bounds: Rect, w: usize, scale: MenuScale) -> (at: (usize, usize))
    requires
        menu_fits(sel, bounds, w as int, scale),
    ensures
        (at.0 as int, at.1 as int) == menu_origin(sel, bounds, w as int, scale),
        at.0 + w <= usize::MAX,
        at.1 + scale.action_btn <= usize::MAX,
{
    let h: usize = scale.action_btn;
    let center: usize = (sel.x0 + sel.x1) / 2;
    let x: usize = min_u(
        max_u(center.saturating_sub(w / 2), bounds.x0),
        max_u(bounds.x1.saturating_sub(w), bounds.x0),
    );
    let below: usize = sel.y1 + scale.margin;
    let y: usize = if below + h <= bounds.y1 {
        below
    } else if sel.y0 >= bounds.y0 + h + scale.margin {
        sel.y0 - h - scale.margin
    } else {
        max_u(bounds.y1.saturating_sub(h), bounds.y0)
    };
    (x, y)
}

impl Menu {
    /// Lays the menu out beside the selection `sel`, on the monitor `bounds`
    /// that shows it, with the entries in `button_order` from left to right.
    /// Buttons whose action cannot be used are disabled.
    pub fn layout(
        sel: Rect,
        bounds: Rect,
        keys: &RegionKeys,
        button_order: &[MenuButton],
        avail: &MenuAvailability,
        aspect_lock: Option<(u32, u32)>,
        scale: MenuScale,
    ) -> (menu: Self)
        requires
            width_of(button_order@, scale.action_btn as int, button_order@.len() as int)
                <= usize::MAX,
            menu_fits(
                sel,
                bounds,
                width_of(button_order@, scale.action_btn as int, button_order@.len() as int),
                scale,
            ),
        ensures
            menu@ == MenuModel::laid_out(
                sel,
                bounds,
                *keys,
                button_order@,
                *avail,
                aspect_lock,
                scale,
            ),
    {
        proof {
            reveal(MenuModel::laid_out);
        }
        let btn: usize = scale.action_btn;
        let w: usize = panel_width(button_order, btn);
        let divider_w: usize = max_u(btn / DIVIDER_W_DIVISOR, DIVIDER_W_MIN);
        let (px, py) = origin(sel, bounds, w, scale);
        let ghost at = (px as int, py as int);
        let mut buttons: Vec<Button> = Vec::new();
        let mut size_rect: Option<Rect> = None;
        let mut aspect_rect: Option<Rect> = None;
        let mut divider_rects: Vec<Rect> = Vec::new();
        let mut bx: usize = px;
        let mut i: usize = 0;
        assert(models_of(buttons@) =~= buttons_of(button_order@, *keys, *avail, btn as int, at, 0));
        while i < button_order.len()
            invariant
                i <= button_order@.len(),
                at == (px as int, py as int),
                btn == scale.action_btn,
                divider_w == divider_width(btn as int),
                w == width_of(button_order@, btn as int, button_order@.len() as int),
                px + w <= usize::MAX,
                py + btn <= usize::MAX,
                bx == px + width_of(button_order@, btn as int, i as int),
                models_of(buttons@) == buttons_of(
                    button_order@,
                    *keys,
                    *avail,
                    btn as int,
                    at,
                    i as int,
                ),
                size_rect == place_of(button_order@, MenuButton::Size, btn as int, at, i as int),
                aspect_rect == place_of(
                    button_order@,
                    MenuButton::AspectRatio,
                    btn as int,
                    at,
                    i as int,
                ),
                divider_rects@ == dividers_of(button_order@, btn as int, at, i as int),
            decreases button_order.len() - i,
        {
            let b = button_order[i];
            proof {
                lemma_width_grows(button_order@, btn as int, i + 1, button_order@.len() as int);
            }
            let slot = menu_slot(b);
            let sw: usize = match slot {
                MenuSlot::Divider | MenuSlot::Spacer => divider_w,
                _ => btn,
            };
            let rect = Rect { x0: bx, y0: py, x1: bx + sw, y1: py + btn };
            assert(rect == slot_rect(button_order@, btn as int, at, i as int));
            match slot {
                MenuSlot::Size => {
                    size_rect = Some(rect);
                },
                MenuSlot::Aspect => {
                    aspect_rect = Some(rect);
                },
                MenuSlot::Action(action) => {
                    let button = Button {
                        rect,
                        action,
                        label: b.label(),
                        hotkeys: action_keys(action, keys),
                        disabled: action_disabled(action, avail),
                    };
                    assert(models_of(buttons@.push(button)) =~= models_of(buttons@).push(button@));
                    buttons.push(button);
                },
                MenuSlot::Divider => {
                    divider_rects.push(rect);
                },
                MenuSlot::Spacer => {},
            }
            bx += sw;
            i += 1;
        }
        Menu {
            buttons,
            size_w_label: decimal(sel.width() as i64),
            size_h_label: decimal(sel.height() as i64),
            aspect_label: aspect_option_label(aspect_lock),
            size_rect,
            aspect_rect,
            divider_rects,
            rect: Rect { x0: px, y0: py, x1: px + w, y1: py + btn },
        }
    }

    /// The button at a pixel, disabled or not: a disabled one takes the click
    /// too, so that it does not start a new selection.
    pub fn hit(&self, x: usize, y: usize) -> (hit: Option<usize>)
        ensures
            hit == self@.hit_from(x as int, y as int, 0),
            hit matches Some(i) ==> i < self@.buttons.len(),
    {
        let mut i: usize = 0;
        while i < self.buttons.len()
            invariant
                i <= self.buttons@.len(),
                self@.hit_from(x as int, y as int, 0) == self@.hit_from(
                    x as int,
                    y as int,
                    i as int,
                ),
            decreases self.buttons.len() - i,
        {
            assert(self@.buttons[i as int] == self.buttons@[i as int]@);
            if self.buttons[i].rect.contains(x, y) {
                return Some(i);
            }
            i += 1;
        }
        None
    }

    /// The action of a button, unless it is disabled.
    pub fn usable(&self, i: usize) -> (action: Option<Action>)
        requires
            i < self@.buttons.len(),
        ensures
            action == (if self@.buttons[i as int].disabled {
                None
            } else {
                Some(self@.buttons[i as int].action)
            }),
    {
        assert(self@.buttons[i as int] == self.buttons@[i as int]@);
        if self.buttons[i].disabled {
            None
        } else {
            Some(self.buttons[i].action)
        }
    }

    /// The action of the first usable button that has a key.
    pub fn keyed(&self, k: LocalKey) -> (action: Option<Action>)
        ensures
            action == self@.keyed_from(k, 0),
    {
        let mut i: usize = 0;
        while i < self.buttons.len()
            invariant
                i <= self.buttons@.len(),
                self@.keyed_from(k, 0) == self@.keyed_from(k, i as int),
            decreases self.buttons.len() - i,
        {
            assert(self@.buttons[i as int] == self.buttons@[i as int]@);
            if !self.buttons[i].disabled && has_key(&self.buttons[i].hotkeys, k) {
                return Some(self.buttons[i].action);
            }
            i += 1;
        }
        None
    }
}

// ---- Looks ----

/// The background, icon and text colors of a button.
pub open spec fn look_of(disabled: bool, pressed: bool, hovered: bool) -> (u32, u32, u32) {
    if disabled {
        (MENU_DISABLED_BG, MENU_DISABLED_ICON, MENU_DISABLED_TEXT)
    } else if pressed {
        (MENU_PRESSED, MENU_ICON, MENU_TEXT)
    } else if hovered {
        (MENU_HOVER, MENU_ICON, MENU_TEXT)
    } else {
        (MENU_BG, MENU_ICON, MENU_TEXT)
    }
}

/// Whether the optional index is `i`.
fn is_at(o: Option<usize>, i: usize) -> (r: bool)
    ensures
        r == (o == Some(i)),
{
    match o {
        Some(k) => k == i,
        None => false,
    }
}

/// The menu as it is drawn, beside what it holds itself.
#[derive(Debug)]
pub struct MenuScene {
    /// Background, icon and text color of each button.
    pub buttons: Vec<(u32, u32, u32)>,
    /// The ends of each divider's line: its column, its top and its bottom.
    pub lines: Vec<(usize, usize, usize)>,
    /// The open list's rows: place, background and label.
    pub options: Vec<(Rect, u32, String)>,
}

/// A divider's line: in its middle, a fifth of its height off its ends.
pub open spec fn divider_line(r: Rect) -> (usize, usize, usize) {
    let off = (r.y1 - r.y0) / 5;
    (((r.x0 + r.x1) / 2) as usize, (r.y0 + off) as usize, (r.y1 - off) as usize)
}

/// The lines of the dividers.
fn divider_lines(rects: &Vec<Rect>) -> (lines: Vec<(usize, usize, usize)>)
    requires
        forall|i: int|
            0 <= i < rects@.len() ==> (#[trigger] rects@[i]).ordered() && rects@[i].x0
                + rects@[i].x1 <= usize::MAX,
    ensures
        lines@ == rects@.map_values(|r: Rect| divider_line(r)),
{
    let mut lines: Vec<(usize, usize, usize)> = Vec::new();
    let mut i: usize = 0;
    while i < rects.len()
        invariant
            i <= rects@.len(),
            forall|k: int|
                0 <= k < rects@.len() ==> (#[trigger] rects@[k]).ordered() && rects@[k].x0
                    + rects@[k].x1 <= usize::MAX,
            lines@.len() == i,
            forall|k: int| 0 <= k < i ==> #[trigger] lines@[k] == divider_line(rects@[k]),
        decreases rects.len() - i,
    {
        let r = rects[i];
        assert(rects@[i as int].ordered());
        let off: usize = r.height() / 5;
        lines.push(((r.x0 + r.x1) / 2, r.y0 + off, r.y1 - off));
        i += 1;
    }
    assert(lines@ =~= rects@.map_values(|r: Rect| divider_line(r)));
    lines
}

/// The row of a preset: its place, lit if it is the one in force, and its
/// label.
pub open spec fn option_drawn(
    closed: Rect,
    lock: Option<(u32, u32)>,
    i: int,
    row: (Rect, u32, String),
) -> bool {
    &&& row.0 == option_row(closed, i)
    &&& row.1 == (if presets()[i] == lock {
        MENU_PRESSED
    } else {
        MENU_HOVER
    })
    &&& row.2@ == aspect_text(presets()[i])
}

/// Whether two aspect ratios are the same.
fn same_ratio(a: Option<(u32, u32)>, b: Option<(u32, u32)>) -> (r: bool)
    ensures
        r == (a == b),
{
    match (a, b) {
        (None, None) => true,
        (Some(p), Some(q)) => p.0 == q.0 && p.1 == q.1,
        _ => false,
    }
}

/// The rows of the open list.
fn option_rows(closed: Rect, lock: Option<(u32, u32)>) -> (rows: Vec<(Rect, u32, String)>)
    requires
        closed.y1 + 88 <= usize::MAX,
    ensures
        rows@.len() == 4,
        forall|i: int| 0 <= i < 4 ==> option_drawn(closed, lock, i, #[trigger] rows@[i]),
{
    let rects = aspect_option_rects(closed);
    let all = aspect_presets();
    let mut rows: Vec<(Rect, u32, String)> = Vec::new();
    let mut i: usize = 0;
    while i < 4
        invariant
            i <= 4,
            all@ == presets(),
            forall|k: int| 0 <= k < 4 ==> #[trigger] rects@[k] == option_row(closed, k),
            rows@.len() == i,
            forall|k: int| 0 <= k < i ==> option_drawn(closed, lock, k, #[trigger] rows@[k]),
        decreases 4 - i,
    {
        assert(rects@[i as int] == option_row(closed, i as int));
        let color: u32 = if same_ratio(all[i], lock) {
            MENU_PRESSED
        } else {
            MENU_HOVER
        };
        rows.push((rects[i], color, aspect_option_label(all[i])));
        i += 1;
    }
    rows
}

/// The menu as it is drawn: each button's colors, each divider's line, and
/// the list of aspect ratios if it is open and the menu has that entry. The
/// list comes last, on top of what it covers.
pub fn draw(
    menu: &Menu,
    hovered: Option<usize>,
    pressed: Option<usize>,
    aspect_lock: Option<(u32, u32)>,
    aspect_dropdown_open: bool,
) -> (scene: MenuScene)
    requires
        menu.aspect_rect matches Some(r) ==> r.y1 + 88 <= usize::MAX,
        forall|i: int|
            0 <= i < menu.divider_rects@.len() ==> (#[trigger] menu.divider_rects@[i]).ordered()
                && menu.divider_rects@[i].x0 + menu.divider_rects@[i].x1 <= usize::MAX,
    ensures
        scene.buttons@.len() == menu.buttons@.len(),
        forall|i: int|
            0 <= i < menu.buttons@.len() ==> #[trigger] scene.buttons@[i] == look_of(
                menu.buttons@[i].disabled,
                pressed == Some(i as usize),
                hovered == Some(i as usize),
            ),
        scene.lines@ == menu.divider_rects@.map_values(|r: Rect| divider_line(r)),
        match menu.aspect_rect {
            Some(r) if aspect_dropdown_open => scene.options@.len() == 4 && forall|i: int|
                0 <= i < 4 ==> option_drawn(r, aspect_lock, i, #[trigger] scene.options@[i]),
            _ => scene.options@.len() == 0,
        },
{
    let mut looks: Vec<(u32, u32, u32)> = Vec::new();
    let mut i: usize = 0;
    while i < menu.buttons.len()
        invariant
            i <= menu.buttons@.len(),
            looks@.len() == i,
            forall|k: int|
                0 <= k < i ==> #[trigger] looks@[k] == look_of(
                    menu.buttons@[k].disabled,
                    pressed == Some(k as usize),
                    hovered == Some(k as usize),
                ),
        decreases menu.buttons.len() - i,
    {
        let look: (u32, u32, u32) = if menu.buttons[i].disabled {
            (MENU_DISABLED_BG, MENU_DISABLED_ICON, MENU_DISABLED_TEXT)
        } else if is_at(pressed, i) {
            (MENU_PRESSED, MENU_ICON, MENU_TEXT)
        } else if is_at(hovered, i) {
            (MENU_HOVER, MENU_ICON, MENU_TEXT)
        } else {
            (MENU_BG, MENU_ICON, MENU_TEXT)
        };
        looks.push(look);
        i += 1;
    }
    let options: Vec<(Rect, u32, String)> = match menu.aspect_rect {
        Some(r) => if aspect_dropdown_open {
            option_rows(r, aspect_lock)
        } else {
            Vec::new()
        },
        None => Vec::new(),
    };
    MenuScene { buttons: looks, lines: divider_lines(&menu.divider_rects), options }
}

// ---- Laws ----

/// Entries stand side by side in their order, without a gap or an overlap.
pub proof fn law_entries_side_by_side(
    order: Seq<MenuButton>,
    action_btn: int,
    at: (int, int),
    i: int,
    j: int,
)
    requires
        0 <= i < j < order.len(),
        0 <= action_btn,
        0 <= at.0,
        0 <= at.1,
        at.0 + width_of(order, action_btn, order.len() as int) <= usize::MAX,
        at.1 + action_btn <= usize::MAX,
    ensures
        slot_rect(order, action_btn, at, i).x1 <= slot_rect(order, action_btn, at, j).x0,
        j == i + 1 ==> slot_rect(order, action_btn, at, i).x1 == slot_rect(
            order,
            action_btn,
            at,
            j,
        ).x0,
        slot_rect(order, action_btn, at, i).apart(slot_rect(order, action_btn, at, j)),
{
    lemma_width_grows(order, action_btn, i + 1, j);
    lemma_width_grows(order, action_btn, j + 1, order.len() as int);
    lemma_width_grows(order, action_btn, 0, i);
}

/// A menu that fits into its monitor lies within it.
pub proof fn law_menu_lies_in_bounds(sel: Rect, bounds: Rect, w: int, scale: MenuScale)
    requires
        bounds.ordered(),
        0 <= w <= bounds.x1 - bounds.x0,
        scale.action_btn <= bounds.y1 - bounds.y0,
        bounds.y0 <= sel.y0,
        sel.y0 <= sel.y1 <= bounds.y1,
    ensures
        ({
            let at = menu_origin(sel, bounds, w, scale);
            &&& bounds.x0 <= at.0
            &&& at.0 + w <= bounds.x1
            &&& bounds.y0 <= at.1
            &&& at.1 + scale.action_btn <= bounds.y1
        }),
{
}

/// The menu does not cover the selection where there is room below or above.
pub proof fn law_menu_spares_selection(sel: Rect, bounds: Rect, w: int, scale: MenuScale)
    requires
        sel.y1 + scale.margin + scale.action_btn <= bounds.y1 || sel.y0 >= bounds.y0
            + scale.action_btn + scale.margin,
    ensures
        ({
            let at = menu_origin(sel, bounds, w, scale);
            at.1 >= sel.y1 + scale.margin || at.1 + scale.action_btn + scale.margin <= sel.y0
        }),
{
}

/// Every button ends where the entries so far end, at the latest.
proof fn lemma_buttons_end(
    order: Seq<MenuButton>,
    keys: RegionKeys,
    avail: MenuAvailability,
    action_btn: int,
    at: (int, int),
    n: int,
    i: int,
)
    requires
        0 <= n <= order.len(),
        0 <= i < buttons_of(order, keys, avail, action_btn, at, n).len(),
        0 <= action_btn,
        0 <= at.0,
        at.0 + width_of(order, action_btn, order.len() as int) <= usize::MAX,
    ensures
        buttons_of(order, keys, avail, action_btn, at, n)[i].rect.x1 <= at.0 + width_of(
            order,
            action_btn,
            n,
        ),
    decreases n,
{
    lemma_width_grows(order, action_btn, n - 1, n);
    lemma_width_grows(order, action_btn, n, order.len() as int);
    let rest = buttons_of(order, keys, avail, action_btn, at, n - 1);
    if i < rest.len() {
        lemma_buttons_end(order, keys, avail, action_btn, at, n - 1, i);
    }
}

/// The buttons stand from left to right in their order and share no pixel,
/// so one at most is under the pointer.
pub proof fn law_buttons_left_to_right(
    order: Seq<MenuButton>,
    keys: RegionKeys,
    avail: MenuAvailability,
    action_btn: int,
    at: (int, int),
    n: int,
    i: int,
    j: int,
)
    requires
        0 <= n <= order.len(),
        0 <= i < j < buttons_of(order, keys, avail, action_btn, at, n).len(),
        0 <= action_btn,
        0 <= at.0,
        at.0 + width_of(order, action_btn, order.len() as int) <= usize::MAX,
    ensures
        ({
            let buttons = buttons_of(order, keys, avail, action_btn, at, n);
            &&& buttons[i].rect.x1 <= buttons[j].rect.x0
            &&& buttons[i].rect.apart(buttons[j].rect)
        }),
    decreases n,
{
    lemma_width_grows(order, action_btn, n - 1, n);
    lemma_width_grows(order, action_btn, n, order.len() as int);
    let rest = buttons_of(order, keys, avail, action_btn, at, n - 1);
    if j < rest.len() {
        law_buttons_left_to_right(order, keys, avail, action_btn, at, n - 1, i, j);
    } else {
        lemma_buttons_end(order, keys, avail, action_btn, at, n - 1, i);
    }
}

/// What is under the pointer is a button that holds the pixel, and no button
/// before it does.
pub proof fn law_hit_is_the_first_button(m: MenuModel, x: int, y: int, i: int)
    requires
        0 <= i <= m.buttons.len() <= usize::MAX,
    ensures
        match m.hit_from(x, y, i) {
            Some(k) => i <= k < m.buttons.len() && m.buttons[k as int].rect.holds(x, y)
                && forall|j: int| i <= j < k ==> !(#[trigger] m.buttons[j]).rect.holds(x, y),
            None => forall|j: int|
                i <= j < m.buttons.len() ==> !(#[trigger] m.buttons[j]).rect.holds(x, y),
        },
    decreases m.buttons.len() - i,
{
    if i < m.buttons.len() && !m.buttons[i].rect.holds(x, y) {
        law_hit_is_the_first_button(m, x, y, i + 1);
    }
}

/// No key triggers a disabled button.
pub proof fn law_keys_spare_disabled_buttons(m: MenuModel, k: LocalKey, i: int)
    requires
        0 <= i <= m.buttons.len(),
    ensures
        m.keyed_from(k, i) matches Some(action) ==> exists|j: int|
            i <= j < m.buttons.len() && !(#[trigger] m.buttons[j]).disabled
                && m.buttons[j].hotkeys.contains(k) && m.buttons[j].action == action,
    decreases m.buttons.len() - i,
{
    if i < m.buttons.len() && !(!m.buttons[i].disabled && m.buttons[i].hotkeys.contains(k)) {
        law_keys_spare_disabled_buttons(m, k, i + 1);
    }
}

/// Dividers and spacers take the same room, and neither is a button.
pub proof fn law_spacer_is_as_wide_as_a_divider(action_btn: int)
    ensures
        slot_width(MenuButton::Divider, action_btn) == slot_width(MenuButton::Spacer, action_btn),
        MenuButton::Divider.action_of() is None,
        MenuButton::Spacer.action_of() is None,
{
}

} // verus!
