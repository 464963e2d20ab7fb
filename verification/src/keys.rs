//! Local key bindings: how they are written, and which action a key has.

use vstd::prelude::*;

verus! {

/// A key with its modifiers.
#[derive(Clone, Copy, Debug, PartialEq, Eq, Structural)]
pub struct LocalKey {
    pub ctrl: bool,
    pub shift: bool,
    pub alt: bool,
    pub ch: char,
}

impl LocalKey {
    /// A key with its modifiers. A letter's case is left to the shift
    /// modifier.
    pub fn new(ctrl: bool, shift: bool, alt: bool, ch: char) -> (k: Self)
        ensures
            k == (LocalKey { ctrl, shift, alt, ch: folded_char(ch) }),
    {
        LocalKey { ctrl, shift, alt, ch: fold_char(ch) }
    }
}

/// An ASCII letter in lower case, any other character as it is.
pub open spec fn folded_char(c: char) -> char {
    if 'A' <= c && c <= 'Z' {
        ((c as u32) + 32) as char
    } else {
        c
    }
}

/// An ASCII letter in lower case, any other character as it is.
pub fn fold_char(c: char) -> (f: char)
    ensures
        f == folded_char(c),
{
    match c {
        'A' => 'a',
        'B' => 'b',
        'C' => 'c',
        'D' => 'd',
        'E' => 'e',
        'F' => 'f',
        'G' => 'g',
        'H' => 'h',
        'I' => 'i',
        'J' => 'j',
        'K' => 'k',
        'L' => 'l',
        'M' => 'm',
        'N' => 'n',
        'O' => 'o',
        'P' => 'p',
        'Q' => 'q',
        'R' => 'r',
        'S' => 's',
        'T' => 't',
        'U' => 'u',
        'V' => 'v',
        'W' => 'w',
        'X' => 'x',
        'Y' => 'y',
        'Z' => 'z',
        _ => c,
    }
}

/// Whether `word` stands in `s` at `i`.
pub open spec fn word_at(s: Seq<char>, i: int, word: Seq<char>) -> bool {
    i + word.len() <= s.len() && forall|k: int|
        0 <= k < word.len() ==> s[i + k] == #[trigger] word[k]
}

/// The modifier words, each with the `+` that follows it.
pub open spec fn ctrl_word() -> Seq<char> {
    seq!['C', 't', 'r', 'l', '+']
}

/// The modifier words, each with the `+` that follows it.
pub open spec fn shift_word() -> Seq<char> {
    seq!['S', 'h', 'i', 'f', 't', '+']
}

/// The modifier words, each with the `+` that follows it.
pub open spec fn alt_word() -> Seq<char> {
    seq!['A', 'l', 't', '+']
}

/// The key written in `s` from place `i` on, with the modifiers read so far:
/// any modifier words, then exactly one character.
pub open spec fn key_from(s: Seq<char>, i: int, mods: (bool, bool, bool)) -> Option<LocalKey>
    decreases s.len() - i,
{
    if word_at(s, i, ctrl_word()) {
        key_from(s, i + 5, (true, mods.1, mods.2))
    } else if word_at(s, i, shift_word()) {
        key_from(s, i + 6, (mods.0, true, mods.2))
    } else if word_at(s, i, alt_word()) {
        key_from(s, i + 4, (mods.0, mods.1, true))
    } else if i + 1 == s.len() {
        Some(LocalKey { ctrl: mods.0, shift: mods.1, alt: mods.2, ch: folded_char(s[i]) })
    } else {
        None
    }
}

fn has_word(s: &Vec<char>, i: usize, word: &Vec<char>) -> (r: bool)
    requires
        i <= s@.len(),
    ensures
        r == word_at(s@, i as int, word@),
{
    let n: usize = s.len();
    if word.len() > n - i {
        return false;
    }
    let mut k: usize = 0;
    while k < word.len()
        invariant
            n == s@.len(),
            i <= n,
            word@.len() <= n - i,
            k <= word@.len(),
            forall|j: int| 0 <= j < k ==> s@[i + j] == #[trigger] word@[j],
        decreases word.len() - k,
    {
        if s[i + k] != word[k] {
            assert(s@[i + k] != word@[k as int]);
            return false;
        }
        k += 1;
    }
    true
}

/// The characters of a text.
pub fn chars_of(text: &str) -> (out: Vec<char>)
    ensures
        out@ == text@,
{
    let n: usize = text.unicode_len();
    let mut out: Vec<char> = Vec::new();
    let mut i: usize = 0;
    while i < n
        invariant
            n == text@.len(),
            i <= n,
            out@ =~= text@.take(i as int),
        decreases n - i,
    {
        out.push(text.get_char(i));
        i += 1;
    }
    assert(text@.take(n as int) =~= text@);
    out
}

/// Reads a key such as `V` or `Ctrl+Shift+Z`: modifiers, then one character,
/// whose case does not matter. Anything else is no key.
pub fn parse(spec: &str) -> (key: Option<LocalKey>)
    ensures
        key == key_from(spec@, 0, (false, false, false)),
{
    let s = chars_of(spec);
    let ctrl_w: Vec<char> = vec!['C', 't', 'r', 'l', '+'];
    let shift_w: Vec<char> = vec!['S', 'h', 'i', 'f', 't', '+'];
    let alt_w: Vec<char> = vec!['A', 'l', 't', '+'];
    assert(ctrl_w@ =~= ctrl_word());
    assert(shift_w@ =~= shift_word());
    assert(alt_w@ =~= alt_word());
    let n: usize = s.len();
    let mut ctrl: bool = false;
    let mut shift: bool = false;
    let mut alt: bool = false;
    let mut i: usize = 0;
    while i <= n
        invariant
            n == s@.len(),
            s@ == spec@,
            i <= n,
            ctrl_w@ == ctrl_word(),
            shift_w@ == shift_word(),
            alt_w@ == alt_word(),
            key_from(spec@, 0, (false, false, false)) == key_from(
                s@,
                i as int,
                (ctrl, shift, alt),
            ),
        decreases n - i,
    {
        if has_word(&s, i, &ctrl_w) {
            ctrl = true;
            i += 5;
        } else if has_word(&s, i, &shift_w) {
            shift = true;
            i += 6;
        } else if has_word(&s, i, &alt_w) {
            alt = true;
            i += 4;
        } else if n - i == 1 {
            return Some(LocalKey { ctrl, shift, alt, ch: fold_char(s[i]) });
        } else {
            return None;
        }
    }
    None
}

/// The keys that a list of texts spells, in order. Texts that spell none are
/// dropped.
pub open spec fn spelled(specs: Seq<String>) -> Seq<LocalKey>
    decreases specs.len(),
{
    if specs.len() == 0 {
        Seq::empty()
    } else {
        match key_from(specs.last()@, 0, (false, false, false)) {
            Some(k) => spelled(specs.drop_last()).push(k),
            None => spelled(specs.drop_last()),
        }
    }
}

/// The keys that a list of texts spells. An empty list leaves an action
/// unbound.
pub fn parse_local_keys(specs: &Vec<String>) -> (keys: Vec<LocalKey>)
    ensures
        keys@ == spelled(specs@),
{
    let mut keys: Vec<LocalKey> = Vec::new();
    let mut i: usize = 0;
    while i < specs.len()
        invariant
            i <= specs@.len(),
            keys@ == spelled(specs@.take(i as int)),
        decreases specs.len() - i,
    {
        assert(specs@.take(i + 1).drop_last() =~= specs@.take(i as int));
        if let Some(k) = parse(specs[i].as_str()) {
            keys.push(k);
        }
        i += 1;
    }
    assert(specs@.take(specs@.len() as int) =~= specs@);
    keys
}

/// Whether the key is among the bound ones.
pub fn has_key(keys: &Vec<LocalKey>, k: LocalKey) -> (r: bool)
    ensures
        r == keys@.contains(k),
{
    let mut i: usize = 0;
    while i < keys.len()
        invariant
            i <= keys@.len(),
            forall|j: int| 0 <= j < i ==> keys@[j] != k,
        decreases keys.len() - i,
    {
        if keys[i] == k {
            assert(keys@[i as int] == k);
            return true;
        }
        i += 1;
    }
    false
}

/// The configured keys, as texts.
#[derive(Debug)]
pub struct HotkeyConfig {
    pub hotkey: Vec<String>,
    pub hotkey_undo: Vec<String>,
    pub hotkey_redo: Vec<String>,
    pub hotkey_reuse_region: Vec<String>,
    pub hotkey_clear_selection: Vec<String>,
    pub hotkey_save_as: Vec<String>,
    pub hotkey_edit_external: Vec<String>,
    pub hotkey_quit: Vec<String>,
    pub hotkey_menu_save: Vec<String>,
    pub hotkey_menu_copy: Vec<String>,
    pub hotkey_menu_edit: Vec<String>,
    pub hotkey_menu_upload: Vec<String>,
    pub hotkey_menu_record: Vec<String>,
    pub hotkey_editor_reset_zoom: Vec<String>,
    pub hotkey_editor_tool_select: Vec<String>,
    pub hotkey_editor_tool_arrow: Vec<String>,
    pub hotkey_editor_tool_polyline: Vec<String>,
    pub hotkey_editor_tool_draw: Vec<String>,
    pub hotkey_editor_tool_rect: Vec<String>,
    pub hotkey_editor_tool_ellipse: Vec<String>,
    pub hotkey_editor_tool_text: Vec<String>,
    pub hotkey_editor_tool_number_marker: Vec<String>,
}

/// Whether the list holds this one text.
pub open spec fn only(specs: Seq<String>, text: Seq<char>) -> bool {
    specs.len() == 1 && specs[0]@ == text
}

fn one(text: &str) -> (v: Vec<String>)
    ensures
        only(v@, text@),
{
    let mut v: Vec<String> = Vec::new();
    v.push(text.to_string());
    v
}

impl Default for HotkeyConfig {
    /// The keys before anything is configured.
    fn default() -> (d: Self)
        ensures
            only(d.hotkey@, "Ctrl+Shift+2"@),
            only(d.hotkey_undo@, "Ctrl+Z"@),
            only(d.hotkey_redo@, "Ctrl+Shift+Z"@),
            only(d.hotkey_reuse_region@, "R"@),
            only(d.hotkey_clear_selection@, "X"@),
            only(d.hotkey_save_as@, "Shift+S"@),
            only(d.hotkey_edit_external@, "Shift+E"@),
            only(d.hotkey_quit@, "Q"@),
            only(d.hotkey_menu_save@, "S"@),
            only(d.hotkey_menu_copy@, "C"@),
            only(d.hotkey_menu_edit@, "E"@),
            only(d.hotkey_menu_upload@, "U"@),
            only(d.hotkey_menu_record@, "V"@),
            only(d.hotkey_editor_reset_zoom@, "Ctrl+0"@),
            only(d.hotkey_editor_tool_select@, "V"@),
            only(d.hotkey_editor_tool_arrow@, "A"@),
            only(d.hotkey_editor_tool_polyline@, "L"@),
            only(d.hotkey_editor_tool_draw@, "D"@),
            only(d.hotkey_editor_tool_rect@, "R"@),
            only(d.hotkey_editor_tool_ellipse@, "C"@),
            only(d.hotkey_editor_tool_text@, "T"@),
            only(d.hotkey_editor_tool_number_marker@, "N"@),
    {
        HotkeyConfig {
            hotkey: one("Ctrl+Shift+2"),
            hotkey_undo: one("Ctrl+Z"),
            hotkey_redo: one("Ctrl+Shift+Z"),
            hotkey_reuse_region: one("R"),
            hotkey_clear_selection: one("X"),
            hotkey_save_as: one("Shift+S"),
            hotkey_edit_external: one("Shift+E"),
            hotkey_quit: one("Q"),
            hotkey_menu_save: one("S"),
            hotkey_menu_copy: one("C"),
            hotkey_menu_edit: one("E"),
            hotkey_menu_upload: one("U"),
            hotkey_menu_record: one("V"),
            hotkey_editor_reset_zoom: one("Ctrl+0"),
            hotkey_editor_tool_select: one("V"),
            hotkey_editor_tool_arrow: one("A"),
            hotkey_editor_tool_polyline: one("L"),
            hotkey_editor_tool_draw: one("D"),
            hotkey_editor_tool_rect: one("R"),
            hotkey_editor_tool_ellipse: one("C"),
            hotkey_editor_tool_text: one("T"),
            hotkey_editor_tool_number_marker: one("N"),
        }
    }
}

/// The editor's key bindings. Escape, Delete, Backspace and Ctrl+V/S/C are
/// fixed and not among them.
#[derive(Debug)]
pub struct EditorKeys {
    pub undo: Vec<LocalKey>,
    pub redo: Vec<LocalKey>,
    pub reset_zoom: Vec<LocalKey>,
    pub tool_select: Vec<LocalKey>,
    pub tool_arrow: Vec<LocalKey>,
    pub tool_polyline: Vec<LocalKey>,
    pub tool_draw: Vec<LocalKey>,
    pub tool_rect: Vec<LocalKey>,
    pub tool_ellipse: Vec<LocalKey>,
    pub tool_text: Vec<LocalKey>,
    pub tool_number_marker: Vec<LocalKey>,
}

impl EditorKeys {
    /// The bindings that the configuration spells.
    pub fn from_config(cfg: &HotkeyConfig) -> (k: Self)
        ensures
            k.undo@ == spelled(cfg.hotkey_undo@),
            k.redo@ == spelled(cfg.hotkey_redo@),
            k.reset_zoom@ == spelled(cfg.hotkey_editor_reset_zoom@),
            k.tool_select@ == spelled(cfg.hotkey_editor_tool_select@),
            k.tool_arrow@ == spelled(cfg.hotkey_editor_tool_arrow@),
            k.tool_polyline@ == spelled(cfg.hotkey_editor_tool_polyline@),
            k.tool_draw@ == spelled(cfg.hotkey_editor_tool_draw@),
            k.tool_rect@ == spelled(cfg.hotkey_editor_tool_rect@),
            k.tool_ellipse@ == spelled(cfg.hotkey_editor_tool_ellipse@),
            k.tool_text@ == spelled(cfg.hotkey_editor_tool_text@),
            k.tool_number_marker@ == spelled(cfg.hotkey_editor_tool_number_marker@),
    {
        EditorKeys {
            undo: parse_local_keys(&cfg.hotkey_undo),
            redo: parse_local_keys(&cfg.hotkey_redo),
            reset_zoom: parse_local_keys(&cfg.hotkey_editor_reset_zoom),
            tool_select: parse_local_keys(&cfg.hotkey_editor_tool_select),
            tool_arrow: parse_local_keys(&cfg.hotkey_editor_tool_arrow),
            tool_polyline: parse_local_keys(&cfg.hotkey_editor_tool_polyline),
            tool_draw: parse_local_keys(&cfg.hotkey_editor_tool_draw),
            tool_rect: parse_local_keys(&cfg.hotkey_editor_tool_rect),
            tool_ellipse: parse_local_keys(&cfg.hotkey_editor_tool_ellipse),
            tool_text: parse_local_keys(&cfg.hotkey_editor_tool_text),
            tool_number_marker: parse_local_keys(&cfg.hotkey_editor_tool_number_marker),
        }
    }
}

/// The keys of the menu's first six buttons.
#[derive(Debug)]
pub struct MenuKeys {
    pub save: Vec<LocalKey>,
    pub copy: Vec<LocalKey>,
    pub edit: Vec<LocalKey>,
    pub upload: Vec<LocalKey>,
    pub record: Vec<LocalKey>,
    pub quit: Vec<LocalKey>,
}

/// The keys while selecting a region. Escape is fixed and not among them.
#[derive(Debug)]
pub struct RegionKeys {
    pub undo: Vec<LocalKey>,
    pub redo: Vec<LocalKey>,
    pub reuse_region: Vec<LocalKey>,
    pub clear_selection: Vec<LocalKey>,
    pub save_as: Vec<LocalKey>,
    pub edit_external: Vec<LocalKey>,
    pub menu: MenuKeys,
}

impl RegionKeys {
    /// The bindings that the configuration spells.
    pub fn from_config(cfg: &HotkeyConfig) -> (k: Self)
        ensures
            k.undo@ == spelled(cfg.hotkey_undo@),
            k.redo@ == spelled(cfg.hotkey_redo@),
            k.reuse_region@ == spelled(cfg.hotkey_reuse_region@),
            k.clear_selection@ == spelled(cfg.hotkey_clear_selection@),
            k.save_as@ == spelled(cfg.hotkey_save_as@),
            k.edit_external@ == spelled(cfg.hotkey_edit_external@),
            k.menu.save@ == spelled(cfg.hotkey_menu_save@),
            k.menu.copy@ == spelled(cfg.hotkey_menu_copy@),
            k.menu.edit@ == spelled(cfg.hotkey_menu_edit@),
            k.menu.upload@ == spelled(cfg.hotkey_menu_upload@),
            k.menu.record@ == spelled(cfg.hotkey_menu_record@),
            k.menu.quit@ == spelled(cfg.hotkey_quit@),
    {
        RegionKeys {
            undo: parse_local_keys(&cfg.hotkey_undo),
            redo: parse_local_keys(&cfg.hotkey_redo),
            reuse_region: parse_local_keys(&cfg.hotkey_reuse_region),
            clear_selection: parse_local_keys(&cfg.hotkey_clear_selection),
            save_as: parse_local_keys(&cfg.hotkey_save_as),
            edit_external: parse_local_keys(&cfg.hotkey_edit_external),
            menu: MenuKeys {
                save: parse_local_keys(&cfg.hotkey_menu_save),
                copy: parse_local_keys(&cfg.hotkey_menu_copy),
                edit: parse_local_keys(&cfg.hotkey_menu_edit),
                upload: parse_local_keys(&cfg.hotkey_menu_upload),
                record: parse_local_keys(&cfg.hotkey_menu_record),
                quit: parse_local_keys(&cfg.hotkey_quit),
            },
        }
    }
}

/// A copy of a key list.
pub fn copy_keys(keys: &Vec<LocalKey>) -> (out: Vec<LocalKey>)
    ensures
        out@ == keys@,
{
    let mut out: Vec<LocalKey> = Vec::new();
    let mut i: usize = 0;
    while i < keys.len()
        invariant
            i <= keys@.len(),
            out@ =~= keys@.take(i as int),
        decreases keys.len() - i,
    {
        out.push(keys[i]);
        i += 1;
    }
    assert(keys@.take(keys@.len() as int) =~= keys@);
    out
}

/// What a key in the editor does, once no text or number is being typed.
#[derive(Clone, Copy, Debug, PartialEq, Eq, Structural)]
pub enum EditorAction {
    Redo,
    Undo,
    Paste,
    Save,
    Copy,
    ResetZoom,
    ToolSelect,
    ToolArrow,
    ToolPolyline,
    ToolDraw,
    ToolRect,
    ToolEllipse,
    ToolText,
    ToolNumberMarker,
}

impl EditorKeys {
    /// The action of a key. Ctrl+V, Ctrl+S and Ctrl+C are fixed, whatever else
    /// is bound to them. Where another key is bound more than once, the
    /// earlier of these wins: redo, undo, zoom reset, then the tools in their
    /// order.
    pub open spec fn action_of(self, k: LocalKey) -> Option<EditorAction> {
        let fixed = |ch: char| LocalKey { ctrl: true, shift: false, alt: false, ch };
        if k == fixed('v') {
            Some(EditorAction::Paste)
        } else if k == fixed('s') {
            Some(EditorAction::Save)
        } else if k == fixed('c') {
            Some(EditorAction::Copy)
        } else if self.redo@.contains(k) {
            Some(EditorAction::Redo)
        } else if self.undo@.contains(k) {
            Some(EditorAction::Undo)
        } else if self.reset_zoom@.contains(k) {
            Some(EditorAction::ResetZoom)
        } else if self.tool_select@.contains(k) {
            Some(EditorAction::ToolSelect)
        } else if self.tool_arrow@.contains(k) {
            Some(EditorAction::ToolArrow)
        } else if self.tool_polyline@.contains(k) {
            Some(EditorAction::ToolPolyline)
        } else if self.tool_draw@.contains(k) {
            Some(EditorAction::ToolDraw)
        } else if self.tool_rect@.contains(k) {
            Some(EditorAction::ToolRect)
        } else if self.tool_ellipse@.contains(k) {
            Some(EditorAction::ToolEllipse)
        } else if self.tool_text@.contains(k) {
            Some(EditorAction::ToolText)
        } else if self.tool_number_marker@.contains(k) {
            Some(EditorAction::ToolNumberMarker)
        } else {
            None
        }
    }

    /// The action of a key.
    pub fn lookup(&self, k: LocalKey) -> (a: Option<EditorAction>)
        ensures
            a == self.action_of(k),
    {
        if k == LocalKey::new(true, false, false, 'v') {
            Some(EditorAction::Paste)
        } else if k == LocalKey::new(true, false, false, 's') {
            Some(EditorAction::Save)
        } else if k == LocalKey::new(true, false, false, 'c') {
            Some(EditorAction::Copy)
        } else if has_key(&self.redo, k) {
            Some(EditorAction::Redo)
        } else if has_key(&self.undo, k) {
            Some(EditorAction::Undo)
        } else if has_key(&self.reset_zoom, k) {
            Some(EditorAction::ResetZoom)
        } else if has_key(&self.tool_select, k) {
            Some(EditorAction::ToolSelect)
        } else if has_key(&self.tool_arrow, k) {
            Some(EditorAction::ToolArrow)
        } else if has_key(&self.tool_polyline, k) {
            Some(EditorAction::ToolPolyline)
        } else if has_key(&self.tool_draw, k) {
            Some(EditorAction::ToolDraw)
        } else if has_key(&self.tool_rect, k) {
            Some(EditorAction::ToolRect)
        } else if has_key(&self.tool_ellipse, k) {
            Some(EditorAction::ToolEllipse)
        } else if has_key(&self.tool_text, k) {
            Some(EditorAction::ToolText)
        } else if has_key(&self.tool_number_marker, k) {
            Some(EditorAction::ToolNumberMarker)
        } else {
            None
        }
    }
}

/// Pasting, saving and copying have their keys, whatever is configured.
pub proof fn law_fixed_keys_are_fixed(keys: EditorKeys)
    ensures
        keys.action_of(LocalKey { ctrl: true, shift: false, alt: false, ch: 'v' }) == Some(
            EditorAction::Paste,
        ),
        keys.action_of(LocalKey { ctrl: true, shift: false, alt: false, ch: 's' }) == Some(
            EditorAction::Save,
        ),
        keys.action_of(LocalKey { ctrl: true, shift: false, alt: false, ch: 'c' }) == Some(
            EditorAction::Copy,
        ),
{
}

} // verus!
