//! The resident controller: which session an event belongs to, when a
//! capture may start, and what follows a finished one.

use vstd::prelude::*;

use crate::keys::chars_of;
use crate::menu::Action;
use crate::overlay::{lemma_seen, seen, Mode, Outcome, OutcomeModel, Overlay, OverlayModel};
use crate::pixels::Shot;
use crate::pure::{reads, reads_texts, spoken};

verus! {

/// The time between two looks at the hotkeys while idle, in milliseconds.
pub const IDLE_POLL_MS: u64 = 50;

/// The least time between two automatic update checks, in seconds.
pub const UPDATE_CHECK_INTERVAL_SECS: i64 = 86_400;

/// A version to update to.
#[derive(Debug)]
pub struct ReleaseInfo {
    pub version: String,
}

/// A downloaded update.
#[derive(Debug)]
pub enum UpdateArtifact {
    /// A program file to replace this one with.
    Portable(String),
    /// An installer to run.
    Installer(String),
}

/// An event from outside the event loop. `T` is what is known of the
/// windows on screen.
#[derive(Debug)]
pub enum UserEvent<T> {
    /// The program was started a second time: show the settings.
    ShowSettings,
    /// What an update check found. `Ok(None)` is the latest version.
    UpdateCheckResult(Result<Option<ReleaseInfo>, String>),
    /// An update that can be installed.
    UpdateReady(Result<UpdateArtifact, String>),
    /// The windows on screen, for the session whose window is named.
    SnapshotReady(isize, T),
}

/// The id that `global_hotkey::hotkey::HotKey::new` gives the shortcut
/// Ctrl+Shift+2. It puts the modifiers' bits (8 for Ctrl, 512 for Shift)
/// above the key's number, which for the digit 2 is 7.
#[verifier::external_body]
fn capture_hotkey_id() -> (id: u32)
    ensures
        id == 0x0208_0007,
{
    global_hotkey::hotkey::HotKey::new(
        Some(
            global_hotkey::hotkey::Modifiers::CONTROL | global_hotkey::hotkey::Modifiers::SHIFT,
        ),
        global_hotkey::hotkey::Code::Digit2,
    ).id()
}

// ---- Texts ----

/// Whether two texts are the same.
pub fn same_text(a: &str, b: &str) -> (r: bool)
    ensures
        r == (a@ == b@),
{
    let x = chars_of(a);
    let y = chars_of(b);
    if x.len() != y.len() {
        return false;
    }
    let mut i: usize = 0;
    while i < x.len()
        invariant
            x@ == a@,
            y@ == b@,
            x@.len() == y@.len(),
            i <= x@.len(),
            forall|k: int| 0 <= k < i ==> #[trigger] x@[k] == y@[k],
        decreases x.len() - i,
    {
        if x[i] != y[i] {
            return false;
        }
        i += 1;
    }
    assert(a@ =~= b@);
    true
}

/// The first `n` texts, each on a line of its own.
pub open spec fn lines_of(texts: Seq<String>, n: int) -> Seq<char>
    decreases n,
{
    if n <= 0 {
        Seq::empty()
    } else if n == 1 {
        texts[0]@
    } else {
        lines_of(texts, n - 1).push('\n') + texts[n - 1]@
    }
}

/// The addresses of finished uploads as one text, a line each. `None`
/// without one.
pub fn joined_urls(urls: &Vec<String>) -> (text: Option<String>)
    ensures
        match text {
            Some(t) => urls@.len() > 0 && t@ == lines_of(urls@, urls@.len() as int),
            None => urls@.len() == 0,
        },
{
    if urls.len() == 0 {
        return None;
    }
    let mut t = urls[0].clone();
    let mut i: usize = 1;
    while i < urls.len()
        invariant
            1 <= i <= urls@.len(),
            t@ == lines_of(urls@, i as int),
        decreases urls.len() - i,
    {
        t.push('\n');
        t.append(urls[i].as_str());
        i += 1;
    }
    Some(t)
}

// ---- Starting up ----

/// How the program was started.
#[derive(Debug)]
pub enum Launch {
    /// As an editor, with a file or without.
    Editor(Option<String>),
    /// As the resident program, with its settings shown or not.
    Resident { show_settings: bool },
}

/// Whether one of the arguments is `word`.
pub open spec fn has_arg(args: Seq<String>, word: Seq<char>) -> bool {
    exists|i: int| 0 <= i < args.len() && (#[trigger] args[i])@ == word
}

/// How the program was started, by its arguments: `editor` and a file for
/// the editor, `--show-settings` anywhere for the settings.
pub fn launch(args: &Vec<String>) -> (l: Launch)
    ensures
        if args@.len() > 0 && args@[0]@ == "editor"@ {
            l matches Launch::Editor(file) && seen(file) == (if args@.len() > 1 {
                Some(args@[1]@)
            } else {
                None
            })
        } else {
            l == (Launch::Resident { show_settings: has_arg(args@, "--show-settings"@) })
        },
{
    if args.len() > 0 && same_text(args[0].as_str(), "editor") {
        let file: Option<String> = if args.len() > 1 {
            Some(args[1].clone())
        } else {
            None
        };
        proof {
            lemma_seen(file);
        }
        return Launch::Editor(file);
    }
    let mut i: usize = 0;
    while i < args.len()
        invariant
            i <= args@.len(),
            !(args@.len() > 0 && args@[0]@ == "editor"@),
            forall|k: int| 0 <= k < i ==> (#[trigger] args@[k])@ != "--show-settings"@,
        decreases args.len() - i,
    {
        if same_text(args[i].as_str(), "--show-settings") {
            return Launch::Resident { show_settings: true };
        }
        i += 1;
    }
    Launch::Resident { show_settings: false }
}

/// Whether an update check is due, at a time and with the time of the last
/// one. If so, the time to remember.
pub fn update_check_due(now: i64, last: i64) -> (due: Option<i64>)
    ensures
        due == (if now - last < UPDATE_CHECK_INTERVAL_SECS {
            None
        } else {
            Some(now)
        }),
{
    if now as i128 - (last as i128) < UPDATE_CHECK_INTERVAL_SECS as i128 {
        None
    } else {
        Some(now)
    }
}

/// What the readable ones of the first `n` texts stand for.
pub open spec fn read_all<H, P: Fn(&str) -> Option<H>>(specs: Seq<String>, parse: P, n: int) -> Seq<
    H,
>
    decreases n,
{
    if n <= 0 {
        Seq::empty()
    } else {
        let rest = read_all(specs, parse, n - 1);
        match spoken(parse, specs[n - 1]@) {
            Some(h) => rest.push(h),
            None => rest,
        }
    }
}

/// The hotkeys of a list of texts: what can be read, or `fallback` alone if
/// nothing can.
pub fn parse_hotkeys<H, P: Fn(&str) -> Option<H>>(specs: &Vec<String>, parse: &P, fallback: H) -> (
    keys: Vec<H>)
    requires
        reads_texts(*parse),
    ensures
        ({
            let all = read_all(specs@, *parse, specs@.len() as int);
            keys@ == (if all.len() == 0 {
                seq![fallback]
            } else {
                all
            })
        }),
{
    let mut keys: Vec<H> = Vec::new();
    let mut i: usize = 0;
    while i < specs.len()
        invariant
            reads_texts(*parse),
            i <= specs@.len(),
            keys@ == read_all(specs@, *parse, i as int),
        decreases specs.len() - i,
    {
        let s = specs[i].as_str();
        let h = parse(s);
        proof {
            assert(reads(*parse, specs@[i as int]@, h));
        }
        if let Some(k) = h {
            keys.push(k);
        }
        i += 1;
    }
    if keys.len() == 0 {
        keys.push(fallback);
        assert(keys@ =~= seq![fallback]);
    }
    keys
}

// ---- What follows a session ----

/// What is done with what a session ended with.
#[derive(Debug)]
pub enum FollowUp {
    Save(Shot),
    Copy(Shot),
    /// Open the picture in the editor.
    Edit(Shot),
    EditExternal(Shot),
    Upload(Shot),
    /// Show the file in its folder.
    Reveal(String),
    /// The session was canceled.
    Cancelled,
    Nothing,
}

/// Whether a picture has this size and these bytes.
pub open spec fn is_shot(s: Shot, width: u32, height: u32, rgba: Seq<u8>) -> bool {
    s.width == width && s.height == height && s.rgba@ == rgba
}

/// Whether this follows an outcome.
pub open spec fn follows(o: Option<OutcomeModel>, f: FollowUp) -> bool {
    match o {
        None => f is Cancelled,
        Some(OutcomeModel::Recorded(path)) => f matches FollowUp::Reveal(p) && p@ == path,
        Some(OutcomeModel::Saved(path)) => f matches FollowUp::Reveal(p) && p@ == path,
        Some(OutcomeModel::Captured { action, width, height, rgba }) => match action {
            Action::Save => f matches FollowUp::Save(s) && is_shot(s, width, height, rgba),
            Action::Copy => f matches FollowUp::Copy(s) && is_shot(s, width, height, rgba),
            Action::Edit => f matches FollowUp::Edit(s) && is_shot(s, width, height, rgba),
            Action::EditExternal => f matches FollowUp::EditExternal(s) && is_shot(
                s,
                width,
                height,
                rgba,
            ),
            Action::Upload => f matches FollowUp::Upload(s) && is_shot(s, width, height, rgba),
            _ => f is Nothing,
        },
    }
}

/// What is done with what a session ended with.
pub fn handle_outcome(outcome: Option<Outcome>) -> (f: FollowUp)
    ensures
        follows(seen(outcome), f),
{
    proof {
        lemma_seen(outcome);
    }
    match outcome {
        Some(Outcome::Captured { action, shot }) => match action {
            Action::Save => FollowUp::Save(shot),
            Action::Copy => FollowUp::Copy(shot),
            Action::Edit => FollowUp::Edit(shot),
            Action::EditExternal => FollowUp::EditExternal(shot),
            Action::Upload => FollowUp::Upload(shot),
            _ => FollowUp::Nothing,
        },
        Some(Outcome::Recorded(path)) => FollowUp::Reveal(path),
        Some(Outcome::Saved(path)) => FollowUp::Reveal(path),
        None => FollowUp::Cancelled,
    }
}

// ---- The controller ----

/// A session that may be started.
#[derive(Clone, Copy, Debug, PartialEq, Eq, Structural)]
pub enum Start {
    /// A capture.
    Main,
    /// A screenshot beside a recording.
    Shot,
    No,
}

/// Whom a window's event belongs to.
#[derive(Clone, Copy, Debug, PartialEq, Eq, Structural)]
pub enum Route {
    Session,
    Shot,
    Settings,
    Nobody,
}

/// An item of the tray's menu.
#[derive(Clone, Copy, Debug, PartialEq, Eq, Structural)]
pub enum TrayItem {
    Capture,
    Editor,
    Settings,
    Quit,
}

/// What an item of the tray's menu asks for.
#[derive(Clone, Copy, Debug, PartialEq, Eq, Structural)]
pub enum TrayJob {
    Start(Start),
    LaunchEditor,
    /// Open the settings if `open`, and bring them to the front if `focus`.
    Settings { open: bool, focus: bool },
    Exit,
}

/// When the event loop looks at the hotkeys again.
#[derive(Clone, Copy, Debug, PartialEq, Eq, Structural)]
pub enum Pace {
    /// After a while, for the control bar.
    Soon,
    /// At the next event.
    Wait,
    /// After a while, for the hotkeys.
    Poll,
}

/// What an update check says.
#[derive(Clone, Copy, Debug, PartialEq, Eq, Structural)]
pub enum UpdateNotice {
    Found,
    Latest,
    Failed,
}

/// The resident controller.
#[derive(Debug)]
pub struct App {
    /// The ids of the registered hotkeys.
    pub hotkeys: Vec<u32>,
    /// A newer version, if one was found.
    pub update_available: Option<ReleaseInfo>,
    /// The capture in progress.
    pub session: Option<Overlay>,
    /// The screenshot beside a recording.
    pub shot_session: Option<Overlay>,
    pub settings_open: bool,
    /// Whether the settings are to be shown once the program runs.
    pub show_settings_on_launch: bool,
}

/// What an [`App`] stands for.
pub struct AppModel {
    pub hotkeys: Seq<u32>,
    pub update: Option<Seq<char>>,
    pub session: Option<OverlayModel>,
    pub shot: Option<OverlayModel>,
    pub settings_open: bool,
    pub show_settings_on_launch: bool,
}

/// The version of a release.
pub open spec fn version_of(r: Option<ReleaseInfo>) -> Option<Seq<char>> {
    match r {
        Some(info) => Some(info.version@),
        None => None,
    }
}

impl View for App {
    type V = AppModel;

    open spec fn view(&self) -> AppModel {
        AppModel {
            hotkeys: self.hotkeys@,
            update: version_of(self.update_available),
            session: seen(self.session),
            shot: seen(self.shot_session),
            settings_open: self.settings_open,
            show_settings_on_launch: self.show_settings_on_launch,
        }
    }
}

/// Whether a session is valid, if there is one.
pub open spec fn session_ok(s: Option<OverlayModel>) -> bool {
    s matches Some(m) ==> m.wf()
}

impl AppModel {
    /// What holds of every controller: its sessions are valid.
    pub open spec fn wf(self) -> bool {
        session_ok(self.session) && session_ok(self.shot)
    }

    /// The session that a hotkey may start: a capture while there is none,
    /// or a screenshot while a recording is prepared or runs.
    pub open spec fn startable(self) -> Start {
        match self.session {
            None => Start::Main,
            Some(m) => if self.shot is None && m.scene.mode != Mode::Selecting {
                Start::Shot
            } else {
                Start::No
            },
        }
    }

    /// The controller after the settings were asked for. They open only
    /// while nothing is captured.
    pub open spec fn settings_asked(self) -> AppModel {
        AppModel { settings_open: self.settings_open || self.session is None, ..self }
    }
}

impl App {
    /// A controller with the default hotkey and no session.
    pub fn new(show_settings_on_launch: bool) -> (app: Self)
        ensures
            app@.wf(),
            app@ == (AppModel {
                hotkeys: seq![0x0208_0007u32],
                update: None,
                session: None,
                shot: None,
                settings_open: false,
                show_settings_on_launch,
            }),
    {
        proof {
            lemma_seen(None::<Overlay>);
        }
        let app = App {
            hotkeys: vec![capture_hotkey_id()],
            update_available: None,
            session: None,
            shot_session: None,
            settings_open: false,
            show_settings_on_launch,
        };
        assert(app@.hotkeys =~= seq![0x0208_0007u32]);
        app
    }

    /// The session that a hotkey may start. The settings may be open.
    pub fn can_start(&self) -> (s: Start)
        ensures
            s == self@.startable(),
    {
        proof {
            lemma_seen(self.session);
            lemma_seen(self.shot_session);
        }
        match &self.session {
            None => Start::Main,
            Some(ov) => if self.shot_session.is_none() && ov.in_record_flow() {
                Start::Shot
            } else {
                Start::No
            },
        }
    }

    /// The session that a hotkey's event starts. Only a press of a
    /// registered hotkey does.
    pub fn on_hotkey(&self, id: u32, pressed: bool) -> (s: Start)
        ensures
            s == (if pressed && self@.hotkeys.contains(id) {
                self@.startable()
            } else {
                Start::No
            }),
    {
        if !pressed {
            return Start::No;
        }
        let mut i: usize = 0;
        while i < self.hotkeys.len()
            invariant
                pressed,
                i <= self.hotkeys@.len(),
                forall|k: int| 0 <= k < i ==> self.hotkeys@[k] != id,
            decreases self.hotkeys.len() - i,
        {
            if self.hotkeys[i] == id {
                return self.can_start();
            }
            i += 1;
        }
        Start::No
    }

    /// A session has started. A screenshot beside a recording cannot record.
    pub fn started(&mut self, which: Start, session: Overlay)
        requires
            old(self)@.wf(),
            session@.wf(),
        ensures
            final(self)@.wf(),
            final(self)@ == (match which {
                Start::Main => AppModel { session: Some(session@), ..old(self)@ },
                Start::Shot => AppModel {
                    shot: Some(
                        session@.with(
                            crate::overlay::Scene { allow_record: false, ..session@.scene },
                        ),
                    ),
                    ..old(self)@
                },
                Start::No => old(self)@,
            }),
    {
        match which {
            Start::Main => {
                self.session = Some(session);
                proof {
                    lemma_seen(self.session);
                }
            },
            Start::Shot => {
                let mut ov = session;
                ov.set_allow_record(false);
                self.shot_session = Some(ov);
                proof {
                    lemma_seen(self.shot_session);
                }
            },
            Start::No => {},
        }
    }

    /// The settings are asked for: whether to open them, and whether to
    /// bring them to the front.
    pub fn open_settings(&mut self) -> (step: (bool, bool))
        requires
            old(self)@.wf(),
        ensures
            final(self)@.wf(),
            final(self)@ == old(self)@.settings_asked(),
            step.0 == (!old(self)@.settings_open && old(self)@.session is None),
            step.1 == final(self)@.settings_open,
    {
        proof {
            lemma_seen(self.session);
        }
        let open = !self.settings_open && self.session.is_none();
        if open {
            self.settings_open = true;
        }
        (open, self.settings_open)
    }

    /// The program runs. The first time, it is set up, and the settings are
    /// shown if that was asked for.
    pub fn resumed(&mut self, set_up: bool) -> (step: (bool, Option<(bool, bool)>))
        requires
            old(self)@.wf(),
        ensures
            final(self)@.wf(),
            step.0 == !set_up,
            match step.1 {
                None => final(self)@ == old(self)@
                    && (set_up || !old(self)@.show_settings_on_launch),
                Some(s) => {
                    let shown = AppModel { show_settings_on_launch: false, ..old(self)@ };
                    &&& !set_up
                    &&& old(self)@.show_settings_on_launch
                    &&& final(self)@ == shown.settings_asked()
                    &&& s.0 == (!old(self)@.settings_open && old(self)@.session is None)
                    &&& s.1 == final(self)@.settings_open
                },
            },
    {
        if set_up {
            return (false, None);
        }
        if self.show_settings_on_launch {
            self.show_settings_on_launch = false;
            let step = self.open_settings();
            return (true, Some(step));
        }
        (true, None)
    }

    /// What an item of the tray's menu asks for. A capture does not start
    /// while the settings are shown.
    pub fn on_tray(&mut self, item: TrayItem) -> (job: TrayJob)
        requires
            old(self)@.wf(),
        ensures
            final(self)@.wf(),
            match item {
                TrayItem::Quit => job == TrayJob::Exit && final(self)@ == old(self)@,
                TrayItem::Editor => job == TrayJob::LaunchEditor && final(self)@ == old(self)@,
                TrayItem::Capture => final(self)@ == old(self)@ && job == TrayJob::Start(
                    if old(self)@.settings_open {
                        Start::No
                    } else {
                        old(self)@.startable()
                    },
                ),
                TrayItem::Settings => final(self)@ == old(self)@.settings_asked() && job == (
                TrayJob::Settings {
                    open: !old(self)@.settings_open && old(self)@.session is None,
                    focus: final(self)@.settings_open,
                }),
            },
    {
        match item {
            TrayItem::Quit => TrayJob::Exit,
            TrayItem::Editor => TrayJob::LaunchEditor,
            TrayItem::Capture => if self.settings_open {
                TrayJob::Start(Start::No)
            } else {
                TrayJob::Start(self.can_start())
            },
            TrayItem::Settings => {
                let (open, focus) = self.open_settings();
                TrayJob::Settings { open, focus }
            },
        }
    }

    /// What an update check found. A version found earlier is kept if the
    /// check finds none or fails.
    pub fn handle_update_check_result(
        &mut self,
        result: &Result<Option<ReleaseInfo>, String>,
    ) -> (notice: UpdateNotice)
        requires
            old(self)@.wf(),
        ensures
            final(self)@.wf(),
            match *result {
                Ok(Some(info)) => notice == UpdateNotice::Found && final(self)@ == (AppModel {
                    update: Some(info.version@),
                    ..old(self)@
                }),
                Ok(None) => notice == UpdateNotice::Latest && final(self)@ == old(self)@,
                Err(_) => notice == UpdateNotice::Failed && final(self)@ == old(self)@,
            },
    {
        match result {
            Ok(Some(info)) => {
                self.update_available = Some(ReleaseInfo { version: info.version.clone() });
                UpdateNotice::Found
            },
            Ok(None) => UpdateNotice::Latest,
            Err(_) => UpdateNotice::Failed,
        }
    }

    /// Whom a window's event belongs to. Two sessions can be open at once,
    /// so the window decides: an event of one must not end the other.
    pub fn route(&self, of_session: bool, of_shot: bool) -> (r: Route)
        ensures
            r == (if self@.session is Some && of_session {
                Route::Session
            } else if self@.shot is Some && of_shot {
                Route::Shot
            } else if self@.settings_open {
                Route::Settings
            } else {
                Route::Nobody
            }),
    {
        proof {
            lemma_seen(self.session);
            lemma_seen(self.shot_session);
        }
        if self.session.is_some() && of_session {
            Route::Session
        } else if self.shot_session.is_some() && of_shot {
            Route::Shot
        } else if self.settings_open {
            Route::Settings
        } else {
            Route::Nobody
        }
    }

    /// The capture is closed if it has ended, and what it ended with is
    /// followed up.
    pub fn settle_session(&mut self) -> (f: Option<FollowUp>)
        requires
            old(self)@.wf(),
        ensures
            final(self)@.wf(),
            match old(self)@.session {
                Some(m) if m.scene.finished => final(self)@ == (AppModel {
                    session: None,
                    ..old(self)@
                }) && (f matches Some(x) && follows(m.outcome, x)),
                _ => final(self)@ == old(self)@ && f is None,
            },
    {
        proof {
            lemma_seen(self.session);
        }
        let ended = match &self.session {
            Some(ov) => ov.scene.finished,
            None => false,
        };
        if !ended {
            return None;
        }
        let mut taken: Option<Overlay> = None;
        std::mem::swap(&mut taken, &mut self.session);
        match taken {
            Some(mut ov) => {
                let o = ov.take_outcome();
                Some(handle_outcome(o))
            },
            None => None,
        }
    }

    /// The screenshot beside a recording is closed if it has ended.
    pub fn settle_shot(&mut self) -> (f: Option<FollowUp>)
        requires
            old(self)@.wf(),
        ensures
            final(self)@.wf(),
            match old(self)@.shot {
                Some(m) if m.scene.finished => final(self)@ == (AppModel {
                    shot: None,
                    ..old(self)@
                }) && (f matches Some(x) && follows(m.outcome, x)),
                _ => final(self)@ == old(self)@ && f is None,
            },
    {
        proof {
            lemma_seen(self.shot_session);
        }
        let ended = match &self.shot_session {
            Some(ov) => ov.scene.finished,
            None => false,
        };
        if !ended {
            return None;
        }
        let mut taken: Option<Overlay> = None;
        std::mem::swap(&mut taken, &mut self.shot_session);
        match taken {
            Some(mut ov) => {
                let o = ov.take_outcome();
                Some(handle_outcome(o))
            },
            None => None,
        }
    }

    /// Whom raw motion belongs to: a screenshot beside a recording first,
    /// since nothing is selected in the recording.
    pub fn motion_route(&self) -> (r: Route)
        ensures
            r == (if self@.shot is Some {
                Route::Shot
            } else if self@.session is Some {
                Route::Session
            } else {
                Route::Nobody
            }),
    {
        proof {
            lemma_seen(self.session);
            lemma_seen(self.shot_session);
        }
        if self.shot_session.is_some() {
            Route::Shot
        } else if self.session.is_some() {
            Route::Session
        } else {
            Route::Nobody
        }
    }

    /// When the event loop goes on: for a capture's control bar, at the next
    /// event of a selection, or to look at the hotkeys while idle. The
    /// capture goes before the screenshot beside it.
    pub fn pace(&self) -> (p: Pace)
        ensures
            p == (match (self@.session, self@.shot) {
                (Some(m), _) => if m.scene.mode != Mode::Selecting {
                    Pace::Soon
                } else {
                    Pace::Wait
                },
                (None, Some(m)) => if m.scene.mode != Mode::Selecting {
                    Pace::Soon
                } else {
                    Pace::Wait
                },
                (None, None) => Pace::Poll,
            }),
    {
        proof {
            lemma_seen(self.session);
            lemma_seen(self.shot_session);
        }
        match (&self.session, &self.shot_session) {
            (Some(ov), _) => if ov.in_record_flow() {
                Pace::Soon
            } else {
                Pace::Wait
            },
            (None, Some(ov)) => if ov.in_record_flow() {
                Pace::Soon
            } else {
                Pace::Wait
            },
            (None, None) => Pace::Poll,
        }
    }
}

/// A capture does not start twice, and a screenshot starts only beside a
/// recording, so at most one session selects a region.
pub proof fn law_one_selection_at_a_time(app: AppModel)
    ensures
        app.startable() == Start::Main ==> app.session is None,
        app.startable() == Start::Shot ==> app.shot is None && (app.session matches Some(m)
            && m.scene.mode != Mode::Selecting),
{
}

/// What an update that can be installed asks for.
#[derive(Debug)]
pub enum Install {
    Portable(String),
    Installer(String),
    Failed(String),
}

/// What an update that can be installed asks for.
pub fn install_of(result: Result<UpdateArtifact, String>) -> (i: Install)
    ensures
        match result {
            Ok(UpdateArtifact::Portable(p)) => i == Install::Portable(p),
            Ok(UpdateArtifact::Installer(p)) => i == Install::Installer(p),
            Err(e) => i == Install::Failed(e),
        },
{
    match result {
        Ok(UpdateArtifact::Portable(p)) => Install::Portable(p),
        Ok(UpdateArtifact::Installer(p)) => Install::Installer(p),
        Err(e) => Install::Failed(e),
    }
}

} // verus!
