//! The whole state of the terminal interface, how it reacts to a key, and how it
//! takes the messages of a running job.
//!
//! A key may need to know whether a path is a directory; `handle_key` then asks
//! for it (`Effect::CheckDir`) and `dir_checked` takes the answer. A job is
//! started by the caller when an effect says so; its progress lines and its
//! report come back through `on_message`.
use vstd::prelude::*;
use crate::jobs::CleanReport;
use crate::ui::{
    clean_activated, clean_focus_moved, clean_path_edited, drop_last_char, line_after,
    line_before, menu_after, menu_before, moved_to, not_a_directory, opt_text, row_after,
    row_before, sort_edited, sort_focus_changed, spec_parse_usize, spec_trim, parse_usize,
    trim_text, Action, CleanState, MenuState, ResultStatus, Row, SortOptions,
};

verus! {

/// The screens of the interface.
#[derive(Clone, Copy, PartialEq, Eq, Debug, Structural)]
pub enum Screen {
    Main,
    CleanOptions,
    RunningClean,
    CleanResults,
    SortOptions,
    RunningSort,
}

/// The state of the current (or last) job.
#[derive(PartialEq, Eq, Debug)]
pub enum Status {
    Idle,
    Running,
    Finished,
    Failed(String),
}

/// What the running screens show of the current job.
#[derive(Debug)]
pub struct RunInfo {
    pub status: Status,
    pub log_lines: Vec<String>,
    pub real_run: bool,
    pub remove_empty: bool,
    pub path: String,
    /// Counts the refreshes of the screen, for the spinner.
    pub tick: u64,
}

/// The keys that the interface tells apart.
#[derive(Clone, Copy, PartialEq, Eq, Debug, Structural)]
pub enum KeyCode {
    Char(char),
    Tab,
    BackTab,
    Up,
    Down,
    Enter,
    Esc,
    Backspace,
    PageUp,
    PageDown,
    Other,
}

/// A key event: the key, the modifier bits held, and whether it is a press
/// (rather than a repeat or a release).
#[derive(Clone, Copy, PartialEq, Eq, Debug, Structural)]
pub struct Key {
    pub code: KeyCode,
    pub modifiers: u8,
    pub press: bool,
}

/// The modifier bit of the shift key.
pub const SHIFT: u8 = 1;

/// A question about a path that the interface waits to have answered.
#[derive(PartialEq, Eq, Debug)]
pub enum DirCheck {
    /// Whether the edited path of the clean options is a directory.
    CleanPath,
    /// Whether the path of a clean about to start is a directory.
    CleanRun(String),
    /// Whether the edited path of the sort options is a directory.
    SortPath,
    /// Whether the path of a listing about to start is a directory, and the
    /// number of files to show.
    SortStart(String, usize),
}

/// What the caller has to do after a key or an answer.
#[derive(PartialEq, Eq, Debug)]
pub enum Effect {
    Nothing,
    /// Tell `dir_checked` whether `path` is a directory.
    CheckDir { path: String },
    /// Start a clean of `path`.
    StartClean { path: String, remove_empty: bool, real_run: bool },
    /// Start a listing of the `num` largest files under `path`.
    StartSort { path: String, num: usize },
}

/// A message of the running job, or the state of its channel.
#[derive(Debug)]
pub enum Incoming {
    Log(String),
    Done(Result<CleanReport, String>),
    /// Nothing more for now.
    Empty,
    /// The job is gone without a report.
    Disconnected,
}

/// Whether to keep receiving after a message.
#[derive(Clone, Copy, PartialEq, Eq, Debug, Structural)]
pub enum Receive {
    /// Take the next message now.
    Continue,
    /// Keep the channel for later.
    Keep,
    /// Drop the channel: the job is over.
    Close,
}

/// The whole state of the interface.
#[derive(Debug)]
pub struct AppState {
    pub exit: bool,
    pub menu: MenuState,
    pub clean: CleanState,
    pub sort: SortOptions,
    pub screen: Screen,
    pub results: ResultStatus,
    pub run: RunInfo,
    pub check: Option<DirCheck>,
}

/// The sort options focus one of their two fields, if any.
pub open spec fn app_wf(s: AppState) -> bool {
    s.sort.focus matches Some(i) ==> i <= 1
}

/// A key typed with no modifier, or with shift alone.
pub open spec fn is_plain(key: Key) -> bool {
    key.modifiers == 0 || key.modifiers == SHIFT
}

/// `n` differs from `o` at most in the fields flagged.
pub open spec fn frame(
    o: AppState,
    n: AppState,
    exit: bool,
    menu: bool,
    clean: bool,
    sort: bool,
    screen: bool,
    results: bool,
    run: bool,
) -> bool {
    &&& (!exit ==> n.exit == o.exit)
    &&& (!menu ==> n.menu == o.menu)
    &&& (!clean ==> n.clean == o.clean)
    &&& (!sort ==> n.sort == o.sort)
    &&& (!screen ==> n.screen == o.screen)
    &&& (!results ==> n.results == o.results)
    &&& (!run ==> n.run == o.run)
}

/// Nothing but the pending question changed (it is dropped), and nothing is to be done.
pub open spec fn untouched(o: AppState, n: AppState, eff: Effect) -> bool {
    frame(o, n, false, false, false, false, false, false, false) && n.check is None && eff is Nothing
}

/// The path that an effect asks about, if it asks.
pub open spec fn asked_path(eff: Effect) -> Option<String> {
    match eff {
        Effect::CheckDir { path } => Some(path),
        _ => None,
    }
}

/// After an edit that may ask about a path: the effect asks exactly when the edit
/// returned a path, and the question waits as `check`.
pub open spec fn edit_asks(eff: Effect, check: Option<DirCheck>, kind: DirCheck) -> bool {
    match eff {
        Effect::CheckDir { .. } => check == Some(kind),
        Effect::Nothing => check is None,
        _ => false,
    }
}

/// The main menu: `q` quits; `j`, Tab or Down select the next item; `k`,
/// BackTab or Up the previous one; Enter opens the selected screen.
pub open spec fn main_key(o: AppState, n: AppState, code: KeyCode, eff: Effect) -> bool {
    let q = code == KeyCode::Char('q');
    let down = code == KeyCode::Char('j') || code == KeyCode::Tab || code == KeyCode::Down;
    let up = code == KeyCode::Char('k') || code == KeyCode::BackTab || code == KeyCode::Up;
    &&& frame(o, n, true, true, false, false, true, false, false)
    &&& n.exit == (o.exit || q)
    &&& n.menu.selected == if q {
        o.menu.selected
    } else if down {
        Some(menu_after(o.menu.selected))
    } else if up {
        Some(menu_before(o.menu.selected))
    } else {
        o.menu.selected
    }
    &&& n.screen == if code == KeyCode::Enter {
        match o.menu.selected {
            Some(i) => if i == 0 {
                Screen::CleanOptions
            } else if i == 1 {
                Screen::SortOptions
            } else {
                o.screen
            },
            None => o.screen,
        }
    } else {
        o.screen
    }
    &&& n.check is None
    &&& eff is Nothing
}

/// The sort options: Enter asks about the trimmed path when the number parses
/// and the path is not empty; Esc goes back; Tab, BackTab, Up and Down switch
/// fields; a plain character is typed into the focused field; Backspace deletes.
pub open spec fn sort_key(o: AppState, n: AppState, key: Key, eff: Effect) -> bool {
    let code = key.code;
    if code == KeyCode::Enter {
        &&& frame(o, n, false, false, false, false, false, false, false)
        &&& match spec_parse_usize(o.sort.num_show@) {
            Ok(num) => if spec_trim(o.sort.path@).len() != 0 {
                (eff matches Effect::CheckDir { path } && path@ == spec_trim(o.sort.path@) && n.check
                    == Some(DirCheck::SortStart(path, num)))
            } else {
                eff is Nothing && n.check is None
            },
            Err(_) => eff is Nothing && n.check is None,
        }
    } else if code == KeyCode::Esc {
        frame(o, n, false, false, false, false, true, false, false) && n.screen == Screen::Main
            && n.check is None && eff is Nothing
    } else if code == KeyCode::Tab || code == KeyCode::BackTab || code == KeyCode::Down || code
        == KeyCode::Up {
        frame(o, n, false, false, false, true, false, false, false) && sort_focus_changed(o.sort, n.sort)
            && n.check is None && eff is Nothing
    } else if code is Char && is_plain(key) {
        &&& frame(o, n, false, false, false, true, false, false, false)
        &&& sort_edited(o.sort, n.sort, asked_path(eff), |s: Seq<char>| s.push(code->Char_0))
        &&& edit_asks(eff, n.check, DirCheck::SortPath)
    } else if code == KeyCode::Backspace {
        &&& frame(o, n, false, false, false, true, false, false, false)
        &&& sort_edited(o.sort, n.sort, asked_path(eff), |s: Seq<char>| drop_last_char(s))
        &&& edit_asks(eff, n.check, DirCheck::SortPath)
    } else {
        untouched(o, n, eff)
    }
}

/// The action that an effect of the clean options stands for.
pub open spec fn action_of(eff: Effect) -> Action {
    match eff {
        Effect::CheckDir { path } => Action::CheckDir { path },
        _ => Action::Noop,
    }
}

/// The clean options: Esc goes back (and puts the focus on the first row); Down
/// or Tab, Up or BackTab move the focus. On the path, a plain character is
/// typed, Backspace deletes and Enter moves on. Elsewhere `j` and `k` move the
/// focus, Space toggles a check box, and Enter on Run starts the run.
pub open spec fn clean_key(o: AppState, n: AppState, key: Key, eff: Effect) -> bool {
    let code = key.code;
    let c = o.clean;
    if code == KeyCode::Esc {
        frame(o, n, false, false, true, false, true, false, false) && n.screen == Screen::Main
            && clean_focus_moved(c, n.clean, Row::RealRun) && n.check is None && eff is Nothing
    } else if code == KeyCode::Down || code == KeyCode::Tab {
        frame(o, n, false, false, true, false, false, false, false) && clean_focus_moved(
            c,
            n.clean,
            row_after(c.focus),
        ) && n.check is None && eff is Nothing
    } else if code == KeyCode::Up || code == KeyCode::BackTab {
        frame(o, n, false, false, true, false, false, false, false) && clean_focus_moved(
            c,
            n.clean,
            row_before(c.focus),
        ) && n.check is None && eff is Nothing
    } else if c.focus == Row::Path {
        if code is Char {
            if is_plain(key) {
                &&& frame(o, n, false, false, true, false, false, false, false)
                &&& clean_path_edited(c, n.clean, asked_path(eff), |p: Seq<char>| p.push(code->Char_0))
                &&& edit_asks(eff, n.check, DirCheck::CleanPath)
            } else {
                untouched(o, n, eff)
            }
        } else if code == KeyCode::Backspace {
            &&& frame(o, n, false, false, true, false, false, false, false)
            &&& clean_path_edited(c, n.clean, asked_path(eff), |p: Seq<char>| drop_last_char(p))
            &&& edit_asks(eff, n.check, DirCheck::CleanPath)
        } else if code == KeyCode::Enter {
            frame(o, n, false, false, true, false, false, false, false) && clean_focus_moved(
                c,
                n.clean,
                row_after(c.focus),
            ) && n.check is None && eff is Nothing
        } else {
            untouched(o, n, eff)
        }
    } else if code == KeyCode::Char('j') {
        frame(o, n, false, false, true, false, false, false, false) && clean_focus_moved(
            c,
            n.clean,
            row_after(c.focus),
        ) && n.check is None && eff is Nothing
    } else if code == KeyCode::Char('k') {
        frame(o, n, false, false, true, false, false, false, false) && clean_focus_moved(
            c,
            n.clean,
            row_before(c.focus),
        ) && n.check is None && eff is Nothing
    } else if code == KeyCode::Char(' ') && (c.focus == Row::RealRun || c.focus == Row::RemoveEmpty) {
        frame(o, n, false, false, true, false, false, false, false) && clean_activated(
            c,
            n.clean,
            Action::Noop,
        ) && n.check is None && eff is Nothing
    } else if code == KeyCode::Enter && c.focus == Row::Run {
        &&& frame(o, n, false, false, true, false, false, false, false)
        &&& clean_activated(c, n.clean, action_of(eff))
        &&& match eff {
            Effect::CheckDir { path } => n.check == Some(DirCheck::CleanRun(path)),
            Effect::Nothing => n.check is None,
            _ => false,
        }
    } else {
        untouched(o, n, eff)
    }
}

/// The results screen: `q` quits; `j` or Down, `k` or Up move in the focused
/// pane; Tab switches panes; PageUp and PageDown go to the first and last line.
pub open spec fn results_key(o: AppState, n: AppState, code: KeyCode, eff: Effect) -> bool {
    &&& n.check is None
    &&& eff is Nothing
    &&& if code == KeyCode::Char('q') {
        frame(o, n, true, false, false, false, false, false, false) && n.exit
    } else if code == KeyCode::Char('j') || code == KeyCode::Down {
        frame(o, n, false, false, false, false, false, true, false) && moved_to(
            o.results,
            n.results,
            |p: usize, len: nat| line_after(p, len),
        )
    } else if code == KeyCode::Char('k') || code == KeyCode::Up {
        frame(o, n, false, false, false, false, false, true, false) && moved_to(
            o.results,
            n.results,
            |p: usize, len: nat| line_before(p, len),
        )
    } else if code == KeyCode::Tab {
        &&& frame(o, n, false, false, false, false, false, true, false)
        &&& n.results.fail_focus == !o.results.fail_focus
        &&& n.results.pos_succ == o.results.pos_succ
        &&& n.results.pos_fail == o.results.pos_fail
        &&& n.results.output == o.results.output
    } else if code == KeyCode::PageUp {
        frame(o, n, false, false, false, false, false, true, false) && moved_to(
            o.results,
            n.results,
            |p: usize, len: nat| 0usize,
        )
    } else if code == KeyCode::PageDown {
        frame(o, n, false, false, false, false, false, true, false) && moved_to(
            o.results,
            n.results,
            |p: usize, len: nat| (len - 1) as usize,
        )
    } else {
        frame(o, n, false, false, false, false, false, false, false)
    }
}

/// How the interface reacts to a key: a key that is not a press changes nothing
/// (but drops a pending question); otherwise the reaction of the screen shown.
pub open spec fn key_handled(o: AppState, n: AppState, key: Key, eff: Effect) -> bool {
    if !key.press {
        untouched(o, n, eff)
    } else {
        match o.screen {
            Screen::Main => main_key(o, n, key.code, eff),
            Screen::SortOptions => sort_key(o, n, key, eff),
            Screen::CleanOptions => clean_key(o, n, key, eff),
            Screen::RunningClean | Screen::RunningSort => if key.code == KeyCode::Char('q') {
                frame(o, n, true, false, false, false, false, false, false) && n.exit && n.check is None
                    && eff is Nothing
            } else {
                untouched(o, n, eff)
            },
            Screen::CleanResults => results_key(o, n, key.code, eff),
        }
    }
}

/// The job information right after a job is started.
pub open spec fn fresh_run(r: RunInfo, path: String, remove_empty: bool, real_run: bool) -> bool {
    &&& r.status == Status::Running
    &&& r.log_lines@.len() == 0
    &&& r.real_run == real_run
    &&& r.remove_empty == remove_empty
    &&& r.path == path
    &&& r.tick == 0
}

/// How the interface takes the answer to its pending question.
pub open spec fn dir_answered(o: AppState, n: AppState, is_dir: bool, eff: Effect) -> bool {
    &&& n.check is None
    &&& match o.check {
        None => untouched(o, n, eff),
        Some(DirCheck::CleanPath) => {
            &&& frame(o, n, false, false, true, false, false, false, false)
            &&& n.clean.path == o.clean.path && n.clean.real_run == o.clean.real_run
            &&& n.clean.remove_empty == o.clean.remove_empty && n.clean.focus == o.clean.focus
            &&& (if is_dir {
                n.clean.error is None
            } else {
                opt_text(n.clean.error) == Some(not_a_directory())
            })
            &&& eff is Nothing
        },
        Some(DirCheck::SortPath) => {
            &&& frame(o, n, false, false, false, true, false, false, false)
            &&& n.sort.path == o.sort.path && n.sort.num_show == o.sort.num_show
            &&& n.sort.num_error == o.sort.num_error && n.sort.focus == o.sort.focus
            &&& (if is_dir {
                n.sort.path_error is None
            } else {
                opt_text(n.sort.path_error) == Some("Invalid Path"@)
            })
            &&& eff is Nothing
        },
        Some(DirCheck::CleanRun(path)) => if is_dir {
            &&& frame(o, n, false, false, false, false, true, false, true)
            &&& n.screen == Screen::RunningClean
            &&& fresh_run(n.run, path, o.clean.remove_empty, o.clean.real_run)
            &&& eff == Effect::StartClean {
                path,
                remove_empty: o.clean.remove_empty,
                real_run: o.clean.real_run,
            }
        } else {
            &&& frame(o, n, false, false, true, false, false, false, false)
            &&& n.clean.path == o.clean.path && n.clean.real_run == o.clean.real_run
            &&& n.clean.remove_empty == o.clean.remove_empty && n.clean.focus == o.clean.focus
            &&& opt_text(n.clean.error) == Some(not_a_directory())
            &&& eff is Nothing
        },
        Some(DirCheck::SortStart(path, num)) => if is_dir {
            &&& frame(o, n, false, false, false, false, true, false, true)
            &&& n.screen == Screen::RunningSort
            &&& fresh_run(n.run, path, false, false)
            &&& eff == Effect::StartSort { path, num }
        } else {
            untouched(o, n, eff)
        },
    }
}

/// `n.run` is `o.run` with at most its status changed.
pub open spec fn run_kept_but_status(o: RunInfo, n: RunInfo) -> bool {
    &&& n.log_lines == o.log_lines
    &&& n.real_run == o.real_run
    &&& n.remove_empty == o.remove_empty
    &&& n.path == o.path
    &&& n.tick == o.tick
}

/// How the interface takes one message of the running job: a progress line is
/// added to the log; a report opens the results screen with the first line of
/// each non-empty pane selected; a failure, or a job gone without a report,
/// opens the results screen with the failure.
pub open spec fn message_taken(o: AppState, n: AppState, msg: Incoming, r: Receive) -> bool {
    &&& n.check == o.check
    &&& match msg {
        Incoming::Log(line) => {
            &&& frame(o, n, false, false, false, false, false, false, true)
            &&& n.run.log_lines@ == o.run.log_lines@.push(line)
            &&& n.run.status == o.run.status
            &&& n.run.real_run == o.run.real_run
            &&& n.run.remove_empty == o.run.remove_empty
            &&& n.run.path == o.run.path
            &&& n.run.tick == o.run.tick
            &&& r == Receive::Continue
        },
        Incoming::Done(Ok(report)) => {
            &&& frame(o, n, false, false, false, false, true, true, true)
            &&& n.results.pos_succ == (if report.success@.len() > 0 {
                Some(0usize)
            } else {
                None
            })
            &&& n.results.pos_fail == (if report.errors@.len() > 0 {
                Some(0usize)
            } else {
                None
            })
            &&& !n.results.fail_focus
            &&& n.results.output == Some(report)
            &&& n.run.status == Status::Finished
            &&& run_kept_but_status(o.run, n.run)
            &&& n.screen == Screen::CleanResults
            &&& r == Receive::Close
        },
        Incoming::Done(Err(e)) => {
            &&& frame(o, n, false, false, false, false, true, true, true)
            &&& n.results.pos_succ == Some(0usize)
            &&& n.results.pos_fail == Some(0usize)
            &&& !n.results.fail_focus
            &&& n.results.output == o.results.output
            &&& n.run.status == Status::Failed(e)
            &&& run_kept_but_status(o.run, n.run)
            &&& n.screen == Screen::CleanResults
            &&& r == Receive::Close
        },
        Incoming::Empty => frame(o, n, false, false, false, false, false, false, false) && r
            == Receive::Keep,
        Incoming::Disconnected => {
            &&& frame(o, n, false, false, false, false, true, false, true)
            &&& (n.run.status matches Status::Failed(e) && e@ == "Worker crashed"@)
            &&& run_kept_but_status(o.run, n.run)
            &&& n.screen == Screen::CleanResults
            &&& r == Receive::Close
        },
    }
}

impl AppState {
    /// The interface at start: the main menu with Clean selected; the clean and
    /// sort options as their `new` gives them for an empty path; no job, no
    /// results and no directory check under way.
    pub fn new() -> (res: AppState)
        ensures
            !res.exit,
            res.menu.selected == Some(0usize),
            !res.clean.real_run,
            !res.clean.remove_empty,
            res.clean.path@.len() == 0,
            opt_text(res.clean.error) == Some("Invalid Path"@),
            res.clean.focus == Row::RealRun,
            res.sort.path@.len() == 0,
            res.sort.num_show@ == "20"@,
            opt_text(res.sort.path_error) == Some("Invalid path"@),
            res.sort.num_error is None,
            res.sort.focus == Some(0usize),
            res.screen == Screen::Main,
            res.results.pos_succ is None,
            res.results.pos_fail is None,
            res.results.output is None,
            !res.results.fail_focus,
            res.run.status == Status::Idle,
            res.run.log_lines@.len() == 0,
            !res.run.real_run,
            !res.run.remove_empty,
            res.run.path@.len() == 0,
            res.run.tick == 0,
            res.check is None,
            app_wf(res),
    {
        AppState {
            exit: false,
            menu: MenuState::new(),
            clean: CleanState::new(String::new()),
            sort: SortOptions::new(String::new()),
            screen: Screen::Main,
            results: ResultStatus::new(),
            run: RunInfo {
                status: Status::Idle,
                log_lines: Vec::new(),
                real_run: false,
                remove_empty: false,
                path: String::new(),
                tick: 0,
            },
            check: None,
        }
    }

    fn main_key_exec(&mut self, code: KeyCode)
        requires
            old(self).check is None,
        ensures
            main_key(*old(self), *final(self), code, Effect::Nothing),
    {
        if code == KeyCode::Char('q') {
            self.exit = true;
        } else if code == KeyCode::Char('j') || code == KeyCode::Tab || code == KeyCode::Down {
            self.menu.next();
        } else if code == KeyCode::Char('k') || code == KeyCode::BackTab || code == KeyCode::Up {
            self.menu.prev();
        }
        if code == KeyCode::Enter {
            match self.menu.selected() {
                Some(i) => {
                    if i == 0 {
                        self.screen = Screen::CleanOptions;
                    } else if i == 1 {
                        self.screen = Screen::SortOptions;
                    }
                },
                None => {},
            }
        }
    }

    fn ask_after_edit(&mut self, res: Option<String>, kind: DirCheck) -> (eff: Effect)
        requires
            old(self).check is None,
        ensures
            frame(*old(self), *final(self), false, false, false, false, false, false, false),
            asked_path(eff) == res,
            edit_asks(eff, final(self).check, kind),
    {
        match res {
            Some(p) => {
                self.check = Some(kind);
                Effect::CheckDir { path: p }
            },
            None => Effect::Nothing,
        }
    }

    fn sort_key_exec(&mut self, key: Key) -> (eff: Effect)
        requires
            app_wf(*old(self)),
            old(self).check is None,
        ensures
            sort_key(*old(self), *final(self), key, eff),
    {
        let code = key.code;
        if code == KeyCode::Enter {
            match parse_usize(self.sort.num_show.as_str()) {
                Ok(num) => {
                    match self.sort.path_to_check() {
                        Some(p) => {
                            let q = p.clone();
                            self.check = Some(DirCheck::SortStart(q, num));
                            Effect::CheckDir { path: p }
                        },
                        None => Effect::Nothing,
                    }
                },
                Err(_) => Effect::Nothing,
            }
        } else if code == KeyCode::Esc {
            self.screen = Screen::Main;
            Effect::Nothing
        } else if code == KeyCode::Tab || code == KeyCode::BackTab || code == KeyCode::Down || code
            == KeyCode::Up {
            self.sort.change();
            Effect::Nothing
        } else {
            match code {
                KeyCode::Char(c) => {
                    if key.modifiers == 0 || key.modifiers == SHIFT {
                        let res = self.sort.push_char(c);
                        self.ask_after_edit(res, DirCheck::SortPath)
                    } else {
                        Effect::Nothing
                    }
                },
                KeyCode::Backspace => {
                    let res = self.sort.pop();
                    self.ask_after_edit(res, DirCheck::SortPath)
                },
                _ => Effect::Nothing,
            }
        }
    }

    fn clean_key_exec(&mut self, key: Key) -> (eff: Effect)
        requires
            old(self).check is None,
        ensures
            clean_key(*old(self), *final(self), key, eff),
    {
        let code = key.code;
        if code == KeyCode::Esc {
            self.screen = Screen::Main;
            self.clean.focus = Row::RealRun;
            return Effect::Nothing;
        } else if code == KeyCode::Down || code == KeyCode::Tab {
            self.clean.next();
            return Effect::Nothing;
        } else if code == KeyCode::Up || code == KeyCode::BackTab {
            self.clean.prev();
            return Effect::Nothing;
        }
        if self.clean.focus == Row::Path {
            match code {
                KeyCode::Char(c) => {
                    if key.modifiers == 0 || key.modifiers == SHIFT {
                        let res = self.clean.push_char(c);
                        self.ask_after_edit(res, DirCheck::CleanPath)
                    } else {
                        Effect::Nothing
                    }
                },
                KeyCode::Backspace => {
                    let res = self.clean.backspace();
                    self.ask_after_edit(res, DirCheck::CleanPath)
                },
                KeyCode::Enter => {
                    self.clean.next();
                    Effect::Nothing
                },
                _ => Effect::Nothing,
            }
        } else {
            if code == KeyCode::Char('j') {
                self.clean.next();
                return Effect::Nothing;
            }
            if code == KeyCode::Char('k') {
                self.clean.prev();
                return Effect::Nothing;
            }
            if code == KeyCode::Char(' ') {
                if self.clean.focus.is_toggle() {
                    let _ = self.clean.activate();
                }
                Effect::Nothing
            } else if code == KeyCode::Enter && self.clean.focus == Row::Run {
                match self.clean.activate() {
                    Action::CheckDir { path } => {
                        let q = path.clone();
                        self.check = Some(DirCheck::CleanRun(q));
                        Effect::CheckDir { path }
                    },
                    _ => Effect::Nothing,
                }
            } else {
                Effect::Nothing
            }
        }
    }

    fn results_key_exec(&mut self, code: KeyCode)
        requires
            old(self).check is None,
        ensures
            results_key(*old(self), *final(self), code, Effect::Nothing),
    {
        if code == KeyCode::Char('q') {
            self.exit = true;
        } else if code == KeyCode::Char('j') || code == KeyCode::Down {
            self.results.next();
        } else if code == KeyCode::Char('k') || code == KeyCode::Up {
            self.results.prev();
        } else if code == KeyCode::Tab {
            self.results.fail_focus = !self.results.fail_focus;
        } else if code == KeyCode::PageUp {
            self.results.reset_to_zero();
        } else if code == KeyCode::PageDown {
            self.results.move_to_end();
        }
    }

    /// Reacts to a key. A pending question is dropped.
    pub fn handle_key(&mut self, key: Key) -> (eff: Effect)
        requires
            app_wf(*old(self)),
        ensures
            app_wf(*final(self)),
            key_handled(*old(self), *final(self), key, eff),
    {
        self.check = None;
        if !key.press {
            return Effect::Nothing;
        }
        match self.screen {
            Screen::Main => {
                self.main_key_exec(key.code);
                Effect::Nothing
            },
            Screen::SortOptions => self.sort_key_exec(key),
            Screen::CleanOptions => self.clean_key_exec(key),
            Screen::RunningClean | Screen::RunningSort => {
                if key.code == KeyCode::Char('q') {
                    self.exit = true;
                }
                Effect::Nothing
            },
            Screen::CleanResults => {
                self.results_key_exec(key.code);
                Effect::Nothing
            },
        }
    }

    fn start_run(&mut self, path: String, remove_empty: bool, real_run: bool)
        ensures
            fresh_run(final(self).run, path, remove_empty, real_run),
            frame(*old(self), *final(self), false, false, false, false, false, false, true),
            final(self).check == old(self).check,
    {
        self.run = RunInfo {
            status: Status::Running,
            log_lines: Vec::new(),
            real_run,
            remove_empty,
            path,
            tick: 0,
        };
    }

    /// Takes the answer to the pending question: whether its path is a directory.
    pub fn dir_checked(&mut self, is_dir: bool) -> (eff: Effect)
        requires
            app_wf(*old(self)),
        ensures
            app_wf(*final(self)),
            dir_answered(*old(self), *final(self), is_dir, eff),
    {
        match self.check.take() {
            None => Effect::Nothing,
            Some(DirCheck::CleanPath) => {
                self.clean.path_checked(is_dir);
                Effect::Nothing
            },
            Some(DirCheck::SortPath) => {
                self.sort.path_checked(is_dir);
                Effect::Nothing
            },
            Some(DirCheck::CleanRun(path)) => {
                match self.clean.finish_run(path, is_dir) {
                    Action::Run { path, remove_empty, real_run } => {
                        let q = path.clone();
                        self.start_run(q, remove_empty, real_run);
                        self.screen = Screen::RunningClean;
                        Effect::StartClean { path, remove_empty, real_run }
                    },
                    _ => Effect::Nothing,
                }
            },
            Some(DirCheck::SortStart(path, num)) => {
                if is_dir {
                    let q = path.clone();
                    self.start_run(q, false, false);
                    self.screen = Screen::RunningSort;
                    Effect::StartSort { path, num }
                } else {
                    Effect::Nothing
                }
            },
        }
    }

    /// Counts one more refresh of the screen.
    pub fn next_tick(&mut self)
        ensures
            final(self).run.tick == old(self).run.tick.wrapping_add(1),
            final(self).run.status == old(self).run.status,
            final(self).run.log_lines == old(self).run.log_lines,
            final(self).run.path == old(self).run.path,
            final(self).run.real_run == old(self).run.real_run,
            final(self).run.remove_empty == old(self).run.remove_empty,
            frame(*old(self), *final(self), false, false, false, false, false, false, true),
            final(self).check == old(self).check,
    {
        self.run.tick = self.run.tick.wrapping_add(1);
    }
    /// Takes one message of the running job, and says whether to go on receiving.
    pub fn on_message(&mut self, msg: Incoming) -> (r: Receive)
        ensures
            app_wf(*old(self)) ==> app_wf(*final(self)),
            message_taken(*old(self), *final(self), msg, r),
    {
        match msg {
            Incoming::Log(line) => {
                self.run.log_lines.push(line);
                Receive::Continue
            },
            Incoming::Done(Ok(report)) => {
                if report.success.len() > 0 {
                    self.results.pos_succ = Some(0);
                } else {
                    self.results.pos_succ = None;
                }
                if report.errors.len() > 0 {
                    self.results.pos_fail = Some(0);
                } else {
                    self.results.pos_fail = None;
                }
                self.results.fail_focus = false;
                self.results.output = Some(report);
                self.run.status = Status::Finished;
                self.screen = Screen::CleanResults;
                Receive::Close
            },
            Incoming::Done(Err(e)) => {
                self.run.status = Status::Failed(e);
                self.screen = Screen::CleanResults;
                self.results.pos_succ = Some(0);
                self.results.pos_fail = Some(0);
                self.results.fail_focus = false;
                Receive::Close
            },
            Incoming::Empty => Receive::Keep,
            Incoming::Disconnected => {
                self.run.status = Status::Failed(String::from_str("Worker crashed"));
                self.screen = Screen::CleanResults;
                Receive::Close
            },
        }
    }
}

} // verus!
