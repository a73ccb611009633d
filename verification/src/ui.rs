//! The state of the screens of the scanner's terminal interface: the main menu,
//! the clean options, the sort options and the results, and how each reacts.
//!
//! Whether a path names a directory is a question for the file system; the
//! functions that need the answer take it as an argument, for the path that they
//! name in their documentation.
use vstd::prelude::*;
use crate::jobs::CleanReport;

verus! {

/// Removes leading and trailing white space, as `str::trim` does.
pub uninterp spec fn spec_trim(s: Seq<char>) -> Seq<char>;

/// Calls `str::trim` and copies the result; the result is named `spec_trim`.
#[verifier::external_body]
pub(crate) fn trim_text(s: &str) -> (res: String)
    ensures
        res@ == spec_trim(s@),
{
    s.trim().to_string()
}

/// What `str::parse::<usize>` returns for the text: the number, or the text of the error.
pub uninterp spec fn spec_parse_usize(s: Seq<char>) -> Result<usize, Seq<char>>;

/// Calls `str::parse::<usize>`; an error is turned into its displayed text. The
/// result is named `spec_parse_usize`.
#[verifier::external_body]
pub(crate) fn parse_usize(s: &str) -> (res: Result<usize, String>)
    ensures
        match res {
            Ok(n) => spec_parse_usize(s@) == Ok::<usize, Seq<char>>(n),
            Err(e) => spec_parse_usize(s@) == Err::<usize, Seq<char>>(e@),
        },
{
    match s.parse::<usize>() {
        Ok(n) => Ok(n),
        Err(e) => Err(e.to_string()),
    }
}

/// Calls `String::push`, which appends one character.
#[verifier::external_body]
pub(crate) fn push_char_to(s: &mut String, c: char)
    ensures
        final(s)@ == old(s)@.push(c),
{
    s.push(c);
}

/// Calls `String::pop`, which removes the last character, if there is one.
#[verifier::external_body]
pub(crate) fn pop_char_from(s: &mut String)
    ensures
        final(s)@ == if old(s)@.len() == 0 {
            old(s)@
        } else {
            old(s)@.drop_last()
        },
{
    s.pop();
}

/// The items of the main menu: Clean, then Sort.
pub const MENU_LEN: usize = 2;

/// The main menu: which item is selected.
#[derive(Clone, Copy, PartialEq, Eq, Debug)]
pub struct MenuState {
    pub selected: Option<usize>,
}

/// The item after the selected one, wrapping to the first; the first when none is selected.
pub open spec fn menu_after(sel: Option<usize>) -> usize {
    match sel {
        Some(i) => if i >= MENU_LEN - 1 {
            0usize
        } else {
            (i + 1) as usize
        },
        None => 0usize,
    }
}

/// The item before the selected one, wrapping to the last; the first when none is selected.
pub open spec fn menu_before(sel: Option<usize>) -> usize {
    match sel {
        Some(i) => if i == 0 {
            (MENU_LEN - 1) as usize
        } else {
            (i - 1) as usize
        },
        None => 0usize,
    }
}

impl MenuState {
    /// A menu with the first item selected.
    pub fn new() -> (res: MenuState)
        ensures
            res.selected == Some(0usize),
    {
        MenuState { selected: Some(0) }
    }

    /// Selects the next item, wrapping from the last to the first.
    pub fn next(&mut self)
        ensures
            final(self).selected == Some(menu_after(old(self).selected)),
    {
        let i = match self.selected {
            Some(i) => if i >= MENU_LEN - 1 {
                0
            } else {
                i + 1
            },
            None => 0,
        };
        self.selected = Some(i);
    }

    /// Selects the previous item, wrapping from the first to the last.
    pub fn prev(&mut self)
        ensures
            final(self).selected == Some(menu_before(old(self).selected)),
    {
        let i = match self.selected {
            Some(i) => if i == 0 {
                MENU_LEN - 1
            } else {
                i - 1
            },
            None => 0,
        };
        self.selected = Some(i);
    }

    /// The selected item.
    pub fn selected(&self) -> (res: Option<usize>)
        ensures
            res == self.selected,
    {
        self.selected
    }
}

/// The rows of the clean options screen, in their order.
#[derive(Clone, Copy, PartialEq, Eq, Debug, Structural)]
pub enum Row {
    RealRun,
    RemoveEmpty,
    Path,
    Run,
}

/// The number of rows of the clean options screen.
pub const ROW_COUNT: usize = 4;

/// The position of a row.
pub open spec fn row_index(r: Row) -> usize {
    match r {
        Row::RealRun => 0,
        Row::RemoveEmpty => 1,
        Row::Path => 2,
        Row::Run => 3,
    }
}

/// The row at a position, if there is one.
pub open spec fn row_at(i: usize) -> Option<Row> {
    if i == 0 {
        Some(Row::RealRun)
    } else if i == 1 {
        Some(Row::RemoveEmpty)
    } else if i == 2 {
        Some(Row::Path)
    } else if i == 3 {
        Some(Row::Run)
    } else {
        None
    }
}

/// The row after `r`, wrapping to the first.
pub open spec fn row_after(r: Row) -> Row {
    match r {
        Row::RealRun => Row::RemoveEmpty,
        Row::RemoveEmpty => Row::Path,
        Row::Path => Row::Run,
        Row::Run => Row::RealRun,
    }
}

/// The row before `r`, wrapping to the last.
pub open spec fn row_before(r: Row) -> Row {
    match r {
        Row::RealRun => Row::Run,
        Row::RemoveEmpty => Row::RealRun,
        Row::Path => Row::RemoveEmpty,
        Row::Run => Row::Path,
    }
}

pub open spec fn row_name(r: Row) -> Seq<char> {
    match r {
        Row::RealRun => "Real run (Will delete items)"@,
        Row::RemoveEmpty => "Remove empty files"@,
        Row::Path => "Path"@,
        Row::Run => "Run"@,
    }
}

pub open spec fn row_hint(r: Row) -> Seq<char> {
    match r {
        Row::RealRun => "space: toggle - WARNING: (deletes files for real)"@,
        Row::RemoveEmpty => "space: toggle- also delete zero-byte files"@,
        Row::Path => "Type to edit"@,
        Row::Run => "enter: start the scan"@,
    }
}

impl Row {
    /// The row at position `i`, if there is one.
    pub fn from_index(i: usize) -> (res: Option<Row>)
        ensures
            res == row_at(i),
    {
        if i == 0 {
            Some(Row::RealRun)
        } else if i == 1 {
            Some(Row::RemoveEmpty)
        } else if i == 2 {
            Some(Row::Path)
        } else if i == 3 {
            Some(Row::Run)
        } else {
            None
        }
    }

    /// The row's title.
    pub fn name(self) -> (res: &'static str)
        ensures
            res@ == row_name(self),
    {
        match self {
            Row::RealRun => "Real run (Will delete items)",
            Row::RemoveEmpty => "Remove empty files",
            Row::Path => "Path",
            Row::Run => "Run",
        }
    }

    /// Whether the row is a check box.
    pub fn is_toggle(self) -> (res: bool)
        ensures
            res == (self == Row::RealRun || self == Row::RemoveEmpty),
    {
        match self {
            Row::RealRun | Row::RemoveEmpty => true,
            _ => false,
        }
    }

    /// The help line shown while the row has the focus.
    pub fn hint(self) -> (res: &'static str)
        ensures
            res@ == row_hint(self),
    {
        match self {
            Row::RealRun => "space: toggle - WARNING: (deletes files for real)",
            Row::RemoveEmpty => "space: toggle- also delete zero-byte files",
            Row::Path => "Type to edit",
            Row::Run => "enter: start the scan",
        }
    }

    /// The row's position.
    pub fn index(self) -> (res: usize)
        ensures
            res == row_index(self),
    {
        match self {
            Row::RealRun => 0,
            Row::RemoveEmpty => 1,
            Row::Path => 2,
            Row::Run => 3,
        }
    }
}

/// The message shown when the path is not a directory.
pub open spec fn not_a_directory() -> Seq<char> {
    "Provided path is not a valid directory"@
}

/// What the clean options screen asks for when a row is activated.
#[derive(PartialEq, Eq, Debug)]
pub enum Action {
    /// Start a clean of `path`.
    Run { path: String, remove_empty: bool, real_run: bool },
    /// Nothing to start.
    Noop,
    /// Tell whether `path` (the trimmed path, not empty) is a directory, by
    /// calling `CleanState::finish_run`.
    CheckDir { path: String },
}

/// The clean options screen.
#[derive(Clone, PartialEq, Eq, Debug)]
pub struct CleanState {
    pub real_run: bool,
    pub remove_empty: bool,
    pub path: String,
    pub error: Option<String>,
    pub focus: Row,
}

/// The label of a check box row: "[x] " or "[ ] " and the row's title; other
/// rows have none.
pub open spec fn label_text(real_run: bool, remove_empty: bool, row: Row) -> Seq<char> {
    match row {
        Row::RealRun => (if real_run {
            "[x] "@
        } else {
            "[ ] "@
        }) + row_name(row),
        Row::RemoveEmpty => (if remove_empty {
            "[x] "@
        } else {
            "[ ] "@
        }) + row_name(row),
        _ => Seq::empty(),
    }
}

/// The text of an optional message.
pub open spec fn opt_text(o: Option<String>) -> Option<Seq<char>> {
    match o {
        Some(s) => Some(s@),
        None => None,
    }
}

impl CleanState {
    /// The screen with both boxes unchecked, the focus on the first row, `path`
    /// typed in, and the path reported as invalid until it is edited.
    pub fn new(path: String) -> (res: CleanState)
        ensures
            !res.real_run,
            !res.remove_empty,
            res.path == path,
            opt_text(res.error) == Some("Invalid Path"@),
            res.focus == Row::RealRun,
    {
        CleanState {
            real_run: false,
            remove_empty: false,
            path,
            focus: Row::RealRun,
            error: Some(String::from_str("Invalid Path")),
        }
    }

    /// Moves the focus to the next row, wrapping to the first.
    pub fn next(&mut self)
        ensures
            clean_focus_moved(*old(self), *final(self), row_after(old(self).focus)),
    {
        let i = self.focus.index();
        if i >= ROW_COUNT - 1 {
            self.focus = match Row::from_index(0) {
                Some(r) => r,
                None => Row::RealRun,
            };
        } else {
            self.focus = match Row::from_index(i + 1) {
                Some(r) => r,
                None => Row::RealRun,
            };
        }
    }

    /// Moves the focus to the previous row, wrapping to the last.
    pub fn prev(&mut self)
        ensures
            clean_focus_moved(*old(self), *final(self), row_before(old(self).focus)),
    {
        let i = self.focus.index();
        if i == 0 {
            self.focus = match Row::from_index(ROW_COUNT - 1) {
                Some(r) => r,
                None => Row::RealRun,
            };
        } else {
            self.focus = match Row::from_index(i - 1) {
                Some(r) => r,
                None => Row::RealRun,
            };
        }
    }

    /// The label of a check box row.
    pub fn label(&self, row: Row) -> (res: String)
        ensures
            res@ == label_text(self.real_run, self.remove_empty, row),
    {
        match row {
            Row::RealRun => {
                let mut s = if self.real_run {
                    String::from_str("[x] ")
                } else {
                    String::from_str("[ ] ")
                };
                s.append(row.name());
                s
            },
            Row::RemoveEmpty => {
                let mut s = if self.remove_empty {
                    String::from_str("[x] ")
                } else {
                    String::from_str("[ ] ")
                };
                s.append(row.name());
                s
            },
            _ => String::new(),
        }
    }

    /// Activates the focused row: a check box is toggled; on the path, the
    /// focus moves to Run; on Run, an empty (trimmed) path is refused at once,
    /// and otherwise the caller is asked whether the trimmed path is a directory.
    /// The message is cleared first.
    pub fn activate(&mut self) -> (res: Action)
        ensures
            clean_activated(*old(self), *final(self), res),
    {
        self.error = None;
        match self.focus {
            Row::RealRun => {
                self.real_run = !self.real_run;
                Action::Noop
            },
            Row::RemoveEmpty => {
                self.remove_empty = !self.remove_empty;
                Action::Noop
            },
            Row::Path => {
                self.focus = Row::Run;
                Action::Noop
            },
            Row::Run => {
                let trimmed = trim_text(self.path.as_str());
                if trimmed.as_str().is_empty() {
                    self.error = Some(String::from_str("Path does not exist"));
                    Action::Noop
                } else {
                    Action::CheckDir { path: trimmed }
                }
            },
        }
    }

    /// Finishes activating Run, given whether the trimmed `path` that `activate`
    /// handed out is a directory: a directory starts a clean with the current
    /// options; anything else is reported.
    pub fn finish_run(&mut self, path: String, is_dir: bool) -> (res: Action)
        ensures
            final(self).path == old(self).path,
            final(self).real_run == old(self).real_run,
            final(self).remove_empty == old(self).remove_empty,
            final(self).focus == old(self).focus,
            is_dir ==> final(self).error == old(self).error && (res matches Action::Run {
                path: p,
                remove_empty,
                real_run,
            } && p == path && remove_empty == old(self).remove_empty && real_run == old(
                self,
            ).real_run),
            !is_dir ==> res is Noop && opt_text(final(self).error) == Some(not_a_directory()),
    {
        if is_dir {
            Action::Run { path, remove_empty: self.remove_empty, real_run: self.real_run }
        } else {
            self.error = Some(String::from_str("Provided path is not a valid directory"));
            Action::Noop
        }
    }

    /// Types `ch` at the end of the path. The result is the trimmed new path when
    /// it is not empty: the caller then tells `path_checked` whether it is a
    /// directory. An empty trimmed path is reported at once.
    pub fn push_char(&mut self, ch: char) -> (res: Option<String>)
        ensures
            clean_path_edited(*old(self), *final(self), res, |p: Seq<char>| p.push(ch)),
    {
        push_char_to(&mut self.path, ch);
        self.request_check()
    }

    /// Removes the last character of the path, if any, then proceeds as `push_char`.
    pub fn backspace(&mut self) -> (res: Option<String>)
        ensures
            clean_path_edited(*old(self), *final(self), res, |p: Seq<char>| drop_last_char(p)),
    {
        pop_char_from(&mut self.path);
        self.request_check()
    }

    fn request_check(&mut self) -> (res: Option<String>)
        ensures
            final(self).path == old(self).path,
            final(self).real_run == old(self).real_run,
            final(self).remove_empty == old(self).remove_empty,
            final(self).focus == old(self).focus,
            self_check(old(self).error, *final(self), res),
    {
        let trimmed = trim_text(self.path.as_str());
        if trimmed.as_str().is_empty() {
            self.error = Some(String::from_str("Provided path is not a valid directory"));
            None
        } else {
            Some(trimmed)
        }
    }

    /// Records whether the edited path names a directory: the message is cleared
    /// for a directory and set otherwise.
    pub fn path_checked(&mut self, is_dir: bool)
        ensures
            final(self).path == old(self).path,
            final(self).real_run == old(self).real_run,
            final(self).remove_empty == old(self).remove_empty,
            final(self).focus == old(self).focus,
            is_dir ==> final(self).error is None,
            !is_dir ==> opt_text(final(self).error) == Some(not_a_directory()),
    {
        if is_dir {
            self.error = None;
        } else {
            self.error = Some(String::from_str("Provided path is not a valid directory"));
        }
    }

    /// The path to ask about for `is_valid_path`: the trimmed path, unless empty.
    pub fn path_to_check(&self) -> (res: Option<String>)
        ensures
            spec_trim(self.path@).len() == 0 ==> res is None,
            spec_trim(self.path@).len() != 0 ==> (res matches Some(p) && p@ == spec_trim(self.path@)),
    {
        let trimmed = trim_text(self.path.as_str());
        if trimmed.as_str().is_empty() {
            None
        } else {
            Some(trimmed)
        }
    }

    /// Whether the path is valid, given whether the trimmed path names a
    /// directory: it must be non-empty once trimmed, and a directory.
    pub fn is_valid_path(&self, is_dir: bool) -> (res: bool)
        ensures
            res == (spec_trim(self.path@).len() != 0 && is_dir),
    {
        let trimmed = trim_text(self.path.as_str());
        if trimmed.as_str().is_empty() {
            return false;
        }
        if !is_dir {
            return false;
        }
        true
    }
}

/// `n` is `o` with the focus on `row`.
pub open spec fn clean_focus_moved(o: CleanState, n: CleanState, row: Row) -> bool {
    &&& n.focus == row
    &&& n.real_run == o.real_run
    &&& n.remove_empty == o.remove_empty
    &&& n.path == o.path
    &&& n.error == o.error
}

/// The effect of activating the focused row of the clean options: a check box
/// is toggled; on the path, the focus moves to Run; on Run, an empty trimmed
/// path is reported, and otherwise the trimmed path is asked about. The
/// message is cleared first.
pub open spec fn clean_activated(o: CleanState, n: CleanState, res: Action) -> bool {
    &&& n.path == o.path
    &&& match o.focus {
        Row::RealRun => res is Noop && n.real_run == !o.real_run && n.remove_empty == o.remove_empty
            && n.focus == o.focus && n.error is None,
        Row::RemoveEmpty => res is Noop && n.real_run == o.real_run && n.remove_empty
            == !o.remove_empty && n.focus == o.focus && n.error is None,
        Row::Path => res is Noop && n.real_run == o.real_run && n.remove_empty == o.remove_empty
            && n.focus == Row::Run && n.error is None,
        Row::Run => n.real_run == o.real_run && n.remove_empty == o.remove_empty && n.focus
            == o.focus && if spec_trim(o.path@).len() == 0 {
            res is Noop && opt_text(n.error) == Some("Path does not exist"@)
        } else {
            (res matches Action::CheckDir { path } && path@ == spec_trim(o.path@)) && n.error is None
        },
    }
}

/// The effect of editing the path of the clean options: `edited` is the new path.
pub open spec fn clean_path_edited(o: CleanState, n: CleanState, res: Option<String>, edited: spec_fn(Seq<char>) -> Seq<char>) -> bool {
    &&& n.path@ == edited(o.path@)
    &&& n.real_run == o.real_run
    &&& n.remove_empty == o.remove_empty
    &&& n.focus == o.focus
    &&& self_check(o.error, n, res)
}

/// After an edit of the path: an empty trimmed path is reported (and nothing is
/// asked); otherwise the trimmed path is asked about and the message is left
/// for `path_checked`.
pub open spec fn self_check(old_error: Option<String>, s: CleanState, res: Option<String>) -> bool {
    if spec_trim(s.path@).len() == 0 {
        res is None && opt_text(s.error) == Some(not_a_directory())
    } else {
        (res matches Some(p) && p@ == spec_trim(s.path@)) && s.error == old_error
    }
}

/// The sort options screen: the path, how many files to show, their messages,
/// and which of the two fields has the focus (0: path, 1: number).
#[derive(Clone, PartialEq, Eq, Debug)]
pub struct SortOptions {
    pub path: String,
    pub num_show: String,
    pub path_error: Option<String>,
    pub num_error: Option<String>,
    pub focus: Option<usize>,
}

/// The message for a number that does not parse: "Invalid Number " and the error.
pub open spec fn invalid_number(err: Seq<char>) -> Seq<char> {
    "Invalid Number "@ + err
}

/// The number message for the text of the number field.
pub open spec fn num_message(num_show: Seq<char>) -> Option<Seq<char>> {
    match spec_parse_usize(num_show) {
        Ok(_) => None,
        Err(e) => Some(invalid_number(e)),
    }
}

/// After an edit of the sort path: an empty trimmed path is reported (and
/// nothing is asked); otherwise the trimmed path is asked about and the message
/// is left for `path_checked`.
pub open spec fn sort_path_check(old_error: Option<String>, s: SortOptions, res: Option<String>) -> bool {
    if spec_trim(s.path@).len() == 0 {
        res is None && opt_text(s.path_error) == Some("Invalid Path"@)
    } else {
        (res matches Some(p) && p@ == spec_trim(s.path@)) && s.path_error == old_error
    }
}

/// The effect of typing into (or deleting from) the focused field of the sort
/// options: `edited` is the new text of that field.
pub open spec fn sort_edited(o: SortOptions, n: SortOptions, res: Option<String>, edited: spec_fn(Seq<char>) -> Seq<char>) -> bool {
    &&& n.focus == o.focus
    &&& if o.focus == Some(0usize) {
        &&& n.path@ == edited(o.path@)
        &&& n.num_show == o.num_show
        &&& n.num_error == o.num_error
        &&& sort_path_check(o.path_error, n, res)
    } else if o.focus == Some(1usize) {
        &&& n.num_show@ == edited(o.num_show@)
        &&& n.path == o.path
        &&& n.path_error == o.path_error
        &&& opt_text(n.num_error) == num_message(n.num_show@)
        &&& res is None
    } else {
        n == o && res is None
    }
}

/// The text with its last character removed, if it has one.
pub open spec fn drop_last_char(s: Seq<char>) -> Seq<char> {
    if s.len() == 0 {
        s
    } else {
        s.drop_last()
    }
}

/// `n` is `o` with the focus moved to the other field.
pub open spec fn sort_focus_changed(o: SortOptions, n: SortOptions) -> bool {
    &&& n.focus == match o.focus {
        Some(i) => Some((1 - i) as usize),
        None => None,
    }
    &&& n.path == o.path
    &&& n.num_show == o.num_show
    &&& n.path_error == o.path_error
    &&& n.num_error == o.num_error
}

impl SortOptions {
    /// The screen with `path` typed in, 20 files to show, the focus on the path,
    /// and the path reported as invalid until it is edited.
    pub fn new(path: String) -> (res: SortOptions)
        ensures
            res.path == path,
            res.num_show@ == "20"@,
            opt_text(res.path_error) == Some("Invalid path"@),
            res.num_error is None,
            res.focus == Some(0usize),
    {
        SortOptions {
            path,
            num_show: String::from_str("20"),
            path_error: Some(String::from_str("Invalid path")),
            num_error: None,
            focus: Some(0),
        }
    }

    /// Types `ch` into the focused field. For the path, the result is the trimmed
    /// new path when it is not empty, to be answered with `path_checked`; the
    /// number is checked at once.
    pub fn push_char(&mut self, ch: char) -> (res: Option<String>)
        ensures
            sort_edited(*old(self), *final(self), res, |s: Seq<char>| s.push(ch)),
    {
        if self.focus == Some(0) {
            push_char_to(&mut self.path, ch);
            self.validate_path()
        } else if self.focus == Some(1) {
            push_char_to(&mut self.num_show, ch);
            self.validate_num();
            None
        } else {
            None
        }
    }

    /// Removes the last character of the focused field, then proceeds as `push_char`.
    pub fn pop(&mut self) -> (res: Option<String>)
        ensures
            sort_edited(*old(self), *final(self), res, |s: Seq<char>| drop_last_char(s)),
    {
        if self.focus == Some(0) {
            pop_char_from(&mut self.path);
            self.validate_path()
        } else if self.focus == Some(1) {
            pop_char_from(&mut self.num_show);
            self.validate_num();
            None
        } else {
            None
        }
    }

    /// Starts checking the path: an empty trimmed path is reported at once;
    /// otherwise the trimmed path is returned, to be answered with `path_checked`.
    pub fn validate_path(&mut self) -> (res: Option<String>)
        ensures
            final(self).path == old(self).path,
            final(self).num_show == old(self).num_show,
            final(self).num_error == old(self).num_error,
            final(self).focus == old(self).focus,
            sort_path_check(old(self).path_error, *final(self), res),
    {
        let trimmed = trim_text(self.path.as_str());
        if trimmed.as_str().is_empty() {
            self.path_error = Some(String::from_str("Invalid Path"));
            None
        } else {
            Some(trimmed)
        }
    }

    /// Records whether the trimmed path names a directory.
    pub fn path_checked(&mut self, is_dir: bool)
        ensures
            final(self).path == old(self).path,
            final(self).num_show == old(self).num_show,
            final(self).num_error == old(self).num_error,
            final(self).focus == old(self).focus,
            is_dir ==> final(self).path_error is None,
            !is_dir ==> opt_text(final(self).path_error) == Some("Invalid Path"@),
    {
        if is_dir {
            self.path_error = None;
        } else {
            self.path_error = Some(String::from_str("Invalid Path"));
        }
    }

    /// Moves the focus to the other field.
    pub fn change(&mut self)
        requires
            old(self).focus matches Some(i) ==> i <= 1,
        ensures
            sort_focus_changed(*old(self), *final(self)),
    {
        if let Some(i) = self.focus {
            self.focus = Some(1 - i);
        }
    }

    /// Checks the number field: a number clears the message; otherwise the
    /// message is "Invalid Number " and the parse error.
    pub fn validate_num(&mut self)
        ensures
            final(self).path == old(self).path,
            final(self).num_show == old(self).num_show,
            final(self).path_error == old(self).path_error,
            final(self).focus == old(self).focus,
            opt_text(final(self).num_error) == num_message(old(self).num_show@),
    {
        match parse_usize(self.num_show.as_str()) {
            Ok(_) => self.num_error = None,
            Err(e) => {
                let mut msg = String::from_str("Invalid Number ");
                msg.append(e.as_str());
                self.num_error = Some(msg);
            },
        }
    }

    /// Whether the number field holds a number (its box is shown green).
    pub fn is_valid_num(&self) -> (res: bool)
        ensures
            res == (spec_parse_usize(self.num_show@) is Ok),
    {
        parse_usize(self.num_show.as_str()).is_ok()
    }

    /// The path to ask about: the trimmed path, unless empty.
    pub fn path_to_check(&self) -> (res: Option<String>)
        ensures
            spec_trim(self.path@).len() == 0 ==> res is None,
            spec_trim(self.path@).len() != 0 ==> (res matches Some(p) && p@ == spec_trim(self.path@)),
    {
        let trimmed = trim_text(self.path.as_str());
        if trimmed.as_str().is_empty() {
            None
        } else {
            Some(trimmed)
        }
    }

    /// Whether the path is valid, given whether the trimmed path names a directory.
    pub fn is_valid_path(&self, is_dir: bool) -> (res: bool)
        ensures
            res == (spec_trim(self.path@).len() != 0 && is_dir),
    {
        let trimmed = trim_text(self.path.as_str());
        if trimmed.as_str().is_empty() {
            return false;
        }
        is_dir
    }

    /// The path to scan, given whether the trimmed path names a directory: the
    /// trimmed path when it is valid.
    pub fn valid_path(&self, is_dir: bool) -> (res: Option<String>)
        ensures
            (spec_trim(self.path@).len() != 0 && is_dir) ==> (res matches Some(p) && p@ == spec_trim(
                self.path@,
            )),
            !(spec_trim(self.path@).len() != 0 && is_dir) ==> res is None,
    {
        let trimmed = trim_text(self.path.as_str());
        if trimmed.as_str().is_empty() || !is_dir {
            None
        } else {
            Some(trimmed)
        }
    }
}

/// The results screen: the selected line of each pane, the report shown, and
/// whether the error pane has the focus.
#[derive(Debug)]
pub struct ResultStatus {
    pub pos_succ: Option<usize>,
    pub pos_fail: Option<usize>,
    pub output: Option<CleanReport>,
    pub fail_focus: bool,
}

/// The number of lines of the focused pane, when there is a report.
pub open spec fn focused_len(r: ResultStatus) -> Option<nat> {
    match r.output {
        Some(rep) => Some(
            if r.fail_focus {
                rep.errors@.len()
            } else {
                rep.success@.len()
            },
        ),
        None => None,
    }
}

/// The selection of the focused pane.
pub open spec fn focused_pos(r: ResultStatus) -> Option<usize> {
    if r.fail_focus {
        r.pos_fail
    } else {
        r.pos_succ
    }
}

/// `n` is `o` with the selection of the focused pane set to `pos`, where the
/// focused pane has lines; otherwise `n` is `o`.
pub open spec fn moved_to(o: ResultStatus, n: ResultStatus, pos: spec_fn(usize, nat) -> usize) -> bool {
    &&& n.output == o.output
    &&& n.fail_focus == o.fail_focus
    &&& match focused_len(o) {
        Some(len) if len > 0 => {
            let p = pos(
                match focused_pos(o) {
                    Some(c) => c,
                    None => 0usize,
                },
                len,
            );
            if o.fail_focus {
                n.pos_fail == Some(p) && n.pos_succ == o.pos_succ
            } else {
                n.pos_succ == Some(p) && n.pos_fail == o.pos_fail
            }
        },
        _ => n.pos_succ == o.pos_succ && n.pos_fail == o.pos_fail,
    }
}

/// The line after `c` among `len` lines, wrapping to the first.
pub open spec fn line_after(c: usize, len: nat) -> usize {
    if c >= len - 1 {
        0
    } else {
        (c + 1) as usize
    }
}

/// The line before `c` among `len` lines, wrapping to the last.
pub open spec fn line_before(c: usize, len: nat) -> usize {
    if c == 0 {
        (len - 1) as usize
    } else {
        (c - 1) as usize
    }
}

impl ResultStatus {
    /// A screen with nothing to show.
    pub fn new() -> (res: ResultStatus)
        ensures
            res.pos_succ is None,
            res.pos_fail is None,
            res.output is None,
            !res.fail_focus,
    {
        ResultStatus { pos_succ: None, pos_fail: None, output: None, fail_focus: false }
    }

    fn focused_len_exec(&self) -> (res: usize)
        requires
            self.output is Some,
        ensures
            focused_len(*self) == Some(res as nat),
    {
        match &self.output {
            Some(rep) => if self.fail_focus {
                rep.errors.len()
            } else {
                rep.success.len()
            },
            None => 0,
        }
    }

    fn set_focused(&mut self, p: usize)
        ensures
            final(self).output == old(self).output,
            final(self).fail_focus == old(self).fail_focus,
            old(self).fail_focus ==> final(self).pos_fail == Some(p) && final(self).pos_succ == old(
                self,
            ).pos_succ,
            !old(self).fail_focus ==> final(self).pos_succ == Some(p) && final(self).pos_fail == old(
                self,
            ).pos_fail,
    {
        if self.fail_focus {
            self.pos_fail = Some(p);
        } else {
            self.pos_succ = Some(p);
        }
    }

    fn focused_current(&self) -> (res: usize)
        ensures
            res == match focused_pos(*self) {
                Some(c) => c,
                None => 0usize,
            },
    {
        let pos = if self.fail_focus {
            self.pos_fail
        } else {
            self.pos_succ
        };
        match pos {
            Some(c) => c,
            None => 0,
        }
    }

    /// Selects the next line of the focused pane, wrapping to the first.
    pub fn next(&mut self)
        ensures
            moved_to(*old(self), *final(self), |c: usize, len: nat| line_after(c, len)),
    {
        if self.output.is_none() {
            return;
        }
        let len = self.focused_len_exec();
        if len > 0 {
            let curr = self.focused_current();
            let p = if curr >= len - 1 {
                0
            } else {
                curr + 1
            };
            self.set_focused(p);
        }
    }

    /// Selects the previous line of the focused pane, wrapping to the last.
    pub fn prev(&mut self)
        ensures
            moved_to(*old(self), *final(self), |c: usize, len: nat| line_before(c, len)),
    {
        if self.output.is_none() {
            return;
        }
        let len = self.focused_len_exec();
        if len > 0 {
            let curr = self.focused_current();
            let p = if curr == 0 {
                len - 1
            } else {
                curr - 1
            };
            self.set_focused(p);
        }
    }

    /// Selects the first line of the focused pane.
    pub fn reset_to_zero(&mut self)
        ensures
            moved_to(*old(self), *final(self), |c: usize, len: nat| 0usize),
    {
        if self.output.is_none() {
            return;
        }
        let len = self.focused_len_exec();
        if len > 0 {
            self.set_focused(0);
        }
    }

    /// Selects the last line of the focused pane.
    pub fn move_to_end(&mut self)
        ensures
            moved_to(*old(self), *final(self), |c: usize, len: nat| (len - 1) as usize),
    {
        if self.output.is_none() {
            return;
        }
        let len = self.focused_len_exec();
        if len > 0 {
            self.set_focused(len - 1);
        }
    }
}

} // verus!
