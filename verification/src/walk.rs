//! Walking a directory tree: which entries are skipped, which files are kept
//! for the scan, which directories are entered, and which failures are reported.
//!
//! The walk keeps a stack of directories to read. `next_dir` hands out the next
//! one; the caller lists it and gives the listing to `record_listing`.
use vstd::prelude::*;
use vstd::string::StrSliceExecFns;
use crate::util::{found_view, reversed, strs};
use crate::text::{dir_unreadable, dir_unreadable_line, entry_metadata_failed, entry_metadata_failed_line};

verus! {

/// What a directory listing says of an entry's type, when it could tell.
#[derive(Clone, Copy, PartialEq, Eq, Debug)]
pub struct ListedType {
    pub is_file: bool,
    pub is_symlink: bool,
}

/// The metadata of an entry (not following symbolic links).
#[derive(Clone, Copy, PartialEq, Eq, Debug)]
pub struct EntryMetadata {
    pub is_file: bool,
    pub is_dir: bool,
    /// Number of hard links.
    pub nlink: u64,
    /// Length in bytes.
    pub len: u64,
}

/// One entry of a directory listing, as the file system reported it.
#[derive(PartialEq, Eq, Debug)]
pub struct DirEntryInfo {
    /// The entry's full path.
    pub path: String,
    /// The entry's name, where it is valid text.
    pub name: Option<String>,
    /// The entry's type, where the entry and its type could be read.
    pub listed_type: Option<ListedType>,
    /// The entry's metadata, or the error met while reading it.
    pub metadata: Result<EntryMetadata, String>,
}

/// What the walk does with one entry.
pub enum EntryOutcome {
    Skip,
    /// Keep the file, with its size and path, for the scan.
    KeepFile(u64, Seq<char>),
    /// Enter the directory later.
    EnterDir(Seq<char>),
    /// Report a failure.
    Report(Seq<char>),
}

/// The extension of a path as the standard library computes it, where it is text.
pub uninterp spec fn spec_path_extension(path: Seq<char>) -> Option<Seq<char>>;

/// Calls `std::path::Path::extension` on `path` and converts the result to text.
/// The result is named `spec_path_extension`; nothing more is claimed of it.
#[verifier::external_body]
fn path_extension(path: &str) -> (res: Option<String>)
    ensures
        match res {
            Some(e) => spec_path_extension(path@) == Some(e@),
            None => spec_path_extension(path@) is None,
        },
{
    std::path::Path::new(path).extension().map(|e| e.to_string_lossy().into_owned())
}

/// The ASCII lower-case code of `c`.
pub open spec fn ascii_lower(c: char) -> int {
    if 'A' <= c && c <= 'Z' {
        (c as int) + 32
    } else {
        c as int
    }
}

/// `a` and `b` are equal when ASCII letters are compared without case.
pub open spec fn eq_ignore_ascii_case(a: Seq<char>, b: Seq<char>) -> bool {
    a.len() == b.len() && forall|i: int| 0 <= i < a.len() ==> ascii_lower(a[i]) == ascii_lower(b[i])
}

/// Calls `str::eq_ignore_ascii_case`, which its documentation defines as the
/// equality of both strings with ASCII letters lowered.
#[verifier::external_body]
fn str_eq_ignore_ascii_case(a: &str, b: &str) -> (res: bool)
    ensures
        res == eq_ignore_ascii_case(a@, b@),
{
    a.eq_ignore_ascii_case(b)
}

/// The extension of an application bundle (a directory that a clean leaves
/// alone): app, framework, bundle, xpc, plugin, appex, kext, prefPane,
/// qlgenerator, in any ASCII case.
pub open spec fn is_bundle_extension(ext: Seq<char>) -> bool {
    ||| eq_ignore_ascii_case(ext, "app"@)
    ||| eq_ignore_ascii_case(ext, "framework"@)
    ||| eq_ignore_ascii_case(ext, "bundle"@)
    ||| eq_ignore_ascii_case(ext, "xpc"@)
    ||| eq_ignore_ascii_case(ext, "plugin"@)
    ||| eq_ignore_ascii_case(ext, "appex"@)
    ||| eq_ignore_ascii_case(ext, "kext"@)
    ||| eq_ignore_ascii_case(ext, "prefPane"@)
    ||| eq_ignore_ascii_case(ext, "qlgenerator"@)
}

/// The path is that of a bundle: its extension is one of the bundle extensions.
pub open spec fn is_bundle_path(path: Seq<char>) -> bool {
    spec_path_extension(path) matches Some(e) && is_bundle_extension(e)
}

fn bundle_extension(ext: &str) -> (res: bool)
    ensures
        res == is_bundle_extension(ext@),
{
    str_eq_ignore_ascii_case(ext, "app") || str_eq_ignore_ascii_case(ext, "framework")
        || str_eq_ignore_ascii_case(ext, "bundle") || str_eq_ignore_ascii_case(ext, "xpc")
        || str_eq_ignore_ascii_case(ext, "plugin") || str_eq_ignore_ascii_case(ext, "appex")
        || str_eq_ignore_ascii_case(ext, "kext") || str_eq_ignore_ascii_case(ext, "prefPane")
        || str_eq_ignore_ascii_case(ext, "qlgenerator")
}

/// Whether `path` names a bundle directory.
pub fn bundle_path(path: &str) -> (res: bool)
    ensures
        res == is_bundle_path(path@),
{
    match path_extension(path) {
        Some(e) => bundle_extension(e.as_str()),
        None => false,
    }
}

/// The entry is hidden (its name starts with a dot), or it is not a file and is
/// named `target`, or its name is not text: the walk passes over it.
pub open spec fn is_ignored_name(name: Option<String>, listed: ListedType) -> bool {
    match name {
        Some(n) => (n@.len() > 0 && n@[0] == '.') || (!listed.is_file && n@ == "target"@),
        None => true,
    }
}

/// What the walk does with `entry`.
pub open spec fn classify(entry: DirEntryInfo, remove_empty: bool, is_clean: bool) -> EntryOutcome {
    match entry.listed_type {
        None => EntryOutcome::Skip,
        Some(listed) => if is_ignored_name(entry.name, listed) || listed.is_symlink {
            EntryOutcome::Skip
        } else {
            match entry.metadata {
                Err(e) => EntryOutcome::Report(entry_metadata_failed(entry.path@, e@)),
                Ok(md) => if md.is_file {
                    if md.nlink > 1 {
                        // a hard link: deleting it would not free its data
                        EntryOutcome::Skip
                    } else if md.len > 0 || remove_empty {
                        EntryOutcome::KeepFile(md.len, entry.path@)
                    } else {
                        EntryOutcome::Skip
                    }
                } else if md.is_dir {
                    if is_clean && is_bundle_path(entry.path@) {
                        EntryOutcome::Skip
                    } else {
                        EntryOutcome::EnterDir(entry.path@)
                    }
                } else {
                    EntryOutcome::Skip
                },
            }
        },
    }
}

/// The abstract state of a walk.
#[verifier::ext_equal]
pub struct WalkView {
    /// Directories still to read; the last one is read next.
    pub dirs: Seq<Seq<char>>,
    /// The directory handed out and not yet listed.
    pub current: Option<Seq<char>>,
    /// Files kept so far, with their sizes.
    pub files: Seq<(u64, Seq<char>)>,
    pub errors: Seq<Seq<char>>,
    pub remove_empty: bool,
    pub is_clean: bool,
}

/// A walk of a directory tree.
pub struct Walker {
    dirs: Vec<String>,
    current: Option<String>,
    files: Vec<(u64, String)>,
    errors: Vec<String>,
    remove_empty: bool,
    is_clean: bool,
}

impl View for Walker {
    type V = WalkView;

    closed spec fn view(&self) -> WalkView {
        WalkView {
            dirs: strs(self.dirs@),
            current: match self.current {
                Some(d) => Some(d@),
                None => None,
            },
            files: found_view(self.files@),
            errors: strs(self.errors@),
            remove_empty: self.remove_empty,
            is_clean: self.is_clean,
        }
    }
}

/// The walk after meeting `entry`.
pub open spec fn add_entry(m: WalkView, entry: DirEntryInfo) -> WalkView {
    match classify(entry, m.remove_empty, m.is_clean) {
        EntryOutcome::Skip => m,
        EntryOutcome::KeepFile(len, path) => WalkView { files: m.files.push((len, path)), ..m },
        EntryOutcome::EnterDir(path) => WalkView { dirs: m.dirs.push(path), ..m },
        EntryOutcome::Report(line) => WalkView { errors: m.errors.push(line), ..m },
    }
}

/// The walk after meeting `entries`, in order.
pub open spec fn add_entries(m: WalkView, entries: Seq<DirEntryInfo>) -> WalkView
    decreases entries.len(),
{
    if entries.len() == 0 {
        m
    } else {
        add_entry(add_entries(m, entries.drop_last()), entries.last())
    }
}

/// Meeting entries keeps the walk's options.
pub proof fn lemma_add_entries_flags(m: WalkView, entries: Seq<DirEntryInfo>)
    ensures
        add_entries(m, entries).remove_empty == m.remove_empty,
        add_entries(m, entries).is_clean == m.is_clean,
    decreases entries.len(),
{
    if entries.len() > 0 {
        lemma_add_entries_flags(m, entries.drop_last());
    }
}

/// The walk after the listing of the directory handed out: a failed listing is
/// reported, a listing's entries are met in order.
pub open spec fn record(m: WalkView, listing: Result<Vec<DirEntryInfo>, String>) -> WalkView {
    match m.current {
        None => m,
        Some(dir) => {
            let m2 = WalkView { current: None, ..m };
            match listing {
                Err(e) => WalkView { errors: m2.errors.push(dir_unreadable(dir, e@)), ..m2 },
                Ok(entries) => add_entries(m2, entries@),
            }
        },
    }
}

/// The walk after handing out the next directory to list, the last one on the stack.
pub open spec fn take_dir(m: WalkView) -> WalkView {
    if m.dirs.len() == 0 {
        m
    } else {
        WalkView { dirs: m.dirs.drop_last(), current: Some(m.dirs.last()), ..m }
    }
}

/// A new walk from `root`.
pub open spec fn initial_walk(root: Seq<char>, remove_empty: bool, is_clean: bool) -> WalkView {
    WalkView {
        dirs: seq![root],
        current: None,
        files: Seq::empty(),
        errors: Seq::empty(),
        remove_empty,
        is_clean,
    }
}

fn starts_with_dot(name: &str) -> (res: bool)
    ensures
        res == (name@.len() > 0 && name@[0] == '.'),
{
    if name.is_empty() {
        false
    } else {
        name.get_char(0) == '.'
    }
}

fn ignored_name(name: &Option<String>, listed: ListedType) -> (res: bool)
    ensures
        res == is_ignored_name(*name, listed),
{
    match name {
        Some(n) => {
            let target = String::from_str("target");
            starts_with_dot(n.as_str()) || (!listed.is_file && *n == target)
        },
        None => true,
    }
}

impl Walker {
    /// Starts a walk from `root`. Empty files are kept when `remove_empty` holds;
    /// bundle directories are passed over when `is_clean` holds.
    pub fn new(root: String, remove_empty: bool, is_clean: bool) -> (res: Walker)
        ensures
            res@ == initial_walk(root@, remove_empty, is_clean),
            res@.remove_empty == remove_empty,
            res@.is_clean == is_clean,
            res@.dirs == seq![root@],
            res@.current is None,
            res@.files.len() == 0,
            res@.errors.len() == 0,
    {
        let ghost r = root;
        let mut dirs: Vec<String> = Vec::new();
        dirs.push(root);
        let res = Walker { dirs, current: None, files: Vec::new(), errors: Vec::new(), remove_empty, is_clean };
        assert(strs(res.dirs@) =~= seq![r@]);
        assert(found_view(res.files@) =~= Seq::<(u64, Seq<char>)>::empty());
        assert(strs(res.errors@) =~= Seq::<Seq<char>>::empty());
        assert(res@ =~= initial_walk(r@, remove_empty, is_clean));
        res
    }

    /// Hands out the next directory to list: the last one put on the stack.
    /// `None` when every directory has been read.
    pub fn next_dir(&mut self) -> (res: Option<String>)
        ensures
            final(self)@ == take_dir(old(self)@),
            res is None <==> old(self)@.dirs.len() == 0,
            (res matches Some(d) ==> d@ == old(self)@.dirs.last()),
    {
        let ghost m = self@;
        match self.dirs.pop() {
            Some(d) => {
                self.current = Some(d.clone());
                assert(strs(self.dirs@) =~= m.dirs.drop_last());
                assert(self@ =~= WalkView { dirs: m.dirs.drop_last(), current: Some(d@), ..m });
                Some(d)
            },
            None => {
                assert(self@ =~= m);
                None
            },
        }
    }

    fn add_entry_exec(&mut self, entry: DirEntryInfo)
        ensures
            final(self)@ == add_entry(old(self)@, entry),
    {
        let ghost m = self@;
        let ghost en = entry;
        match entry.listed_type {
            None => {},
            Some(listed) => {
                if ignored_name(&entry.name, listed) || listed.is_symlink {
                } else {
                    match entry.metadata {
                        Err(e) => {
                            let line = entry_metadata_failed_line(entry.path.as_str(), e.as_str());
                            let ghost old_errors = self.errors@;
                            self.errors.push(line);
                            assert(strs(self.errors@) =~= strs(old_errors).push(line@));
                        },
                        Ok(md) => {
                            if md.is_file {
                                if md.nlink > 1 {
                                } else if md.len > 0 || self.remove_empty {
                                    let ghost old_files = self.files@;
                                    let ghost p = entry.path@;
                                    self.files.push((md.len, entry.path));
                                    assert(found_view(self.files@) =~= found_view(old_files).push((md.len, p)));
                                }
                            } else if md.is_dir {
                                if self.is_clean && bundle_path(entry.path.as_str()) {
                                } else {
                                    let ghost old_dirs = self.dirs@;
                                    let ghost p = entry.path@;
                                    self.dirs.push(entry.path);
                                    assert(strs(self.dirs@) =~= strs(old_dirs).push(p));
                                }
                            }
                        },
                    }
                }
            },
        }
        assert(self@ =~= add_entry(m, en));
    }

    /// Takes the listing of the directory that `next_dir` handed out: its entries,
    /// or the error met while listing it.
    pub fn record_listing(&mut self, listing: Result<Vec<DirEntryInfo>, String>)
        ensures
            final(self)@ == record(old(self)@, listing),
    {
        let ghost m = self@;
        let ghost l = listing;
        match self.current.take() {
            None => {
                assert(self@ =~= m);
            },
            Some(dir) => {
                assert(self@ =~= WalkView { current: None, ..m });
                match listing {
                    Err(e) => {
                        let line = dir_unreadable_line(dir.as_str(), e.as_str());
                        let ghost old_errors = self.errors@;
                        self.errors.push(line);
                        assert(strs(self.errors@) =~= strs(old_errors).push(line@));
                        assert(self@ =~= record(m, l));
                    },
                    Ok(entries) => {
                        let ghost all = entries@;
                        let ghost start = self@;
                        let mut rest = reversed(entries);
                        let ghost mut done: int = 0;
                        assert(all.take(0) =~= Seq::<DirEntryInfo>::empty());
                        while rest.len() > 0
                            invariant
                                0 <= done <= all.len(),
                                rest@.len() + done == all.len(),
                                forall|t: int| 0 <= t < rest@.len() ==> #[trigger] rest@[t] == all[all.len() - 1 - t],
                                self@ == add_entries(start, all.take(done)),
                            decreases rest@.len(),
                        {
                            let e = rest.pop().unwrap();
                            assert(all.take(done + 1).drop_last() =~= all.take(done));
                            assert(all.take(done + 1).last() == e);
                            self.add_entry_exec(e);
                            proof {
                                done = done + 1;
                            }
                        }
                        assert(all.take(done) =~= all);
                    },
                }
            },
        }
    }

    /// The directory handed out and not yet listed, if any.
    pub fn current_dir(&self) -> (res: Option<String>)
        ensures
            res is None <==> self@.current is None,
            (res matches Some(d) ==> self@.current == Some(d@)),
    {
        match &self.current {
            Some(d) => Some(d.clone()),
            None => None,
        }
    }

    /// Whether every directory has been read.
    pub fn is_done(&self) -> (res: bool)
        ensures
            res == (self@.dirs.len() == 0 && self@.current is None),
    {
        self.dirs.len() == 0 && self.current.is_none()
    }

    /// The files kept (size and path) and the failures reported.
    pub fn into_parts(self) -> (res: (Vec<(u64, String)>, Vec<String>))
        ensures
            found_view(res.0@) == self@.files,
            strs(res.1@) == self@.errors,
    {
        (self.files, self.errors)
    }
}

} // verus!
