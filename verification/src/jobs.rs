//! The two jobs of the scanner: cleaning a directory tree of duplicates, and
//! listing the largest files under it.
//!
//! A job walks the tree first; a clean then scans the files found, bucket by
//! bucket. The caller performs the file system work that a job asks for and
//! hands back its outcome, until the job asks for nothing more.
use vstd::prelude::*;
use crate::clean::{
    lemma_run_advance_flags, initial_run, run_advance, run_clean, run_finished, run_request_is, run_resume, run_wf,
    size_buckets, CleanRun, RunView,
};
use crate::dedup::{ScanReply, ScanRequest};
use crate::sorting::{is_stable_sort_desc, lemma_stable_sort_view, run_sort, shown_count};
use crate::util::{found_view, strs};
use crate::walk::{initial_walk, lemma_add_entries_flags, record, take_dir, DirEntryInfo, WalkView, Walker};

verus! {

/// The outcome of a job: the lines of what was done, and of what failed.
#[derive(Debug)]
pub struct CleanReport {
    pub success: Vec<String>,
    pub errors: Vec<String>,
}

/// The work that a clean asks for next.
#[derive(PartialEq, Eq, Debug)]
pub enum JobRequest {
    /// List the directory `path`.
    ReadDir { path: String },
    /// The walk is over and its files are bucketed: the size and the number of
    /// files of each bucket, in the order in which they will be scanned. No
    /// outcome is expected; the next request starts the scan.
    Grouped { buckets: Vec<(u64, usize)> },
    /// The work that the scan of a bucket asks for.
    Scan(ScanRequest),
    /// The clean is over.
    Finished,
}

/// The outcome of the work that a clean asked for.
#[derive(PartialEq, Eq, Debug)]
pub enum JobReply {
    /// The entries of the directory, or the error met while listing it.
    Listing(Result<Vec<DirEntryInfo>, String>),
    /// The outcome of the work that a scan asked for.
    Scan(ScanReply),
}

/// The abstract state of a clean.
#[verifier::ext_equal]
pub struct JobView {
    /// The walk, while it lasts.
    pub walk: Option<WalkView>,
    /// The failures of the finished walk.
    pub walk_errors: Seq<Seq<char>>,
    /// The files that the finished walk kept, with their sizes.
    pub found: Seq<(u64, Seq<char>)>,
    /// The scan of the files found, once the walk is over.
    pub run: Option<RunView>,
    /// Whether the scan has started (its buckets were announced before).
    pub started: bool,
    pub remove_empty: bool,
    pub real_run: bool,
}

/// A clean of a directory tree.
pub struct CleanJob {
    walk: Option<Walker>,
    walk_errors: Vec<String>,
    found: Ghost<Seq<(u64, Seq<char>)>>,
    run: Option<CleanRun>,
    started: bool,
    remove_empty: bool,
    real_run: bool,
}

impl View for CleanJob {
    type V = JobView;

    closed spec fn view(&self) -> JobView {
        JobView {
            walk: match self.walk {
                Some(w) => Some(w@),
                None => None,
            },
            walk_errors: strs(self.walk_errors@),
            found: self.found@,
            run: match self.run {
                Some(r) => Some(r@),
                None => None,
            },
            started: self.started,
            remove_empty: self.remove_empty,
            real_run: self.real_run,
        }
    }
}

/// A clean is in one of its two phases: walking, or scanning what it found.
pub open spec fn job_wf(m: JobView) -> bool {
    match m.walk {
        Some(w) => m.run is None && !m.started && w.remove_empty == m.remove_empty && w.is_clean,
        None => m.run matches Some(r) && run_wf(r) && r.remove_empty == m.remove_empty
            && r.real_run == m.real_run,
    }
}

/// Runs a clean up to its next piece of file system work: the next directory of
/// the walk is handed out; once the walk is over, the files it kept are bucketed
/// by size (and the buckets announced), then scanned.
pub open spec fn job_advance(m: JobView) -> JobView {
    match m.walk {
        Some(w) => if w.current is Some {
            m
        } else if w.dirs.len() > 0 {
            JobView { walk: Some(take_dir(w)), ..m }
        } else {
            JobView {
                walk: None,
                walk_errors: w.errors,
                found: w.files,
                run: Some(initial_run(size_buckets(w.files), m.remove_empty, m.real_run)),
                started: false,
                ..m
            }
        },
        None => match m.run {
            Some(r) => JobView { run: Some(run_advance(r)), started: true, ..m },
            None => m,
        },
    }
}

/// Takes the outcome of the awaited work; an outcome of another kind leaves the
/// clean as it is.
pub open spec fn job_resume(m: JobView, reply: JobReply) -> JobView {
    match (m.walk, m.run, reply) {
        (Some(w), _, JobReply::Listing(l)) => JobView { walk: Some(record(w, l)), ..m },
        (None, Some(r), JobReply::Scan(s)) => JobView { run: Some(run_resume(r, s)), ..m },
        _ => m,
    }
}

/// The request that matches what the clean waits for.
pub open spec fn job_request_is(m: JobView, req: JobRequest) -> bool {
    match m.walk {
        Some(w) => match w.current {
            Some(d) => req matches JobRequest::ReadDir { path } && path@ == d,
            None => req is Finished,
        },
        None => match m.run {
            Some(r) => if !m.started {
                req matches JobRequest::Grouped { buckets } && buckets@.len() == r.todo.len() && (
                forall|t: int|
                    0 <= t < buckets@.len() ==> #[trigger] buckets@[t].0 == r.todo[t].0
                        && buckets@[t].1 == r.todo[t].1.len())
            } else if run_finished(r) {
                req is Finished
            } else {
                req matches JobRequest::Scan(s) && run_request_is(r, s)
            },
            None => req is Finished,
        },
    }
}

/// A new clean of the tree under `root`.
pub open spec fn initial_job(root: Seq<char>, remove_empty: bool, real_run: bool) -> JobView {
    JobView {
        walk: Some(initial_walk(root, remove_empty, true)),
        walk_errors: Seq::empty(),
        found: Seq::empty(),
        run: None,
        started: false,
        remove_empty,
        real_run,
    }
}

/// The report of a clean: the removals (or, in a dry run, the removals that
/// would be made), and the failures of the walk followed by those of the scan.
pub open spec fn job_report(m: JobView) -> (Seq<Seq<char>>, Seq<Seq<char>>) {
    match m.walk {
        Some(w) => (Seq::empty(), w.errors),
        None => match m.run {
            Some(r) => (r.succ, m.walk_errors + r.fail),
            None => (Seq::empty(), m.walk_errors),
        },
    }
}

/// Starts a clean of the directory tree under `path`: the walk keeps every
/// regular file that is not a hard link (and, with `remove_empty`, also the
/// empty ones), and passes over hidden entries, `target` directories, symbolic
/// links and bundle directories. With `real_run`, copies are deleted; otherwise
/// they are only reported.
pub fn clean_main(path: String, remove_empty: bool, real_run: bool) -> (res: CleanJob)
    ensures
        res@ == initial_job(path@, remove_empty, real_run),
        job_wf(res@),
        res@.remove_empty == remove_empty,
        res@.real_run == real_run,
        res@.walk matches Some(w) && w.remove_empty == remove_empty && w.is_clean && w.dirs
            == seq![path@],
{
    let walk = Walker::new(path, remove_empty, true);
    let res = CleanJob {
        walk: Some(walk),
        walk_errors: Vec::new(),
        found: Ghost(Seq::empty()),
        run: None,
        started: false,
        remove_empty,
        real_run,
    };
    assert(strs(res.walk_errors@) =~= Seq::<Seq<char>>::empty());
    assert(res@ =~= initial_job(path@, remove_empty, real_run));
    res
}

impl CleanJob {
    /// Runs the clean up to its next piece of file system work, and says which;
    /// `Finished` once every bucket has been scanned.
    pub fn next_request(&mut self) -> (req: JobRequest)
        requires
            job_wf(old(self)@),
        ensures
            final(self)@ == job_advance(old(self)@),
            job_wf(final(self)@),
            job_request_is(final(self)@, req),
    {
        let ghost m = self@;
        match self.walk.take() {
            Some(mut w) => {
                if w.is_done() {
                    self.found = Ghost(w@.files);
                    let (files, errors) = w.into_parts();
                    let run = run_clean(files, self.remove_empty, self.real_run);
                    let buckets = run.pending_buckets();
                    self.walk_errors = errors;
                    self.run = Some(run);
                    self.started = false;
                    assert(self@ =~= job_advance(m));
                    JobRequest::Grouped { buckets }
                } else {
                    let current = w.current_dir();
                    match current {
                        Some(d) => {
                            self.walk = Some(w);
                            assert(self@ =~= job_advance(m));
                            JobRequest::ReadDir { path: d }
                        },
                        None => {
                            let d = w.next_dir();
                            self.walk = Some(w);
                            assert(self@ =~= job_advance(m));
                            match d {
                                Some(d) => JobRequest::ReadDir { path: d },
                                None => JobRequest::Finished,
                            }
                        },
                    }
                }
            },
            None => {
                match self.run.take() {
                    Some(mut run) => {
                        proof {
                            lemma_run_advance_flags(run@);
                        }
                        let req = run.next_request();
                        self.run = Some(run);
                        self.started = true;
                        assert(self@ =~= job_advance(m));
                        match req {
                            ScanRequest::Finished => JobRequest::Finished,
                            other => JobRequest::Scan(other),
                        }
                    },
                    None => {
                        assert(self@ =~= job_advance(m));
                        JobRequest::Finished
                    },
                }
            },
        }
    }

    /// Takes the outcome of the work that `next_request` asked for.
    pub fn resume(&mut self, reply: JobReply)
        requires
            job_wf(old(self)@),
        ensures
            final(self)@ == job_resume(old(self)@, reply),
            job_wf(final(self)@),
    {
        let ghost m = self@;
        let ghost r = reply;
        match reply {
            JobReply::Listing(l) => {
                match self.walk.take() {
                    Some(mut w) => {
                        let ghost lg = l;
                        proof {
                            if let Some(d) = w@.current {
                                lemma_add_entries_flags(
                                    WalkView { current: None, ..w@ },
                                    match lg {
                                        Ok(entries) => entries@,
                                        Err(_) => Seq::empty(),
                                    },
                                );
                            }
                        }
                        w.record_listing(l);
                        self.walk = Some(w);
                    },
                    None => {},
                }
            },
            JobReply::Scan(s) => {
                if self.walk.is_none() {
                    match self.run.take() {
                        Some(mut run) => {
                            run.resume(s);
                            self.run = Some(run);
                        },
                        None => {},
                    }
                }
            },
        }
        assert(self@ =~= job_resume(m, r));
    }

    /// The report of the clean so far.
    pub fn report(self) -> (res: CleanReport)
        ensures
            strs(res.success@) == job_report(self@).0,
            strs(res.errors@) == job_report(self@).1,
    {
        let ghost m = self@;
        match self.walk {
            Some(w) => {
                let (_, errors) = w.into_parts();
                let res = CleanReport { success: Vec::new(), errors };
                assert(strs(res.success@) =~= Seq::<Seq<char>>::empty());
                res
            },
            None => match self.run {
                Some(run) => {
                    let (succ, mut fail) = run.into_lines();
                    let mut errors = self.walk_errors;
                    let ghost we = errors@;
                    errors.append(&mut fail);
                    assert(strs(errors@) =~= strs(we) + m.run.unwrap().fail);
                    CleanReport { success: succ, errors }
                },
                None => {
                    let res = CleanReport { success: Vec::new(), errors: self.walk_errors };
                    assert(strs(res.success@) =~= Seq::<Seq<char>>::empty());
                    res
                },
            },
        }
    }
}

/// A listing of the largest files under a directory tree.
pub struct SortJob {
    walk: Walker,
    num_sorting: usize,
}

/// The abstract state of a listing: its walk, and how many files it shows.
pub struct SortView {
    pub walk: WalkView,
    pub num_sorting: usize,
}

impl View for SortJob {
    type V = SortView;

    closed spec fn view(&self) -> SortView {
        SortView { walk: self.walk@, num_sorting: self.num_sorting }
    }
}

/// The outcome of a listing.
#[derive(Debug)]
pub struct SortOutcome {
    /// The largest files, largest first: size and path.
    pub shown: Vec<(u64, String)>,
    /// How many files were found and compared.
    pub compared: usize,
    /// The failures of the walk.
    pub errors: Vec<String>,
}

/// Starts a listing of the `num_sorting` largest files under `path`. Its walk
/// keeps every regular file that is not a hard link and not empty, and passes
/// over hidden entries, `target` directories and symbolic links.
pub fn sort_main(path: String, num_sorting: usize) -> (res: SortJob)
    ensures
        res@.walk == initial_walk(path@, false, false),
        res@.num_sorting == num_sorting,
        !res@.walk.is_clean,
        !res@.walk.remove_empty,
        res@.walk.dirs == seq![path@],
{
    SortJob { walk: Walker::new(path, false, false), num_sorting }
}

impl SortJob {
    /// Hands out the next directory to list; `None` once the walk is over.
    pub fn next_dir(&mut self) -> (res: Option<String>)
        ensures
            final(self)@.walk == take_dir(old(self)@.walk),
            final(self)@.num_sorting == old(self)@.num_sorting,
            res is None <==> old(self)@.walk.dirs.len() == 0,
            (res matches Some(d) ==> d@ == old(self)@.walk.dirs.last()),
    {
        self.walk.next_dir()
    }

    /// Takes the listing of the directory that `next_dir` handed out.
    pub fn record_listing(&mut self, listing: Result<Vec<DirEntryInfo>, String>)
        ensures
            final(self)@.walk == record(old(self)@.walk, listing),
            final(self)@.num_sorting == old(self)@.num_sorting,
    {
        self.walk.record_listing(listing)
    }

    /// Sorts the files found, largest first (scan order among equal sizes), and
    /// keeps the first `num_sorting` of them.
    pub fn finish(self) -> (res: SortOutcome)
        ensures
            res.compared == self@.walk.files.len(),
            strs(res.errors@) == self@.walk.errors,
            exists|sorted: Seq<(u64, Seq<char>)>|
                is_stable_sort_desc(self@.walk.files, sorted) && found_view(res.shown@)
                    == sorted.take(shown_count(self@.num_sorting, sorted.len()) as int),
    {
        let ghost m = self@;
        let num = self.num_sorting;
        let (mut files, errors) = self.walk.into_parts();
        let ghost before = files@;
        let compared = files.len();
        let shown = run_sort(&mut files, num);
        proof {
            lemma_stable_sort_view(before, files@);
            let sorted = found_view(files@);
            assert(found_view(shown@) =~= sorted.take(shown_count(num, sorted.len()) as int));
        }
        SortOutcome { shown, compared, errors }
    }
}

} // verus!
