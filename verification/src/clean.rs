//! Cleaning: the files found by a walk are bucketed by size, and each bucket is
//! scanned for duplicates in turn.
use vstd::prelude::*;
use crate::util::{found_view, reversed, strs};
use crate::dedup::{
    advance, initial_scan, resume, scan_wf, waiting, GroupScan, Pending, ScanReply,
    ScanRequest, ScanView, Stage, request_is,
};
use crate::grouping::{
    distinct_sizes, group_into_similar, is_grouping_of, lemma_distinct_sizes_view, lemma_paths_view,
    paths_of_size,
};

verus! {

/// The abstract state of a clean run.
#[verifier::ext_equal]
pub struct RunView {
    /// The buckets not started yet, in order: size and paths.
    pub todo: Seq<(u64, Seq<Seq<char>>)>,
    pub remove_empty: bool,
    pub real_run: bool,
    /// The scan of the bucket in progress.
    pub scan: Option<ScanView>,
    /// The report lines of the finished buckets.
    pub succ: Seq<Seq<char>>,
    pub fail: Seq<Seq<char>>,
    /// Every bucket of the run, in order.
    pub buckets: Seq<(u64, Seq<Seq<char>>)>,
    /// The scans of the finished buckets, in order.
    pub done: Seq<ScanView>,
}

/// A clean run over buckets of equally sized files.
pub struct CleanRun {
    /// The buckets not started yet, the next one last.
    todo: Vec<(u64, Vec<String>)>,
    remove_empty: bool,
    real_run: bool,
    scan: Option<GroupScan>,
    succ: Vec<String>,
    fail: Vec<String>,
    buckets: Ghost<Seq<(u64, Seq<Seq<char>>)>>,
    done: Ghost<Seq<ScanView>>,
}

pub open spec fn bucket_view(g: (u64, Vec<String>)) -> (u64, Seq<Seq<char>>) {
    (g.0, strs(g.1@))
}

pub open spec fn buckets_view(groups: Seq<(u64, Vec<String>)>) -> Seq<(u64, Seq<Seq<char>>)> {
    groups.map_values(|g: (u64, Vec<String>)| bucket_view(g))
}

impl View for CleanRun {
    type V = RunView;

    closed spec fn view(&self) -> RunView {
        RunView {
            todo: buckets_view(self.todo@).reverse(),
            remove_empty: self.remove_empty,
            real_run: self.real_run,
            scan: match self.scan {
                Some(s) => Some(s@),
                None => None,
            },
            succ: strs(self.succ@),
            fail: strs(self.fail@),
            buckets: self.buckets@,
            done: self.done@,
        }
    }
}

/// The run waits for file system work, or it is over.
pub open spec fn run_waiting(m: RunView) -> bool {
    match m.scan {
        Some(s) => s.pending != Pending::Nothing,
        None => m.todo.len() == 0,
    }
}

/// The run is over: every bucket has been scanned.
pub open spec fn run_finished(m: RunView) -> bool {
    m.scan is None && m.todo.len() == 0
}

/// One step of the run that needs no file system work: start the next bucket,
/// run the current scan up to its next work, or add a finished scan's lines to
/// the report.
pub open spec fn run_step(m: RunView) -> RunView {
    match m.scan {
        Some(s) => if s.stage == Stage::Finished {
            RunView { scan: None, succ: m.succ + s.succ, fail: m.fail + s.fail, done: m.done.push(s), ..m }
        } else {
            RunView { scan: Some(advance(s)), ..m }
        },
        None => RunView {
            todo: m.todo.drop_first(),
            scan: Some(initial_scan(m.todo[0].1, m.todo[0].0, m.remove_empty, m.real_run)),
            ..m
        },
    }
}

pub open spec fn run_measure(m: RunView) -> nat {
    4 * m.todo.len() + match m.scan {
        Some(s) => if s.stage == Stage::Finished {
            1nat
        } else if s.pending != Pending::Nothing {
            2nat
        } else {
            3nat
        },
        None => 0nat,
    }
}

/// A scan that no file list in memory can produce; the run stops there.
pub open spec fn run_stuck(m: RunView) -> bool {
    m.scan matches Some(s) && s.files.len() > usize::MAX
}

/// Runs the steps that need no file system work, until the run waits for work
/// or is over.
pub open spec fn run_advance(m: RunView) -> RunView
    decreases run_measure(m),
{
    if run_waiting(m) || run_stuck(m) {
        m
    } else {
        proof {
            if let Some(s) = m.scan {
                if s.stage != Stage::Finished {
                    lemma_advance_waits(s);
                }
            }
        }
        run_advance(run_step(m))
    }
}

/// Takes the outcome of the work that the current scan waits for.
pub open spec fn run_resume(m: RunView, reply: ScanReply) -> RunView {
    match m.scan {
        Some(s) => RunView { scan: Some(resume(s, reply)), ..m },
        None => m,
    }
}

/// The request of a run: the one of its current scan, or `Finished`.
pub open spec fn run_request_is(m: RunView, r: ScanRequest) -> bool {
    match m.scan {
        Some(s) => request_is(s, r),
        None => r is Finished,
    }
}

/// The internal consistency of a run.
pub open spec fn run_wf(m: RunView) -> bool {
    match m.scan {
        Some(s) => scan_wf(s) && s.remove_empty == m.remove_empty && s.real_run == m.real_run,
        None => true,
    }
}

/// The state of a new run over `groups`.
pub open spec fn initial_run(groups: Seq<(u64, Seq<Seq<char>>)>, remove_empty: bool, real_run: bool) -> RunView {
    RunView {
        todo: groups,
        remove_empty,
        real_run,
        scan: None,
        succ: Seq::empty(),
        fail: Seq::empty(),
        buckets: groups,
        done: Seq::empty(),
    }
}

/// Running a clean's free steps keeps its options.
pub proof fn lemma_run_advance_flags(m: RunView)
    ensures
        run_advance(m).remove_empty == m.remove_empty,
        run_advance(m).real_run == m.real_run,
    decreases run_measure(m),
{
    if !(run_waiting(m) || run_stuck(m)) {
        if let Some(s) = m.scan {
            if s.stage != Stage::Finished {
                lemma_advance_waits(s);
            }
        }
        lemma_run_advance_flags(run_step(m));
    }
}

/// Running a scan's free steps ends where it waits (or in an impossible state).
pub proof fn lemma_advance_waits(s: ScanView)
    ensures
        waiting(advance(s)) || advance(s).files.len() > usize::MAX,
        advance(s).files == s.files,
        advance(s).size == s.size,
        advance(s).remove_empty == s.remove_empty,
        advance(s).real_run == s.real_run,
    decreases crate::dedup::stage_rank(s.stage), crate::dedup::outer_left(s), crate::dedup::inner_left(
        s,
    ), crate::dedup::idle_flag(s),
{
    if !(waiting(s) || s.files.len() > usize::MAX) {
        lemma_advance_waits(crate::dedup::step(s));
    }
}

impl CleanRun {
    /// Starts a run over `groups`, scanning them in order.
    pub fn from_groups(groups: Vec<(u64, Vec<String>)>, remove_empty: bool, real_run: bool) -> (res: CleanRun)
        ensures
            res@ == initial_run(buckets_view(groups@), remove_empty, real_run),
            run_wf(res@),
    {
        let ghost g = groups@;
        let todo = reversed(groups);
        let res = CleanRun {
            todo,
            remove_empty,
            real_run,
            scan: None,
            succ: Vec::new(),
            fail: Vec::new(),
            buckets: Ghost(buckets_view(g)),
            done: Ghost(Seq::empty()),
        };
        assert(buckets_view(res.todo@).reverse() =~= buckets_view(g)) by {
            assert forall|t: int| 0 <= t < g.len() implies #[trigger] buckets_view(res.todo@).reverse()[t]
                == buckets_view(g)[t] by {
                assert(res.todo@[g.len() - 1 - t] == g[t]);
            }
        }
        assert(strs(res.succ@) =~= Seq::<Seq<char>>::empty());
        assert(strs(res.fail@) =~= Seq::<Seq<char>>::empty());
        assert(res@ =~= initial_run(buckets_view(g), remove_empty, real_run));
        res
    }

    /// The size and the number of files of each bucket that is not started yet.
    pub fn pending_buckets(&self) -> (res: Vec<(u64, usize)>)
        ensures
            res@.len() == self@.todo.len(),
            forall|t: int|
                0 <= t < res@.len() ==> #[trigger] res@[t].0 == self@.todo[t].0 && res@[t].1
                    == self@.todo[t].1.len(),
    {
        let mut res: Vec<(u64, usize)> = Vec::new();
        let n = self.todo.len();
        let mut t: usize = 0;
        while t < n
            invariant
                n == self.todo@.len(),
                t <= n,
                res@.len() == t,
                forall|u: int|
                    0 <= u < t ==> #[trigger] res@[u].0 == self@.todo[u].0 && res@[u].1
                        == self@.todo[u].1.len(),
            decreases n - t,
        {
            let b = &self.todo[n - 1 - t];
            assert(self@.todo[t as int] == bucket_view(self.todo@[n - 1 - t]));
            assert(strs(b.1@).len() == b.1@.len());
            res.push((b.0, b.1.len()));
            t = t + 1;
        }
        res
    }

    fn run_step_exec(&mut self)
        requires
            run_wf(old(self)@),
            !run_waiting(old(self)@),
            !run_stuck(old(self)@),
        ensures
            final(self)@ == run_step(old(self)@),
            run_wf(final(self)@),
    {
        let ghost m = self@;
        match self.scan.take() {
            Some(mut s) => {
                if s.is_finished() {
                    let ghost sv = s@;
                    let (mut succ, mut fail) = s.into_lines();
                    let ghost ss = self.succ@;
                    let ghost ff = self.fail@;
                    self.succ.append(&mut succ);
                    self.fail.append(&mut fail);
                    self.done = Ghost(self.done@.push(sv));
                    assert(strs(self.succ@) =~= strs(ss) + m.scan.unwrap().succ);
                    assert(strs(self.fail@) =~= strs(ff) + m.scan.unwrap().fail);
                    assert(self@ =~= run_step(m));
                } else {
                    proof {
                        lemma_advance_waits(s@);
                    }
                    let _ = s.next_request();
                    self.scan = Some(s);
                    assert(self@ =~= run_step(m));
                }
            },
            None => {
                let ghost td = self.todo@;
                let (size, files) = self.todo.pop().unwrap();
                let s = GroupScan::new(files, size, self.remove_empty, self.real_run);
                self.scan = Some(s);
                assert(buckets_view(self.todo@).reverse() =~= buckets_view(td).reverse().drop_first());
                assert(buckets_view(td).reverse()[0] == bucket_view(td[td.len() - 1]));
                assert(self@ =~= run_step(m));
            },
        }
    }

    /// Runs the clean up to the next piece of file system work, and says which;
    /// `Finished` once every bucket has been scanned.
    pub fn next_request(&mut self) -> (req: ScanRequest)
        requires
            run_wf(old(self)@),
        ensures
            final(self)@ == run_advance(old(self)@),
            run_wf(final(self)@),
            run_waiting(final(self)@),
            run_request_is(final(self)@, req),
    {
        loop
            invariant
                run_wf(self@),
                run_advance(self@) == run_advance(old(self)@),
            ensures
                run_wf(self@),
                run_waiting(self@),
                run_advance(self@) == run_advance(old(self)@),
            decreases run_measure(self@),
        {
            let waiting_now = match &self.scan {
                Some(s) => s.is_waiting() && !s.is_finished(),
                None => self.todo.len() == 0,
            };
            if waiting_now {
                break;
            }
            proof {
                if let Some(s) = self@.scan {
                    if s.stage != Stage::Finished {
                        lemma_advance_waits(s);
                    }
                }
            }
            self.run_step_exec();
        }
        match &self.scan {
            Some(s) => s.request(),
            None => ScanRequest::Finished,
        }
    }

    /// Takes the outcome of the work that `next_request` asked for.
    pub fn resume(&mut self, reply: ScanReply)
        requires
            run_wf(old(self)@),
        ensures
            final(self)@ == run_resume(old(self)@, reply),
            run_wf(final(self)@),
    {
        let ghost m = self@;
        let ghost r = reply;
        match self.scan.take() {
            Some(mut s) => {
                s.resume(reply);
                self.scan = Some(s);
            },
            None => {},
        }
        assert(self@ =~= run_resume(m, r));
    }

    /// The report lines of the buckets scanned so far: what was (or would be)
    /// removed, and what failed.
    pub fn into_lines(self) -> (res: (Vec<String>, Vec<String>))
        ensures
            strs(res.0@) == self@.succ,
            strs(res.1@) == self@.fail,
    {
        (self.succ, self.fail)
    }
}

/// Starts cleaning `files` (size and path of each file found): the files are
/// bucketed by size, and the buckets are scanned in the order in which their
/// sizes first occur. The caller drives the run with `next_request` and `resume`
/// until it asks for nothing more, then takes the report with `into_lines`.
pub fn run_clean(files: Vec<(u64, String)>, remove_empty: bool, real_run: bool) -> (res: CleanRun)
    ensures
        res@ == initial_run(size_buckets(found_view(files@)), remove_empty, real_run),
        run_wf(res@),
{
    let groups = group_into_similar(files);
    proof {
        lemma_buckets_of_grouping(files@, groups@);
    }
    CleanRun::from_groups(groups, remove_empty, real_run)
}

/// The buckets of `files`: one per distinct size, in the order in which the sizes
/// first occur, each with the paths of that size in scan order.
pub open spec fn size_buckets(files: Seq<(u64, Seq<char>)>) -> Seq<(u64, Seq<Seq<char>>)> {
    Seq::new(
        distinct_sizes(files).len(),
        |g: int| (distinct_sizes(files)[g], paths_of_size(files, distinct_sizes(files)[g])),
    )
}

proof fn lemma_buckets_of_grouping(files: Seq<(u64, String)>, groups: Seq<(u64, Vec<String>)>)
    requires
        is_grouping_of(files, groups),
    ensures
        buckets_view(groups) == size_buckets(found_view(files)),
{
    lemma_distinct_sizes_view(files);
    assert forall|g: int| 0 <= g < groups.len() implies #[trigger] buckets_view(groups)[g]
        == size_buckets(found_view(files))[g] by {
        lemma_paths_view(files, groups[g].0);
    }
    assert(buckets_view(groups) =~= size_buckets(found_view(files)));
}

} // verus!
