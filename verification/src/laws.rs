//! Properties of the library as a whole, each proved from the definitions that
//! the functions' contracts use.
use vstd::prelude::*;
use crate::app_state::{key_handled, AppState, Effect, Key, KeyCode, Screen};
use crate::dedup::{
    unchanged_prefix, PREFIX_BYTES, lemma_resume_keeps_wf, lemma_step_keeps_wf, stage_rank, outer_left, inner_left, idle_flag,
    advance, empty_mode, initial_scan, resume, same_prefix, scan_wf, step, waiting, Pending,
    ScanReply, ScanView, Stage, LengthError,
};
use crate::grouping::{distinct_sizes, paths_of_size};
use crate::sorting::{is_stable_sort_desc, shown_count};
use crate::ui::{
    clean_activated, line_after, line_before, menu_after, menu_before, row_after, row_before,
    Action, CleanState, Row, MENU_LEN,
};
use crate::clean::{
    initial_run, lemma_advance_waits, run_advance, run_finished, run_measure, run_resume, run_step,
    run_stuck, run_waiting, RunView,
};
use crate::clean::size_buckets;
use crate::jobs::{initial_job, job_advance, job_report, job_resume, job_wf, JobReply, JobView};
use crate::sorting::{has_size, sorted_by_size_desc};
use crate::jobs::SortView;
use crate::dedup::CompareError;
use crate::walk::{add_entry, initial_walk};
use crate::ui::{focused_len, focused_pos};
use crate::walk::{lemma_add_entries_flags, record, take_dir, WalkView};
use crate::walk::{classify, is_bundle_path, DirEntryInfo, EntryOutcome};
use crate::text::{removed_duplicate, removed_empty, would_remove_duplicate, would_remove_empty};

verus! {

/// The scan waits for a file to be deleted.
pub open spec fn asks_removal(m: ScanView) -> bool {
    m.pending is EmptyRemoval || m.pending is PairRemoval
}

/// A new scan is consistent.
pub proof fn law_new_scan_consistent(files: Seq<Seq<char>>, size: u64, remove_empty: bool, real_run: bool)
    requires
        files.len() <= usize::MAX,
    ensures
        scan_wf(initial_scan(files, size, remove_empty, real_run)),
{
}

proof fn lemma_step_wf(m: ScanView)
    requires
        scan_wf(m),
    ensures
        scan_wf(advance(m)),
    decreases crate::dedup::stage_rank(m.stage), crate::dedup::outer_left(m), crate::dedup::inner_left(
        m,
    ), crate::dedup::idle_flag(m),
{
    if !(waiting(m) || m.files.len() > usize::MAX) {
        crate::dedup::lemma_step_keeps_wf(m);
        lemma_step_wf(step(m));
    }
}

/// Whatever work a scan does and whatever outcomes it is given, it stays
/// consistent; in particular every file that left it as a copy has an earlier
/// file, still kept, with the same first bytes: a clean never deletes every
/// copy of a content.
pub proof fn law_scan_stays_consistent(m: ScanView, reply: ScanReply)
    requires
        scan_wf(m),
    ensures
        scan_wf(advance(m)),
        scan_wf(resume(m, reply)),
{
    lemma_step_wf(m);
    crate::dedup::lemma_resume_keeps_wf(m, reply);
}

/// In a consistent scan, every file that left as a copy has an earlier file,
/// still kept, whose first bytes were read and are the same.
pub proof fn law_copy_has_kept_twin(m: ScanView, c: int)
    requires
        scan_wf(m),
        0 <= c < m.gone.len(),
        m.gone[c],
    ensures
        exists|o: int| 0 <= o < c && !m.gone[o] && #[trigger] same_prefix(m, o, c),
{
}

/// A file is only ever to be deleted as a later copy of a kept file with the same
/// first bytes, and never twice.
pub proof fn law_removal_targets_a_copy(m: ScanView)
    requires
        scan_wf(m),
        m.pending is PairRemoval,
    ensures
        ({
            let (i, j) = (m.pending->PairRemoval_0, m.pending->PairRemoval_1);
            i < j && !m.gone[i as int] && !m.gone[j as int] && same_prefix(m, i as int, j as int)
        }),
{
}

proof fn lemma_dry_advance(m: ScanView)
    requires
        !m.real_run,
        !asks_removal(m),
    ensures
        !asks_removal(advance(m)),
        !advance(m).real_run,
    decreases crate::dedup::stage_rank(m.stage), crate::dedup::outer_left(m), crate::dedup::inner_left(
        m,
    ), crate::dedup::idle_flag(m),
{
    if !(waiting(m) || m.files.len() > usize::MAX) {
        lemma_dry_advance(step(m));
    }
}

/// A dry run never asks for a file to be deleted: from a scan that does not
/// delete, no work and no outcome leads to a deletion.
pub proof fn law_dry_run_deletes_nothing(m: ScanView, reply: ScanReply)
    requires
        !m.real_run,
        !asks_removal(m),
    ensures
        !asks_removal(advance(m)),
        !asks_removal(resume(m, reply)),
        !resume(m, reply).real_run,
{
    lemma_dry_advance(m);
}

/// An empty file is deleted only after its length was found to be zero again,
/// and only in a real run.
pub proof fn law_empty_removal_needs_zero_length(m: ScanView, reply: ScanReply)
    requires
        m.pending is Length,
        resume(m, reply).pending is EmptyRemoval,
    ensures
        reply == ScanReply::Length(Ok::<u64, LengthError>(0)),
        m.real_run,
{
}

proof fn lemma_lone_advance(m: ScanView)
    requires
        scan_wf(m),
        m.files.len() <= 1,
        !empty_mode(m),
        !(m.stage is Empties),
        m.succ.len() == 0,
    ensures
        advance(m).succ.len() == 0,
        !(advance(m).pending is PairRemoval),
        !(advance(m).pending is Compare),
        !(advance(m).pending is EmptyRemoval),
    decreases crate::dedup::stage_rank(m.stage), crate::dedup::outer_left(m), crate::dedup::inner_left(
        m,
    ), crate::dedup::idle_flag(m),
{
    if !(waiting(m) || m.files.len() > usize::MAX) {
        crate::dedup::lemma_step_keeps_wf(m);
        lemma_lone_advance(step(m));
    }
}

/// A bucket of a single file reports no copy: only files of equal size, more
/// than one, can be duplicates (the removal of empty files aside).
pub proof fn law_single_file_has_no_copy(m: ScanView)
    requires
        scan_wf(m),
        m.files.len() <= 1,
        !empty_mode(m),
        !(m.stage is Empties),
        m.succ.len() == 0,
    ensures
        advance(m).succ.len() == 0,
        !asks_removal(advance(m)),
{
    lemma_lone_advance(m);
}

/// The buckets of a file list are a partition by size: their sizes are
/// distinct, every file's size has a bucket, and no bucket is empty.
pub proof fn law_buckets_partition<T>(files: Seq<(u64, T)>)
    ensures
        forall|a: int, b: int|
            0 <= a < b < distinct_sizes(files).len() ==> distinct_sizes(files)[a]
                != distinct_sizes(files)[b],
        forall|i: int| 0 <= i < files.len() ==> distinct_sizes(files).contains(#[trigger] files[i].0),
        forall|g: int|
            0 <= g < distinct_sizes(files).len() ==> paths_of_size(
                files,
                #[trigger] distinct_sizes(files)[g],
            ).len() > 0,
{
    crate::grouping::lemma_distinct_sizes_unique(files);
}

/// The files a listing shows are the largest: none of those left out is larger
/// than one shown.
pub proof fn law_shown_are_largest<T>(s: Seq<(u64, T)>, r: Seq<(u64, T)>, n: usize)
    requires
        is_stable_sort_desc(s, r),
    ensures
        forall|i: int, k: int|
            0 <= i < shown_count(n, r.len()) <= k < r.len() ==> r[i].0 >= r[k].0,
{
}

/// The walk passes over hidden entries, symbolic links, hard links and, when
/// cleaning, bundle directories; it keeps an empty file only when empty files
/// are to be removed, and reports an entry whose metadata cannot be read.
pub proof fn law_walk_skips(entry: DirEntryInfo, remove_empty: bool, is_clean: bool)
    ensures
        (entry.name matches Some(n) && n@.len() > 0 && n@[0] == '.') ==> classify(
            entry,
            remove_empty,
            is_clean,
        ) is Skip,
        (entry.listed_type matches Some(t) && t.is_symlink) ==> classify(entry, remove_empty, is_clean) is Skip,
        (entry.metadata matches Ok(md) && md.is_file && md.nlink > 1) ==> classify(
            entry,
            remove_empty,
            is_clean,
        ) is Skip,
        (entry.metadata matches Ok(md) && md.is_file && md.len == 0 && !remove_empty) ==> classify(
            entry,
            remove_empty,
            is_clean,
        ) is Skip,
        (entry.metadata matches Ok(md) && !md.is_file && md.is_dir && is_clean && is_bundle_path(
            entry.path@,
        )) ==> classify(entry, remove_empty, is_clean) is Skip,
        classify(entry, remove_empty, is_clean) matches EntryOutcome::KeepFile(len, p) ==> (
        entry.metadata matches Ok(md) && md.is_file && md.nlink <= 1 && len == md.len && p
            == entry.path@ && (len > 0 || remove_empty)),
        (classify(entry, remove_empty, is_clean) is Report) ==> entry.metadata is Err,
{
}

/// Moving down the main menu and back up returns to the same item.
pub proof fn law_menu_round_trip(i: usize)
    requires
        i < MENU_LEN,
    ensures
        menu_before(Some(menu_after(Some(i)))) == i,
        menu_after(Some(menu_before(Some(i)))) == i,
{
}

/// Moving the focus of the clean options down and back up returns to the same
/// row, and four moves down come back to it.
pub proof fn law_rows_round_trip(r: Row)
    ensures
        row_before(row_after(r)) == r,
        row_after(row_before(r)) == r,
        row_after(row_after(row_after(row_after(r)))) == r,
{
}

/// Moving down a pane of results and back up returns to the same line.
pub proof fn law_lines_round_trip(c: usize, len: nat)
    requires
        c < len,
        len <= usize::MAX,
    ensures
        line_before(line_after(c, len), len) == c,
        line_after(line_before(c, len), len) == c,
{
}

/// Toggling a check box twice leaves both options as they were.
pub proof fn law_toggle_twice(a: CleanState, b: CleanState, c: CleanState)
    requires
        a.focus == Row::RealRun || a.focus == Row::RemoveEmpty,
        clean_activated(a, b, Action::Noop),
        clean_activated(b, c, Action::Noop),
    ensures
        c.real_run == a.real_run,
        c.remove_empty == a.remove_empty,
        c.path == a.path,
        c.focus == a.focus,
{
}

/// Pressing `q` quits from the main menu, the running screens and the results.
pub proof fn law_q_quits(o: AppState, n: AppState, key: Key, eff: Effect)
    requires
        key.press,
        key.code == KeyCode::Char('q'),
        o.screen == Screen::Main || o.screen == Screen::RunningClean || o.screen == Screen::RunningSort
            || o.screen == Screen::CleanResults,
        key_handled(o, n, key, eff),
    ensures
        n.exit,
        eff is Nothing,
{
}

/// Esc leaves either options screen for the main menu.
pub proof fn law_esc_goes_back(o: AppState, n: AppState, key: Key, eff: Effect)
    requires
        key.press,
        key.code == KeyCode::Esc,
        o.screen == Screen::CleanOptions || o.screen == Screen::SortOptions,
        key_handled(o, n, key, eff),
    ensures
        n.screen == Screen::Main,
        eff is Nothing,
{
}

/// A removal that a scan reports: a later file equal to a kept one, or an empty
/// file.
pub enum ReportedRemoval {
    Copy { copy: Seq<char>, kept: Seq<char> },
    Empty { path: Seq<char> },
}

/// The line a real run writes for a removal.
pub open spec fn real_line(r: ReportedRemoval) -> Seq<char> {
    match r {
        ReportedRemoval::Copy { copy, kept } => removed_duplicate(copy, kept),
        ReportedRemoval::Empty { path } => removed_empty(path),
    }
}

/// The line a dry run writes for the same removal.
pub open spec fn dry_line(r: ReportedRemoval) -> Seq<char> {
    match r {
        ReportedRemoval::Copy { copy, kept } => would_remove_duplicate(copy, kept),
        ReportedRemoval::Empty { path } => would_remove_empty(path),
    }
}

/// `dry` is a dry run and `real` a real run over the same files that have made
/// the same decisions so far, the removals `recs` among them, and neither waits
/// for a deletion.
pub open spec fn mirrored(dry: ScanView, actual: ScanView, recs: Seq<ReportedRemoval>) -> bool {
    &&& !dry.real_run
    &&& actual.real_run
    &&& dry.files == actual.files
    &&& dry.size == actual.size
    &&& dry.remove_empty == actual.remove_empty
    &&& dry.stage == actual.stage
    &&& dry.pending == actual.pending
    &&& !asks_removal(actual)
    &&& dry.cache == actual.cache
    &&& dry.gone == actual.gone
    &&& dry.fail == actual.fail
    &&& dry.succ == recs.map_values(|r: ReportedRemoval| dry_line(r))
    &&& actual.succ == recs.map_values(|r: ReportedRemoval| real_line(r))
}

/// The deletion that a real run asks for, answered as done.
pub open spec fn deleted() -> ScanReply {
    ScanReply::Removal(Ok(()))
}

/// A real run after `m`, where a deletion that `m` asks for is answered as done.
pub open spec fn after_deletion(m: ScanView) -> ScanView {
    if asks_removal(m) {
        resume(m, deleted())
    } else {
        m
    }
}

/// Step by step, a dry run decides as a real run whose deletions all succeed: the
/// dry run reports "would remove" exactly where the real run removes.
pub proof fn law_dry_step_mirrors_real(dry: ScanView, actual: ScanView, recs: Seq<ReportedRemoval>)
    requires
        mirrored(dry, actual, recs),
        dry.pending == Pending::Nothing,
    ensures
        exists|next: Seq<ReportedRemoval>| mirrored(step(dry), after_deletion(step(actual)), next),
{
    let d1 = step(dry);
    let r1 = after_deletion(step(actual));
    if step(actual).pending is PairRemoval {
        let (i, j) = match step(actual).pending {
            Pending::PairRemoval(i, j) => (i, j),
            _ => (0usize, 0usize),
        };
        let rec = ReportedRemoval::Copy { copy: dry.files[j as int], kept: dry.files[i as int] };
        let next = recs.push(rec);
        assert(d1.succ =~= next.map_values(|r: ReportedRemoval| dry_line(r)));
        assert(r1.succ =~= next.map_values(|r: ReportedRemoval| real_line(r)));
        assert(mirrored(d1, r1, next));
    } else {
        assert(mirrored(d1, r1, recs));
    }
}

/// Outcome by outcome, a dry run decides as a real run whose deletions all
/// succeed: given the same outcome of the same work, the dry run reports "would
/// remove" exactly where the real run removes.
pub proof fn law_dry_outcome_mirrors_real(
    dry: ScanView,
    actual: ScanView,
    recs: Seq<ReportedRemoval>,
    reply: ScanReply,
)
    requires
        mirrored(dry, actual, recs),
    ensures
        exists|next: Seq<ReportedRemoval>|
            mirrored(resume(dry, reply), after_deletion(resume(actual, reply)), next),
{
    let d1 = resume(dry, reply);
    let r0 = resume(actual, reply);
    let r1 = after_deletion(r0);
    if r0.pending is PairRemoval {
        let (i, j) = match r0.pending {
            Pending::PairRemoval(i, j) => (i, j),
            _ => (0usize, 0usize),
        };
        let rec = ReportedRemoval::Copy { copy: dry.files[j as int], kept: dry.files[i as int] };
        let next = recs.push(rec);
        assert(d1.succ =~= next.map_values(|r: ReportedRemoval| dry_line(r)));
        assert(r1.succ =~= next.map_values(|r: ReportedRemoval| real_line(r)));
        assert(mirrored(d1, r1, next));
    } else if r0.pending is EmptyRemoval {
        let k = match r0.pending {
            Pending::EmptyRemoval(k) => k,
            _ => 0usize,
        };
        let rec = ReportedRemoval::Empty { path: dry.files[k as int] };
        let next = recs.push(rec);
        assert(d1.succ =~= next.map_values(|r: ReportedRemoval| dry_line(r)));
        assert(r1.succ =~= next.map_values(|r: ReportedRemoval| real_line(r)));
        assert(mirrored(d1, r1, next));
    } else {
        assert(mirrored(d1, r1, recs));
    }
}

/// The deletion that a real run waits for, when it names a file of the scan at
/// the point the scan has reached.
pub open spec fn removal_in_range(m: ScanView) -> bool {
    m.files.len() <= usize::MAX && match m.pending {
        Pending::PairRemoval(i, j) => m.stage == Stage::Pairs(i, j) && j < m.files.len(),
        Pending::EmptyRemoval(k) => m.stage == Stage::Empties(k) && k < m.files.len(),
        _ => false,
    }
}

pub open spec fn work_left(m: ScanView) -> nat {
    match m.stage {
        Stage::Empties(k) => if k <= m.files.len() {
            (m.files.len() - k) as nat
        } else {
            0
        },
        _ => inner_left(m),
    }
}

/// Runs a real scan on as `advance` does, answering every deletion it asks for as
/// done, until it waits for other work or is over.
pub open spec fn advance_deleting(m: ScanView) -> ScanView
    decreases stage_rank(m.stage), outer_left(m), work_left(m), idle_flag(m),
{
    if removal_in_range(m) {
        proof {
            let r = resume(m, deleted());
            assert(r.files == m.files);
            assert(stage_rank(r.stage) == stage_rank(m.stage));
            assert(outer_left(r) == outer_left(m));
            assert(work_left(r) < work_left(m));
        }
        advance_deleting(resume(m, deleted()))
    } else if waiting(m) || m.files.len() > usize::MAX {
        m
    } else {
        advance_deleting(step(m))
    }
}

/// Between two pieces of work, a dry run reaches the same point as a real run
/// whose deletions all succeed, and reports "would remove" exactly where the real
/// run removes. With `law_dry_outcome_mirrors_real`, from the two new scans of
/// the same bucket (which are mirrored with no removal yet) the whole dry run
/// reports the removals of the real run.
pub proof fn law_dry_run_mirrors_real(dry: ScanView, actual: ScanView, recs: Seq<ReportedRemoval>)
    requires
        mirrored(dry, actual, recs),
        scan_wf(dry),
        scan_wf(actual),
    ensures
        exists|next: Seq<ReportedRemoval>| mirrored(advance(dry), advance_deleting(actual), next),
    decreases stage_rank(dry.stage), outer_left(dry), inner_left(dry), idle_flag(dry),
{
    if waiting(dry) || dry.files.len() > usize::MAX {
        assert(mirrored(advance(dry), advance_deleting(actual), recs));
    } else {
        law_dry_step_mirrors_real(dry, actual, recs);
        let d1 = step(dry);
        let a0 = step(actual);
        let a1 = after_deletion(a0);
        let next1 = choose|next: Seq<ReportedRemoval>| mirrored(d1, a1, next);
        lemma_step_keeps_wf(dry);
        lemma_step_keeps_wf(actual);
        if asks_removal(a0) {
            lemma_resume_keeps_wf(a0, deleted());
            assert(removal_in_range(a0));
        } else {
            assert(!removal_in_range(a0));
        }
        assert(!removal_in_range(actual));
        assert(advance_deleting(actual) == advance_deleting(a0));
        assert(advance_deleting(a0) == advance_deleting(a1));
        law_dry_run_mirrors_real(d1, a1, next1);
    }
}

/// A new dry scan and a new real scan of the same bucket are mirrored, with no
/// removal reported yet.
pub proof fn law_new_scans_mirrored(files: Seq<Seq<char>>, size: u64, remove_empty: bool)
    ensures
        mirrored(
            initial_scan(files, size, remove_empty, false),
            initial_scan(files, size, remove_empty, true),
            Seq::empty(),
        ),
{
    let recs = Seq::<ReportedRemoval>::empty();
    assert(recs.map_values(|r: ReportedRemoval| dry_line(r)) =~= Seq::empty());
    assert(recs.map_values(|r: ReportedRemoval| real_line(r)) =~= Seq::empty());
}

/// A file that no longer had the bucket's size when it was opened (or whose first
/// bytes could not be read) takes part in no pair: it is never a copy, never the
/// kept twin of one, and never compared or deleted as a copy. Sizes found by the
/// walk are thus checked again at open time.
pub proof fn law_changed_length_never_a_copy(m: ScanView, c: int)
    requires
        scan_wf(m),
        0 <= c < m.files.len(),
        !(m.cache[c] matches Some((_, len)) && len == m.size),
    ensures
        !m.gone[c],
        forall|o: int| 0 <= o < m.files.len() ==> !same_prefix(m, o, c) && !same_prefix(m, c, o),
        !(m.pending matches Pending::Compare(i, j) && (i == c || j == c)),
        !(m.pending matches Pending::PairRemoval(i, j) && (i == c || j == c)),
{
    assert(unchanged_prefix(m, c) is None);
    if m.gone[c] {
        let o = choose|o: int| 0 <= o < c && !m.gone[o] && same_prefix(m, o, c) && match m.stage {
            Stage::Pairs(i, _) => o <= i,
            _ => true,
        };
        assert(same_prefix(m, o, c));
    }
}

/// The scans whose outcome the pairwise order alone decides: dry runs over files
/// small enough that equal first bytes mean equal files.
pub open spec fn small_dry(m: ScanView) -> bool {
    &&& !m.real_run
    &&& m.size <= PREFIX_BYTES
    &&& !empty_mode(m)
    &&& !(m.stage is Empties)
}

/// The pair (`o`, `c`) has been passed by the pairwise scan.
pub open spec fn pair_done(stage: Stage, o: int, c: int) -> bool {
    match stage {
        Stage::Pairs(i, j) => o < i || (o == i && c < j),
        Stage::Finished => true,
        _ => false,
    }
}

/// Every pair passed so far whose earlier file was kept and whose first bytes
/// match has made the later file a copy.
pub open spec fn pairs_settled(m: ScanView) -> bool {
    forall|o: int, c: int|
        0 <= o < c < m.files.len() && !m.gone[o] && #[trigger] same_prefix(m, o, c) && pair_done(
            m.stage,
            o,
            c,
        ) ==> m.gone[c]
}

proof fn lemma_step_settled(m: ScanView)
    requires
        scan_wf(m),
        !waiting(m),
        small_dry(m),
        pairs_settled(m),
    ensures
        pairs_settled(step(m)),
{
    let s = step(m);
    let n = m.files.len();
    assert forall|o: int, c: int|
        0 <= o < c < s.files.len() && !s.gone[o] && #[trigger] same_prefix(s, o, c) && pair_done(
            s.stage,
            o,
            c,
        ) implies s.gone[c] by {
        assert(unchanged_prefix(s, o) == unchanged_prefix(m, o));
        assert(unchanged_prefix(s, c) == unchanged_prefix(m, c));
        assert(same_prefix(m, o, c));
        match m.stage {
            Stage::Prefixes(k) => {
                assert(s.stage == Stage::Pairs(0, 1) || s.stage == Stage::Prefixes(k));
            },
            Stage::Pairs(i, j) => {
                if i >= n {
                    assert(pair_done(m.stage, o, c));
                } else if m.gone[i as int] || j >= n {
                    assert(s.gone == m.gone);
                    if o == i {
                        assert(!m.gone[i as int]);
                        assert(pair_done(m.stage, o, c));
                    } else {
                        assert(o < i);
                        assert(pair_done(m.stage, o, c));
                    }
                } else if m.gone[j as int] || !same_prefix(m, i as int, j as int) {
                    assert(s.gone == m.gone);
                    if !(o == i && c == j) {
                        assert(pair_done(m.stage, o, c));
                    }
                } else {
                    assert(s.gone == m.gone.update(j as int, true));
                    if !(o == i && c == j) {
                        assert(!m.gone[o]);
                        assert(pair_done(m.stage, o, c));
                    }
                }
            },
            _ => {},
        }
    }
}

proof fn lemma_advance_settled(m: ScanView)
    requires
        scan_wf(m),
        small_dry(m),
        pairs_settled(m),
    ensures
        pairs_settled(advance(m)),
        scan_wf(advance(m)),
        small_dry(advance(m)),
    decreases crate::dedup::stage_rank(m.stage), crate::dedup::outer_left(m), crate::dedup::inner_left(
        m,
    ), crate::dedup::idle_flag(m),
{
    if !(waiting(m) || m.files.len() > usize::MAX) {
        lemma_step_keeps_wf(m);
        lemma_step_settled(m);
        lemma_advance_settled(step(m));
    }
}

/// A new dry scan of small files has passed no pair yet.
pub proof fn law_new_scan_settled(files: Seq<Seq<char>>, size: u64, remove_empty: bool)
    ensures
        pairs_settled(initial_scan(files, size, remove_empty, false)),
{
}

/// In a dry scan of small files, whatever work is done and whatever outcomes come
/// back, every pair passed whose earlier file is kept and whose first bytes match
/// has made the later file a copy.
pub proof fn law_scan_settles_pairs(m: ScanView, reply: ScanReply)
    requires
        scan_wf(m),
        small_dry(m),
        !asks_removal(m),
        pairs_settled(m),
    ensures
        pairs_settled(advance(m)),
        pairs_settled(resume(m, reply)),
        small_dry(advance(m)),
        small_dry(resume(m, reply)),
{
    lemma_advance_settled(m);
    let s = resume(m, reply);
    if m.pending is Prefix {
        assert forall|o: int, c: int|
            0 <= o < c < s.files.len() && !s.gone[o] && #[trigger] same_prefix(s, o, c)
                && pair_done(s.stage, o, c) implies s.gone[c] by {
            assert(s.stage is Prefixes);
        }
    } else {
        assert(m.pending == Pending::Nothing);
        assert(s == m);
    }
}

/// The outcome of a finished dry scan of small files: a file is reported a copy
/// exactly when an earlier file that was kept has the same content. So the first
/// of every set of equal files is kept, each later one is reported once, and no
/// other file is.
pub proof fn law_dry_scan_outcome(m: ScanView)
    requires
        scan_wf(m),
        small_dry(m),
        pairs_settled(m),
        m.stage == Stage::Finished,
    ensures
        forall|c: int|
            0 <= c < m.files.len() ==> (m.gone[c] <==> exists|o: int|
                0 <= o < c && !m.gone[o] && #[trigger] same_prefix(m, o, c)),
{
    assert forall|c: int| 0 <= c < m.files.len() implies (m.gone[c] <==> exists|o: int|
        0 <= o < c && !m.gone[o] && #[trigger] same_prefix(m, o, c)) by {
        if exists|o: int| 0 <= o < c && !m.gone[o] && #[trigger] same_prefix(m, o, c) {
            let o = choose|o: int| 0 <= o < c && !m.gone[o] && #[trigger] same_prefix(m, o, c);
            assert(pair_done(m.stage, o, c));
        }
    }
}

/// No pair is ever compared in the scan, and no file has become a copy.
pub open spec fn no_pairs(m: ScanView) -> bool {
    &&& !(m.stage is Pairs)
    &&& !(m.pending is Compare)
    &&& !(m.pending is PairRemoval)
    &&& forall|c: int| 0 <= c < m.gone.len() ==> !m.gone[c]
}

proof fn lemma_empty_advance(m: ScanView)
    requires
        empty_mode(m),
        no_pairs(m),
    ensures
        no_pairs(advance(m)),
        empty_mode(advance(m)),
    decreases crate::dedup::stage_rank(m.stage), crate::dedup::outer_left(m), crate::dedup::inner_left(
        m,
    ), crate::dedup::idle_flag(m),
{
    if !(waiting(m) || m.files.len() > usize::MAX) {
        lemma_empty_advance(step(m));
    }
}

/// A bucket of empty files, when empty files are to be removed, is a deletion of
/// empty files: no pair is ever compared and no file becomes a copy of another;
/// once the first reads are done their failures are dropped and every file's
/// length is checked again, in order; a file found empty is deleted (in a dry
/// run, reported as to be deleted), a file found not empty is left alone, and a
/// deletion that succeeds is reported.
pub proof fn law_empty_bucket(m: ScanView, reply: ScanReply)
    requires
        empty_mode(m),
        no_pairs(m),
    ensures
        no_pairs(advance(m)),
        no_pairs(resume(m, reply)),
        m.files.len() <= usize::MAX && m.stage == Stage::Prefixes(m.files.len() as usize) && m.pending
            == Pending::Nothing ==> {
            let a = advance(m);
            &&& a.fail == Seq::<Seq<char>>::empty()
            &&& a.succ == m.succ
            &&& m.files.len() > 0 ==> a.pending == Pending::Length(0) && a.stage == Stage::Empties(0)
            &&& m.files.len() == 0 ==> a.stage == Stage::Finished
        },
        m.pending matches Pending::Length(k) ==> match reply {
            ScanReply::Length(Ok(len)) => if len == 0 {
                if m.real_run {
                    resume(m, reply).pending == Pending::EmptyRemoval(k)
                        && resume(m, reply).succ == m.succ
                } else {
                    resume(m, reply).succ == m.succ.push(would_remove_empty(m.files[k as int]))
                        && resume(m, reply).stage == Stage::Empties((k + 1) as usize)
                }
            } else {
                resume(m, reply).succ == m.succ && resume(m, reply).fail == m.fail
                    && resume(m, reply).stage == Stage::Empties((k + 1) as usize)
            },
            _ => true,
        },
        m.pending matches Pending::EmptyRemoval(k) ==> (reply is Removal && reply->Removal_0 is Ok
            ==> resume(m, reply).succ == m.succ.push(removed_empty(m.files[k as int]))
            && resume(m, reply).stage == Stage::Empties((k + 1) as usize)),
{
    lemma_empty_advance(m);
    if m.files.len() <= usize::MAX && m.stage == Stage::Prefixes(m.files.len() as usize)
        && m.pending == Pending::Nothing {
        let s1 = step(m);
        assert(s1.stage == Stage::Empties(0));
        if m.files.len() > 0 {
            assert(step(s1).pending == Pending::Length(0));
            assert(advance(s1) == advance(step(s1)));
        } else {
            assert(step(s1).stage == Stage::Finished);
            assert(advance(s1) == advance(step(s1)));
        }
    }
}

/// The success lines of a sequence of scans, one after another.
pub open spec fn done_succ(d: Seq<ScanView>) -> Seq<Seq<char>>
    decreases d.len(),
{
    if d.len() == 0 {
        Seq::empty()
    } else {
        done_succ(d.drop_last()) + d.last().succ
    }
}

/// The failure lines of a sequence of scans, one after another.
pub open spec fn done_fail(d: Seq<ScanView>) -> Seq<Seq<char>>
    decreases d.len(),
{
    if d.len() == 0 {
        Seq::empty()
    } else {
        done_fail(d.drop_last()) + d.last().fail
    }
}

/// `s` is a scan of bucket `b` with the run's options.
pub open spec fn scan_of_bucket(s: ScanView, b: (u64, Seq<Seq<char>>), m: RunView) -> bool {
    &&& s.files == b.1
    &&& s.size == b.0
    &&& s.remove_empty == m.remove_empty
    &&& s.real_run == m.real_run
}

/// A run scans its buckets one after another, in order, each with a scan of its
/// own, and its report is the lines of the finished scans, one after another.
pub open spec fn run_history(m: RunView) -> bool {
    let cur: int = if m.scan is Some {
        1
    } else {
        0
    };
    &&& forall|b: int| 0 <= b < m.buckets.len() ==> (#[trigger] m.buckets[b]).1.len() <= usize::MAX
    &&& m.done.len() + cur + m.todo.len() == m.buckets.len()
    &&& m.todo == m.buckets.skip(m.done.len() + cur)
    &&& forall|t: int|
        0 <= t < m.done.len() ==> scan_of_bucket(#[trigger] m.done[t], m.buckets[t], m)
            && m.done[t].stage == Stage::Finished && scan_wf(m.done[t])
    &&& (m.scan matches Some(s) ==> scan_of_bucket(s, m.buckets[m.done.len() as int], m) && scan_wf(s))
    &&& m.succ == done_succ(m.done)
    &&& m.fail == done_fail(m.done)
}

proof fn lemma_run_step_history(m: RunView)
    requires
        run_history(m),
        !run_waiting(m),
    ensures
        run_history(run_step(m)),
{
    let r = run_step(m);
    match m.scan {
        Some(s) => {
            if s.stage == Stage::Finished {
                assert(r.done.drop_last() =~= m.done);
                assert(r.done.last() == s);
                assert(r.todo =~= r.buckets.skip(r.done.len() as int));
                assert forall|t: int| 0 <= t < r.done.len() implies scan_of_bucket(
                    #[trigger] r.done[t],
                    r.buckets[t],
                    r,
                ) && r.done[t].stage == Stage::Finished && scan_wf(r.done[t]) by {
                    if t < m.done.len() {
                        assert(r.done[t] == m.done[t]);
                    }
                }
            } else {
                lemma_advance_waits(s);
                lemma_step_wf(s);
            }
        },
        None => {
            let k = m.done.len() as int;
            assert(m.todo[0] == m.buckets[k]);
            assert(r.todo =~= r.buckets.skip(k + 1));
            assert(m.buckets[k].1.len() <= usize::MAX);
        },
    }
}

proof fn lemma_run_advance_history(m: RunView)
    requires
        run_history(m),
    ensures
        run_history(run_advance(m)),
        run_advance(m).buckets == m.buckets,
    decreases run_measure(m),
{
    if !(run_waiting(m) || run_stuck(m)) {
        if let Some(s) = m.scan {
            if s.stage != Stage::Finished {
                lemma_advance_waits(s);
            }
        }
        lemma_run_step_history(m);
        lemma_run_advance_history(run_step(m));
    }
}

/// A new run over buckets that fit in memory has scanned nothing yet.
pub proof fn law_new_run_history(groups: Seq<(u64, Seq<Seq<char>>)>, remove_empty: bool, real_run: bool)
    requires
        forall|b: int| 0 <= b < groups.len() ==> (#[trigger] groups[b]).1.len() <= usize::MAX,
    ensures
        run_history(initial_run(groups, remove_empty, real_run)),
{
    let m = initial_run(groups, remove_empty, real_run);
    assert(m.todo =~= m.buckets.skip(0));
}

/// Whatever work a clean run does and whatever outcomes it is given, it scans its
/// buckets one after another in order, each with a scan of its own, and its
/// report is the lines of those scans, one after another.
pub proof fn law_run_keeps_history(m: RunView, reply: ScanReply)
    requires
        run_history(m),
    ensures
        run_history(run_advance(m)),
        run_history(run_resume(m, reply)),
        run_advance(m).buckets == m.buckets,
        run_resume(m, reply).buckets == m.buckets,
{
    lemma_run_advance_history(m);
    if let Some(s) = m.scan {
        lemma_resume_keeps_wf(s, reply);
    }
}

/// The report of a finished clean run is the concatenation of the reports of the
/// scans of its buckets, one finished scan per bucket, in the buckets' order.
pub proof fn law_run_report_concatenates(m: RunView)
    requires
        run_history(m),
        run_finished(m),
    ensures
        m.done.len() == m.buckets.len(),
        forall|t: int|
            0 <= t < m.done.len() ==> scan_of_bucket(#[trigger] m.done[t], m.buckets[t], m)
                && m.done[t].stage == Stage::Finished && scan_wf(m.done[t]),
        m.succ == done_succ(m.done),
        m.fail == done_fail(m.done),
{
}

/// The buckets of a file list fit in memory when the list does.
proof fn lemma_buckets_fit(files: Seq<(u64, Seq<char>)>)
    requires
        files.len() <= usize::MAX,
    ensures
        forall|b: int|
            0 <= b < size_buckets(files).len() ==> (#[trigger] size_buckets(files)[b]).1.len()
                <= usize::MAX,
{
    assert forall|b: int| 0 <= b < size_buckets(files).len() implies (#[trigger] size_buckets(
        files,
    )[b]).1.len() <= usize::MAX by {
        let k = distinct_sizes(files)[b];
        files.lemma_filter_len(has_size::<Seq<char>>(k));
    }
}

/// A clean job, once its walk is over, runs the scan of the size buckets of the
/// files that the walk kept, bucket after bucket.
pub open spec fn job_history(m: JobView) -> bool {
    match m.walk {
        Some(_) => true,
        None => m.run matches Some(r) && run_history(r) && r.buckets == size_buckets(m.found),
    }
}

/// A new clean job has not scanned anything.
pub proof fn law_new_job_history(root: Seq<char>, remove_empty: bool, real_run: bool)
    ensures
        job_history(initial_job(root, remove_empty, real_run)),
{
}

/// Whatever work a clean job does and whatever outcomes it is given, once the
/// walk is over the job scans the size buckets of the files the walk kept, and
/// keeps the walk's failures.
pub proof fn law_job_keeps_history(m: JobView, reply: JobReply)
    requires
        job_wf(m),
        job_history(m),
        m.walk matches Some(w) ==> w.files.len() <= usize::MAX,
    ensures
        job_history(job_advance(m)),
        job_history(job_resume(m, reply)),
        m.walk matches Some(w) ==> (w.current is None && w.dirs.len() == 0 ==> job_advance(m).found
            == w.files && job_advance(m).walk_errors == w.errors),
{
    match m.walk {
        Some(w) => {
            if w.current is None && w.dirs.len() == 0 {
                lemma_buckets_fit(w.files);
                law_new_run_history(size_buckets(w.files), m.remove_empty, m.real_run);
            }
        },
        None => {
            let r = m.run.unwrap();
            lemma_run_advance_history(r);
            if let JobReply::Scan(sr) = reply {
                law_run_keeps_history(r, sr);
            }
        },
    }
}

/// The report of a finished clean job: the lines of the scans of the size buckets
/// of the files that the walk kept, one scan per bucket in order, and as failures
/// the walk's failures followed by those of the scans.
pub proof fn law_job_report(m: JobView)
    requires
        job_history(m),
        m.walk is None,
        m.run matches Some(r) && run_finished(r),
    ensures
        ({
            let r = m.run.unwrap();
            &&& r.done.len() == size_buckets(m.found).len()
            &&& forall|t: int|
                0 <= t < r.done.len() ==> scan_of_bucket(#[trigger] r.done[t], size_buckets(m.found)[t], r)
                    && r.done[t].stage == Stage::Finished && scan_wf(r.done[t])
            &&& job_report(m) == (done_succ(r.done), m.walk_errors + done_fail(r.done))
        }),
{
    law_run_report_concatenates(m.run.unwrap());
}

proof fn lemma_sorted_filters_determine<T>(r1: Seq<(u64, T)>, r2: Seq<(u64, T)>)
    requires
        r1.len() == r2.len(),
        sorted_by_size_desc(r1),
        sorted_by_size_desc(r2),
        forall|k: u64| #[trigger] r1.filter(has_size::<T>(k)) == r2.filter(has_size::<T>(k)),
    ensures
        r1 == r2,
    decreases r1.len(),
{
    if r1.len() > 0 {
        let x1 = r1.last();
        let x2 = r2.last();
        let a1 = r1.drop_last();
        let a2 = r2.drop_last();
        assert(r1 =~= a1.push(x1));
        assert(r2 =~= a2.push(x2));
        a1.lemma_filter_push(x1, has_size::<T>(x1.0));
        a2.lemma_filter_push(x2, has_size::<T>(x2.0));
        // the smallest size is the same at the end of both
        assert(r1.filter(has_size::<T>(x1.0)).len() > 0);
        let e = r2.filter(has_size::<T>(x1.0))[0];
        r2.lemma_filter_pred(has_size::<T>(x1.0), 0);
        assert(r2.filter(has_size::<T>(x1.0)).contains(e));
        r2.lemma_filter_contains_rev(has_size::<T>(x1.0), e);
        let j = choose|j: int| 0 <= j < r2.len() && r2[j] == e;
        assert(r2[j].0 >= r2[r2.len() - 1].0);
        assert(r2.filter(has_size::<T>(x2.0)).len() > 0);
        let f = r1.filter(has_size::<T>(x2.0))[0];
        r1.lemma_filter_pred(has_size::<T>(x2.0), 0);
        assert(r1.filter(has_size::<T>(x2.0)).contains(f));
        r1.lemma_filter_contains_rev(has_size::<T>(x2.0), f);
        let i = choose|i: int| 0 <= i < r1.len() && r1[i] == f;
        assert(r1[i].0 >= r1[r1.len() - 1].0);
        assert(x1.0 == x2.0);
        let k = x1.0;
        assert(r1.filter(has_size::<T>(k)).last() == x1);
        assert(r2.filter(has_size::<T>(k)).last() == x2);
        assert(x1 == x2);
        assert forall|k2: u64| #[trigger] a1.filter(has_size::<T>(k2)) == a2.filter(has_size::<T>(k2)) by {
            a1.lemma_filter_push(x1, has_size::<T>(k2));
            a2.lemma_filter_push(x2, has_size::<T>(k2));
            if k2 == k {
                assert(a1.filter(has_size::<T>(k2)) =~= r1.filter(has_size::<T>(k2)).drop_last());
                assert(a2.filter(has_size::<T>(k2)) =~= r2.filter(has_size::<T>(k2)).drop_last());
            }
        }
        lemma_sorted_filters_determine(a1, a2);
    }
}

/// A stable sort, largest first, is unique: two of them of the same sequence are
/// equal.
pub proof fn law_stable_sort_unique<T>(s: Seq<(u64, T)>, r1: Seq<(u64, T)>, r2: Seq<(u64, T)>)
    requires
        is_stable_sort_desc(s, r1),
        is_stable_sort_desc(s, r2),
    ensures
        r1 == r2,
{
    assert forall|k: u64| #[trigger] r1.filter(has_size::<T>(k)) == r2.filter(has_size::<T>(k)) by {
        assert(r1.filter(has_size::<T>(k)) == s.filter(has_size::<T>(k)));
        assert(r2.filter(has_size::<T>(k)) == s.filter(has_size::<T>(k)));
    }
    lemma_sorted_filters_determine(r1, r2);
}

/// The listing of the `n` largest of `files`: their stable sort, largest first,
/// cut after `n` entries.
pub open spec fn largest_files(files: Seq<(u64, Seq<char>)>, n: usize) -> Seq<(u64, Seq<char>)> {
    let sorted = choose|r: Seq<(u64, Seq<char>)>| is_stable_sort_desc(files, r);
    sorted.take(shown_count(n, sorted.len()) as int)
}

/// A sort job is its walk followed by the listing: the walk neither keeps empty
/// files nor passes over bundle directories, whatever it lists; and what the
/// finished job shows (as `SortJob::finish` states it) is exactly the listing of
/// the largest files that the walk kept.
pub proof fn law_sort_job_composes(
    v: SortView,
    listing: Result<Vec<DirEntryInfo>, String>,
    shown: Seq<(u64, Seq<char>)>,
)
    requires
        !v.walk.remove_empty,
        !v.walk.is_clean,
        exists|sorted: Seq<(u64, Seq<char>)>|
            is_stable_sort_desc(v.walk.files, sorted) && shown == sorted.take(
                shown_count(v.num_sorting, sorted.len()) as int,
            ),
    ensures
        !take_dir(v.walk).remove_empty && !take_dir(v.walk).is_clean,
        !record(v.walk, listing).remove_empty && !record(v.walk, listing).is_clean,
        shown == largest_files(v.walk.files, v.num_sorting),
{
    if let Some(d) = v.walk.current {
        if let Ok(entries) = listing {
            lemma_add_entries_flags(WalkView { current: None, ..v.walk }, entries@);
        }
    }
    let sorted = choose|sorted: Seq<(u64, Seq<char>)>|
        is_stable_sort_desc(v.walk.files, sorted) && shown == sorted.take(
            shown_count(v.num_sorting, sorted.len()) as int,
        );
    let chosen = choose|r: Seq<(u64, Seq<char>)>| is_stable_sort_desc(v.walk.files, r);
    law_stable_sort_unique(v.walk.files, sorted, chosen);
}

/// Where files are larger than the bytes read first, equal first bytes are never
/// enough: whenever the pairwise scan meets two kept files whose first bytes are
/// equal, it asks for the comparison of the rest before anything else, records
/// no copy and reports nothing.
pub proof fn law_large_pair_is_compared(m: ScanView, i: usize, j: usize)
    requires
        scan_wf(m),
        m.pending == Pending::Nothing,
        m.stage == Stage::Pairs(i, j),
        i < j < m.files.len(),
        !m.gone[i as int],
        !m.gone[j as int],
        same_prefix(m, i as int, j as int),
        m.size > PREFIX_BYTES,
    ensures
        step(m).pending == Pending::Compare(i, j),
        advance(m).pending == Pending::Compare(i, j),
        advance(m).gone == m.gone,
        advance(m).succ == m.succ,
{
    assert(!waiting(m));
    assert(waiting(step(m)));
    assert(advance(m) == advance(step(m)));
    assert(advance(step(m)) == step(m));
}

proof fn lemma_large_advance(m: ScanView)
    requires
        m.size > PREFIX_BYTES,
    ensures
        advance(m).gone == m.gone,
        advance(m).succ == m.succ,
        advance(m).pending is PairRemoval ==> m.pending is PairRemoval,
    decreases crate::dedup::stage_rank(m.stage), crate::dedup::outer_left(m), crate::dedup::inner_left(
        m,
    ), crate::dedup::idle_flag(m),
{
    if !(waiting(m) || m.files.len() > usize::MAX) {
        lemma_large_advance(step(m));
    }
}

/// Where files are larger than the bytes read first, a file becomes a copy (it
/// leaves the scan, is reported, or is to be deleted) only on the outcome of a
/// comparison of the rest that found it equal: the free steps of the scan never
/// make a copy, and of all outcomes only `Comparison(Ok(true))`, given to a scan
/// that asked for that comparison, does.
pub proof fn law_large_copy_needs_equal_rest(m: ScanView, reply: ScanReply)
    requires
        scan_wf(m),
        m.size > PREFIX_BYTES,
        !(m.stage is Empties),
        !(m.pending is PairRemoval),
    ensures
        advance(m).gone == m.gone,
        advance(m).succ == m.succ,
        !(advance(m).pending is PairRemoval),
        resume(m, reply).gone != m.gone || resume(m, reply).succ != m.succ || resume(
            m,
            reply,
        ).pending is PairRemoval ==> m.pending is Compare && reply == ScanReply::Comparison(
            Ok::<bool, CompareError>(true),
        ),
{
    lemma_large_advance(m);
}

/// A clean job starts with exactly the options it was given: its walk starts at
/// the root alone, keeps empty files only when `remove_empty` holds and passes
/// over bundle directories; the job deletes only in a real run. With
/// `remove_empty` off, the walk keeps no empty file, whatever `real_run` is.
pub proof fn law_clean_job_options(root: Seq<char>, remove_empty: bool, real_run: bool, entry: DirEntryInfo)
    ensures
        initial_job(root, remove_empty, real_run).remove_empty == remove_empty,
        initial_job(root, remove_empty, real_run).real_run == real_run,
        initial_job(root, remove_empty, real_run).walk matches Some(w) && w.remove_empty
            == remove_empty && w.is_clean && w.dirs == seq![root] && w.files.len() == 0,
        !remove_empty ==> !(classify(entry, remove_empty, true) matches EntryOutcome::KeepFile(len, _)
            && len == 0),
{
}

/// A new walk has exactly the options it was given, starts at the root alone,
/// and has found nothing yet. In particular a walk that is not a clean's (the
/// walk of a sort) enters bundle directories like any other directory.
pub proof fn law_new_walk_options(root: Seq<char>, remove_empty: bool, is_clean: bool, entry: DirEntryInfo)
    ensures
        initial_walk(root, remove_empty, is_clean).remove_empty == remove_empty,
        initial_walk(root, remove_empty, is_clean).is_clean == is_clean,
        initial_walk(root, remove_empty, is_clean).dirs == seq![root],
        initial_walk(root, remove_empty, is_clean).current is None,
        initial_walk(root, remove_empty, is_clean).files.len() == 0,
        initial_walk(root, remove_empty, is_clean).errors.len() == 0,
        (entry.listed_type matches Some(t) && !t.is_symlink && !t.is_file)
            && (entry.name matches Some(n) && !(n@.len() > 0 && n@[0] == '.') && n@ != "target"@)
            && (entry.metadata matches Ok(md) && !md.is_file && md.is_dir) ==> classify(
            entry,
            remove_empty,
            false,
        ) == EntryOutcome::EnterDir(entry.path@),
{
}

/// The walk enters every directory that it does not pass over for a stated
/// reason (a hidden name or `target`, a symbolic link, a bundle when cleaning),
/// whatever its number of links: the directory goes on the stack and is the next
/// one handed out. Likewise every regular file that is not hard-linked and not
/// empty is kept with its size.
pub proof fn law_walk_enters_directories(m: WalkView, entry: DirEntryInfo)
    requires
        entry.listed_type matches Some(t) && !t.is_symlink,
        entry.name matches Some(n) && !(n@.len() > 0 && n@[0] == '.'),
    ensures
        (entry.name matches Some(n) && n@ != "target"@) && (entry.metadata matches Ok(md) && !md.is_file
            && md.is_dir) && !(m.is_clean && is_bundle_path(entry.path@)) ==> {
            &&& classify(entry, m.remove_empty, m.is_clean) == EntryOutcome::EnterDir(entry.path@)
            &&& add_entry(m, entry).dirs == m.dirs.push(entry.path@)
            &&& take_dir(add_entry(m, entry)).current == Some(entry.path@)
        },
        (entry.name matches Some(n) && n@ != "target"@) && (entry.metadata matches Ok(md) && md.is_file
            && md.nlink <= 1 && md.len > 0) ==> {
            &&& classify(entry, m.remove_empty, m.is_clean) == EntryOutcome::KeepFile(
                entry.metadata->Ok_0.len,
                entry.path@,
            )
            &&& add_entry(m, entry).files == m.files.push((entry.metadata->Ok_0.len, entry.path@))
        },
{
}

/// On the results screen, `j` or Down selects the next line of the focused pane
/// (the first after the last), `k` or Up the previous one (the last before the
/// first); so Down then Up comes back to the same line.
pub proof fn law_results_scroll(o: AppState, n: AppState, key: Key, eff: Effect)
    requires
        key.press,
        o.screen == Screen::CleanResults,
        key_handled(o, n, key, eff),
        focused_len(o.results) matches Some(len) && len > 0,
        focused_pos(o.results) matches Some(c) && c < focused_len(o.results)->Some_0,
    ensures
        ({
            let len = focused_len(o.results)->Some_0;
            let c = focused_pos(o.results)->Some_0;
            &&& (key.code == KeyCode::Char('j') || key.code == KeyCode::Down) ==> {
                &&& c + 1 < len ==> focused_pos(n.results) == Some((c + 1) as usize)
                &&& c + 1 == len ==> focused_pos(n.results) == Some(0usize)
                &&& focused_len(n.results) == Some(len)
            }
            &&& (key.code == KeyCode::Char('k') || key.code == KeyCode::Up) ==> {
                &&& c > 0 ==> focused_pos(n.results) == Some((c - 1) as usize)
                &&& c == 0 ==> focused_pos(n.results) == Some((len - 1) as usize)
                &&& focused_len(n.results) == Some(len)
            }
        }),
{
}

/// On the results screen, Down then Up returns to the line it started from.
pub proof fn law_results_down_up(o: AppState, m: AppState, n: AppState, down: Key, up: Key, e1: Effect, e2: Effect)
    requires
        down.press && (down.code == KeyCode::Char('j') || down.code == KeyCode::Down),
        up.press && (up.code == KeyCode::Char('k') || up.code == KeyCode::Up),
        o.screen == Screen::CleanResults,
        key_handled(o, m, down, e1),
        key_handled(m, n, up, e2),
        focused_len(o.results) matches Some(len) && 0 < len <= usize::MAX,
        focused_pos(o.results) matches Some(c) && c < focused_len(o.results)->Some_0,
    ensures
        focused_pos(n.results) == focused_pos(o.results),
        n.results.fail_focus == o.results.fail_focus,
{
    law_results_scroll(o, m, down, e1);
    assert(m.screen == Screen::CleanResults);
    let len = focused_len(o.results)->Some_0;
    let c = focused_pos(o.results)->Some_0;
    law_results_scroll(m, n, up, e2);
    if c + 1 < len {
        assert(focused_pos(m.results) == Some((c + 1) as usize));
        assert(focused_pos(n.results) == Some(c));
    } else {
        assert(focused_pos(m.results) == Some(0usize));
        assert(focused_pos(n.results) == Some((len - 1) as usize));
    }
}

} // verus!
