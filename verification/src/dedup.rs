//! Finding duplicates within one bucket of equally sized files.
//!
//! The scan is a state machine: `next_request` says which piece of file system
//! work it needs next (read a file's first bytes, compare two files past their
//! first 4096 bytes, check a length, delete a file), and `resume` takes the
//! outcome of that work. All decisions, and every line of the report, come from
//! here; the caller only performs the requested work.
//!
//! The order of work is the one of the pairwise scan: every file's first
//! `min(size, 4096)` bytes are read once, and its length is taken when it is
//! opened; then each file that is still kept is compared with every later file
//! that is still kept. Only files that still had the bucket's size when they were
//! opened are compared at all. A later file found equal is
//! deleted (or, in a dry run, reported) and leaves the scan. A bucket of empty
//! files, when empty files are to be removed, is handled apart: each file's
//! length is checked again and the file is deleted if it is still empty.
use vstd::prelude::*;
use crate::util::strs;
use crate::text::{would_remove_duplicate_line, open_failed_line, read_failed_line,
    would_remove_empty_line, metadata_failed_line, removed_empty_line, remove_failed_line,
    seek_failed_line, compare_failed_line, removed_duplicate_line,
    
    compare_failed, metadata_failed, open_failed, read_failed, remove_failed, removed_duplicate,
    removed_empty, seek_failed, would_remove_duplicate, would_remove_empty,
};

verus! {

/// Bytes that are read from the start of every file and compared first.
pub const PREFIX_BYTES: u64 = 4096;

/// The part of a scan that it has reached.
#[derive(Clone, Copy, PartialEq, Eq, Debug)]
pub enum Stage {
    /// Reading the first bytes of the file with this index.
    Prefixes(usize),
    /// Checking the empty file with this index again.
    Empties(usize),
    /// Comparing the kept file `.0` with the later file `.1`.
    Pairs(usize, usize),
    /// Nothing left to do.
    Finished,
}

/// The file system work that the scan waits for, if any.
#[derive(Clone, Copy, PartialEq, Eq, Debug)]
pub enum Pending {
    Nothing,
    /// The first bytes of this file.
    Prefix(usize),
    /// The current length of this file.
    Length(usize),
    /// Deleting this empty file.
    EmptyRemoval(usize),
    /// Comparing the rest of these two files.
    Compare(usize, usize),
    /// Deleting the later of these two files, a copy of the earlier one.
    PairRemoval(usize, usize),
}

/// What went wrong while reading the first bytes of a file.
#[derive(PartialEq, Eq, Debug)]
pub enum PrefixError {
    Open(String),
    Read(String),
    /// The file was opened but its length could not be read.
    Metadata(String),
}

/// What went wrong while checking the length of a file.
#[derive(PartialEq, Eq, Debug)]
pub enum LengthError {
    Open(String),
    Metadata(String),
}

/// What went wrong while comparing two files past their first 4096 bytes.
#[derive(PartialEq, Eq, Debug)]
pub enum CompareError {
    OpenFirst(String),
    SeekFirst(String),
    OpenSecond(String),
    SeekSecond(String),
    Compare(String),
}

/// The outcome of the work that a scan asked for.
#[derive(PartialEq, Eq, Debug)]
pub enum ScanReply {
    /// The first bytes of the file, exactly as many as were asked for, and the
    /// length of the file when it was opened.
    Prefix(Result<(Vec<u8>, u64), PrefixError>),
    /// The current length of the file.
    Length(Result<u64, LengthError>),
    /// Whether the rest of the two files is equal.
    Comparison(Result<bool, CompareError>),
    /// Whether the file was deleted.
    Removal(Result<(), String>),
}

/// The work that a scan asks for next.
#[derive(PartialEq, Eq, Debug)]
pub enum ScanRequest {
    /// Open `path`, read its first `count` bytes and tell its length.
    ReadPrefix { path: String, count: usize },
    /// Open `path` and tell its current length.
    CheckLength { path: String },
    /// Compare `first` and `second` from byte 4096 on, over `remaining` bytes.
    CompareRest { first: String, second: String, remaining: u64 },
    /// Delete `path`.
    Remove { path: String },
    /// The scan is over.
    Finished,
}

/// The abstract state of a scan.
#[verifier::ext_equal]
pub struct ScanView {
    pub files: Seq<Seq<char>>,
    pub size: u64,
    pub remove_empty: bool,
    pub real_run: bool,
    pub stage: Stage,
    pub pending: Pending,
    /// The first bytes of each file whose read succeeded, in file order, with
    /// the file's length when it was opened.
    pub cache: Seq<Option<(Seq<u8>, u64)>>,
    /// The files that left the scan as copies of an earlier one.
    pub gone: Seq<bool>,
    pub succ: Seq<Seq<char>>,
    pub fail: Seq<Seq<char>>,
}

/// The scan of one bucket of files of one size.
pub struct GroupScan {
    files: Vec<String>,
    size: u64,
    remove_empty: bool,
    real_run: bool,
    stage: Stage,
    pending: Pending,
    cache: Vec<Option<(Vec<u8>, u64)>>,
    gone: Vec<bool>,
    succ: Vec<String>,
    fail: Vec<String>,
}

pub open spec fn cached_entry(o: Option<(Vec<u8>, u64)>) -> Option<(Seq<u8>, u64)> {
    match o {
        Some((b, l)) => Some((b@, l)),
        None => None,
    }
}

pub open spec fn cached(v: Seq<Option<(Vec<u8>, u64)>>) -> Seq<Option<(Seq<u8>, u64)>> {
    v.map_values(|o: Option<(Vec<u8>, u64)>| cached_entry(o))
}

impl View for GroupScan {
    type V = ScanView;

    closed spec fn view(&self) -> ScanView {
        ScanView {
            files: strs(self.files@),
            size: self.size,
            remove_empty: self.remove_empty,
            real_run: self.real_run,
            stage: self.stage,
            pending: self.pending,
            cache: cached(self.cache@),
            gone: self.gone@,
            succ: strs(self.succ@),
            fail: strs(self.fail@),
        }
    }
}

/// How many bytes are read from the start of each file of this size.
pub open spec fn prefix_len(size: u64) -> u64 {
    if size < PREFIX_BYTES {
        size
    } else {
        PREFIX_BYTES
    }
}

/// Whether the bucket is handled as a bucket of empty files to remove.
pub open spec fn empty_mode(m: ScanView) -> bool {
    m.size == 0 && m.remove_empty
}

/// The first bytes of file `a`, where they were read and the file still had the
/// bucket's size when it was opened.
pub open spec fn unchanged_prefix(m: ScanView, a: int) -> Option<Seq<u8>> {
    match m.cache[a] {
        Some((bytes, len)) => if len == m.size {
            Some(bytes)
        } else {
            None
        },
        None => None,
    }
}

/// The first bytes of `a` and `b` were both read, both files still had the
/// bucket's size when they were opened, and their first bytes are equal.
pub open spec fn same_prefix(m: ScanView, a: int, b: int) -> bool {
    &&& unchanged_prefix(m, a) is Some
    &&& unchanged_prefix(m, b) is Some
    &&& unchanged_prefix(m, a) == unchanged_prefix(m, b)
}

/// The scan is at rest: it waits for work, or it is over.
pub open spec fn waiting(m: ScanView) -> bool {
    m.pending != Pending::Nothing || m.stage == Stage::Finished
}

/// The later file `j` was found equal to the kept file `i`: delete it, or in a dry
/// run report it and let it leave the scan.
pub open spec fn found_copy(m: ScanView, i: int, j: int) -> ScanView {
    if m.real_run {
        ScanView { pending: Pending::PairRemoval(i as usize, j as usize), ..m }
    } else {
        ScanView {
            stage: Stage::Pairs(i as usize, (j + 1) as usize),
            gone: m.gone.update(j, true),
            succ: m.succ.push(would_remove_duplicate(m.files[j], m.files[i])),
            ..m
        }
    }
}

/// One step of the scan that needs no file system work.
pub open spec fn step(m: ScanView) -> ScanView {
    let n = m.files.len();
    match m.stage {
        Stage::Prefixes(k) => if k < n {
            ScanView { pending: Pending::Prefix(k), ..m }
        } else if empty_mode(m) {
            // the failures met while reading are not part of the report here
            ScanView { stage: Stage::Empties(0), fail: Seq::empty(), ..m }
        } else {
            ScanView { stage: Stage::Pairs(0, 1), ..m }
        },
        Stage::Empties(k) => if k < n {
            ScanView { pending: Pending::Length(k), ..m }
        } else {
            ScanView { stage: Stage::Finished, ..m }
        },
        Stage::Pairs(i, j) => if i >= n {
            ScanView { stage: Stage::Finished, ..m }
        } else if m.gone[i as int] || j >= n {
            if i + 1 >= n {
                ScanView { stage: Stage::Finished, ..m }
            } else {
                ScanView { stage: Stage::Pairs((i + 1) as usize, (i + 2) as usize), ..m }
            }
        } else if m.gone[j as int] || !same_prefix(m, i as int, j as int) {
            ScanView { stage: Stage::Pairs(i, (j + 1) as usize), ..m }
        } else if m.size > PREFIX_BYTES {
            ScanView { pending: Pending::Compare(i, j), ..m }
        } else {
            found_copy(m, i as int, j as int)
        },
        Stage::Finished => m,
    }
}

pub open spec fn stage_rank(s: Stage) -> nat {
    match s {
        Stage::Prefixes(_) => 3,
        Stage::Empties(_) => 2,
        Stage::Pairs(_, _) => 1,
        Stage::Finished => 0,
    }
}

pub open spec fn outer_left(m: ScanView) -> nat {
    match m.stage {
        Stage::Pairs(i, _) => if i <= m.files.len() {
            (m.files.len() - i) as nat
        } else {
            0
        },
        _ => 0,
    }
}

pub open spec fn inner_left(m: ScanView) -> nat {
    match m.stage {
        Stage::Pairs(_, j) => if j <= m.files.len() + 1 {
            (m.files.len() + 1 - j) as nat
        } else {
            0
        },
        _ => 0,
    }
}

pub open spec fn idle_flag(m: ScanView) -> nat {
    if m.pending == Pending::Nothing {
        1
    } else {
        0
    }
}

/// Runs the steps that need no file system work, until the scan waits for work
/// or is over.
pub open spec fn advance(m: ScanView) -> ScanView
    decreases stage_rank(m.stage), outer_left(m), inner_left(m), idle_flag(m),
{
    if waiting(m) || m.files.len() > usize::MAX {
        m
    } else {
        advance(step(m))
    }
}

/// Takes the outcome of the awaited work. An outcome of another kind than the
/// awaited one leaves the scan as it is.
pub open spec fn resume(m: ScanView, reply: ScanReply) -> ScanView {
    match (m.pending, reply) {
        (Pending::Prefix(k), ScanReply::Prefix(r)) => {
            let path = m.files[k as int];
            let next = Stage::Prefixes((k + 1) as usize);
            match r {
                Ok((bytes, len)) => ScanView {
                    stage: next,
                    pending: Pending::Nothing,
                    cache: m.cache.push(Some((bytes@, len))),
                    ..m
                },
                Err(PrefixError::Open(e)) => ScanView {
                    stage: next,
                    pending: Pending::Nothing,
                    cache: m.cache.push(None),
                    fail: m.fail.push(open_failed(path, e@)),
                    ..m
                },
                Err(PrefixError::Read(e)) => ScanView {
                    stage: next,
                    pending: Pending::Nothing,
                    cache: m.cache.push(None),
                    fail: m.fail.push(read_failed(path, e@)),
                    ..m
                },
                Err(PrefixError::Metadata(e)) => ScanView {
                    stage: next,
                    pending: Pending::Nothing,
                    cache: m.cache.push(None),
                    fail: m.fail.push(metadata_failed(path, e@)),
                    ..m
                },
            }
        },
        (Pending::Length(k), ScanReply::Length(r)) => {
            let path = m.files[k as int];
            let next = Stage::Empties((k + 1) as usize);
            match r {
                Ok(len) => if len != 0 {
                    ScanView { stage: next, pending: Pending::Nothing, ..m }
                } else if m.real_run {
                    ScanView { pending: Pending::EmptyRemoval(k), ..m }
                } else {
                    ScanView {
                        stage: next,
                        pending: Pending::Nothing,
                        succ: m.succ.push(would_remove_empty(path)),
                        ..m
                    }
                },
                Err(LengthError::Open(e)) => ScanView {
                    stage: next,
                    pending: Pending::Nothing,
                    fail: m.fail.push(open_failed(path, e@)),
                    ..m
                },
                Err(LengthError::Metadata(e)) => ScanView {
                    stage: next,
                    pending: Pending::Nothing,
                    fail: m.fail.push(metadata_failed(path, e@)),
                    ..m
                },
            }
        },
        (Pending::EmptyRemoval(k), ScanReply::Removal(r)) => {
            let path = m.files[k as int];
            let next = Stage::Empties((k + 1) as usize);
            match r {
                Ok(_) => ScanView {
                    stage: next,
                    pending: Pending::Nothing,
                    succ: m.succ.push(removed_empty(path)),
                    ..m
                },
                Err(e) => ScanView {
                    stage: next,
                    pending: Pending::Nothing,
                    fail: m.fail.push(remove_failed(path, e@)),
                    ..m
                },
            }
        },
        (Pending::Compare(i, j), ScanReply::Comparison(r)) => {
            let first = m.files[i as int];
            let second = m.files[j as int];
            let resumed = ScanView { pending: Pending::Nothing, ..m };
            let next = Stage::Pairs(i, (j + 1) as usize);
            match r {
                Ok(true) => found_copy(resumed, i as int, j as int),
                Ok(false) => ScanView { stage: next, ..resumed },
                Err(CompareError::OpenFirst(e)) => ScanView {
                    stage: next,
                    fail: m.fail.push(open_failed(first, e@)),
                    ..resumed
                },
                Err(CompareError::SeekFirst(e)) => ScanView {
                    stage: next,
                    fail: m.fail.push(seek_failed(first, e@)),
                    ..resumed
                },
                Err(CompareError::OpenSecond(e)) => ScanView {
                    stage: next,
                    fail: m.fail.push(open_failed(second, e@)),
                    ..resumed
                },
                Err(CompareError::SeekSecond(e)) => ScanView {
                    stage: next,
                    fail: m.fail.push(seek_failed(second, e@)),
                    ..resumed
                },
                Err(CompareError::Compare(e)) => ScanView {
                    stage: next,
                    fail: m.fail.push(compare_failed(first, second, e@)),
                    ..resumed
                },
            }
        },
        (Pending::PairRemoval(i, j), ScanReply::Removal(r)) => {
            let kept = m.files[i as int];
            let copy = m.files[j as int];
            let next = Stage::Pairs(i, (j + 1) as usize);
            match r {
                Ok(_) => ScanView {
                    stage: next,
                    pending: Pending::Nothing,
                    gone: m.gone.update(j as int, true),
                    succ: m.succ.push(removed_duplicate(copy, kept)),
                    ..m
                },
                Err(e) => ScanView {
                    stage: next,
                    pending: Pending::Nothing,
                    fail: m.fail.push(remove_failed(copy, e@)),
                    ..m
                },
            }
        },
        _ => m,
    }
}

/// The request that matches what the scan waits for.
pub open spec fn request_is(m: ScanView, r: ScanRequest) -> bool {
    match m.pending {
        Pending::Prefix(k) => r matches ScanRequest::ReadPrefix { path, count } && path@
            == m.files[k as int] && count == prefix_len(m.size),
        Pending::Length(k) => r matches ScanRequest::CheckLength { path } && path@ == m.files[k as int],
        Pending::EmptyRemoval(k) => r matches ScanRequest::Remove { path } && path@ == m.files[k as int],
        Pending::Compare(i, j) => r matches ScanRequest::CompareRest { first, second, remaining }
            && first@ == m.files[i as int] && second@ == m.files[j as int] && remaining == m.size
            - PREFIX_BYTES,
        Pending::PairRemoval(_, j) => r matches ScanRequest::Remove { path } && path@ == m.files[j as int],
        Pending::Nothing => r is Finished,
    }
}

/// Every file that left the scan as a copy has an earlier file, still kept, whose
/// first bytes were read and are the same.
pub open spec fn copies_have_kept_twin(m: ScanView) -> bool {
    forall|c: int|
        0 <= c < m.gone.len() && #[trigger] m.gone[c] ==> exists|o: int|
            0 <= o < c && !m.gone[o] && same_prefix(m, o, c) && match m.stage {
                Stage::Pairs(i, _) => o <= i,
                _ => true,
            }
}

/// The internal consistency of a scan.
pub open spec fn scan_wf(m: ScanView) -> bool {
    let n = m.files.len();
    &&& n <= usize::MAX
    &&& m.gone.len() == n
    &&& match m.stage {
        Stage::Prefixes(k) => k <= n && m.cache.len() == k,
        Stage::Empties(k) => k <= n && m.cache.len() == n,
        Stage::Pairs(i, j) => m.cache.len() == n && i <= n && (i < n ==> i < j <= n),
        Stage::Finished => m.cache.len() == n,
    }
    &&& match m.pending {
        Pending::Nothing => true,
        Pending::Prefix(k) => m.stage == Stage::Prefixes(k) && k < n,
        Pending::Length(k) => m.stage == Stage::Empties(k) && k < n,
        Pending::EmptyRemoval(k) => m.stage == Stage::Empties(k) && k < n,
        Pending::Compare(i, j) | Pending::PairRemoval(i, j) => m.stage == Stage::Pairs(i, j) && i
            < j < n && !m.gone[i as int] && !m.gone[j as int] && same_prefix(m, i as int, j as int),
    }
    &&& (m.pending is Compare ==> m.size > PREFIX_BYTES)
    &&& match m.stage {
        Stage::Prefixes(_) | Stage::Empties(_) => forall|c: int| 0 <= c < n ==> !m.gone[c],
        _ => true,
    }
    &&& copies_have_kept_twin(m)
}

/// The state of a new scan of `files`, all of size `size`.
pub open spec fn initial_scan(files: Seq<Seq<char>>, size: u64, remove_empty: bool, real_run: bool) -> ScanView {
    ScanView {
        files,
        size,
        remove_empty,
        real_run,
        stage: Stage::Prefixes(0),
        pending: Pending::Nothing,
        cache: Seq::empty(),
        gone: Seq::new(files.len(), |c: int| false),
        succ: Seq::empty(),
        fail: Seq::empty(),
    }
}

proof fn lemma_strs_push(v: Seq<String>, s: String)
    ensures
        strs(v.push(s)) == strs(v).push(s@),
{
    assert(strs(v.push(s)) =~= strs(v).push(s@));
}

proof fn lemma_cached_push(v: Seq<Option<(Vec<u8>, u64)>>, o: Option<(Vec<u8>, u64)>)
    ensures
        cached(v.push(o)) == cached(v).push(cached_entry(o)),
{
    assert(cached(v.push(o)) =~= cached(v).push(cached_entry(o)));
}

/// Whether `o` may be the kept twin of a copy at this stage: once the pairwise
/// scan passes file `i`, only files up to `i` are kept twins.
pub open spec fn twin_allowed(stage: Stage, o: int) -> bool {
    match stage {
        Stage::Pairs(i, _) => o <= i,
        _ => true,
    }
}

/// Every copy keeps its kept twin across a change of the scan that touches no
/// cached bytes and at most makes `j` a new copy, of the kept file `i`.
proof fn lemma_twins_carry(m: ScanView, s: ScanView, i: int, j: int)
    requires
        copies_have_kept_twin(m),
        s.cache == m.cache,
        s.size == m.size,
        s.gone.len() == m.gone.len(),
        forall|o: int| twin_allowed(m.stage, o) ==> #[trigger] twin_allowed(s.stage, o),
        s.gone == m.gone || (0 <= i < j < m.gone.len() && !m.gone[i] && same_prefix(m, i, j)
            && twin_allowed(s.stage, i) && !twin_allowed(m.stage, j) && s.gone == m.gone.update(
            j,
            true,
        )),
    ensures
        copies_have_kept_twin(s),
{
    assert forall|c: int|
        0 <= c < s.gone.len() && #[trigger] s.gone[c] implies exists|o: int|
        0 <= o < c && !s.gone[o] && same_prefix(s, o, c) && match s.stage {
            Stage::Pairs(i2, _) => o <= i2,
            _ => true,
        } by {
        if s.gone != m.gone && c == j {
            assert(unchanged_prefix(s, i) == unchanged_prefix(m, i));
            assert(unchanged_prefix(s, c) == unchanged_prefix(m, c));
            assert(twin_allowed(s.stage, i));
            assert(!s.gone[i] && same_prefix(s, i, c));
        } else {
            assert(m.gone[c]);
            let o = choose|o: int|
                0 <= o < c && !m.gone[o] && same_prefix(m, o, c) && match m.stage {
                    Stage::Pairs(i2, _) => o <= i2,
                    _ => true,
                };
            assert(twin_allowed(m.stage, o));
            assert(twin_allowed(s.stage, o));
            assert(unchanged_prefix(s, o) == unchanged_prefix(m, o));
            assert(unchanged_prefix(s, c) == unchanged_prefix(m, c));
            assert(!s.gone[o] && same_prefix(s, o, c));
        }
    }
}

pub proof fn lemma_step_keeps_wf(m: ScanView)
    requires
        scan_wf(m),
        !waiting(m),
    ensures
        scan_wf(step(m)),
{
    let n = m.files.len();
    let s = step(m);
    match m.stage {
        Stage::Pairs(i, j) => {
            if i < n && !m.gone[i as int] && j < n && !m.gone[j as int] && same_prefix(
                m,
                i as int,
                j as int,
            ) && m.size <= PREFIX_BYTES && !m.real_run {
                lemma_twins_carry(m, s, i as int, j as int);
            } else {
                lemma_twins_carry(m, s, 0, 0);
            }
        },
        _ => {},
    }
}

/// Whether two byte strings are equal.
pub fn bytes_equal(a: &Vec<u8>, b: &Vec<u8>) -> (res: bool)
    ensures
        res == (a@ == b@),
{
    if a.len() != b.len() {
        return false;
    }
    let mut t: usize = 0;
    while t < a.len()
        invariant
            a@.len() == b@.len(),
            t <= a@.len(),
            forall|u: int| 0 <= u < t ==> a@[u] == b@[u],
        decreases a@.len() - t,
    {
        if a[t] != b[t] {
            return false;
        }
        t = t + 1;
    }
    assert(a@ =~= b@);
    true
}

pub proof fn lemma_resume_keeps_wf(m: ScanView, reply: ScanReply)
    requires
        scan_wf(m),
    ensures
        scan_wf(resume(m, reply)),
{
    let s = resume(m, reply);
    match (m.pending, reply) {
        (Pending::Compare(i, j), ScanReply::Comparison(r)) => {
            if r == Ok::<bool, CompareError>(true) && !m.real_run {
                lemma_twins_carry(m, s, i as int, j as int);
            } else {
                lemma_twins_carry(m, s, 0, 0);
            }
        },
        (Pending::PairRemoval(i, j), ScanReply::Removal(r)) => {
            if r is Ok {
                lemma_twins_carry(m, s, i as int, j as int);
            } else {
                lemma_twins_carry(m, s, 0, 0);
            }
        },
        _ => {},
    }
}

impl GroupScan {
    /// Starts the scan of `files`, the paths of one bucket, all `size` bytes long.
    pub fn new(files: Vec<String>, size: u64, remove_empty: bool, real_run: bool) -> (res: GroupScan)
        ensures
            res@ == initial_scan(strs(files@), size, remove_empty, real_run),
            scan_wf(res@),
    {
        let mut gone: Vec<bool> = Vec::new();
        let mut t: usize = 0;
        while t < files.len()
            invariant
                t <= files@.len(),
                gone@.len() == t,
                forall|u: int| 0 <= u < t ==> !gone@[u],
            decreases files@.len() - t,
        {
            gone.push(false);
            t = t + 1;
        }
        let res = GroupScan {
            files,
            size,
            remove_empty,
            real_run,
            stage: Stage::Prefixes(0),
            pending: Pending::Nothing,
            cache: Vec::new(),
            gone,
            succ: Vec::new(),
            fail: Vec::new(),
        };
        assert(res@ =~= initial_scan(strs(res.files@), size, remove_empty, real_run)) by {
            assert(cached(res.cache@) =~= Seq::<Option<(Seq<u8>, u64)>>::empty());
            assert(strs(res.succ@) =~= Seq::<Seq<char>>::empty());
            assert(strs(res.fail@) =~= Seq::<Seq<char>>::empty());
            assert(res.gone@ =~= Seq::new(res.files@.len(), |c: int| false));
        }
        res
    }

    fn same_prefix_exec(&self, i: usize, j: usize) -> (res: bool)
        requires
            i < self.cache@.len(),
            j < self.cache@.len(),
        ensures
            res == same_prefix(self@, i as int, j as int),
    {
        assert(self@.cache[i as int] == cached_entry(self.cache@[i as int]));
        assert(self@.cache[j as int] == cached_entry(self.cache@[j as int]));
        match (&self.cache[i], &self.cache[j]) {
            (Some((a, la)), Some((b, lb))) => *la == self.size && *lb == self.size && bytes_equal(
                a,
                b,
            ),
            _ => false,
        }
    }

    fn push_success(&mut self, line: String)
        ensures
            final(self)@ == (ScanView { succ: old(self)@.succ.push(line@), ..old(self)@ }),
    {
        proof {
            lemma_strs_push(self.succ@, line);
        }
        self.succ.push(line);
        assert(self@ =~= ScanView { succ: old(self)@.succ.push(line@), ..old(self)@ });
    }

    fn push_failure(&mut self, line: String)
        ensures
            final(self)@ == (ScanView { fail: old(self)@.fail.push(line@), ..old(self)@ }),
    {
        proof {
            lemma_strs_push(self.fail@, line);
        }
        self.fail.push(line);
        assert(self@ =~= ScanView { fail: old(self)@.fail.push(line@), ..old(self)@ });
    }

    fn found_copy_exec(&mut self, i: usize, j: usize)
        requires
            i < j < old(self)@.files.len(),
            j + 1 <= usize::MAX,
            old(self).gone@.len() == old(self)@.files.len(),
        ensures
            final(self)@ == found_copy(old(self)@, i as int, j as int),
    {
        if self.real_run {
            self.pending = Pending::PairRemoval(i, j);
            assert(self@ =~= found_copy(old(self)@, i as int, j as int));
        } else {
            let line = would_remove_duplicate_line(&self.files[j], &self.files[i]);
            self.push_success(line);
            self.gone.set(j, true);
            self.stage = Stage::Pairs(i, j + 1);
            assert(self@ =~= found_copy(old(self)@, i as int, j as int));
        }
    }

    fn step_once(&mut self)
        requires
            scan_wf(old(self)@),
            !waiting(old(self)@),
        ensures
            final(self)@ == step(old(self)@),
    {
        let n = self.files.len();
        assert(self@.files.len() == n);
        match self.stage {
            Stage::Prefixes(k) => {
                if k < n {
                    self.pending = Pending::Prefix(k);
                } else if self.size == 0 && self.remove_empty {
                    self.stage = Stage::Empties(0);
                    self.fail = Vec::new();
                    assert(strs(self.fail@) =~= Seq::<Seq<char>>::empty());
                } else {
                    self.stage = Stage::Pairs(0, 1);
                }
                assert(self@ =~= step(old(self)@));
            },
            Stage::Empties(k) => {
                if k < n {
                    self.pending = Pending::Length(k);
                } else {
                    self.stage = Stage::Finished;
                }
                assert(self@ =~= step(old(self)@));
            },
            Stage::Pairs(i, j) => {
                if i >= n {
                    self.stage = Stage::Finished;
                    assert(self@ =~= step(old(self)@));
                } else if self.gone[i] || j >= n {
                    if i + 1 >= n {
                        self.stage = Stage::Finished;
                    } else {
                        self.stage = Stage::Pairs(i + 1, i + 2);
                    }
                    assert(self@ =~= step(old(self)@));
                } else if self.gone[j] || !self.same_prefix_exec(i, j) {
                    self.stage = Stage::Pairs(i, j + 1);
                    assert(self@ =~= step(old(self)@));
                } else if self.size > 4096 {
                    self.pending = Pending::Compare(i, j);
                    assert(self@ =~= step(old(self)@));
                } else {
                    self.found_copy_exec(i, j);
                }
            },
            Stage::Finished => {},
        }
    }

    /// Whether the scan waits for work or is over.
    pub fn is_waiting(&self) -> (res: bool)
        ensures
            res == waiting(self@),
    {
        match self.pending {
            Pending::Nothing => match self.stage {
                Stage::Finished => true,
                _ => false,
            },
            _ => true,
        }
    }

    /// The work that the scan waits for, or `Finished`.
    pub fn request(&self) -> (req: ScanRequest)
        requires
            scan_wf(self@),
            waiting(self@),
        ensures
            request_is(self@, req),
    {
        match self.pending {
            Pending::Prefix(k) => {
                let count: usize = if self.size < 4096 {
                    self.size as usize
                } else {
                    4096
                };
                ScanRequest::ReadPrefix { path: self.files[k].clone(), count }
            },
            Pending::Length(k) => ScanRequest::CheckLength { path: self.files[k].clone() },
            Pending::EmptyRemoval(k) => ScanRequest::Remove { path: self.files[k].clone() },
            Pending::Compare(i, j) => ScanRequest::CompareRest {
                first: self.files[i].clone(),
                second: self.files[j].clone(),
                remaining: self.size - 4096,
            },
            Pending::PairRemoval(_, j) => ScanRequest::Remove { path: self.files[j].clone() },
            Pending::Nothing => ScanRequest::Finished,
        }
    }

    /// Whether the scan is over.
    pub fn is_finished(&self) -> (res: bool)
        ensures
            res == (self@.stage == Stage::Finished),
    {
        match self.stage {
            Stage::Finished => true,
            _ => false,
        }
    }

    /// Runs the scan up to the next piece of file system work, and says which.
    pub fn next_request(&mut self) -> (req: ScanRequest)
        requires
            scan_wf(old(self)@),
        ensures
            final(self)@ == advance(old(self)@),
            scan_wf(final(self)@),
            request_is(final(self)@, req),
    {
        loop
            invariant
                scan_wf(self@),
                advance(self@) == advance(old(self)@),
            ensures
                scan_wf(self@),
                waiting(self@),
                advance(self@) == advance(old(self)@),
            decreases stage_rank(self@.stage), outer_left(self@), inner_left(self@), idle_flag(self@),
        {
            if self.is_waiting() {
                break;
            }
            proof {
                lemma_step_keeps_wf(self@);
            }
            self.step_once();
        }
        self.request()
    }

    /// Takes the outcome of the work that `next_request` asked for.
    pub fn resume(&mut self, reply: ScanReply)
        requires
            scan_wf(old(self)@),
        ensures
            final(self)@ == resume(old(self)@, reply),
            scan_wf(final(self)@),
    {
        proof {
            lemma_resume_keeps_wf(self@, reply);
        }
        let ghost m = self@;
        let ghost r = reply;
        match self.pending {
            Pending::Prefix(k) => match reply {
                ScanReply::Prefix(Ok(read)) => {
                    proof {
                        lemma_cached_push(self.cache@, Some(read));
                    }
                    self.cache.push(Some(read));
                    self.stage = Stage::Prefixes(k + 1);
                    self.pending = Pending::Nothing;
                    assert(self@ =~= resume(m, r));
                },
                ScanReply::Prefix(Err(e)) => {
                    let line = match e {
                        PrefixError::Open(e) => open_failed_line(&self.files[k], &e),
                        PrefixError::Read(e) => read_failed_line(&self.files[k], &e),
                        PrefixError::Metadata(e) => metadata_failed_line(&self.files[k], &e),
                    };
                    self.push_failure(line);
                    proof {
                        lemma_cached_push(self.cache@, None);
                    }
                    self.cache.push(None);
                    self.stage = Stage::Prefixes(k + 1);
                    self.pending = Pending::Nothing;
                    assert(self@ =~= resume(m, r));
                },
                _ => {},
            },
            Pending::Length(k) => match reply {
                ScanReply::Length(Ok(len)) => {
                    if len != 0 {
                        self.stage = Stage::Empties(k + 1);
                        self.pending = Pending::Nothing;
                    } else if self.real_run {
                        self.pending = Pending::EmptyRemoval(k);
                    } else {
                        let line = would_remove_empty_line(&self.files[k]);
                        self.push_success(line);
                        self.stage = Stage::Empties(k + 1);
                        self.pending = Pending::Nothing;
                    }
                    assert(self@ =~= resume(m, r));
                },
                ScanReply::Length(Err(e)) => {
                    let line = match e {
                        LengthError::Open(e) => open_failed_line(&self.files[k], &e),
                        LengthError::Metadata(e) => metadata_failed_line(&self.files[k], &e),
                    };
                    self.push_failure(line);
                    self.stage = Stage::Empties(k + 1);
                    self.pending = Pending::Nothing;
                    assert(self@ =~= resume(m, r));
                },
                _ => {},
            },
            Pending::EmptyRemoval(k) => match reply {
                ScanReply::Removal(Ok(_)) => {
                    let line = removed_empty_line(&self.files[k]);
                    self.push_success(line);
                    self.stage = Stage::Empties(k + 1);
                    self.pending = Pending::Nothing;
                    assert(self@ =~= resume(m, r));
                },
                ScanReply::Removal(Err(e)) => {
                    let line = remove_failed_line(&self.files[k], &e);
                    self.push_failure(line);
                    self.stage = Stage::Empties(k + 1);
                    self.pending = Pending::Nothing;
                    assert(self@ =~= resume(m, r));
                },
                _ => {},
            },
            Pending::Compare(i, j) => match reply {
                ScanReply::Comparison(Ok(equal)) => {
                    self.pending = Pending::Nothing;
                    if equal {
                        self.found_copy_exec(i, j);
                    } else {
                        self.stage = Stage::Pairs(i, j + 1);
                    }
                    assert(self@ =~= resume(m, r));
                },
                ScanReply::Comparison(Err(e)) => {
                    let line = match e {
                        CompareError::OpenFirst(e) => open_failed_line(&self.files[i], &e),
                        CompareError::SeekFirst(e) => seek_failed_line(&self.files[i], &e),
                        CompareError::OpenSecond(e) => open_failed_line(&self.files[j], &e),
                        CompareError::SeekSecond(e) => seek_failed_line(&self.files[j], &e),
                        CompareError::Compare(e) => compare_failed_line(
                            &self.files[i],
                            &self.files[j],
                            &e,
                        ),
                    };
                    self.push_failure(line);
                    self.pending = Pending::Nothing;
                    self.stage = Stage::Pairs(i, j + 1);
                    assert(self@ =~= resume(m, r));
                },
                _ => {},
            },
            Pending::PairRemoval(i, j) => match reply {
                ScanReply::Removal(Ok(_)) => {
                    let line = removed_duplicate_line(&self.files[j], &self.files[i]);
                    self.push_success(line);
                    self.gone.set(j, true);
                    self.stage = Stage::Pairs(i, j + 1);
                    self.pending = Pending::Nothing;
                    assert(self@ =~= resume(m, r));
                },
                ScanReply::Removal(Err(e)) => {
                    let line = remove_failed_line(&self.files[j], &e);
                    self.push_failure(line);
                    self.stage = Stage::Pairs(i, j + 1);
                    self.pending = Pending::Nothing;
                    assert(self@ =~= resume(m, r));
                },
                _ => {},
            },
            Pending::Nothing => {},
        }
    }

    /// The report of the scan: what was (or would be) removed, and what failed.
    pub fn into_lines(self) -> (res: (Vec<String>, Vec<String>))
        ensures
            strs(res.0@) == self@.succ,
            strs(res.1@) == self@.fail,
    {
        (self.succ, self.fail)
    }

}

} // verus!
