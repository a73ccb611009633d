//! Comparing the rest of two files chunk by chunk, stopping at the first
//! difference, so that two different files are rarely read to the end.
use vstd::prelude::*;
use crate::dedup::bytes_equal;

verus! {

/// The most bytes read from each file at a time.
pub const CHUNK_BYTES: u64 = 4096;

/// The abstract state of a comparison.
pub struct ComparisonView {
    /// Bytes still to compare.
    pub remaining: u64,
    /// The outcome, once known.
    pub verdict: Option<bool>,
    /// The bytes of each file compared so far.
    pub first: Seq<u8>,
    pub second: Seq<u8>,
}

/// A comparison of the next bytes of two files.
pub struct RestComparison {
    remaining: u64,
    verdict: Option<bool>,
    first: Ghost<Seq<u8>>,
    second: Ghost<Seq<u8>>,
}

impl View for RestComparison {
    type V = ComparisonView;

    closed spec fn view(&self) -> ComparisonView {
        ComparisonView {
            remaining: self.remaining,
            verdict: self.verdict,
            first: self.first@,
            second: self.second@,
        }
    }
}

/// The size of the next chunk.
pub open spec fn chunk_len(remaining: u64) -> u64 {
    if remaining < CHUNK_BYTES {
        remaining
    } else {
        CHUNK_BYTES
    }
}

/// While undecided, the bytes compared so far are equal and some remain; once
/// found equal, all bytes were compared and were equal.
pub open spec fn comparison_wf(m: ComparisonView) -> bool {
    &&& m.verdict is None ==> m.first == m.second && m.remaining > 0
    &&& m.verdict == Some(true) ==> m.first == m.second && m.remaining == 0
    &&& m.first.len() == m.second.len()
}

impl RestComparison {
    /// Starts comparing `len` bytes of two files whose current lengths are
    /// `first_len` and `second_len`: files whose lengths differ (they changed
    /// since they were found) are different at once.
    pub fn new(len: u64, first_len: u64, second_len: u64) -> (res: RestComparison)
        ensures
            res@.remaining == len,
            res@.first.len() == 0,
            res@.second.len() == 0,
            res@.verdict == if first_len != second_len {
                Some(false)
            } else if len == 0 {
                Some(true)
            } else {
                None
            },
            comparison_wf(res@),
    {
        let verdict = if first_len != second_len {
            Some(false)
        } else if len == 0 {
            Some(true)
        } else {
            None
        };
        RestComparison { remaining: len, verdict, first: Ghost(Seq::empty()), second: Ghost(Seq::empty()) }
    }

    /// How many bytes to read from each file next; `None` once decided.
    pub fn next_chunk(&self) -> (res: Option<usize>)
        ensures
            self@.verdict is Some ==> res is None,
            self@.verdict is None ==> res == Some(chunk_len(self@.remaining) as usize),
    {
        if self.verdict.is_some() {
            None
        } else if self.remaining < 4096 {
            Some(self.remaining as usize)
        } else {
            Some(4096)
        }
    }

    /// Takes the next chunk of each file, as many bytes as `next_chunk` asked
    /// for: a difference decides "different"; reaching the end equal decides
    /// "equal".
    pub fn feed(&mut self, a: &Vec<u8>, b: &Vec<u8>)
        requires
            comparison_wf(old(self)@),
            old(self)@.verdict is None,
            a@.len() == chunk_len(old(self)@.remaining),
            b@.len() == chunk_len(old(self)@.remaining),
        ensures
            comparison_wf(final(self)@),
            final(self)@.first == old(self)@.first + a@,
            final(self)@.second == old(self)@.second + b@,
            final(self)@.remaining == old(self)@.remaining - a@.len(),
            final(self)@.verdict == if a@ != b@ {
                Some(false)
            } else if old(self)@.remaining == a@.len() {
                Some(true)
            } else {
                None
            },
    {
        let n = a.len();
        proof {
            self.first@ = self.first@ + a@;
            self.second@ = self.second@ + b@;
        }
        self.remaining = self.remaining - n as u64;
        if !bytes_equal(a, b) {
            self.verdict = Some(false);
        } else if self.remaining == 0 {
            self.verdict = Some(true);
        }
    }

    /// The outcome, once known.
    pub fn verdict(&self) -> (res: Option<bool>)
        ensures
            res == self@.verdict,
    {
        self.verdict
    }
}

/// Files are found equal only when every byte was compared and found equal.
pub proof fn law_equal_verdict_means_equal_bytes(m: ComparisonView)
    requires
        comparison_wf(m),
        m.verdict == Some(true),
    ensures
        m.first == m.second,
        m.remaining == 0,
{
}

} // verus!
