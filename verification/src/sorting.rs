//! Ordering files by size, largest first, keeping the scan order among equal sizes.
use vstd::prelude::*;
use crate::util::found_view;

verus! {

/// The predicate "has exactly this size", used to compare the entries of one size
/// before and after sorting.
pub open spec fn has_size<T>(size: u64) -> spec_fn((u64, T)) -> bool {
    |e: (u64, T)| e.0 == size
}

/// `s` is ordered from the largest size to the smallest.
pub open spec fn sorted_by_size_desc<T>(s: Seq<(u64, T)>) -> bool {
    forall|a: int, b: int| 0 <= a < b < s.len() ==> s[a].0 >= s[b].0
}

/// `r` is the stable descending sort of `s`: it is ordered largest first, and the
/// entries of every single size appear in `r` exactly as they appear in `s`.
/// These two facts fix `r` completely.
pub open spec fn is_stable_sort_desc<T>(s: Seq<(u64, T)>, r: Seq<(u64, T)>) -> bool {
    &&& r.len() == s.len()
    &&& sorted_by_size_desc(r)
    &&& forall|k: u64| #[trigger] r.filter(has_size::<T>(k)) == s.filter(has_size::<T>(k))
}

/// Number of entries that a listing of the `n` largest files shows out of `total`.
pub open spec fn shown_count(n: usize, total: nat) -> nat {
    if (n as nat) < total {
        n as nat
    } else {
        total
    }
}

/// Calls the standard library's stable `sort_by_key` with the size, reversed, as
/// the key. Its documentation promises a stable sort by the key, which is what
/// `is_stable_sort_desc` states: largest size first, ties kept in their order.
#[verifier::external_body]
fn sort_by_size_desc<T>(files: &mut Vec<(u64, T)>)
    ensures
        is_stable_sort_desc(old(files)@, final(files)@),
{
    files.sort_by_key(|a| std::cmp::Reverse(a.0));
}

/// Sorts `files` largest first (stable among equal sizes) and returns the first
/// `num_sorting` of them, or all of them where there are fewer: size and path.
/// The caller turns each into a line "size in MB : path".
pub fn run_sort(files: &mut Vec<(u64, String)>, num_sorting: usize) -> (res: Vec<(u64, String)>)
    ensures
        is_stable_sort_desc(old(files)@, final(files)@),
        res@.len() == shown_count(num_sorting, old(files)@.len()),
        forall|i: int|
            0 <= i < res@.len() ==> #[trigger] res@[i].0 == final(files)@[i].0 && res@[i].1@
                == final(files)@[i].1@,
{
    sort_by_size_desc(files);
    let len = if num_sorting < files.len() {
        num_sorting
    } else {
        files.len()
    };
    let mut res: Vec<(u64, String)> = Vec::new();
    let mut i: usize = 0;
    while i < len
        invariant
            len <= files@.len(),
            i <= len,
            res@.len() == i,
            forall|t: int|
                0 <= t < i ==> #[trigger] res@[t].0 == files@[t].0 && res@[t].1@ == files@[t].1@,
        decreases len - i,
    {
        let size = files[i].0;
        let path = files[i].1.clone();
        res.push((size, path));
        i = i + 1;
    }
    res
}

proof fn lemma_filter_found_view(a: Seq<(u64, String)>, k: u64)
    ensures
        found_view(a).filter(has_size::<Seq<char>>(k)) == found_view(a.filter(has_size::<String>(k))),
    decreases a.len(),
{
    reveal(Seq::filter);
    if a.len() > 0 {
        let init = a.drop_last();
        assert(found_view(a).drop_last() =~= found_view(init));
        lemma_filter_found_view(init, k);
        if a.last().0 == k {
            assert(found_view(init.filter(has_size::<String>(k)).push(a.last())) =~= found_view(
                init.filter(has_size::<String>(k)),
            ).push((a.last().0, a.last().1@)));
        }
    } else {
        assert(found_view(a.filter(has_size::<String>(k))) =~= Seq::<(u64, Seq<char>)>::empty());
    }
}

/// A stable sort of (size, path) pairs is one of the pairs with the paths as text.
pub proof fn lemma_stable_sort_view(a: Seq<(u64, String)>, b: Seq<(u64, String)>)
    requires
        is_stable_sort_desc(a, b),
    ensures
        is_stable_sort_desc(found_view(a), found_view(b)),
{
    assert forall|k: u64| #[trigger] found_view(b).filter(has_size::<Seq<char>>(k)) == found_view(
        a,
    ).filter(has_size::<Seq<char>>(k)) by {
        lemma_filter_found_view(a, k);
        lemma_filter_found_view(b, k);
        assert(b.filter(has_size::<String>(k)) == a.filter(has_size::<String>(k)));
    }
}

} // verus!
