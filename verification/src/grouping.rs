//! Bucketing scanned files by size: only files of equal size can be duplicates.
use vstd::prelude::*;
use crate::util::{found_view, reversed, strs};
use crate::sorting::has_size;

verus! {

broadcast use vstd::std_specs::hash::group_hash_axioms;

/// The sizes that occur in `files`, each once, in the order of their first occurrence.
pub open spec fn distinct_sizes<T>(files: Seq<(u64, T)>) -> Seq<u64>
    decreases files.len(),
{
    if files.len() == 0 {
        Seq::empty()
    } else {
        let d = distinct_sizes(files.drop_last());
        if d.contains(files.last().0) {
            d
        } else {
            d.push(files.last().0)
        }
    }
}

/// The paths of the files of size `size`, in scan order.
pub open spec fn paths_of_size<T>(files: Seq<(u64, T)>, size: u64) -> Seq<T> {
    files.filter(has_size::<T>(size)).map_values(|e: (u64, T)| e.1)
}

/// `groups` holds one bucket per distinct size of `files`, in the order in which
/// the sizes first occur, each with the paths of that size in scan order.
pub open spec fn is_grouping_of(files: Seq<(u64, String)>, groups: Seq<(u64, Vec<String>)>) -> bool {
    &&& groups.len() == distinct_sizes(files).len()
    &&& forall|g: int|
        0 <= g < groups.len() ==> #[trigger] groups[g].0 == distinct_sizes(files)[g]
            && groups[g].1@ == paths_of_size(files, groups[g].0)
}

proof fn lemma_paths_push<T>(files: Seq<(u64, T)>, x: (u64, T), k: u64)
    ensures
        paths_of_size(files.push(x), k) == if x.0 == k {
            paths_of_size(files, k).push(x.1)
        } else {
            paths_of_size(files, k)
        },
{
    files.lemma_filter_push(x, has_size::<T>(k));
    let f = |e: (u64, T)| e.1;
    if x.0 == k {
        assert(files.filter(has_size::<T>(k)).push(x).map_values(f) =~= files.filter(
            has_size::<T>(k),
        ).map_values(f).push(x.1));
    }
}

pub proof fn lemma_distinct_sizes_unique<T>(files: Seq<(u64, T)>)
    ensures
        forall|a: int, b: int|
            0 <= a < b < distinct_sizes(files).len() ==> distinct_sizes(files)[a]
                != distinct_sizes(files)[b],
        forall|i: int| 0 <= i < files.len() ==> distinct_sizes(files).contains(#[trigger] files[i].0),
        forall|g: int|
            0 <= g < distinct_sizes(files).len() ==> paths_of_size(
                files,
                #[trigger] distinct_sizes(files)[g],
            ).len() > 0,
    decreases files.len(),
{
    if files.len() > 0 {
        let init = files.drop_last();
        let x = files.last();
        lemma_distinct_sizes_unique(init);
        assert(files =~= init.push(x));
        assert forall|i: int| 0 <= i < files.len() implies distinct_sizes(files).contains(
            #[trigger] files[i].0,
        ) by {
            if i < init.len() {
                assert(init[i] == files[i]);
                assert(distinct_sizes(init).contains(init[i].0));
                let w = choose|w: int| 0 <= w < distinct_sizes(init).len() && distinct_sizes(init)[w] == init[i].0;
                assert(distinct_sizes(files)[w] == init[i].0);
            } else {
                if !distinct_sizes(init).contains(x.0) {
                    assert(distinct_sizes(files)[distinct_sizes(init).len() as int] == x.0);
                }
            }
        }
        assert forall|g: int|
            0 <= g < distinct_sizes(files).len() implies paths_of_size(
            files,
            #[trigger] distinct_sizes(files)[g],
        ).len() > 0 by {
            let k = distinct_sizes(files)[g];
            lemma_paths_push(init, x, k);
            if g < distinct_sizes(init).len() {
                assert(distinct_sizes(init)[g] == k);
            }
        }
    }
}

/// Buckets `files` by size. Every distinct size gets one bucket, in the order in
/// which the sizes are first met, holding the paths of that size in scan order.
pub fn group_into_similar(files: Vec<(u64, String)>) -> (groups: Vec<(u64, Vec<String>)>)
    ensures
        is_grouping_of(files@, groups@),
{
    let ghost all = files@;
    let mut groups: Vec<(u64, Vec<String>)> = Vec::new();
    let mut index: std::collections::HashMap<u64, usize> = std::collections::HashMap::new();
    let mut rev = reversed(files);
    let ghost mut n: int = 0;
    assert(all.take(0) =~= Seq::<(u64, String)>::empty());
    while rev.len() > 0
        invariant
            0 <= n <= all.len(),
            rev@.len() + n == all.len(),
            forall|t: int| 0 <= t < rev@.len() ==> #[trigger] rev@[t] == all[all.len() - 1 - t],
            is_grouping_of(all.take(n), groups@),
            forall|g: int|
                0 <= g < groups@.len() ==> #[trigger] index@.contains_key(groups@[g].0)
                    && index@[groups@[g].0] == g,
            forall|k: u64|
                #[trigger] index@.contains_key(k) ==> index@[k] < groups@.len() && groups@[index@[k] as int].0
                    == k,
        decreases rev@.len(),
    {
        let x = rev.pop().unwrap();
        let ghost pre = all.take(n);
        assert(x == all[n]);
        assert(all.take(n + 1) =~= pre.push(x));
        assert(all.take(n + 1).drop_last() =~= pre);
        let size = x.0;
        let ghost d = distinct_sizes(pre);
        match index.get(&size) {
            Some(g) => {
                let g = *g;
                proof {
                    assert(d[g as int] == size);
                    assert(d.contains(size));
                }
                let ghost old_groups = groups@;
                groups[g].1.push(x.1);
                proof {
                    assert forall|h: int| 0 <= h < groups@.len() implies #[trigger] groups@[h].0
                        == distinct_sizes(all.take(n + 1))[h] && groups@[h].1@ == paths_of_size(
                        all.take(n + 1),
                        groups@[h].0,
                    ) by {
                        lemma_paths_push(pre, x, groups@[h].0);
                        if h != g {
                            assert(groups@[h] == old_groups[h]);
                            assert(index@.contains_key(old_groups[h].0));
                            assert(index@[old_groups[h].0] == h);
                        }
                    }
                }
            },
            None => {
                proof {
                    if d.contains(size) {
                        let w = choose|w: int| 0 <= w < d.len() && d[w] == size;
                        assert(groups@[w].0 == size);
                        assert(index@.contains_key(groups@[w].0));
                    }
                }
                let ghost old_groups = groups@;
                let new_index = groups.len();
                let mut bucket: Vec<String> = Vec::new();
                bucket.push(x.1);
                groups.push((size, bucket));
                index.insert(size, new_index);
                proof {
                    assert forall|h: int| 0 <= h < groups@.len() implies #[trigger] groups@[h].0
                        == distinct_sizes(all.take(n + 1))[h] && groups@[h].1@ == paths_of_size(
                        all.take(n + 1),
                        groups@[h].0,
                    ) by {
                        lemma_paths_push(pre, x, groups@[h].0);
                        if h < old_groups.len() {
                            assert(groups@[h] == old_groups[h]);
                            assert(d[h] == old_groups[h].0);
                        } else {
                            reveal(Seq::filter);
                            assert(paths_of_size(pre, size) =~= Seq::<String>::empty()) by {
                                lemma_no_size(pre, size);
                            }
                        }
                    }
                }
            },
        }
        proof {
            n = n + 1;
        }
    }
    assert(all.take(n) =~= all);
    groups
}

proof fn lemma_no_size<T>(files: Seq<(u64, T)>, k: u64)
    requires
        !distinct_sizes(files).contains(k),
    ensures
        paths_of_size(files, k).len() == 0,
    decreases files.len(),
{
    if files.len() > 0 {
        let init = files.drop_last();
        assert(files =~= init.push(files.last()));
        lemma_paths_push(init, files.last(), k);
        let d = distinct_sizes(init);
        if d.contains(k) {
            let w = choose|w: int| 0 <= w < d.len() && d[w] == k;
            if d.contains(files.last().0) {
            } else {
                assert(d.push(files.last().0)[w] == k);
            }
        }
        if !d.contains(files.last().0) {
            assert(d.push(files.last().0)[d.len() as int] == files.last().0);
        }
        lemma_no_size(init, k);
    }
}

/// The sizes do not change when the paths are taken as text.
pub proof fn lemma_distinct_sizes_view(files: Seq<(u64, String)>)
    ensures
        distinct_sizes(found_view(files)) == distinct_sizes(files),
    decreases files.len(),
{
    if files.len() > 0 {
        assert(found_view(files).drop_last() =~= found_view(files.drop_last()));
        lemma_distinct_sizes_view(files.drop_last());
    }
}

/// Picking the paths of one size commutes with taking the paths as text.
pub proof fn lemma_paths_view(files: Seq<(u64, String)>, k: u64)
    ensures
        strs(paths_of_size(files, k)) == paths_of_size(found_view(files), k),
    decreases files.len(),
{
    if files.len() > 0 {
        let init = files.drop_last();
        let x = files.last();
        assert(files =~= init.push(x));
        assert(found_view(files) =~= found_view(init).push((x.0, x.1@)));
        lemma_paths_push(init, x, k);
        lemma_paths_push(found_view(init), (x.0, x.1@), k);
        lemma_paths_view(init, k);
        if x.0 == k {
            assert(strs(paths_of_size(init, k).push(x.1)) =~= strs(paths_of_size(init, k)).push(x.1@));
        }
    } else {
        assert(strs(paths_of_size(files, k)) =~= paths_of_size(found_view(files), k)) by {
            reveal(Seq::filter);
        }
    }
}

} // verus!
