//! Small helpers on vectors.
use vstd::prelude::*;

verus! {

/// The texts of a list of strings.
pub open spec fn strs(v: Seq<String>) -> Seq<Seq<char>> {
    v.map_values(|s: String| s@)
}

/// The (size, path) pairs of a list, with the paths as text.
pub open spec fn found_view(files: Seq<(u64, String)>) -> Seq<(u64, Seq<char>)> {
    files.map_values(|f: (u64, String)| (f.0, f.1@))
}

/// Reverses `v`, so that popping from the result yields the items in order.
pub fn reversed<T>(v: Vec<T>) -> (res: Vec<T>)
    ensures
        res@ == v@.reverse(),
{
    let ghost orig = v@;
    let mut v = v;
    let mut res: Vec<T> = Vec::new();
    while v.len() > 0
        invariant
            v@.len() + res@.len() == orig.len(),
            forall|t: int| 0 <= t < v@.len() ==> v@[t] == orig[t],
            forall|t: int| 0 <= t < res@.len() ==> #[trigger] res@[t] == orig[orig.len() - 1 - t],
        decreases v@.len(),
    {
        let x = v.pop().unwrap();
        res.push(x);
    }
    assert(res@ =~= orig.reverse());
    res
}

} // verus!
