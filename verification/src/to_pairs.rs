//! Grouping a flat sequence into consecutive pairs.

use vstd::prelude::*;

verus! {

/// The pairs (s[0], s[1]), (s[2], s[3]), ...; a trailing unpaired element is
/// dropped.
pub open spec fn spec_pairs<T>(s: Seq<T>) -> Seq<(T, T)> {
    Seq::new(s.len() / 2, |i: int| (s[2 * i], s[2 * i + 1]))
}

/// Group the elements of `items` into consecutive pairs, dropping a trailing
/// unpaired element.
pub fn to_pairs<T: Copy>(items: &Vec<T>) -> (r: Vec<(T, T)>)
    ensures
        r@ == spec_pairs(items@),
{
    let mut r: Vec<(T, T)> = Vec::new();
    let mut i: usize = 0;
    while i < items.len() && i + 1 < items.len()
        invariant
            i % 2 == 0,
            i <= items@.len(),
            r@.len() == i / 2,
            forall|j: int| 0 <= j < r@.len() ==> r@[j] == (items@[2 * j], items@[2 * j + 1]),
        decreases items@.len() - i,
    {
        let a = items[i];
        let b = items[i + 1];
        r.push((a, b));
        i = i + 2;
    }
    proof {
        assert(r@ =~= spec_pairs(items@));
    }
    r
}

} // verus!
