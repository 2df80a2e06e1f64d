//! Conversion between flat and paired coordinate lists.

use vstd::prelude::*;

verus! {

/// The pairs of a flat alternating list `[x0, y0, x1, y1, ...]`: value
/// `2 j` is the `x` and value `2 j + 1` the `y` of pair `j`. A trailing
/// value with no partner is dropped.
pub open spec fn spec_flatten_to_tuples(values: Seq<u64>) -> Seq<(u64, u64)> {
    Seq::new((values.len() / 2) as nat, |i: int| (values[2 * i], values[2 * i + 1]))
}

/// Pairs each value at an even index with its successor, dropping a
/// trailing value that has no partner.
pub fn flatten_to_tuples(pts: &Vec<u64>) -> (r: Vec<(u64, u64)>)
    ensures
        r@ == spec_flatten_to_tuples(pts@),
{
    let len = pts.len();
    let count = len / 2;
    proof {
        vstd::arithmetic::div_mod::lemma_fundamental_div_mod(len as int, 2);
        vstd::arithmetic::div_mod::lemma_mod_bound(len as int, 2);
    }
    let mut result: Vec<(u64, u64)> = Vec::with_capacity(count);
    for i in 0..count
        invariant
            len == pts@.len(),
            count == len / 2,
            2 * count <= len,
            result@.len() == i,
            forall|j: int| 0 <= j < i ==> result@[j] == spec_flatten_to_tuples(pts@)[j],
    {
        result.push((pts[2 * i], pts[2 * i + 1]));
    }
    proof {
        assert(result@ =~= spec_flatten_to_tuples(pts@));
    }
    result
}

} // verus!
