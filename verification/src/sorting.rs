//! The two sorts that the consumer-side collaborators use.

use vstd::multiset::Multiset;
use vstd::prelude::*;

verus! {

/// Whether a sequence ascends.
pub open spec fn ascending(s: Seq<u32>) -> bool {
    forall|i: int, j: int| 0 <= i <= j < s.len() ==> s[i] <= s[j]
}

/// Whether `out` holds the numbers of `input` in ascending order: each number
/// as often as `input` holds it.
pub open spec fn sorts(input: Seq<u32>, out: Seq<u32>) -> bool {
    ascending(out) && out.to_multiset() == input.to_multiset()
}

/// Exchanging two elements keeps what a sequence holds.
pub proof fn lemma_exchange_keeps_elements(s: Seq<u32>, i: int, j: int)
    requires
        0 <= i < s.len(),
        0 <= j < s.len(),
    ensures
        s.update(i, s[j]).update(j, s[i]).to_multiset() == s.to_multiset(),
{
    broadcast use vstd::multiset::group_multiset_axioms;

    let once: Seq<u32> = s.update(i, s[j]);
    vstd::seq_lib::to_multiset_update(s, i, s[j]);
    vstd::seq_lib::to_multiset_update(once, j, s[i]);
    s.to_multiset_ensures();
    let m: Multiset<u32> = s.to_multiset();
    assert(m.count(s[i]) > 0);
    assert(m.count(s[j]) > 0);
    assert(once.update(j, s[i]).to_multiset() =~= m);
}

/// Sorts by exchanging neighbours that stand in the wrong order.
pub fn bubble_sort(arr: Vec<u32>) -> (out: Vec<u32>)
    ensures
        sorts(arr@, out@),
{
    let mut out: Vec<u32> = arr;
    let len: usize = out.len();
    let mut i: usize = 0;
    while i < len
        invariant
            i <= len,
            out@.len() == len,
            out@.to_multiset() == arr@.to_multiset(),
            forall|a: int, b: int| len - i <= a <= b < len ==> out@[a] <= out@[b],
            forall|a: int, b: int| 0 <= a < len - i <= b < len ==> out@[a] <= out@[b],
        decreases len - i,
    {
        let mut j: usize = 0;
        while j + 1 < len - i
            invariant
                i < len,
                j < len - i,
                out@.len() == len,
                out@.to_multiset() == arr@.to_multiset(),
                forall|a: int, b: int| len - i <= a <= b < len ==> out@[a] <= out@[b],
                forall|a: int, b: int| 0 <= a < len - i <= b < len ==> out@[a] <= out@[b],
                forall|a: int| 0 <= a <= j ==> out@[a] <= out@[j as int],
            decreases len - i - j,
        {
            if out[j] > out[j + 1] {
                let ghost before: Seq<u32> = out@;
                let left: u32 = out[j];
                let right: u32 = out[j + 1];
                out[j] = right;
                out[j + 1] = left;
                proof {
                    lemma_exchange_keeps_elements(before, j as int, j + 1);
                    assert(out@ =~= before.update(j as int, before[j + 1]).update(
                        j + 1,
                        before[j as int],
                    ));
                }
            }
            j = j + 1;
        }
        i = i + 1;
    }
    out
}

/// `sort_unstable` of slices, on a vector of `u32`: afterwards the vector
/// ascends and holds what it held, each number as often as before.
#[verifier::external_body]
fn sort_unstable_u32(numbers: &mut Vec<u32>)
    ensures
        sorts(old(numbers)@, final(numbers)@),
{
    numbers.sort_unstable();
}

/// Sorts with the standard library's unstable sort.
pub fn quick_sort(arr: Vec<u32>) -> (out: Vec<u32>)
    ensures
        sorts(arr@, out@),
{
    let mut out: Vec<u32> = arr;
    sort_unstable_u32(&mut out);
    out
}

/// There is one way to sort: two sequences that both sort the same input are
/// equal. So the two sorts of this module give the same result.
pub proof fn lemma_sorting_is_unique(input: Seq<u32>, one: Seq<u32>, other: Seq<u32>)
    requires
        sorts(input, one),
        sorts(input, other),
    ensures
        one == other,
{
    let leq = |a: u32, b: u32| a <= b;
    assert(vstd::relations::total_ordering(leq)) by {
        assert(vstd::relations::reflexive(leq));
        assert(vstd::relations::antisymmetric(leq));
        assert(vstd::relations::transitive(leq));
        assert(vstd::relations::strongly_connected(leq));
    }
    assert(vstd::relations::sorted_by(one, leq));
    assert(vstd::relations::sorted_by(other, leq));
    vstd::seq_lib::lemma_sorted_unique(one, other, leq);
}

} // verus!
