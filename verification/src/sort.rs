//! Sorting through a host-supplied comparator callback.
//!
//! The comparator has the documented fixed signature: two elements in, a
//! tri-state ordering out, negative for less, zero for equal, positive for
//! greater. It is invoked synchronously, any number of times, in an order
//! this contract does not fix. Whatever the comparator does, the buffer ends
//! as a permutation of what it was — no element appears, disappears, or is
//! read or written outside the buffer. Where the comparator actually encodes
//! the standard ascending order on the elements, the buffer additionally ends
//! sorted; a comparator that is no strict weak ordering still gets the
//! permutation guarantee, just no particular order.

use vstd::prelude::*;
use vstd::seq_lib::to_multiset_update;

verus! {

/// The sequence is in ascending order.
pub open spec fn sorted_ascending(s: Seq<i64>) -> bool {
    forall|i: int, j: int| 0 <= i < j < s.len() ==> s[i] <= s[j]
}

/// The comparator answers exactly as the standard ascending-integer order
/// does: negative iff less, positive iff greater.
pub open spec fn standard_ascending<F: Fn(i64, i64) -> i32>(comp: F) -> bool {
    forall|a: i64, b: i64, c: i32|
        #[trigger] call_ensures(comp, (a, b), c) ==> ((c < 0 <==> a < b) && (c > 0 <==> a > b))
}

/// Exchange the elements at `i` and `m` in place; everything else stays put,
/// so the contents as a whole are preserved.
fn swap_elements(v: &mut Vec<i64>, i: usize, m: usize)
    requires
        i < old(v)@.len(),
        m < old(v)@.len(),
    ensures
        final(v)@ == old(v)@.update(i as int, old(v)@[m as int]).update(m as int, old(v)@[i as int]),
        final(v)@.to_multiset() == old(v)@.to_multiset(),
        final(v)@.len() == old(v)@.len(),
{
    let vi = v[i];
    let vm = v[m];
    v[i] = vm;
    v[m] = vi;
    proof {
        broadcast use to_multiset_update;
        broadcast use vstd::seq_lib::group_to_multiset_ensures;
        broadcast use vstd::multiset::group_multiset_axioms;
        let s0 = old(v)@;
        let vi0 = s0[i as int];
        let vm0 = s0[m as int];
        let s1 = s0.update(i as int, vm0);
        assert(s0.contains(vi0));
        assert(s0.contains(vm0));
        assert(s1.to_multiset() == s0.to_multiset().insert(vm0).remove(vi0));
        assert(s1[m as int] == vm0);
        assert(v@ == s1.update(m as int, vi0));
        assert(v@.to_multiset() == s1.to_multiset().insert(vi0).remove(vm0));
        assert(v@.to_multiset() =~= s0.to_multiset());
    }
}

/// Selection sort driven by the host's comparator. The comparator must
/// accept every pair of elements; beyond that, nothing is assumed of it.
fn sort_by_comparator<F: Fn(i64, i64) -> i32>(v: &mut Vec<i64>, comp: F)
    requires
        forall|a: i64, b: i64| #[trigger] call_requires(comp, (a, b)),
    ensures
        final(v)@.to_multiset() == old(v)@.to_multiset(),
        final(v)@.len() == old(v)@.len(),
        standard_ascending(comp) ==> sorted_ascending(final(v)@),
{
    let n = v.len();
    let mut i: usize = 0;
    while i < n
        invariant
            i <= n,
            n == v@.len(),
            forall|a: i64, b: i64| #[trigger] call_requires(comp, (a, b)),
            v@.to_multiset() == old(v)@.to_multiset(),
            standard_ascending(comp) ==> forall|p: int, q: int| 0 <= p < q < i ==> v@[p] <= v@[q],
            standard_ascending(comp)
                ==> forall|p: int, q: int| 0 <= p < i && i <= q < n ==> v@[p] <= v@[q],
        decreases n - i,
    {
        let mut m: usize = i;
        let mut j: usize = i + 1;
        while j < n
            invariant
                i <= m < j <= n,
                n == v@.len(),
                forall|a: i64, b: i64| #[trigger] call_requires(comp, (a, b)),
                standard_ascending(comp)
                    ==> forall|k: int| i <= k < j ==> v@[m as int] <= v@[k],
            decreases n - j,
        {
            let c = comp(v[j], v[m]);
            if c < 0 {
                m = j;
            }
            j += 1;
        }
        swap_elements(v, i, m);
        i += 1;
    }
}

/// Sort the vector behind a possibly-absent handle in place with the host's
/// comparator. An absent handle is a no-op. The contents always end as a
/// permutation of what they were; with a comparator encoding the standard
/// ascending order they end ascending.
pub fn vec_sort_unstable<F: Fn(i64, i64) -> i32>(v: Option<&mut Vec<i64>>, comp: F)
    requires
        forall|a: i64, b: i64| #[trigger] call_requires(comp, (a, b)),
    ensures
        match v {
            Some(r) => {
                &&& final(r)@.to_multiset() == r@.to_multiset()
                &&& final(r)@.len() == r@.len()
                &&& (standard_ascending(comp) ==> sorted_ascending(final(r)@))
            },
            None => true,
        },
{
    if let Some(r) = v {
        sort_by_comparator(r, comp);
    }
}

/// Sort a possibly-absent caller-owned buffer in place with the host's
/// comparator. The buffer is borrowed for the call's duration only, an
/// absent buffer is an immediate no-op, and no element outside it is touched:
/// the same permutation contract as [`vec_sort_unstable`].
pub fn ptr_sort_unstable<F: Fn(i64, i64) -> i32>(v: Option<&mut Vec<i64>>, comp: F)
    requires
        forall|a: i64, b: i64| #[trigger] call_requires(comp, (a, b)),
    ensures
        match v {
            Some(r) => {
                &&& final(r)@.to_multiset() == r@.to_multiset()
                &&& final(r)@.len() == r@.len()
                &&& (standard_ascending(comp) ==> sorted_ascending(final(r)@))
            },
            None => true,
        },
{
    if let Some(r) = v {
        sort_by_comparator(r, comp);
    }
}

} // verus!
