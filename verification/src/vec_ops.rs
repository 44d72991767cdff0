//! The owned-vector handle type and its accessors.
//!
//! Constructors hand out an owned, heap-allocated vector; the destructor
//! takes it back exactly once. Accessors take a possibly-absent handle: an
//! absent one resolves to the documented default — a no-op for writes, the
//! caller-supplied fallback for reads — never to a fault. The element `value`
//! and `default_value` arguments are passed by copy; the handle's contents
//! are read or written in place.

use vstd::prelude::*;

verus! {

/// A fresh, empty owned vector, ownership handed to the caller. The matching
/// destructor is [`vec_drop`], to be called exactly once.
pub fn vec_new() -> (v: Box<Vec<i64>>)
    ensures
        v@.len() == 0,
{
    let v = Vec::<i64>::new();
    Box::new(v)
}

/// An owned vector of `capacity` copies of `default_value`. The count must
/// be a representable size; asking for a negative one is asking for more
/// memory than exists.
pub fn vec_with_capacity(capacity: i64, default_value: i64) -> (v: Box<Vec<i64>>)
    requires
        0 <= capacity <= usize::MAX,
    ensures
        v@.len() == capacity,
        forall|i: int| 0 <= i < capacity ==> v@[i] == default_value,
{
    let n = capacity as usize;
    let mut v = Vec::<i64>::with_capacity(n);
    let mut k: usize = 0;
    while k < n
        invariant
            k <= n,
            v@.len() == k,
            forall|i: int| 0 <= i < k ==> v@[i] == default_value,
        decreases n - k,
    {
        v.push(default_value);
        k += 1;
    }
    Box::new(v)
}

/// Overwrite one element in place through a possibly-absent handle. An
/// absent handle is a no-op; a present one must be given an index inside the
/// vector, exactly as its author demanded. No other element moves.
pub fn vec_set(v: Option<&mut Vec<i64>>, index: i64, value: i64)
    requires
        match v {
            Some(r) => 0 <= index < r@.len(),
            None => true,
        },
    ensures
        match v {
            Some(r) => final(r)@ == r@.update(index as int, value),
            None => true,
        },
{
    if let Some(r) = v {
        // The index sits inside the vector, so it fits a usize.
        let n = r.len();
        let i = index as usize;
        assert(i < n);
        r[i] = value;
    }
}

/// Read one element through a possibly-absent handle, by copy. An absent
/// handle, or an index outside the vector (negative ones included), resolves
/// to the caller's `default_value` — never to a fault.
pub fn vec_get(v: Option<&Vec<i64>>, index: i64, default_value: i64) -> (r: i64)
    ensures
        r == (match v {
            Some(s) => if 0 <= index < s@.len() {
                s@[index as int]
            } else {
                default_value
            },
            None => default_value,
        }),
{
    match v {
        Some(s) => {
            if index >= 0 && (index as u64) < (s.len() as u64) {
                s[index as usize]
            } else {
                default_value
            }
        },
        None => default_value,
    }
}

/// Append the fixed sample element to the vector in place.
pub fn vec_push(v: &mut Vec<i64>)
    ensures
        final(v)@ == old(v)@.push(42i64),
{
    v.push(42)
}

/// Destroy a vector handle, releasing its backing memory exactly once.
pub fn vec_drop(_v: Box<Vec<i64>>) {
}

} // verus!
