//! Writes into a caller-owned raw buffer.
//!
//! The boundary borrows the buffer for the call's duration only, writes
//! strictly inside its declared bounds, never resizes it, and keeps no
//! reference past the return. The one sample write stamps a fixed byte
//! pattern — the UTF-8 encoding of a heart mark — over the buffer's first
//! six bytes.

use vstd::prelude::*;

verus! {

/// The six bytes the sample write stamps over the start of the buffer.
pub open spec fn heart_bytes() -> Seq<u8> {
    seq![0xe2u8, 0x9du8, 0xa4u8, 0xefu8, 0xb8u8, 0x8fu8]
}

/// Overwrite the buffer's first six bytes with the fixed pattern, in place.
/// The buffer must be long enough to hold it, exactly as its author demanded;
/// nothing at or past index six is touched, and the length never changes.
pub fn edit_string(s: &mut Vec<u8>)
    requires
        old(s)@.len() >= 6,
    ensures
        final(s)@.len() == old(s)@.len(),
        final(s)@.subrange(0, 6) == heart_bytes(),
        forall|i: int| 6 <= i < old(s)@.len() ==> final(s)@[i] == old(s)@[i],
{
    s[0] = 0xe2;
    s[1] = 0x9d;
    s[2] = 0xa4;
    s[3] = 0xef;
    s[4] = 0xb8;
    s[5] = 0x8f;
    proof {
        assert(s@.subrange(0, 6) =~= heart_bytes());
    }
}

} // verus!
