//! Safety layer for driving operations across a flat, C-compatible call
//! boundary: fault containment, a last-error channel, an opaque-handle
//! ownership protocol, bounded buffer writes, and comparator callbacks.
//!
//! Everything here is plain, verified logic on owned values. The raw FFI
//! surface (pointers, the process-wide slot, the unwind catcher) lives in the
//! unverified shell around this crate and hands plain values in and out.

pub mod buffer;
pub mod callback;
pub mod error_slot;
pub mod fault;
pub mod point;
pub mod sort;
pub mod vec_ops;
