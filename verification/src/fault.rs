//! Fault containment: the barrier that keeps an abnormal termination from
//! leaving the boundary.
//!
//! A guarded operation reports its outcome as a `Result`: `Ok` carries the
//! normal result, `Err` carries the fault's payload. The barrier turns a
//! fault into the operation's documented sentinel value and records a
//! best-effort message in the error slot; a normal result passes through
//! untouched, and the slot is left alone. The unwind-catching itself is the
//! unverified shell's job: it maps whatever payload the termination carried
//! into a [`FaultPayload`] and hands the outcome here.

use vstd::prelude::*;

use crate::error_slot::ErrorSlot;
use crate::error_slot::slot_after_set;

verus! {

/// What a fault carried, as far as the boundary can tell: a static
/// description, a dynamically built one, or something unrecognized.
pub enum FaultPayload {
    /// The fault carried a fixed, static description.
    Literal(&'static str),
    /// The fault carried a description built at fault time.
    Message(String),
    /// The fault's payload was of no recognized shape.
    Opaque,
}

/// The message derived from a fault payload: its own text where it has one,
/// else a fixed fallback.
pub open spec fn spec_error_msg(p: FaultPayload) -> Seq<char> {
    match p {
        FaultPayload::Literal(s) => s@,
        FaultPayload::Message(s) => s@,
        FaultPayload::Opaque => "Unknown error"@,
    }
}

/// Derive a human-readable message from a fault payload: prefer a static
/// description, else a dynamically built one, else a fixed fallback.
pub fn error_msg(payload: &FaultPayload) -> (r: &str)
    ensures
        r@ == spec_error_msg(*payload),
{
    match payload {
        FaultPayload::Literal(s) => s,
        FaultPayload::Message(s) => s.as_str(),
        FaultPayload::Opaque => "Unknown error",
    }
}

/// Record a fault's message as the last error, overwriting any undrained one.
pub fn set_error(slot: &mut ErrorSlot, payload: &FaultPayload)
    ensures
        final(slot)@ == Some(spec_error_msg(*payload)),
{
    let msg = error_msg(payload);
    slot.set(msg.to_owned());
}

/// The barrier around one exported call's body. A normal outcome passes
/// through unchanged and leaves the slot alone; a fault is contained: its
/// message is recorded and the documented `sentinel` is returned instead.
pub fn contain_fault<T>(slot: &mut ErrorSlot, outcome: Result<T, FaultPayload>, sentinel: T) -> (r: T)
    ensures
        match outcome {
            Ok(v) => r == v && final(slot)@ == old(slot)@,
            Err(p) => r == sentinel && final(slot)@ == Some(spec_error_msg(p)),
        },
{
    match outcome {
        Ok(v) => v,
        Err(p) => {
            set_error(slot, &p);
            sentinel
        },
    }
}

/// A contained fault is reported exactly once: whatever the slot held before,
/// recording the fault arms it with the fault's message, one drain yields
/// that message, and a second drain yields nothing.
pub proof fn lemma_fault_reported_once(s: Option<Seq<char>>, p: FaultPayload)
    ensures
        crate::error_slot::take_result(slot_after_set(s, spec_error_msg(p))) == Some(spec_error_msg(p)),
        crate::error_slot::take_result(crate::error_slot::slot_after_take(slot_after_set(s, spec_error_msg(p)))) is None,
{
}

} // verus!
