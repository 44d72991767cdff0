//! Single-slot store for the last fault message.
//!
//! The slot is a two-state machine: `empty`, or `armed` with one message.
//! `set` overwrites whatever is there (last write wins, no queueing), and
//! `take` is a destructive read: it hands the message out and leaves the slot
//! empty. The process-wide singleton around it (lazy initialization, mutual
//! exclusion) is the embedding shell's concern; the slot itself is plain
//! state, so each operation's effect is exact.

use vstd::prelude::*;

verus! {

/// Store for at most one undrained fault message.
pub struct ErrorSlot {
    msg: Option<String>,
}

/// Slot contents after `set(m)`: the new message, whatever was there before.
pub open spec fn slot_after_set(s: Option<Seq<char>>, m: Seq<char>) -> Option<Seq<char>> {
    Some(m)
}

/// Slot contents after `take`: empty, whatever was there before.
pub open spec fn slot_after_take(s: Option<Seq<char>>) -> Option<Seq<char>> {
    None
}

/// What `take` hands out: exactly the current contents.
pub open spec fn take_result(s: Option<Seq<char>>) -> Option<Seq<char>> {
    s
}

impl View for ErrorSlot {
    type V = Option<Seq<char>>;

    closed spec fn view(&self) -> Option<Seq<char>> {
        match self.msg {
            Some(m) => Some(m@),
            None => None,
        }
    }
}

impl ErrorSlot {
    /// A fresh slot holds no message.
    pub fn new() -> (s: ErrorSlot)
        ensures
            s@ is None,
    {
        ErrorSlot { msg: None }
    }

    /// Record `m` as the last fault message, overwriting any undrained one.
    pub fn set(&mut self, m: String)
        ensures
            final(self)@ == slot_after_set(old(self)@, m@),
    {
        self.msg = Some(m);
    }

    /// Drain: return the current message and clear the slot in one step.
    pub fn take(&mut self) -> (r: Option<String>)
        ensures
            final(self)@ == slot_after_take(old(self)@),
            match r {
                Some(m) => take_result(old(self)@) == Some(m@),
                None => take_result(old(self)@) is None,
            },
    {
        self.msg.take()
    }

    /// Reset hook for test isolation: force the slot back to empty.
    pub fn reset(&mut self)
        ensures
            final(self)@ is None,
    {
        self.msg = None;
    }
}

/// Last write wins and draining is destructive: after `set(a)` then `set(b)`,
/// one `take` yields exactly `b`, and a second `take` yields nothing.
pub proof fn lemma_overwrite_then_drain(s: Option<Seq<char>>, a: Seq<char>, b: Seq<char>)
    ensures
        take_result(slot_after_set(slot_after_set(s, a), b)) == Some(b),
        take_result(slot_after_take(slot_after_set(slot_after_set(s, a), b))) is None,
{
}

/// Racing recordings are serialized by the slot's lock into one of the two
/// orders, and either way the drained message is one of the two, whole —
/// which one wins is all that stays open, never a mixture of both.
pub proof fn lemma_racing_sets_leave_one_whole_message(
    s: Option<Seq<char>>,
    a: Seq<char>,
    b: Seq<char>,
)
    ensures
        take_result(slot_after_set(slot_after_set(s, a), b)) == Some(b),
        take_result(slot_after_set(slot_after_set(s, b), a)) == Some(a),
{
}

} // verus!
