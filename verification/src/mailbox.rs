//! The single-slot mailbox discipline, as a verified model: a bounded,
//! non-blocking handoff with capacity exactly one. A pending unread message
//! is never overwritten and never queued behind another; a rejected send
//! hands the message back so the caller must consciously apply its own drop
//! policy. Both cross-context channels of the pipeline follow this
//! discipline.

use vstd::prelude::*;

verus! {

/// A capacity-1 handoff slot for messages of type `M`.
pub struct Mailbox<M> {
    slot: Option<M>,
}

impl<M> Mailbox<M> {
    /// What the mailbox currently holds: one pending message, or nothing.
    pub closed spec fn contents(self) -> Option<M> {
        self.slot
    }

    /// A mailbox with no pending message, as created at startup.
    pub fn empty() -> (r: Mailbox<M>)
        ensures
            r.contents() is None,
    {
        Mailbox { slot: None }
    }

    /// Non-blocking send: delivered exactly when the slot is free. A send
    /// against a pending message is rejected and returns the new message
    /// unchanged, and the pending message stays exactly as it was: no
    /// overwrite, no queueing.
    pub fn try_send(&mut self, m: M) -> (r: Result<(), M>)
        ensures
            old(self).contents() is None ==> r is Ok && final(self).contents() == Some(m),
            old(self).contents() is Some ==> final(self).contents() == old(self).contents() && (
            r matches Err(back) && back == m),
    {
        if self.slot.is_none() {
            self.slot = Some(m);
            Ok(())
        } else {
            Err(m)
        }
    }

    /// Non-blocking receive: takes the pending message if there is one,
    /// leaving the slot free either way.
    pub fn try_receive(&mut self) -> (r: Option<M>)
        ensures
            r == old(self).contents(),
            final(self).contents() is None,
    {
        let mut out: Option<M> = None;
        std::mem::swap(&mut out, &mut self.slot);
        out
    }
}

} // verus!
