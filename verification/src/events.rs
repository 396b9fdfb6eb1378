//! Per-subscription event queues.
//!
//! Each active subscription owns one [`EventQueue`]: an ordered, append-only
//! log of the events not yet delivered to any caller, together with a
//! monotonic delivery cursor.  Sequence numbers are assigned at append time
//! and never reused; once an event's sequence number falls below the cursor
//! it has been handed out (or discarded at unsubscribe) and is never handed
//! out again, so delivery is at most once system-wide.

use crate::proposal::Proposal;
use vstd::prelude::*;

verus! {

/// What an event reports.  Today every event wraps a proposal; the enum
/// leaves room for other negotiation occurrences.
pub enum EventKind {
    ProposalEvent(Proposal),
}

/// One immutable, timestamped event; belongs to exactly one subscription's
/// queue and carries that queue's sequence number.
pub struct Event {
    pub seq: u64,
    pub timestamp: u64,
    pub kind: EventKind,
}

impl Event {
    /// The proposal the event wraps.
    pub open spec fn proposal(self) -> Proposal {
        match self.kind {
            EventKind::ProposalEvent(p) => p,
        }
    }

    /// Borrow of the wrapped proposal.
    pub fn proposal_ref(&self) -> (r: &Proposal)
        ensures
            *r == self.proposal(),
    {
        match &self.kind {
            EventKind::ProposalEvent(p) => p,
        }
    }
}

/// How many events a drain hands out: the cap, or everything pending if the
/// cap is larger.
pub open spec fn capped_len(max: int, len: int) -> int {
    if max <= len {
        max
    } else {
        len
    }
}

/// Ordered log of undelivered events plus the delivery cursor.
///
/// `cursor` is the sequence number of the next event to hand out: every event
/// numbered below it has already been delivered to some caller, or was
/// discarded when the subscription went away.  `next_seq` is the number the
/// next appended event will carry.
pub struct EventQueue {
    pub pending: Vec<Event>,
    pub cursor: u64,
    pub next_seq: u64,
}

impl EventQueue {
    /// Queue integrity: the pending events are exactly the contiguous range
    /// of sequence numbers from the cursor up to `next_seq`, in order.
    pub open spec fn wf(self) -> bool {
        &&& self.cursor <= self.next_seq
        &&& self.pending@.len() == self.next_seq - self.cursor
        &&& forall|i: int|
            0 <= i < self.pending@.len() ==> (#[trigger] self.pending@[i]).seq == self.cursor + i
    }

    /// Fresh empty queue, created together with its subscription.
    pub fn new() -> (r: EventQueue)
        ensures
            r.wf(),
            r.pending@.len() == 0,
            r.cursor == 0,
            r.next_seq == 0,
    {
        EventQueue { pending: Vec::new(), cursor: 0, next_seq: 0 }
    }

    /// Appends a proposal event with the next sequence number.
    pub fn push_proposal(&mut self, proposal: Proposal, timestamp: u64)
        requires
            old(self).wf(),
            old(self).next_seq < u64::MAX,
        ensures
            final(self).wf(),
            final(self).pending@ == old(self).pending@.push(
                Event {
                    seq: old(self).next_seq,
                    timestamp,
                    kind: EventKind::ProposalEvent(proposal),
                },
            ),
            final(self).cursor == old(self).cursor,
            final(self).next_seq == old(self).next_seq + 1,
    {
        let seq = self.next_seq;
        self.pending.push(Event { seq, timestamp, kind: EventKind::ProposalEvent(proposal) });
        self.next_seq = self.next_seq + 1;
    }

    /// Discards every pending event, advancing the cursor past them; used
    /// when the owning subscription is removed.
    pub fn discard_pending(&mut self)
        requires
            old(self).wf(),
        ensures
            final(self).wf(),
            final(self).pending@.len() == 0,
            final(self).cursor == old(self).next_seq,
            final(self).next_seq == old(self).next_seq,
    {
        self.pending.clear();
        self.cursor = self.next_seq;
    }

    /// Hands out the oldest pending events, at most `max` of them, removing
    /// them from the queue for good: the result is the queue's prefix, the
    /// queue keeps the remainder, and the cursor moves past what was taken.
    pub fn take_up_to(&mut self, max: usize) -> (r: Vec<Event>)
        requires
            old(self).wf(),
        ensures
            final(self).wf(),
            r@.len() == capped_len(max as int, old(self).pending@.len() as int),
            r@ == old(self).pending@.take(r@.len() as int),
            final(self).pending@ == old(self).pending@.skip(r@.len() as int),
            final(self).cursor == old(self).cursor + r@.len(),
            final(self).next_seq == old(self).next_seq,
    {
        let ghost orig: Seq<Event> = self.pending@;
        let k: usize = if max <= self.pending.len() {
            max
        } else {
            self.pending.len()
        };
        let mut out: Vec<Event> = Vec::new();
        while out.len() < k
            invariant
                k <= orig.len(),
                out@.len() <= k,
                out@ == orig.take(out@.len() as int),
                self.pending@ == orig.skip(out@.len() as int),
                self.cursor == old(self).cursor,
                self.next_seq == old(self).next_seq,
                orig == old(self).pending@,
            decreases k - out@.len(),
        {
            assert(self.pending@.len() == orig.len() - out@.len());
            let e = self.pending.remove(0);
            out.push(e);
            proof {
                assert(self.pending@ =~= orig.skip(out@.len() as int));
                assert(out@ =~= orig.take(out@.len() as int));
            }
        }
        proof {
            assert(out@.len() == k);
            assert(self.cursor + k <= old(self).next_seq);
        }
        self.cursor = self.cursor + k as u64;
        proof {
            assert forall|i: int| 0 <= i < self.pending@.len() implies (#[trigger] self.pending@[i]).seq
                == self.cursor + i by {
                assert(self.pending@[i] == orig[k + i]);
            }
        }
        out
    }
}

} // verus!
