//! The negotiation engine: the public-facing component.
//!
//! One engine instance per node role owns the subscription registry, one
//! event queue per subscription, the proposal store and the matcher's record
//! of already-matched pairs.  It exposes `subscribe`, `unsubscribe`,
//! `is_active`, the proposal entry points, and `query_events`.
//!
//! `query_events` here is one deterministic poll step.  A call that the
//! protocol answers at once gets its events or its error; a call that must
//! block gets [`QueryPoll::Wait`] and is polled again by the caller's wait
//! loop once it is woken or its deadline passes (with a negative remaining
//! timeout after the deadline).  Every outcome of such a loop is therefore an
//! outcome this function's contract pins down.

use crate::events::{capped_len, Event, EventKind, EventQueue};
use crate::ids::{Identity, OfferId, ProposalId, SubscriptionId};
use crate::proposal::{Proposal, ProposalState, ProposalStore};
use crate::registry::{
    Subscription, SubscriptionKind, SubscriptionRegistry, SubscriptionStatus, UnsubscribeError,
};
use vstd::prelude::*;

verus! {

/// Why `query_events` failed.
#[derive(Clone, Copy, PartialEq, Eq, Structural, Debug)]
pub enum QueryEventsError {
    /// The caller supplied a negative event cap; retryable after correcting
    /// the input.
    InvalidMaxEvents(i32),
    /// The subscription was removed before or during the call; not retryable
    /// with the same id.
    Unsubscribed(SubscriptionId),
    /// The subscription id was never allocated.
    NotFound,
}

/// Resolution of one `query_events` poll.
pub enum QueryPoll {
    /// The call is answered now, with these events (possibly none).
    Events(Vec<Event>),
    /// Nothing is pending and the call is allowed to wait: the caller
    /// suspends until an event arrives, the subscription is removed, or the
    /// deadline passes, and then polls again.
    Wait,
}

/// Why a proposal could not be recorded.
#[derive(Clone, Copy, PartialEq, Eq, Structural, Debug)]
pub enum ProposalError {
    /// The subscription id was never allocated.
    NotFound,
    /// The subscription was removed; no further proposals are generated for
    /// it.
    Unsubscribed(SubscriptionId),
    /// The predecessor proposal id names no record.
    UnknownPredecessor,
    /// The state machine has no such edge from the predecessor's state.
    IllegalTransition,
}

/// One offer/demand pair the matcher has already paired; re-matching the same
/// pair must not start a second chain.
#[derive(Clone, Copy, PartialEq, Eq, Structural, Debug)]
pub struct MatchKey {
    pub offer: OfferId,
    pub demand: SubscriptionId,
}

/// Integrity of the events queued for subscription `i`, against a store
/// holding `store_len` records: each event belongs to that subscription,
/// embeds a proposal created earlier than the store's frontier, and the queue
/// carries its proposals in creation order.
pub open spec fn queue_events_ok(q: EventQueue, i: int, store_len: int) -> bool {
    &&& forall|j: int|
        0 <= j < q.pending@.len() ==> (
        #[trigger] q.pending@[j]).proposal().subscription_id.value == i
    &&& forall|j: int|
        0 <= j < q.pending@.len() ==> (#[trigger] q.pending@[j]).proposal().id.value < store_len
    &&& forall|j: int, k: int|
        0 <= j < k < q.pending@.len() ==> (#[trigger] q.pending@[j]).proposal().id.value < (
        #[trigger] q.pending@[k]).proposal().id.value
}

/// An empty queue is sound for any subscription and store.
proof fn lemma_queue_events_ok_empty(q: EventQueue, i: int, store_len: int)
    requires
        q.pending@.len() == 0,
    ensures
        queue_events_ok(q, i, store_len),
{
}

/// Soundness survives a growing store.
proof fn lemma_queue_events_ok_grow(q: EventQueue, i: int, n: int, m: int)
    requires
        queue_events_ok(q, i, n),
        n <= m,
    ensures
        queue_events_ok(q, i, m),
{
}

/// Soundness survives dropping a prefix of the pending events.
proof fn lemma_queue_events_ok_skip(pre: EventQueue, post: EventQueue, i: int, store_len: int, k: int)
    requires
        queue_events_ok(pre, i, store_len),
        0 <= k <= pre.pending@.len(),
        post.pending@ == pre.pending@.skip(k),
    ensures
        queue_events_ok(post, i, store_len),
{
    assert forall|j: int| 0 <= j < post.pending@.len() implies {
        &&& (#[trigger] post.pending@[j]).proposal().subscription_id.value == i
        &&& post.pending@[j].proposal().id.value < store_len
    } by {
        assert(post.pending@[j] == pre.pending@[k + j]);
    }
    assert forall|j: int, k2: int| 0 <= j < k2 < post.pending@.len() implies (
    #[trigger] post.pending@[j]).proposal().id.value < (
    #[trigger] post.pending@[k2]).proposal().id.value by {
        assert(post.pending@[j] == pre.pending@[k + j]);
        assert(post.pending@[k2] == pre.pending@[k + k2]);
    }
}

/// Soundness survives appending the event of the store's newest proposal.
proof fn lemma_queue_events_ok_push(
    pre: EventQueue,
    post: EventQueue,
    i: int,
    store_len: int,
    e: Event,
)
    requires
        queue_events_ok(pre, i, store_len),
        post.pending@ == pre.pending@.push(e),
        e.proposal().subscription_id.value == i,
        e.proposal().id.value == store_len,
    ensures
        queue_events_ok(post, i, store_len + 1),
{
    let n = pre.pending@.len() as int;
    assert forall|j: int| 0 <= j < post.pending@.len() implies {
        &&& (#[trigger] post.pending@[j]).proposal().subscription_id.value == i
        &&& post.pending@[j].proposal().id.value < store_len + 1
    } by {
        if j < n {
            assert(post.pending@[j] == pre.pending@[j]);
        } else {
            assert(post.pending@[j] == e);
        }
    }
    assert forall|j: int, k: int| 0 <= j < k < post.pending@.len() implies (
    #[trigger] post.pending@[j]).proposal().id.value < (
    #[trigger] post.pending@[k]).proposal().id.value by {
        assert(post.pending@[j] == pre.pending@[j]);
        if k < n {
            assert(post.pending@[k] == pre.pending@[k]);
        } else {
            assert(post.pending@[k] == e);
        }
    }
}

/// Appending a freshly recorded proposal's event to a live subscription's
/// queue preserves engine integrity.
#[verifier::rlimit(100)]
proof fn lemma_wf_after_append(
    pre: NegotiationEngine,
    post: NegotiationEngine,
    id: SubscriptionId,
    p: Proposal,
    now: u64,
)
    requires
        pre.wf(),
        pre.active(id),
        p.subscription_id == id,
        p.id.value == pre.store.records().len(),
        post.registry == pre.registry,
        post.store.wf(),
        post.store.records() == pre.store.records().push(p),
        post.queues@.len() == pre.queues@.len(),
        forall|j: int|
            0 <= j < pre.queues@.len() && j != id.value ==> post.queues@[j] == #[trigger] pre.queues@[j],
        post.queue_of(id).wf(),
        post.pending(id) == pre.pending(id).push(
            Event {
                seq: pre.queue_next_seq(id),
                timestamp: now,
                kind: EventKind::ProposalEvent(p),
            },
        ),
    ensures
        post.wf(),
{
    let iv = id.value as int;
    let sl = pre.store.records().len() as int;
    assert forall|j: int| 0 <= j < post.queues@.len() implies (#[trigger] post.queues@[j]).wf() by {
        if j != iv {
            assert(post.queues@[j] == pre.queues@[j]);
        }
    }
    assert forall|j: int| 0 <= j < post.queues@.len() implies queue_events_ok(
        #[trigger] post.queues@[j],
        j,
        post.store.records().len() as int,
    ) by {
        if j != iv {
            assert(post.queues@[j] == pre.queues@[j]);
            assert(queue_events_ok(pre.queues@[j], j, sl));
            lemma_queue_events_ok_grow(post.queues@[j], j, sl, sl + 1);
        } else {
            assert(queue_events_ok(pre.queues@[iv], iv, sl));
            lemma_queue_events_ok_push(
                pre.queues@[iv],
                post.queues@[iv],
                iv,
                sl,
                Event {
                    seq: pre.queue_next_seq(id),
                    timestamp: now,
                    kind: EventKind::ProposalEvent(p),
                },
            );
        }
    }
    assert forall|j: int|
        0 <= j < post.queues@.len() && (#[trigger] post.registry.entries()[j]).status
            is Removed implies post.queues@[j].pending@.len() == 0 by {
        if j != iv {
            assert(post.queues@[j] == pre.queues@[j]);
        }
    }
    assert forall|j: int| 0 <= j < post.store.records().len() implies (
    #[trigger] post.store.records()[j]).subscription_id.value < post.registry.entries().len() by {
        if j < sl {
            assert(post.store.records()[j] == pre.store.records()[j]);
        } else {
            assert(post.store.records()[j] == p);
        }
    }
}

/// Requestor- or Provider-side negotiation engine.
pub struct NegotiationEngine {
    pub registry: SubscriptionRegistry,
    /// One queue per registry entry, live or removed, at the same index.
    pub queues: Vec<EventQueue>,
    pub store: ProposalStore,
    /// Offer/demand pairs for which an initial proposal chain exists.
    pub matched: Vec<MatchKey>,
}

impl NegotiationEngine {
    /// Whether the id was ever allocated.
    pub open spec fn known(self, id: SubscriptionId) -> bool {
        self.registry.known(id)
    }

    /// Whether the id names a live subscription.
    pub open spec fn active(self, id: SubscriptionId) -> bool {
        self.registry.active(id)
    }

    /// The queue of subscription `id`.
    pub open spec fn queue_of(self, id: SubscriptionId) -> EventQueue {
        self.queues@[id.value as int]
    }

    /// The undelivered events of subscription `id`, oldest first.
    pub open spec fn pending(self, id: SubscriptionId) -> Seq<Event> {
        self.queue_of(id).pending@
    }

    /// Sequence number of the next event subscription `id` would hand out.
    pub open spec fn queue_cursor(self, id: SubscriptionId) -> u64 {
        self.queue_of(id).cursor
    }

    /// Sequence number the next event appended for subscription `id` carries.
    pub open spec fn queue_next_seq(self, id: SubscriptionId) -> u64 {
        self.queue_of(id).next_seq
    }

    /// Whether the matcher has already paired this offer/demand pair.
    pub open spec fn has_match(self, key: MatchKey) -> bool {
        self.matched@.contains(key)
    }

    /// Engine integrity, established by `new` and preserved by every
    /// operation: registry, store and queues are each well formed, queues and
    /// registry run in lockstep, every queue's events are sound
    /// ([`queue_events_ok`]), a removed subscription holds no pending events,
    /// and every stored proposal names a known subscription.
    pub open spec fn wf(self) -> bool {
        &&& self.registry.wf()
        &&& self.store.wf()
        &&& self.queues@.len() == self.registry.entries().len()
        &&& forall|i: int| 0 <= i < self.queues@.len() ==> (#[trigger] self.queues@[i]).wf()
        &&& forall|i: int|
            0 <= i < self.queues@.len() ==> queue_events_ok(
                #[trigger] self.queues@[i],
                i,
                self.store.records().len() as int,
            )
        &&& forall|i: int|
            0 <= i < self.queues@.len() && (#[trigger] self.registry.entries()[i]).status
                is Removed ==> self.queues@[i].pending@.len() == 0
        &&& forall|i: int|
            0 <= i < self.store.records().len() ==> (
            #[trigger] self.store.records()[i]).subscription_id.value
                < self.registry.entries().len()
    }

    /// Room for one more proposal and one more event everywhere: the id and
    /// sequence counters have not reached their machine limits.
    pub open spec fn can_grow(self) -> bool {
        &&& self.store.records().len() < u64::MAX
        &&& forall|i: int|
            0 <= i < self.queues@.len() ==> (#[trigger] self.queues@[i]).next_seq < u64::MAX
    }

    /// Effect of a successful `subscribe`: one fresh live registry entry and
    /// its empty queue; store and matcher record untouched.
    pub open spec fn subscribed(
        pre: Self,
        post: Self,
        id: SubscriptionId,
        kind: SubscriptionKind,
        terms: String,
        owner: Identity,
        now: u64,
        expires_at: u64,
    ) -> bool {
        &&& id.value == pre.registry.entries().len()
        &&& post.registry.entries() == pre.registry.entries().push(
            Subscription {
                id,
                owner,
                kind,
                terms,
                created_at: now,
                expires_at,
                status: SubscriptionStatus::Active,
            },
        )
        &&& post.queues@.len() == pre.queues@.len() + 1
        &&& forall|j: int| 0 <= j < pre.queues@.len() ==> post.queues@[j] == #[trigger] pre.queues@[j]
        &&& post.pending(id).len() == 0
        &&& post.queue_cursor(id) == 0
        &&& post.queue_next_seq(id) == 0
        &&& post.store == pre.store
        &&& post.matched == pre.matched
    }

    /// Effect of a successful `unsubscribe` of `id`: the entry is flagged
    /// removed with every other field kept, its pending events are discarded,
    /// and nothing else — no other subscription, no proposal record — is
    /// touched.
    pub open spec fn unsubscribed(pre: Self, post: Self, id: SubscriptionId) -> bool {
        &&& pre.known(id)
        &&& post.registry.entries() == pre.registry.entries().update(
            id.value as int,
            Subscription {
                status: SubscriptionStatus::Removed,
                ..pre.registry.entries()[id.value as int]
            },
        )
        &&& post.queues@.len() == pre.queues@.len()
        &&& forall|j: int|
            0 <= j < pre.queues@.len() && j != id.value ==> post.queues@[j] == #[trigger] pre.queues@[j]
        &&& post.pending(id).len() == 0
        &&& post.queue_cursor(id) == pre.queue_next_seq(id)
        &&& post.queue_next_seq(id) == pre.queue_next_seq(id)
        &&& post.store == pre.store
        &&& post.matched == pre.matched
    }

    /// Effect of recording proposal `p` for live subscription `id` at time
    /// `now`: the store grows by exactly `p`, the subscription's queue gains
    /// exactly the event wrapping `p`, and every other part of the engine —
    /// registry, other queues — is untouched.
    pub open spec fn appended(
        pre: Self,
        post: Self,
        id: SubscriptionId,
        p: Proposal,
        now: u64,
    ) -> bool {
        &&& pre.active(id)
        &&& p.id.value == pre.store.records().len()
        &&& p.subscription_id == id
        &&& post.store.records() == pre.store.records().push(p)
        &&& post.registry == pre.registry
        &&& post.queues@.len() == pre.queues@.len()
        &&& forall|j: int|
            0 <= j < pre.queues@.len() && j != id.value ==> post.queues@[j] == #[trigger] pre.queues@[j]
        &&& post.pending(id) == pre.pending(id).push(
            Event { seq: pre.queue_next_seq(id), timestamp: now, kind: EventKind::ProposalEvent(p) },
        )
        &&& post.queue_cursor(id) == pre.queue_cursor(id)
        &&& post.queue_next_seq(id) == pre.queue_next_seq(id) + 1
    }

    /// Effect of a drain on subscription `id`: `taken` is the oldest prefix
    /// of the pending events, removed for good, the cursor moves past it, and
    /// nothing else in the engine changes.
    pub open spec fn drained(pre: Self, post: Self, id: SubscriptionId, taken: Seq<Event>) -> bool {
        &&& pre.known(id)
        &&& taken.len() <= pre.pending(id).len()
        &&& taken == pre.pending(id).take(taken.len() as int)
        &&& post.pending(id) == pre.pending(id).skip(taken.len() as int)
        &&& post.queue_cursor(id) == pre.queue_cursor(id) + taken.len()
        &&& post.queue_next_seq(id) == pre.queue_next_seq(id)
        &&& post.queues@.len() == pre.queues@.len()
        &&& forall|j: int|
            0 <= j < pre.queues@.len() && j != id.value ==> post.queues@[j] == #[trigger] pre.queues@[j]
        &&& post.registry == pre.registry
        &&& post.store == pre.store
        &&& post.matched == pre.matched
    }

    /// How many events a poll with cap `max_events` hands out when
    /// `available` are pending.
    pub open spec fn requested_cap(max_events: Option<i32>, available: int) -> int {
        match max_events {
            Option::None => available,
            Option::Some(n) => capped_len(n as int, available),
        }
    }

    /// Whether the cap is acceptable (absent, or non-negative).
    pub open spec fn cap_is_valid(max_events: Option<i32>) -> bool {
        match max_events {
            Option::None => true,
            Option::Some(n) => n >= 0,
        }
    }

    /// Fresh engine with no subscriptions, no proposals and no matches.
    pub fn new() -> (r: NegotiationEngine)
        ensures
            r.wf(),
            r.can_grow(),
            r.registry.entries().len() == 0,
            r.store.records().len() == 0,
            r.matched@.len() == 0,
    {
        NegotiationEngine {
            registry: SubscriptionRegistry::new(),
            queues: Vec::new(),
            store: ProposalStore::new(),
            matched: Vec::new(),
        }
    }

    /// Creates a subscription with its empty event queue and returns the
    /// fresh id.  Has no error conditions besides resource exhaustion.
    #[verifier::rlimit(50)]
    pub fn subscribe(
        &mut self,
        kind: SubscriptionKind,
        terms: String,
        owner: Identity,
        now: u64,
        expires_at: u64,
    ) -> (id: SubscriptionId)
        requires
            old(self).wf(),
        ensures
            final(self).wf(),
            Self::subscribed(*old(self), *final(self), id, kind, terms, owner, now, expires_at),
            final(self).active(id),
            old(self).can_grow() ==> final(self).can_grow(),
    {
        let id = self.registry.insert(kind, terms, owner, now, expires_at);
        self.queues.push(EventQueue::new());
        proof {
            let pre = *old(self);
            let post = *self;
            let n = pre.queues@.len() as int;
            assert forall|i: int| 0 <= i < post.queues@.len() implies (
            #[trigger] post.queues@[i]).wf() by {
                if i < n {
                    assert(post.queues@[i] == pre.queues@[i]);
                }
            }
            assert forall|i: int| 0 <= i < post.queues@.len() implies queue_events_ok(
                #[trigger] post.queues@[i],
                i,
                post.store.records().len() as int,
            ) by {
                if i < n {
                    assert(post.queues@[i] == pre.queues@[i]);
                    assert(queue_events_ok(pre.queues@[i], i, pre.store.records().len() as int));
                } else {
                    lemma_queue_events_ok_empty(post.queues@[i], i, post.store.records().len() as int);
                }
            }
            assert forall|i: int|
                0 <= i < post.queues@.len() && (#[trigger] post.registry.entries()[i]).status
                    is Removed implies post.queues@[i].pending@.len() == 0 by {
                if i < n {
                    assert(post.registry.entries()[i] == pre.registry.entries()[i]);
                    assert(post.queues@[i] == pre.queues@[i]);
                }
            }
            if pre.can_grow() {
                assert forall|i: int| 0 <= i < post.queues@.len() implies (
                #[trigger] post.queues@[i]).next_seq < u64::MAX by {
                    if i < n {
                        assert(post.queues@[i] == pre.queues@[i]);
                    }
                }
            }
        }
        id
    }

    /// Whether `id` names a live subscription.
    pub fn is_active(&self, id: SubscriptionId) -> (r: bool)
        ensures
            r == self.active(id),
    {
        self.registry.is_active(id)
    }

    /// Removes the subscription: flags it removed, discards its pending
    /// events, and leaves every other subscription's events untouched.  Every
    /// caller currently waiting on `id` observes the removal at its next poll
    /// and gets `Unsubscribed` instead of data or a normal timeout.
    #[verifier::rlimit(50)]
    pub fn unsubscribe(&mut self, id: SubscriptionId, owner: Identity) -> (r: Result<
        (),
        UnsubscribeError,
    >)
        requires
            old(self).wf(),
        ensures
            final(self).wf(),
            old(self).can_grow() ==> final(self).can_grow(),
            match r {
                Result::Err(UnsubscribeError::NotFound) => {
                    &&& *final(self) == *old(self)
                    &&& !old(self).active(id)
                },
                Result::Err(UnsubscribeError::Forbidden) => {
                    &&& *final(self) == *old(self)
                    &&& old(self).active(id)
                    &&& old(self).registry.entries()[id.value as int].owner != owner
                },
                Result::Ok(()) => {
                    &&& old(self).active(id)
                    &&& old(self).registry.entries()[id.value as int].owner == owner
                    &&& Self::unsubscribed(*old(self), *final(self), id)
                },
            },
    {
        match self.registry.mark_removed(id, owner) {
            Err(e) => Err(e),
            Ok(()) => {
                let count = self.queues.len();
                proof {
                    assert(id.value < count);
                }
                let i = id.value as usize;
                let q = &mut self.queues[i];
                q.discard_pending();
                proof {
                    let pre = *old(self);
                    let post = *self;
                    assert forall|j: int| 0 <= j < post.queues@.len() implies (
                    #[trigger] post.queues@[j]).wf() by {
                        if j != id.value {
                            assert(post.queues@[j] == pre.queues@[j]);
                        }
                    }
                    assert forall|j: int| 0 <= j < post.queues@.len() implies queue_events_ok(
                        #[trigger] post.queues@[j],
                        j,
                        post.store.records().len() as int,
                    ) by {
                        if j != id.value {
                            assert(post.queues@[j] == pre.queues@[j]);
                            assert(queue_events_ok(
                                pre.queues@[j],
                                j,
                                pre.store.records().len() as int,
                            ));
                        } else {
                            lemma_queue_events_ok_empty(
                                post.queues@[j],
                                j,
                                post.store.records().len() as int,
                            );
                        }
                    }
                    assert forall|j: int|
                        0 <= j < post.queues@.len() && (
                        #[trigger] post.registry.entries()[j]).status
                            is Removed implies post.queues@[j].pending@.len() == 0 by {
                        if j != id.value {
                            assert(post.registry.entries()[j] == pre.registry.entries()[j]);
                            assert(post.queues@[j] == pre.queues@[j]);
                        }
                    }
                    if pre.can_grow() {
                        assert forall|j: int| 0 <= j < post.queues@.len() implies (
                        #[trigger] post.queues@[j]).next_seq < u64::MAX by {
                            if j != id.value {
                                assert(post.queues@[j] == pre.queues@[j]);
                            }
                        }
                    }
                }
                Ok(())
            },
        }
    }

    /// Injection point for initial proposals: the matcher, a remote node's
    /// delivery, or the test harness forces an `Initial` proposal into the
    /// target subscription's queue.  Succeeds exactly on live subscriptions.
    #[verifier::rlimit(100)]
    pub fn inject_initial_proposal(
        &mut self,
        id: SubscriptionId,
        issuer: Identity,
        body: String,
        now: u64,
    ) -> (r: Result<ProposalId, ProposalError>)
        requires
            old(self).wf(),
            old(self).can_grow(),
        ensures
            final(self).wf(),
            match r {
                Result::Err(ProposalError::NotFound) => {
                    &&& *final(self) == *old(self)
                    &&& !old(self).known(id)
                },
                Result::Err(ProposalError::Unsubscribed(i)) => {
                    &&& *final(self) == *old(self)
                    &&& i == id
                    &&& old(self).known(id)
                    &&& !old(self).active(id)
                },
                Result::Err(ProposalError::UnknownPredecessor) => false,
                Result::Err(ProposalError::IllegalTransition) => false,
                Result::Ok(pid) => {
                    &&& pid.value == old(self).store.records().len()
                    &&& Self::appended(
                        *old(self),
                        *final(self),
                        id,
                        Proposal {
                            id: pid,
                            subscription_id: id,
                            prev_proposal_id: Option::None,
                            state: ProposalState::Initial,
                            issuer,
                            body,
                            created_at: now,
                        },
                        now,
                    )
                    &&& final(self).matched == old(self).matched
                },
            },
    {
        if !self.registry.is_active(id) {
            if self.registry.is_known(id) {
                return Err(ProposalError::Unsubscribed(id));
            } else {
                return Err(ProposalError::NotFound);
            }
        }
        let pid = self.store.push_initial(id, issuer, body.clone(), now);
        let p = Proposal {
            id: pid,
            subscription_id: id,
            prev_proposal_id: None,
            state: ProposalState::Initial,
            issuer,
            body,
            created_at: now,
        };
        let ghost pv = p;
        let count = self.queues.len();
        proof {
            assert(id.value < count);
        }
        let i = id.value as usize;
        let q = &mut self.queues[i];
        q.push_proposal(p, now);
        proof {
            lemma_wf_after_append(*old(self), *self, id, pv, now);
        }
        Ok(pid)
    }

    /// Whether the matcher already paired this offer/demand pair.
    pub fn contains_match(&self, key: MatchKey) -> (r: bool)
        ensures
            r == self.has_match(key),
    {
        let n = self.matched.len();
        let mut i: usize = 0;
        while i < n
            invariant
                i <= n,
                n == self.matched@.len(),
                forall|j: int| 0 <= j < i ==> self.matched@[j] != key,
            decreases n - i,
        {
            if self.matched[i] == key {
                return true;
            }
            i = i + 1;
        }
        false
    }

    /// Matcher entry point: pairs one offer with one demand subscription,
    /// creating the initial proposal chain — at most once per pair, and only
    /// while the subscription is live; otherwise nothing happens.
    #[verifier::rlimit(100)]
    pub fn match_pair(
        &mut self,
        offer: OfferId,
        demand: SubscriptionId,
        issuer: Identity,
        body: String,
        now: u64,
    ) -> (r: Option<ProposalId>)
        requires
            old(self).wf(),
            old(self).can_grow(),
        ensures
            final(self).wf(),
            match r {
                Option::None => {
                    &&& *final(self) == *old(self)
                    &&& !old(self).active(demand) || old(self).has_match(
                        MatchKey { offer, demand },
                    )
                },
                Option::Some(pid) => {
                    &&& old(self).active(demand)
                    &&& !old(self).has_match(MatchKey { offer, demand })
                    &&& final(self).matched@ == old(self).matched@.push(
                        MatchKey { offer, demand },
                    )
                    &&& pid.value == old(self).store.records().len()
                    &&& Self::appended(
                        NegotiationEngine {
                            matched: final(self).matched,
                            ..*old(self)
                        },
                        *final(self),
                        demand,
                        Proposal {
                            id: pid,
                            subscription_id: demand,
                            prev_proposal_id: Option::None,
                            state: ProposalState::Initial,
                            issuer,
                            body,
                            created_at: now,
                        },
                        now,
                    )
                },
            },
    {
        if !self.registry.is_active(demand) {
            return None;
        }
        let key = MatchKey { offer, demand };
        if self.contains_match(key) {
            return None;
        }
        self.matched.push(key);
        let ghost mid = *self;
        match self.inject_initial_proposal(demand, issuer, body, now) {
            Ok(pid) => {
                proof {
                    assert(mid == NegotiationEngine { matched: self.matched, ..*old(self) });
                }
                Some(pid)
            },
            Err(_) => {
                proof {
                    assert(false);
                }
                None
            },
        }
    }

    /// Looks a proposal record up by id.
    pub fn proposal(&self, id: ProposalId) -> (r: Option<&Proposal>)
        ensures
            match r {
                Option::Some(p) => {
                    &&& id.value < self.store.records().len()
                    &&& *p == self.store.records()[id.value as int]
                },
                Option::None => id.value >= self.store.records().len(),
            },
    {
        self.store.get(id)
    }

    /// Looks a subscription record up by id.
    pub fn subscription(&self, id: SubscriptionId) -> (r: Option<&Subscription>)
        ensures
            match r {
                Option::Some(s) => self.known(id) && *s == self.registry.entries()[id.value as int],
                Option::None => !self.known(id),
            },
    {
        self.registry.get(id)
    }

    /// One poll of the long-poll event protocol, the centerpiece contract:
    ///
    /// - a negative cap fails at once with `InvalidMaxEvents`, queue
    ///   untouched;
    /// - an id never allocated fails with `NotFound`; one removed before or
    ///   during the call fails with `Unsubscribed`;
    /// - a cap of zero answers `[]` at once, consuming nothing;
    /// - otherwise, pending events are answered at once: the oldest ones, up
    ///   to the cap, removed from the queue for good;
    /// - with nothing pending, a negative remaining timeout answers `[]` (a
    ///   successful empty result, not an error) and a non-negative one
    ///   suspends the caller, who polls again after being woken.
    #[verifier::rlimit(50)]
    pub fn query_events(
        &mut self,
        id: SubscriptionId,
        timeout_ms: i64,
        max_events: Option<i32>,
    ) -> (r: Result<QueryPoll, QueryEventsError>)
        requires
            old(self).wf(),
        ensures
            final(self).wf(),
            match r {
                Result::Err(QueryEventsError::InvalidMaxEvents(n)) => {
                    &&& *final(self) == *old(self)
                    &&& max_events == Option::Some(n)
                    &&& n < 0
                },
                Result::Err(QueryEventsError::NotFound) => {
                    &&& *final(self) == *old(self)
                    &&& Self::cap_is_valid(max_events)
                    &&& !old(self).known(id)
                },
                Result::Err(QueryEventsError::Unsubscribed(i)) => {
                    &&& *final(self) == *old(self)
                    &&& Self::cap_is_valid(max_events)
                    &&& i == id
                    &&& old(self).known(id)
                    &&& !old(self).active(id)
                },
                Result::Ok(QueryPoll::Wait) => {
                    &&& *final(self) == *old(self)
                    &&& Self::cap_is_valid(max_events)
                    &&& old(self).active(id)
                    &&& max_events != Option::Some(0i32)
                    &&& old(self).pending(id).len() == 0
                    &&& timeout_ms >= 0
                },
                Result::Ok(QueryPoll::Events(v)) => {
                    &&& Self::cap_is_valid(max_events)
                    &&& old(self).active(id)
                    &&& if max_events == Option::Some(0i32) {
                        &&& *final(self) == *old(self)
                        &&& v@.len() == 0
                    } else if old(self).pending(id).len() > 0 {
                        &&& v@.len() == Self::requested_cap(
                            max_events,
                            old(self).pending(id).len() as int,
                        )
                        &&& Self::drained(*old(self), *final(self), id, v@)
                    } else {
                        &&& *final(self) == *old(self)
                        &&& v@.len() == 0
                        &&& timeout_ms < 0
                    }
                },
            },
    {
        if let Some(n) = max_events {
            if n < 0 {
                return Err(QueryEventsError::InvalidMaxEvents(n));
            }
        }
        if !self.registry.is_known(id) {
            return Err(QueryEventsError::NotFound);
        }
        if !self.registry.is_active(id) {
            return Err(QueryEventsError::Unsubscribed(id));
        }
        if let Some(n) = max_events {
            if n == 0 {
                return Ok(QueryPoll::Events(Vec::new()));
            }
        }
        let count = self.queues.len();
        proof {
            assert(id.value < count);
        }
        let i = id.value as usize;
        let available = self.queues[i].pending.len();
        if available > 0 {
            let cap: usize = match max_events {
                Some(n) => {
                    if (n as usize) <= available {
                        n as usize
                    } else {
                        available
                    }
                },
                None => available,
            };
            let q = &mut self.queues[i];
            let v = q.take_up_to(cap);
            proof {
                let pre = *old(self);
                let post = *self;
                let iv = id.value as int;
                let sl = pre.store.records().len() as int;
                assert(v@.len() == Self::requested_cap(max_events, pre.pending(id).len() as int));
                assert forall|j: int| 0 <= j < post.queues@.len() implies (
                #[trigger] post.queues@[j]).wf() by {
                    if j != iv {
                        assert(post.queues@[j] == pre.queues@[j]);
                    }
                }
                assert forall|j: int| 0 <= j < post.queues@.len() implies queue_events_ok(
                    #[trigger] post.queues@[j],
                    j,
                    post.store.records().len() as int,
                ) by {
                    if j != iv {
                        assert(post.queues@[j] == pre.queues@[j]);
                        assert(queue_events_ok(pre.queues@[j], j, sl));
                    } else {
                        assert(queue_events_ok(pre.queues@[iv], iv, sl));
                        lemma_queue_events_ok_skip(
                            pre.queues@[iv],
                            post.queues@[iv],
                            iv,
                            sl,
                            v@.len() as int,
                        );
                    }
                }
                assert forall|j: int|
                    0 <= j < post.queues@.len() && (#[trigger] post.registry.entries()[j]).status
                        is Removed implies post.queues@[j].pending@.len() == 0 by {
                    if j != iv {
                        assert(post.queues@[j] == pre.queues@[j]);
                    }
                }
            }
            return Ok(QueryPoll::Events(v));
        }
        if timeout_ms < 0 {
            return Ok(QueryPoll::Events(Vec::new()));
        }
        Ok(QueryPoll::Wait)
    }
}

} // verus!
