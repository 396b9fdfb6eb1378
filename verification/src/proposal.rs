//! Proposal records and their state machine.
//!
//! Proposals form append-only negotiation chains: every transition after the
//! initial creation appends a new record linked to its predecessor through
//! `prev_proposal_id`; a past record is never mutated.  The store is an arena
//! indexed by proposal id, and insertion validates chain integrity: the
//! predecessor must exist, lie on the same subscription, and allow the new
//! state as a successor.

use crate::ids::{Identity, ProposalId, SubscriptionId};
use vstd::prelude::*;

verus! {

/// State of one proposal record.  `Initial` is the sole entry state, reached
/// only through the matcher; `Accepted`, `Rejected` and `Expired` are
/// terminal.
#[derive(Clone, Copy, PartialEq, Eq, Structural, Debug)]
pub enum ProposalState {
    Initial,
    Draft,
    Accepted,
    Rejected,
    Expired,
}

impl ProposalState {
    /// Position of the state in the machine: transitions only move to a
    /// strictly larger rank, which is what makes chains monotonic.
    pub open spec fn rank(self) -> int {
        match self {
            ProposalState::Initial => 0,
            ProposalState::Draft => 1,
            ProposalState::Accepted => 2,
            ProposalState::Rejected => 2,
            ProposalState::Expired => 2,
        }
    }

    /// A terminal state allows no successor record.
    pub open spec fn is_terminal(self) -> bool {
        self is Accepted || self is Rejected || self is Expired
    }
}

/// The legal edges of the proposal state machine:
/// `Initial -> Draft`, `Draft -> Accepted | Rejected`, and any non-terminal
/// state `-> Expired` on deadline.  No edge enters `Initial`.
pub open spec fn legal_transition(from: ProposalState, to: ProposalState) -> bool {
    ||| (from is Initial && to is Draft)
    ||| (from is Draft && (to is Accepted || to is Rejected))
    ||| (!from.is_terminal() && to is Expired)
}

/// Runtime test of [`legal_transition`].
pub fn transition_allowed(from: ProposalState, to: ProposalState) -> (r: bool)
    ensures
        r == legal_transition(from, to),
{
    match (from, to) {
        (ProposalState::Initial, ProposalState::Draft) => true,
        (ProposalState::Draft, ProposalState::Accepted) => true,
        (ProposalState::Draft, ProposalState::Rejected) => true,
        (ProposalState::Initial, ProposalState::Expired) => true,
        (ProposalState::Draft, ProposalState::Expired) => true,
        _ => false,
    }
}

/// Every legal transition strictly raises the rank, and never leaves a
/// terminal state; chains therefore never re-enter a state once left.
pub proof fn lemma_transition_raises_rank(from: ProposalState, to: ProposalState)
    requires
        legal_transition(from, to),
    ensures
        from.rank() < to.rank(),
        !from.is_terminal(),
        !(to is Initial),
{
}

/// One immutable proposal record.
pub struct Proposal {
    pub id: ProposalId,
    pub subscription_id: SubscriptionId,
    pub prev_proposal_id: Option<ProposalId>,
    pub state: ProposalState,
    pub issuer: Identity,
    /// Offer/demand terms carried by the proposal; opaque to the engine.
    pub body: String,
    pub created_at: u64,
}

impl Proposal {
    /// Field-for-field copy of the record.
    pub fn duplicate(&self) -> (r: Proposal)
        ensures
            r == *self,
    {
        Proposal {
            id: self.id,
            subscription_id: self.subscription_id,
            prev_proposal_id: self.prev_proposal_id,
            state: self.state,
            issuer: self.issuer,
            body: self.body.clone(),
            created_at: self.created_at,
        }
    }
}

/// Arena of proposal records, indexed by proposal id.
pub struct ProposalStore {
    pub proposals: Vec<Proposal>,
}

impl ProposalStore {
    /// The records held so far, in order of creation.
    pub open spec fn records(self) -> Seq<Proposal> {
        self.proposals@
    }

    /// Chain integrity: record `i` has id `i`; a record without a predecessor
    /// is exactly an `Initial` one; a record with a predecessor was created
    /// after it, lies on the same subscription, and extends it along a legal
    /// edge of the state machine.
    pub open spec fn wf(self) -> bool {
        &&& forall|i: int|
            0 <= i < self.records().len() ==> (#[trigger] self.records()[i]).id.value == i
        &&& forall|i: int|
            0 <= i < self.records().len() ==> match (#[trigger] self.records()[i]).prev_proposal_id {
                Option::None => self.records()[i].state is Initial,
                Option::Some(p) => {
                    &&& p.value < i
                    &&& self.records()[p.value as int].subscription_id
                        == self.records()[i].subscription_id
                    &&& legal_transition(
                        self.records()[p.value as int].state,
                        self.records()[i].state,
                    )
                },
            }
    }

    pub fn new() -> (r: ProposalStore)
        ensures
            r.wf(),
            r.records().len() == 0,
    {
        ProposalStore { proposals: Vec::new() }
    }

    pub fn len(&self) -> (r: usize)
        ensures
            r == self.records().len(),
    {
        self.proposals.len()
    }

    /// Looks a record up by id; `None` exactly when no such record exists.
    pub fn get(&self, id: ProposalId) -> (r: Option<&Proposal>)
        ensures
            match r {
                Option::Some(p) => {
                    &&& id.value < self.records().len()
                    &&& *p == self.records()[id.value as int]
                },
                Option::None => id.value >= self.records().len(),
            },
    {
        if id.value < self.proposals.len() as u64 {
            Some(&self.proposals[id.value as usize])
        } else {
            None
        }
    }

    /// Appends a fresh `Initial` record, the entry point of a new negotiation
    /// chain, and returns its id.
    pub fn push_initial(
        &mut self,
        subscription_id: SubscriptionId,
        issuer: Identity,
        body: String,
        created_at: u64,
    ) -> (id: ProposalId)
        requires
            old(self).wf(),
            old(self).records().len() < u64::MAX,
        ensures
            final(self).wf(),
            id.value == old(self).records().len(),
            final(self).records() == old(self).records().push(
                Proposal {
                    id,
                    subscription_id,
                    prev_proposal_id: Option::None,
                    state: ProposalState::Initial,
                    issuer,
                    body,
                    created_at,
                },
            ),
    {
        let id = ProposalId { value: self.proposals.len() as u64 };
        self.proposals.push(
            Proposal {
                id,
                subscription_id,
                prev_proposal_id: None,
                state: ProposalState::Initial,
                issuer,
                body,
                created_at,
            },
        );
        id
    }

    /// Appends the successor of `prev` in state `state`, on the same
    /// subscription, and returns its id.  The caller has already checked that
    /// the predecessor exists and that the edge is legal.
    pub fn push_successor(
        &mut self,
        prev: ProposalId,
        state: ProposalState,
        issuer: Identity,
        body: String,
        created_at: u64,
    ) -> (id: ProposalId)
        requires
            old(self).wf(),
            old(self).records().len() < u64::MAX,
            prev.value < old(self).records().len(),
            legal_transition(old(self).records()[prev.value as int].state, state),
        ensures
            final(self).wf(),
            id.value == old(self).records().len(),
            final(self).records() == old(self).records().push(
                Proposal {
                    id,
                    subscription_id: old(self).records()[prev.value as int].subscription_id,
                    prev_proposal_id: Option::Some(prev),
                    state,
                    issuer,
                    body,
                    created_at,
                },
            ),
    {
        proof {
            lemma_transition_raises_rank(self.records()[prev.value as int].state, state);
        }
        let id = ProposalId { value: self.proposals.len() as u64 };
        let subscription_id = self.proposals[prev.value as usize].subscription_id;
        self.proposals.push(
            Proposal {
                id,
                subscription_id,
                prev_proposal_id: Some(prev),
                state,
                issuer,
                body,
                created_at,
            },
        );
        id
    }
}

/// Monotonicity of negotiation chains: a record with a predecessor is
/// strictly further along the state machine than that predecessor, so no
/// state is re-entered once left anywhere along a chain.
pub proof fn law_chain_is_monotonic(s: ProposalStore, i: int)
    requires
        s.wf(),
        0 <= i < s.records().len(),
        s.records()[i].prev_proposal_id is Some,
    ensures
        s.records()[s.records()[i].prev_proposal_id->0.value as int].state.rank()
            < s.records()[i].state.rank(),
        !s.records()[i].state.is_terminal() ==> !(s.records()[i].state is Expired)
            && !s.records()[s.records()[i].prev_proposal_id->0.value as int].state.is_terminal(),
{
    let p = s.records()[i].prev_proposal_id->0;
    lemma_transition_raises_rank(s.records()[p.value as int].state, s.records()[i].state);
}

} // verus!
