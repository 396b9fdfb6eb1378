//! The subscription registry.
//!
//! The registry owns the set of demand/offer subscriptions, each with its
//! owning identity and expiry.  Removal is logical, never physical: a removed
//! subscription keeps its slot, so its id stays known forever and a later
//! caller can be told "this existed and was unsubscribed" rather than "this
//! never existed".

use crate::ids::{Identity, SubscriptionId};
use vstd::prelude::*;

verus! {

/// Which side of the marketplace a subscription watches.
#[derive(Clone, Copy, PartialEq, Eq, Structural, Debug)]
pub enum SubscriptionKind {
    Demand,
    Offer,
}

/// Lifecycle of a subscription: live, or logically removed by unsubscribe or
/// expiry.
#[derive(Clone, Copy, PartialEq, Eq, Structural, Debug)]
pub enum SubscriptionStatus {
    Active,
    Removed,
}

/// One subscription record, owned exclusively by the registry.
pub struct Subscription {
    pub id: SubscriptionId,
    pub owner: Identity,
    pub kind: SubscriptionKind,
    /// Property expression of the offer or demand; opaque to the engine.
    pub terms: String,
    pub created_at: u64,
    pub expires_at: u64,
    pub status: SubscriptionStatus,
}

/// Why an unsubscribe was refused.
#[derive(Clone, Copy, PartialEq, Eq, Structural, Debug)]
pub enum UnsubscribeError {
    /// The id is unknown, or the subscription is already gone.
    NotFound,
    /// The caller is not the subscription's owner.
    Forbidden,
}

/// The set of subscriptions, indexed by subscription id.
pub struct SubscriptionRegistry {
    pub subs: Vec<Subscription>,
}

impl SubscriptionRegistry {
    /// All records, live and removed, in order of creation.
    pub open spec fn entries(self) -> Seq<Subscription> {
        self.subs@
    }

    /// Record `i` carries id `i`; ids are never reused or reordered.
    pub open spec fn wf(self) -> bool {
        forall|i: int|
            0 <= i < self.entries().len() ==> (#[trigger] self.entries()[i]).id.value == i
    }

    /// Whether the id was ever allocated.
    pub open spec fn known(self, id: SubscriptionId) -> bool {
        id.value < self.entries().len()
    }

    /// Whether the id names a live subscription.
    pub open spec fn active(self, id: SubscriptionId) -> bool {
        self.known(id) && self.entries()[id.value as int].status is Active
    }

    pub fn new() -> (r: SubscriptionRegistry)
        ensures
            r.wf(),
            r.entries().len() == 0,
    {
        SubscriptionRegistry { subs: Vec::new() }
    }

    /// Creates a live subscription under a fresh id and returns that id.
    pub fn insert(
        &mut self,
        kind: SubscriptionKind,
        terms: String,
        owner: Identity,
        created_at: u64,
        expires_at: u64,
    ) -> (id: SubscriptionId)
        requires
            old(self).wf(),
        ensures
            final(self).wf(),
            id.value == old(self).entries().len(),
            final(self).entries() == old(self).entries().push(
                Subscription { id, owner, kind, terms, created_at, expires_at, status: SubscriptionStatus::Active },
            ),
    {
        let id = SubscriptionId { value: self.subs.len() as u64 };
        self.subs.push(
            Subscription {
                id,
                owner,
                kind,
                terms,
                created_at,
                expires_at,
                status: SubscriptionStatus::Active,
            },
        );
        id
    }

    /// Looks a record up by id; `None` exactly when the id was never
    /// allocated.
    pub fn get(&self, id: SubscriptionId) -> (r: Option<&Subscription>)
        ensures
            match r {
                Option::Some(s) => self.known(id) && *s == self.entries()[id.value as int],
                Option::None => !self.known(id),
            },
    {
        if id.value < self.subs.len() as u64 {
            Some(&self.subs[id.value as usize])
        } else {
            None
        }
    }

    /// Whether the id was ever allocated, live or removed.
    pub fn is_known(&self, id: SubscriptionId) -> (r: bool)
        ensures
            r == self.known(id),
    {
        id.value < self.subs.len() as u64
    }

    /// Whether the id names a live subscription; the matcher consults this to
    /// decide whether to keep generating proposals for it.
    pub fn is_active(&self, id: SubscriptionId) -> (r: bool)
        ensures
            r == self.active(id),
    {
        if id.value < self.subs.len() as u64 {
            match self.subs[id.value as usize].status {
                SubscriptionStatus::Active => true,
                SubscriptionStatus::Removed => false,
            }
        } else {
            false
        }
    }

    /// Logically removes the subscription: the record stays, flagged
    /// `Removed`, with every other field untouched.  Fails with `NotFound`
    /// when the id is unknown or already removed, `Forbidden` when the caller
    /// does not own it; either failure leaves the registry untouched.
    pub fn mark_removed(&mut self, id: SubscriptionId, owner: Identity) -> (r: Result<
        (),
        UnsubscribeError,
    >)
        requires
            old(self).wf(),
        ensures
            final(self).wf(),
            match r {
                Result::Err(UnsubscribeError::NotFound) => {
                    &&& *final(self) == *old(self)
                    &&& !old(self).active(id)
                },
                Result::Err(UnsubscribeError::Forbidden) => {
                    &&& *final(self) == *old(self)
                    &&& old(self).active(id)
                    &&& old(self).entries()[id.value as int].owner != owner
                },
                Result::Ok(()) => {
                    &&& old(self).active(id)
                    &&& old(self).entries()[id.value as int].owner == owner
                    &&& final(self).entries() == old(self).entries().update(
                        id.value as int,
                        Subscription {
                            status: SubscriptionStatus::Removed,
                            ..old(self).entries()[id.value as int]
                        },
                    )
                },
            },
    {
        if id.value >= self.subs.len() as u64 {
            return Err(UnsubscribeError::NotFound);
        }
        let i = id.value as usize;
        let live = match self.subs[i].status {
            SubscriptionStatus::Active => true,
            SubscriptionStatus::Removed => false,
        };
        if !live {
            return Err(UnsubscribeError::NotFound);
        }
        if self.subs[i].owner != owner {
            return Err(UnsubscribeError::Forbidden);
        }
        let entry = &mut self.subs[i];
        entry.status = SubscriptionStatus::Removed;
        Ok(())
    }
}

} // verus!
