//! Opaque, comparable identifiers used throughout the negotiation core.
//!
//! All of them are allocated sequentially by the component that owns them, so
//! each wraps a plain counter value.  Holders treat them as opaque tokens.

use vstd::prelude::*;

verus! {

/// Identifier of a demand or offer subscription, unique per engine and
/// allocated at subscribe time.
#[derive(Clone, Copy, PartialEq, Eq, Structural, Debug)]
pub struct SubscriptionId {
    pub value: u64,
}

/// Identifier of a proposal record, unique per engine; records form
/// append-only negotiation chains linked by predecessor ids.
#[derive(Clone, Copy, PartialEq, Eq, Structural, Debug)]
pub struct ProposalId {
    pub value: u64,
}

/// Identity of a node taking part in negotiations; subscriptions are owned by
/// the identity that created them.
#[derive(Clone, Copy, PartialEq, Eq, Structural, Debug)]
pub struct Identity {
    pub value: u64,
}

/// Identifier of a published offer as seen by the matcher; together with a
/// subscription id it names one offer/demand pair.
#[derive(Clone, Copy, PartialEq, Eq, Structural, Debug)]
pub struct OfferId {
    pub value: u64,
}

} // verus!
