//! Negotiation core of a decentralized compute marketplace.
//!
//! Independent nodes publish resource offers and demands; a matching process
//! pairs them and the two sides exchange proposals through a long-poll event
//! protocol.  This crate holds the verified heart of that protocol: the
//! subscription registry, the per-subscription event queue with its delivery
//! cursor, the proposal state machine, and the engine that ties them together
//! and decides, for every `query_events` call, whether to answer at once,
//! fail, or suspend the caller.
//!
//! The engine itself is sequential and deterministic.  Waiting, waking and
//! timers live outside of it: a caller that must suspend receives
//! [`engine::QueryPoll::Wait`] and polls again once it has been woken or its
//! deadline has passed.

pub mod engine;
pub mod events;
pub mod registry;
pub mod ids;
pub mod proposal;
