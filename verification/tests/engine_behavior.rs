use market_engine::engine::{NegotiationEngine, QueryEventsError, QueryPoll};
use market_engine::events::EventKind;
use market_engine::ids::{Identity, OfferId};
use market_engine::proposal::ProposalState;
use market_engine::registry::{SubscriptionKind, UnsubscribeError};

fn demand_sub(e: &mut NegotiationEngine) -> market_engine::ids::SubscriptionId {
    e.subscribe(
        SubscriptionKind::Demand,
        String::from("golem.node.debug.subnet=x"),
        Identity { value: 1 },
        10,
        10_000,
    )
}

#[test]
fn test_query_initial_proposal() {
    let mut e = NegotiationEngine::new();
    let id = demand_sub(&mut e);
    let pid = e
        .inject_initial_proposal(id, Identity { value: 2 }, String::from("offer"), 20)
        .unwrap();
    let events = match e.query_events(id, 0, Some(5)).unwrap() {
        QueryPoll::Events(v) => v,
        QueryPoll::Wait => panic!("expected immediate events"),
    };
    assert_eq!(events.len(), 1);
    let proposal = match &events[0].kind {
        EventKind::ProposalEvent(p) => p,
    };
    assert_eq!(proposal.prev_proposal_id, None);
    assert!(matches!(proposal.state, ProposalState::Initial));
    assert_eq!(proposal.id, pid);
    // The same event is never handed out again: the next poll must wait,
    // and once its deadline has passed it answers empty.
    assert!(matches!(e.query_events(id, 1000, Some(5)).unwrap(), QueryPoll::Wait));
    let events = match e.query_events(id, -1, Some(5)).unwrap() {
        QueryPoll::Events(v) => v,
        QueryPoll::Wait => panic!("expected empty answer after deadline"),
    };
    assert_eq!(events.len(), 0);
}

#[test]
fn test_query_events_timeout() {
    let mut e = NegotiationEngine::new();
    let id = demand_sub(&mut e);
    // No proposal yet: the caller suspends.
    assert!(matches!(e.query_events(id, 1000, Some(5)).unwrap(), QueryPoll::Wait));
    // An event arrives mid-wait; the woken caller's next poll returns it.
    e.inject_initial_proposal(id, Identity { value: 2 }, String::from("offer"), 510)
        .unwrap();
    let events = match e.query_events(id, 500, Some(5)).unwrap() {
        QueryPoll::Events(v) => v,
        QueryPoll::Wait => panic!("expected the injected event"),
    };
    assert_eq!(events.len(), 1);
}

#[test]
fn test_query_events_unsubscribe_notification() {
    let mut e = NegotiationEngine::new();
    let id = demand_sub(&mut e);
    assert!(matches!(e.query_events(id, 500, Some(5)).unwrap(), QueryPoll::Wait));
    // Unsubscribed mid-wait: the woken caller gets the error, not a timeout.
    e.unsubscribe(id, Identity { value: 1 }).unwrap();
    match e.query_events(id, 300, Some(5)) {
        Err(QueryEventsError::Unsubscribed(i)) => assert_eq!(i, id),
        _ => panic!("Expected unsubscribed error."),
    }
}

#[test]
fn test_query_events_edge_cases() {
    let mut e = NegotiationEngine::new();
    let id = demand_sub(&mut e);
    e.inject_initial_proposal(id, Identity { value: 2 }, String::from("offer"), 20)
        .unwrap();
    match e.query_events(id, 0, Some(-5)) {
        Err(QueryEventsError::InvalidMaxEvents(v)) => assert_eq!(v, -5),
        _ => panic!("Negative maxEvents - expected error"),
    }
    // Negative timeout polls now and returns the pending event at once.
    let events = match e.query_events(id, -5000, None).unwrap() {
        QueryPoll::Events(v) => v,
        QueryPoll::Wait => panic!("negative timeout never waits"),
    };
    assert_eq!(events.len(), 1);
    // A zero cap returns no events and consumes nothing.
    e.inject_initial_proposal(id, Identity { value: 2 }, String::from("offer"), 30)
        .unwrap();
    let events = match e.query_events(id, 1000, Some(0)).unwrap() {
        QueryPoll::Events(v) => v,
        QueryPoll::Wait => panic!("zero cap never waits"),
    };
    assert_eq!(events.len(), 0);
    let events = match e.query_events(id, 0, Some(5)).unwrap() {
        QueryPoll::Events(v) => v,
        QueryPoll::Wait => panic!("the pending event must still be there"),
    };
    assert_eq!(events.len(), 1);
    // A removed subscription reports Unsubscribed.
    e.unsubscribe(id, Identity { value: 1 }).unwrap();
    match e.query_events(id, 0, None) {
        Err(QueryEventsError::Unsubscribed(i)) => assert_eq!(i, id),
        _ => panic!("Expected Unsubscribed error."),
    }
}

#[test]
fn test_query_events_for_multiple_subscriptions() {
    let mut e = NegotiationEngine::new();
    let a = demand_sub(&mut e);
    let b = demand_sub(&mut e);
    let c = demand_sub(&mut e);
    for id in [a, b, c] {
        e.inject_initial_proposal(id, Identity { value: 2 }, String::from("offer"), 20)
            .unwrap();
    }
    let events = match e.query_events(a, 0, Some(5)).unwrap() {
        QueryPoll::Events(v) => v,
        QueryPoll::Wait => panic!("expected an event on the first subscription"),
    };
    assert_eq!(events.len(), 1);
    // Unsubscribing one subscription leaves the others' events alone.
    e.unsubscribe(c, Identity { value: 1 }).unwrap();
    let events = match e.query_events(b, 0, Some(5)).unwrap() {
        QueryPoll::Events(v) => v,
        QueryPoll::Wait => panic!("expected an event on the second subscription"),
    };
    assert_eq!(events.len(), 1);
}

#[test]
fn test_simultaneous_query_events() {
    let mut e = NegotiationEngine::new();
    let id = demand_sub(&mut e);
    // Two callers poll concurrently; both must wait.
    assert!(matches!(e.query_events(id, 500, Some(5)).unwrap(), QueryPoll::Wait));
    assert!(matches!(e.query_events(id, 500, Some(5)).unwrap(), QueryPoll::Wait));
    // Two events arrive; the callers drain without overlap.
    e.inject_initial_proposal(id, Identity { value: 2 }, String::from("offer"), 110)
        .unwrap();
    e.inject_initial_proposal(id, Identity { value: 2 }, String::from("offer"), 120)
        .unwrap();
    let mut got = Vec::new();
    for _caller in 0..2 {
        match e.query_events(id, 400, Some(5)).unwrap() {
            QueryPoll::Events(v) => got.extend(v),
            QueryPoll::Wait => {
                // This caller keeps waiting and finally times out empty.
                match e.query_events(id, -1, Some(5)).unwrap() {
                    QueryPoll::Events(v) => got.extend(v),
                    QueryPoll::Wait => panic!("negative timeout never waits"),
                }
            }
        }
    }
    assert_eq!(got.len(), 2);
    let ids: Vec<u64> = got
        .iter()
        .map(|ev| match &ev.kind {
            EventKind::ProposalEvent(p) => p.id.value,
        })
        .collect();
    assert_ne!(ids[0], ids[1]);
    assert!(matches!(e.query_events(id, 0, Some(5)).unwrap(), QueryPoll::Wait));
    let events = match e.query_events(id, -1, Some(5)).unwrap() {
        QueryPoll::Events(v) => v,
        QueryPoll::Wait => panic!("negative timeout never waits"),
    };
    assert_eq!(events.len(), 0);
}

#[test]
fn matcher_is_idempotent_and_owner_checked() {
    let mut e = NegotiationEngine::new();
    let id = demand_sub(&mut e);
    let offer = OfferId { value: 7 };
    let first = e.match_pair(offer, id, Identity { value: 2 }, String::from("offer"), 20);
    assert!(first.is_some());
    let second = e.match_pair(offer, id, Identity { value: 2 }, String::from("offer"), 21);
    assert!(second.is_none());
    // Only one event was generated for the pair.
    let events = match e.query_events(id, 0, None).unwrap() {
        QueryPoll::Events(v) => v,
        QueryPoll::Wait => panic!("expected one event"),
    };
    assert_eq!(events.len(), 1);
    // Unsubscribe is owner-checked, and unknown ids are NotFound.
    assert_eq!(
        e.unsubscribe(id, Identity { value: 9 }),
        Err(UnsubscribeError::Forbidden)
    );
    assert_eq!(
        e.unsubscribe(market_engine::ids::SubscriptionId { value: 42 }, Identity { value: 1 }),
        Err(UnsubscribeError::NotFound)
    );
    match e.query_events(market_engine::ids::SubscriptionId { value: 42 }, 0, None) {
        Err(QueryEventsError::NotFound) => {}
        _ => panic!("expected NotFound"),
    }
}
