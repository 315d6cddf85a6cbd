//! The presence registry, the hub, and the authentication gate, one by one.

use chat_core::auth::{advance_gate, GateDirective, GateState, OracleOutcome};
use chat_core::hub::{Broadcaster, Message, Reception};
use chat_core::registry::PresenceRegistry;
use chat_core::relay::{classify_own_line, render_delivery, DeliveryAction, OwnLineDirective};

#[test]
fn registry_insert_lookup_remove() {
    let mut reg = PresenceRegistry::new();
    assert_eq!(reg.len(), 0);
    assert!(!reg.contains(1));
    reg.insert(1, b"alice".to_vec());
    reg.insert(2, b"bob".to_vec());
    assert_eq!(reg.len(), 2);
    assert_eq!(reg.lookup(1), Some(&b"alice".to_vec()));
    assert_eq!(reg.lookup(2), Some(&b"bob".to_vec()));
    assert_eq!(reg.lookup(3), None);
    reg.remove(1);
    assert_eq!(reg.len(), 1);
    assert_eq!(reg.lookup(1), None);
    // removing an absent identity is a no-op, not an error
    reg.remove(1);
    reg.remove(77);
    assert_eq!(reg.len(), 1);
    assert_eq!(reg.lookup(2), Some(&b"bob".to_vec()));
}

#[test]
fn hub_delivers_in_publish_order() {
    let mut hub = Broadcaster::new(10);
    let mut sub = hub.subscribe();
    assert!(matches!(hub.receive(&mut sub), Reception::Pending));
    hub.publish(Message { origin: 1, text: b"one\n".to_vec() });
    hub.publish(Message { origin: 2, text: b"two\n".to_vec() });
    match hub.receive(&mut sub) {
        Reception::Delivered(m) => {
            assert_eq!(m.origin, 1);
            assert_eq!(m.text, b"one\n".to_vec());
        }
        _ => panic!("expected a delivery"),
    }
    match hub.receive(&mut sub) {
        Reception::Delivered(m) => {
            assert_eq!(m.origin, 2);
            assert_eq!(m.text, b"two\n".to_vec());
        }
        _ => panic!("expected a delivery"),
    }
    assert!(matches!(hub.receive(&mut sub), Reception::Pending));
}

#[test]
fn late_subscriber_sees_no_replay() {
    let mut hub = Broadcaster::new(10);
    hub.publish(Message { origin: 1, text: b"early\n".to_vec() });
    let mut sub = hub.subscribe();
    assert!(matches!(hub.receive(&mut sub), Reception::Pending));
    hub.publish(Message { origin: 1, text: b"late\n".to_vec() });
    match hub.receive(&mut sub) {
        Reception::Delivered(m) => assert_eq!(m.text, b"late\n".to_vec()),
        _ => panic!("expected a delivery"),
    }
}

#[test]
fn slow_subscriber_is_lagged_and_drops_oldest() {
    let mut hub = Broadcaster::new(2);
    let mut sub = hub.subscribe();
    for i in 0..5u8 {
        hub.publish(Message { origin: 9, text: vec![48 + i, 10] });
    }
    // five behind with a bound of two: three dropped, oldest first
    match hub.receive(&mut sub) {
        Reception::Lagged(missed) => assert_eq!(missed, 3),
        _ => panic!("expected a lag signal"),
    }
    match hub.receive(&mut sub) {
        Reception::Delivered(m) => assert_eq!(m.text, b"3\n".to_vec()),
        _ => panic!("expected a delivery"),
    }
    match hub.receive(&mut sub) {
        Reception::Delivered(m) => assert_eq!(m.text, b"4\n".to_vec()),
        _ => panic!("expected a delivery"),
    }
    assert!(matches!(hub.receive(&mut sub), Reception::Pending));
}

#[test]
fn gate_admits_on_acceptance_only() {
    let s0 = GateState::AwaitingCredentials { failures: 0 };
    let (s1, d1) = advance_gate(s0, 3, OracleOutcome::Rejected);
    assert_eq!(d1, GateDirective::RetryRejected);
    assert_eq!(s1, GateState::AwaitingCredentials { failures: 1 });
    let (s2, d2) = advance_gate(s1, 3, OracleOutcome::Unavailable);
    assert_eq!(d2, GateDirective::RetryUnavailable);
    assert_eq!(s2, GateState::AwaitingCredentials { failures: 2 });
    let (s3, d3) = advance_gate(s2, 3, OracleOutcome::Accepted);
    assert_eq!(d3, GateDirective::Admit);
    assert_eq!(s3, GateState::Authenticated);
}

#[test]
fn gate_disconnects_at_the_retry_bound() {
    let s0 = GateState::AwaitingCredentials { failures: 0 };
    let (s1, d1) = advance_gate(s0, 2, OracleOutcome::Rejected);
    assert_eq!(d1, GateDirective::RetryRejected);
    let (s2, d2) = advance_gate(s1, 2, OracleOutcome::Rejected);
    assert_eq!(d2, GateDirective::Disconnect);
    assert_eq!(s2, GateState::Terminated);
}

#[test]
fn own_line_classification() {
    assert_eq!(classify_own_line(&b"IWANTEXIT\n".to_vec()), OwnLineDirective::Logout);
    assert_eq!(classify_own_line(&b"hello\n".to_vec()), OwnLineDirective::Publish);
}

#[test]
fn delivery_rendering_filters_and_resolves() {
    let mut reg = PresenceRegistry::new();
    reg.insert(7, b"alice".to_vec());
    let m = Message { origin: 7, text: b"hi\n".to_vec() };
    // the sender never sees its own message
    assert!(matches!(render_delivery(7, &m, &reg), DeliveryAction::Skip));
    // others see it attributed to the resolved name
    match render_delivery(9, &m, &reg) {
        DeliveryAction::Write(out) => assert_eq!(out, b"alice : hi\n".to_vec()),
        DeliveryAction::Skip => panic!("expected output"),
    }
    // an unregistered origin falls back to the raw text
    let anon = Message { origin: 5, text: b"notice\n".to_vec() };
    match render_delivery(9, &anon, &reg) {
        DeliveryAction::Write(out) => assert_eq!(out, b"notice\n".to_vec()),
        DeliveryAction::Skip => panic!("expected output"),
    }
}
