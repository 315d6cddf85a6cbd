//! End-to-end scenarios on the chat core.

use chat_core::auth::{GateDirective, GateState, OracleOutcome};
use chat_core::hub::Message;
use chat_core::relay::{render_delivery, DeliveryAction, OwnLineDirective};
use chat_core::server::{ChatCore, PollResult};

fn expect_output(r: PollResult) -> Vec<u8> {
    match r {
        PollResult::Output(line) => line,
        _ => panic!("expected a rendered line"),
    }
}

#[test]
fn message_fanout_with_attribution() {
    let mut core = ChatCore::new(10, 3);
    let t1 = core.connect(1);
    assert_eq!(core.authenticate(t1, OracleOutcome::Accepted, b"alice".to_vec()), GateDirective::Admit);
    let t2 = core.connect(2);
    assert_eq!(core.authenticate(t2, OracleOutcome::Accepted, b"bob".to_vec()), GateDirective::Admit);
    assert_eq!(core.registry.len(), 2);

    assert_eq!(core.own_line(t1, b"hi\n".to_vec()), OwnLineDirective::Publish);

    // the sender's subscription: its own arrival and its own line are never
    // echoed back; bob's arrival is attributed to bob
    assert!(matches!(core.poll_delivery(t1), PollResult::Skipped));
    assert_eq!(expect_output(core.poll_delivery(t1)), b"bob : bob joined\n".to_vec());
    assert!(matches!(core.poll_delivery(t1), PollResult::Skipped));
    assert!(matches!(core.poll_delivery(t1), PollResult::Pending));

    // the other client: its own arrival skipped, then alice's line with
    // alice's resolved display name in front
    assert!(matches!(core.poll_delivery(t2), PollResult::Skipped));
    assert_eq!(expect_output(core.poll_delivery(t2)), b"alice : hi\n".to_vec());
    assert!(matches!(core.poll_delivery(t2), PollResult::Pending));
}

#[test]
fn logout_removes_exactly_the_sender() {
    let mut core = ChatCore::new(10, 3);
    let t1 = core.connect(1);
    core.authenticate(t1, OracleOutcome::Accepted, b"alice".to_vec());
    let t2 = core.connect(2);
    core.authenticate(t2, OracleOutcome::Accepted, b"bob".to_vec());
    let t3 = core.connect(3);
    core.authenticate(t3, OracleOutcome::Accepted, b"carol".to_vec());
    assert_eq!(core.registry.len(), 3);

    assert_eq!(core.own_line(t2, b" IWANTEXIT \n".to_vec()), OwnLineDirective::Logout);

    // exactly the sender left the registry, and only its session closed
    assert_eq!(core.registry.len(), 2);
    assert!(!core.registry.contains(2));
    assert_eq!(core.registry.lookup(1), Some(&b"alice".to_vec()));
    assert_eq!(core.registry.lookup(3), Some(&b"carol".to_vec()));
    assert_eq!(core.sessions[t2].gate, GateState::Terminated);
    assert_eq!(core.sessions[t1].gate, GateState::Authenticated);
    assert_eq!(core.sessions[t3].gate, GateState::Authenticated);

    // the others still relay
    assert_eq!(core.own_line(t1, b"still here\n".to_vec()), OwnLineDirective::Publish);
    assert!(matches!(core.poll_delivery(t3), PollResult::Skipped)); // own arrival
    assert_eq!(expect_output(core.poll_delivery(t3)), b"bob left\n".to_vec());
    assert_eq!(expect_output(core.poll_delivery(t3)), b"alice : still here\n".to_vec());
}

#[test]
fn departed_identity_is_no_longer_resolved() {
    let mut core = ChatCore::new(10, 3);
    let t1 = core.connect(1);
    core.authenticate(t1, OracleOutcome::Accepted, b"alice".to_vec());
    let t2 = core.connect(2);
    core.authenticate(t2, OracleOutcome::Accepted, b"bob".to_vec());

    core.own_line(t1, b"IWANTEXIT\n".to_vec());

    // the departure notice reaches the peer raw: its origin is gone from the
    // registry, so no display name can be attached
    assert!(matches!(core.poll_delivery(t2), PollResult::Skipped)); // own arrival
    assert_eq!(expect_output(core.poll_delivery(t2)), b"alice left\n".to_vec());

    // and nothing from that identity can be attributed to "alice" any more
    let stray = Message { origin: 1, text: b"ghost\n".to_vec() };
    match render_delivery(2, &stray, &core.registry) {
        DeliveryAction::Write(out) => assert_eq!(out, b"ghost\n".to_vec()),
        DeliveryAction::Skip => panic!("expected output"),
    }
}

#[test]
fn failed_attempts_leave_no_trace_until_acceptance() {
    let mut core = ChatCore::new(10, 3);
    let t1 = core.connect(1);

    assert_eq!(
        core.authenticate(t1, OracleOutcome::Rejected, b"alice".to_vec()),
        GateDirective::RetryRejected
    );
    assert_eq!(core.registry.len(), 0);
    assert_eq!(core.sessions[t1].gate, GateState::AwaitingCredentials { failures: 1 });

    assert_eq!(
        core.authenticate(t1, OracleOutcome::Rejected, b"alice".to_vec()),
        GateDirective::RetryRejected
    );
    assert_eq!(core.registry.len(), 0);
    assert_eq!(core.sessions[t1].gate, GateState::AwaitingCredentials { failures: 2 });

    // the connection is still open, and the third, accepting call admits
    assert_eq!(
        core.authenticate(t1, OracleOutcome::Accepted, b"alice".to_vec()),
        GateDirective::Admit
    );
    assert_eq!(core.sessions[t1].gate, GateState::Authenticated);
    assert_eq!(core.registry.lookup(1), Some(&b"alice".to_vec()));

    // and only now does the relay loop run
    assert_eq!(core.own_line(t1, b"made it\n".to_vec()), OwnLineDirective::Publish);
}

#[test]
fn retry_bound_closes_the_connection() {
    let mut core = ChatCore::new(10, 2);
    let t1 = core.connect(1);
    assert_eq!(
        core.authenticate(t1, OracleOutcome::Rejected, b"x".to_vec()),
        GateDirective::RetryRejected
    );
    assert_eq!(
        core.authenticate(t1, OracleOutcome::Rejected, b"x".to_vec()),
        GateDirective::Disconnect
    );
    assert_eq!(core.sessions[t1].gate, GateState::Terminated);
    assert_eq!(core.registry.len(), 0);
}

#[test]
fn abrupt_disconnection_is_reflected_in_the_registry() {
    let mut core = ChatCore::new(10, 3);
    let t1 = core.connect(1);
    core.authenticate(t1, OracleOutcome::Accepted, b"alice".to_vec());
    let t2 = core.connect(2);
    core.authenticate(t2, OracleOutcome::Accepted, b"bob".to_vec());
    assert_eq!(core.registry.len(), 2);

    // the peer vanished; the next I/O attempt on its socket failed, and the
    // handler reports the disconnection
    core.disconnect(t1);
    assert_eq!(core.registry.len(), 1);
    assert!(!core.registry.contains(1));
    assert_eq!(core.sessions[t1].gate, GateState::Terminated);

    // the survivor is untouched
    assert_eq!(core.sessions[t2].gate, GateState::Authenticated);
    assert_eq!(core.own_line(t2, b"anyone?\n".to_vec()), OwnLineDirective::Publish);
}

#[test]
fn registry_size_tracks_authenticated_connections() {
    let mut core = ChatCore::new(10, 3);
    assert_eq!(core.registry.len(), 0);
    let t1 = core.connect(1);
    assert_eq!(core.registry.len(), 0); // connected, not yet authenticated
    core.authenticate(t1, OracleOutcome::Accepted, b"alice".to_vec());
    assert_eq!(core.registry.len(), 1);
    let t2 = core.connect(2);
    core.authenticate(t2, OracleOutcome::Rejected, b"bob".to_vec());
    assert_eq!(core.registry.len(), 1); // a rejected attempt adds nobody
    core.authenticate(t2, OracleOutcome::Unavailable, b"bob".to_vec());
    assert_eq!(core.registry.len(), 1); // an unreachable oracle adds nobody either
    core.authenticate(t2, OracleOutcome::Accepted, b"bob".to_vec());
    assert_eq!(core.registry.len(), 2);
    core.own_line(t1, b"IWANTEXIT\n".to_vec());
    assert_eq!(core.registry.len(), 1);
    core.disconnect(t2);
    assert_eq!(core.registry.len(), 0);
}

#[test]
fn lagged_session_gets_a_missed_notice_then_the_tail() {
    let mut core = ChatCore::new(2, 3);
    let t1 = core.connect(1);
    core.authenticate(t1, OracleOutcome::Accepted, b"alice".to_vec());
    let t2 = core.connect(2);
    core.authenticate(t2, OracleOutcome::Accepted, b"bob".to_vec());

    for i in 0..5u8 {
        core.own_line(t1, vec![109, 48 + i, 10]); // m0\n .. m4\n
    }

    // the slow session is six behind with a bound of two: four dropped
    match core.poll_delivery(t2) {
        PollResult::Missed { count, notice } => {
            assert_eq!(count, 4);
            assert_eq!(notice, b"you missed 4 messages\n".to_vec());
        }
        _ => panic!("expected a lag notice"),
    }
    // then the retained tail, in publish order
    assert_eq!(expect_output(core.poll_delivery(t2)), b"alice : m3\n".to_vec());
    assert_eq!(expect_output(core.poll_delivery(t2)), b"alice : m4\n".to_vec());
    assert!(matches!(core.poll_delivery(t2), PollResult::Pending));
}
