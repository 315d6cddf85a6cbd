//! The authentication gate: the entry phase of every connection.
//!
//! The handler prompts for credentials, reads one line, and asks the external
//! credential oracle. A rejection or an oracle failure is never fatal to the
//! process: the handler re-prompts, up to a bounded number of attempts, and only
//! an accepting answer opens a session. The oracle call itself is outside
//! work; what stands here is the pure step function the handler folds its
//! answers through.

use vstd::prelude::*;

verus! {

/// What the external credential oracle reported for one attempt.
#[derive(Clone, Copy, Debug, PartialEq, Eq, Structural)]
pub enum OracleOutcome {
    /// The oracle verified the credentials.
    Accepted,
    /// The oracle answered, and the credentials are wrong.
    Rejected,
    /// The oracle could not be reached or the query failed; treated as a
    /// rejected attempt, never as a crash.
    Unavailable,
}

/// Authentication-gate state of one connection.
#[derive(Clone, Copy, Debug, PartialEq, Eq, Structural)]
pub enum GateState {
    /// Waiting for a credential line; `failures` attempts have failed so far.
    AwaitingCredentials { failures: u32 },
    /// The oracle accepted: the session is live and relaying.
    Authenticated,
    /// The session is over: retry bound hit, logout, or the socket closed.
    Terminated,
}

/// What the connection handler must do after one authentication attempt.
#[derive(Clone, Copy, Debug, PartialEq, Eq, Structural)]
pub enum GateDirective {
    /// Record the identity in the presence registry, announce the arrival,
    /// and enter the relay loop.
    Admit,
    /// Write an invalid-credentials notice and prompt again.
    RetryRejected,
    /// Write a generic failure notice (oracle trouble) and prompt again.
    RetryUnavailable,
    /// The retry bound is exhausted: drop this connection, and only this one.
    Disconnect,
}

/// One step of the authentication gate, with `limit` as the bound on
/// attempts. Outside the awaiting state every answer disconnects.
pub open spec fn gate_step(state: GateState, limit: u32, outcome: OracleOutcome) -> (GateState,
    GateDirective) {
    match state {
        GateState::AwaitingCredentials { failures } => match outcome {
            OracleOutcome::Accepted => (GateState::Authenticated, GateDirective::Admit),
            OracleOutcome::Rejected => if failures + 1 >= limit {
                (GateState::Terminated, GateDirective::Disconnect)
            } else {
                (
                    GateState::AwaitingCredentials { failures: (failures + 1) as u32 },
                    GateDirective::RetryRejected,
                )
            },
            OracleOutcome::Unavailable => if failures + 1 >= limit {
                (GateState::Terminated, GateDirective::Disconnect)
            } else {
                (
                    GateState::AwaitingCredentials { failures: (failures + 1) as u32 },
                    GateDirective::RetryUnavailable,
                )
            },
        },
        _ => (state, GateDirective::Disconnect),
    }
}

/// Run one authentication attempt through the authentication gate.
pub fn advance_gate(state: GateState, limit: u32, outcome: OracleOutcome) -> (r: (
    GateState,
    GateDirective,
))
    requires
        limit >= 1,
    ensures
        r == gate_step(state, limit, outcome),
{
    match state {
        GateState::AwaitingCredentials { failures } => match outcome {
            OracleOutcome::Accepted => (GateState::Authenticated, GateDirective::Admit),
            OracleOutcome::Rejected => if failures >= limit - 1 {
                (GateState::Terminated, GateDirective::Disconnect)
            } else {
                (
                    GateState::AwaitingCredentials { failures: failures + 1 },
                    GateDirective::RetryRejected,
                )
            },
            OracleOutcome::Unavailable => if failures >= limit - 1 {
                (GateState::Terminated, GateDirective::Disconnect)
            } else {
                (
                    GateState::AwaitingCredentials { failures: failures + 1 },
                    GateDirective::RetryUnavailable,
                )
            },
        },
        GateState::Authenticated => (state, GateDirective::Disconnect),
        GateState::Terminated => (state, GateDirective::Disconnect),
    }
}

/// Fold a whole sequence of oracle answers through the authentication gate.
pub open spec fn gate_run(state: GateState, limit: u32, outcomes: Seq<OracleOutcome>) -> GateState
    decreases outcomes.len(),
{
    if outcomes.len() == 0 {
        state
    } else {
        gate_run(gate_step(state, limit, outcomes[0]).0, limit, outcomes.drop_first())
    }
}

/// Law: a failed attempt neither authenticates nor directs an admission, so
/// it cannot touch the presence registry.
pub proof fn lemma_failed_attempt_never_admits(state: GateState, limit: u32, outcome: OracleOutcome)
    requires
        !(state is Authenticated),
        outcome != OracleOutcome::Accepted,
    ensures
        !(gate_step(state, limit, outcome).0 is Authenticated),
        gate_step(state, limit, outcome).1 != GateDirective::Admit,
{
}

/// Law: however many attempts fail, and in whatever way, a connection never
/// establishes a session until the oracle accepts.
pub proof fn lemma_failed_attempts_never_authenticate(
    state: GateState,
    limit: u32,
    outcomes: Seq<OracleOutcome>,
)
    requires
        !(state is Authenticated),
        forall|i: int| 0 <= i < outcomes.len() ==> outcomes[i] != OracleOutcome::Accepted,
    ensures
        !(gate_run(state, limit, outcomes) is Authenticated),
    decreases outcomes.len(),
{
    if outcomes.len() > 0 {
        lemma_failed_attempt_never_admits(state, limit, outcomes[0]);
        lemma_failed_attempts_never_authenticate(
            gate_step(state, limit, outcomes[0]).0,
            limit,
            outcomes.drop_first(),
        );
    }
}

} // verus!
