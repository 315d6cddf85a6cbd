//! The chat core: presence registry, fan-out hub, and every connection's
//! session, advanced one event at a time.
//!
//! Each connection is one session: an identity, an authentication-gate state,
//! and a private subscription cursor into the hub. The surrounding process
//! runs one task per connection and serialises its shared steps; the core
//! here is the state machine those tasks drive, and its well-formedness ties
//! the registry to the sessions: an identity is registered exactly while it
//! has an open, authenticated session.

use vstd::prelude::*;
use crate::auth::{GateDirective, GateState, OracleOutcome, advance_gate, gate_step};
use crate::hub::{Broadcaster, Message, MsgModel, Reception, Subscription};
use crate::line::is_logout_line;
use crate::registry::PresenceRegistry;
use crate::relay::{
    DeliveryAction, arrival_notice, arrival_text, attributed, delivery_decision, departure_notice,
    departure_text, lag_notice, lag_notice_text, render_delivery,
};

verus! {

/// One connection's session: its identity, its gate state, and its private
/// subscription into the hub.
#[derive(Clone, Copy)]
pub struct Session {
    /// The connection identity: the numeric form of the remote endpoint,
    /// stable for the lifetime of one socket.
    pub id: u64,
    /// Where this connection stands: awaiting credentials, relaying, or over.
    pub gate: GateState,
    /// The connection's own consumption cursor into the hub.
    pub sub: Subscription,
}

/// A session that has not ended yet.
pub open spec fn session_live(s: Session) -> bool {
    !(s.gate is Terminated)
}

/// A session past the authentication gate.
pub open spec fn session_admitted(s: Session) -> bool {
    s.gate is Authenticated
}

/// No two live sessions share an identity.
pub open spec fn ids_unique(ss: Seq<Session>) -> bool {
    forall|i: int, j: int|
        0 <= i < j < ss.len() && session_live(#[trigger] ss[i]) && session_live(#[trigger] ss[j])
            ==> ss[i].id != ss[j].id
}

/// Session `i` is an open, authenticated session for identity `k`.
pub open spec fn admitted_at(ss: Seq<Session>, i: int, k: u64) -> bool {
    0 <= i < ss.len() && session_admitted(ss[i]) && ss[i].id == k
}

/// Every registered identity has an open, authenticated session.
pub open spec fn presence_sound(reg: Map<u64, Seq<u8>>, ss: Seq<Session>) -> bool {
    forall|k: u64| #[trigger] reg.contains_key(k) ==> exists|i: int| admitted_at(ss, i, k)
}

/// Every open, authenticated session is registered.
pub open spec fn presence_complete(reg: Map<u64, Seq<u8>>, ss: Seq<Session>) -> bool {
    forall|i: int|
        0 <= i < ss.len() && session_admitted(#[trigger] ss[i]) ==> reg.contains_key(ss[i].id)
}

/// Every cursor lies within the publish log.
pub open spec fn cursors_bounded(ss: Seq<Session>, n: int) -> bool {
    forall|i: int| 0 <= i < ss.len() ==> (#[trigger] ss[i]).sub@ <= n
}

/// The chat core.
pub struct ChatCore {
    /// The shared presence registry.
    pub registry: PresenceRegistry,
    /// The shared fan-out hub.
    pub hub: Broadcaster,
    /// One session per accepted connection, dead ones included.
    pub sessions: Vec<Session>,
    /// Bound on authentication attempts per connection.
    pub auth_limit: u32,
}

impl ChatCore {
    /// Well-formedness: live identities are unique, the registry holds
    /// exactly the admitted identities, and every cursor is within the log.
    ///
    /// Every step of the core preserves this, so it holds at any point with
    /// no step — in particular no authentication — in flight.
    pub open spec fn wf(self) -> bool {
        &&& self.auth_limit >= 1
        &&& self.hub.bound() >= 1
        &&& ids_unique(self.sessions@)
        &&& presence_sound(self.registry@, self.sessions@)
        &&& presence_complete(self.registry@, self.sessions@)
        &&& cursors_bounded(self.sessions@, self.hub@.len() as int)
    }

    /// A fresh core: nobody connected, nothing published.
    pub fn new(capacity: usize, auth_limit: u32) -> (r: Self)
        requires
            capacity >= 1,
            auth_limit >= 1,
        ensures
            r.wf(),
            r.registry@ == Map::<u64, Seq<u8>>::empty(),
            r.hub@ == Seq::<MsgModel>::empty(),
            r.sessions@ == Seq::<Session>::empty(),
            r.auth_limit == auth_limit,
            r.hub.bound() == capacity,
    {
        let r = ChatCore {
            registry: PresenceRegistry::new(),
            hub: Broadcaster::new(capacity),
            sessions: Vec::new(),
            auth_limit,
        };
        r
    }

    /// Accept a new connection: a fresh session whose subscription sees only
    /// future publishes. Nothing else moves.
    pub fn connect(&mut self, id: u64) -> (token: usize)
        requires
            old(self).wf(),
            forall|i: int|
                0 <= i < old(self).sessions@.len() && session_live(
                    #[trigger] old(self).sessions@[i],
                ) ==> old(self).sessions@[i].id != id,
        ensures
            final(self).wf(),
            final(self).registry@ == old(self).registry@,
            final(self).hub == old(self).hub,
            final(self).auth_limit == old(self).auth_limit,
            token == old(self).sessions@.len(),
            final(self).sessions@.len() == old(self).sessions@.len() + 1,
            forall|j: int|
                0 <= j < old(self).sessions@.len() ==> final(self).sessions@[j] == old(
                    self,
                ).sessions@[j],
            final(self).sessions@[token as int].id == id,
            final(self).sessions@[token as int].gate == (GateState::AwaitingCredentials {
                failures: 0,
            }),
            final(self).sessions@[token as int].sub@ == old(self).hub@.len(),
    {
        let token = self.sessions.len();
        let sub = self.hub.subscribe();
        self.sessions.push(
            Session { id, gate: GateState::AwaitingCredentials { failures: 0 }, sub },
        );
        proof {
            let post = self.sessions@;
            assert forall|k: u64| #[trigger] self.registry@.contains_key(k) implies exists|i: int|
                admitted_at(post, i, k) by {
                let i = choose|i: int| admitted_at(old(self).sessions@, i, k);
                assert(admitted_at(post, i, k));
            }
        }
        token
    }

    /// One authentication attempt for session `token`: what the oracle said
    /// and, on acceptance, the display name to record.
    ///
    /// On acceptance the identity enters the registry and the arrival is
    /// announced. On anything else neither the registry nor the hub moves:
    /// failed attempts, however many, never establish a session.
    pub fn authenticate(&mut self, token: usize, outcome: OracleOutcome, name: Vec<u8>) -> (d:
        GateDirective)
        requires
            old(self).wf(),
            token < old(self).sessions@.len(),
            old(self).sessions@[token as int].gate is AwaitingCredentials,
        ensures
            final(self).wf(),
            final(self).auth_limit == old(self).auth_limit,
            ({
                let (g, dd) = gate_step(
                    old(self).sessions@[token as int].gate,
                    old(self).auth_limit,
                    outcome,
                );
                &&& d == dd
                &&& final(self).sessions@[token as int].gate == g
            }),
            final(self).sessions@.len() == old(self).sessions@.len(),
            forall|j: int|
                0 <= j < old(self).sessions@.len() && j != token ==> final(self).sessions@[j]
                    == old(self).sessions@[j],
            final(self).sessions@[token as int].id == old(self).sessions@[token as int].id,
            final(self).sessions@[token as int].sub == old(self).sessions@[token as int].sub,
            outcome is Accepted ==> {
                &&& final(self).registry@ == old(self).registry@.insert(
                    old(self).sessions@[token as int].id,
                    name@,
                )
                &&& final(self).hub@ == old(self).hub@.push(
                    MsgModel {
                        origin: old(self).sessions@[token as int].id,
                        text: arrival_text(name@),
                    },
                )
            },
            !(outcome is Accepted) ==> {
                &&& final(self).registry@ == old(self).registry@
                &&& final(self).hub@ == old(self).hub@
            },
            final(self).hub.bound() == old(self).hub.bound(),
    {
        let s = self.sessions[token];
        let (g, d) = advance_gate(s.gate, self.auth_limit, outcome);
        match outcome {
            OracleOutcome::Accepted => {
                proof {
                    if self.registry@.contains_key(s.id) {
                        let i = choose|i: int| admitted_at(self.sessions@, i, s.id);
                        assert(session_live(self.sessions@[i]));
                        assert(session_live(self.sessions@[token as int]));
                        assert(false);
                    }
                }
                let notice = arrival_notice(&name);
                self.registry.insert(s.id, name);
                self.hub.publish(Message { origin: s.id, text: notice });
                self.sessions[token] = Session { id: s.id, gate: g, sub: s.sub };
                proof {
                    let pre = old(self).sessions@;
                    let post = self.sessions@;
                    assert forall|k: u64| #[trigger] self.registry@.contains_key(k) implies exists|
                        i: int,
                    | admitted_at(post, i, k) by {
                        if k == s.id {
                            assert(admitted_at(post, token as int, k));
                        } else {
                            let i = choose|i: int| admitted_at(pre, i, k);
                            assert(admitted_at(post, i, k));
                        }
                    }
                }
            }
            _ => {
                self.sessions[token] = Session { id: s.id, gate: g, sub: s.sub };
                proof {
                    let pre = old(self).sessions@;
                    let post = self.sessions@;
                    assert forall|k: u64| #[trigger] self.registry@.contains_key(k) implies exists|
                        i: int,
                    | admitted_at(post, i, k) by {
                        let i = choose|i: int| admitted_at(pre, i, k);
                        assert(admitted_at(post, i, k));
                    }
                }
            }
        }
        d
    }

    /// One line read from session `token`'s own socket.
    ///
    /// The logout command removes exactly the sender from the registry,
    /// announces the departure, and ends only this session; any other line is
    /// published to everyone.
    pub fn own_line(&mut self, token: usize, line: Vec<u8>) -> (d: crate::relay::OwnLineDirective)
        requires
            old(self).wf(),
            token < old(self).sessions@.len(),
            session_admitted(old(self).sessions@[token as int]),
        ensures
            final(self).wf(),
            final(self).auth_limit == old(self).auth_limit,
            final(self).hub.bound() == old(self).hub.bound(),
            d is Logout <==> is_logout_line(line@),
            final(self).sessions@.len() == old(self).sessions@.len(),
            forall|j: int|
                0 <= j < old(self).sessions@.len() && j != token ==> final(self).sessions@[j]
                    == old(self).sessions@[j],
            is_logout_line(line@) ==> {
                let id = old(self).sessions@[token as int].id;
                &&& final(self).registry@ == old(self).registry@.remove(id)
                &&& !final(self).registry@.contains_key(id)
                &&& final(self).sessions@[token as int].gate is Terminated
                &&& final(self).hub@ == old(self).hub@.push(
                    MsgModel { origin: id, text: departure_text(old(self).registry@[id]) },
                )
            },
            !is_logout_line(line@) ==> {
                let id = old(self).sessions@[token as int].id;
                &&& final(self).registry@ == old(self).registry@
                &&& final(self).sessions@ == old(self).sessions@
                &&& final(self).hub@ == old(self).hub@.push(MsgModel { origin: id, text: line@ })
            },
    {
        let s = self.sessions[token];
        if crate::line::is_logout(&line) {
            proof {
                assert(admitted_at(self.sessions@, token as int, s.id));
            }
            let name = match self.registry.lookup(s.id) {
                Some(n) => crate::line::copy_bytes(n),
                None => {
                    proof {
                        assert(false);
                    }
                    Vec::new()
                }
            };
            let notice = departure_notice(&name);
            self.registry.remove(s.id);
            self.hub.publish(Message { origin: s.id, text: notice });
            self.sessions[token] = Session { id: s.id, gate: GateState::Terminated, sub: s.sub };
            proof {
                let pre = old(self).sessions@;
                let post = self.sessions@;
                assert forall|k: u64| #[trigger] self.registry@.contains_key(k) implies exists|
                    i: int,
                | admitted_at(post, i, k) by {
                    let i = choose|i: int| admitted_at(pre, i, k);
                    assert(i != token as int);
                    assert(admitted_at(post, i, k));
                }
                assert forall|i: int|
                    0 <= i < post.len() && session_admitted(#[trigger] post[i]) implies self.registry@.contains_key(
                    post[i].id,
                ) by {
                    assert(i != token as int);
                    assert(session_live(pre[i]) && session_live(pre[token as int]));
                    assert(pre[i].id != s.id);
                }
            }
            crate::relay::OwnLineDirective::Logout
        } else {
            self.hub.publish(Message { origin: s.id, text: line });
            crate::relay::OwnLineDirective::Publish
        }
    }

    /// The peer vanished without logout: end-of-stream or an I/O error on the
    /// socket. The identity leaves the registry — so the disappearance is
    /// reflected there as soon as it is detected — and only this session
    /// ends; nothing is announced for an abrupt end.
    pub fn disconnect(&mut self, token: usize)
        requires
            old(self).wf(),
            token < old(self).sessions@.len(),
            session_live(old(self).sessions@[token as int]),
        ensures
            final(self).wf(),
            final(self).auth_limit == old(self).auth_limit,
            final(self).hub == old(self).hub,
            final(self).registry@ == old(self).registry@.remove(
                old(self).sessions@[token as int].id,
            ),
            !final(self).registry@.contains_key(old(self).sessions@[token as int].id),
            final(self).sessions@.len() == old(self).sessions@.len(),
            forall|j: int|
                0 <= j < old(self).sessions@.len() && j != token ==> final(self).sessions@[j]
                    == old(self).sessions@[j],
            final(self).sessions@[token as int].gate is Terminated,
    {
        let s = self.sessions[token];
        self.registry.remove(s.id);
        self.sessions[token] = Session { id: s.id, gate: GateState::Terminated, sub: s.sub };
        proof {
            let pre = old(self).sessions@;
            let post = self.sessions@;
            assert forall|k: u64| #[trigger] self.registry@.contains_key(k) implies exists|i: int|
                admitted_at(post, i, k) by {
                let i = choose|i: int| admitted_at(pre, i, k);
                assert(i != token as int);
                assert(admitted_at(post, i, k));
            }
            assert forall|i: int|
                0 <= i < post.len() && session_admitted(#[trigger] post[i]) implies self.registry@.contains_key(
                post[i].id,
            ) by {
                assert(i != token as int);
                if pre[i].id == s.id {
                    assert(session_live(pre[i]) && session_live(pre[token as int]));
                }
            }
        }
    }

    /// Poll session `token`'s subscription and render what, if anything, must
    /// be written to its socket: nothing yet, a missed-messages notice, the
    /// next line with its sender resolved — or nothing at all, because a
    /// sender never sees its own message echoed back.
    pub fn poll_delivery(&mut self, token: usize) -> (r: PollResult)
        requires
            old(self).wf(),
            token < old(self).sessions@.len(),
            session_admitted(old(self).sessions@[token as int]),
        ensures
            final(self).wf(),
            final(self).auth_limit == old(self).auth_limit,
            final(self).hub == old(self).hub,
            final(self).registry@ == old(self).registry@,
            final(self).sessions@.len() == old(self).sessions@.len(),
            forall|j: int|
                0 <= j < old(self).sessions@.len() && j != token ==> final(self).sessions@[j]
                    == old(self).sessions@[j],
            final(self).sessions@[token as int].id == old(self).sessions@[token as int].id,
            final(self).sessions@[token as int].gate == old(self).sessions@[token as int].gate,
            ({
                let log = old(self).hub@;
                let p = old(self).sessions@[token as int].sub@;
                let me = old(self).sessions@[token as int].id;
                let q = final(self).sessions@[token as int].sub@;
                &&& (p == log.len() ==> r is Pending && q == p)
                &&& (log.len() - p > old(self).hub.bound() ==> {
                    &&& r matches PollResult::Missed { count, notice } && count == log.len() - p
                        - old(self).hub.bound() && notice@ == lag_notice_text(count as nat)
                    &&& q == log.len() - old(self).hub.bound()
                })
                &&& (p < log.len() && log.len() - p <= old(self).hub.bound() ==> {
                    &&& q == p + 1
                    &&& match delivery_decision(me, log[p], old(self).registry@) {
                        Option::None => r is Skipped,
                        Option::Some(out) => r matches PollResult::Output(line) && line@ == out,
                    }
                })
            }),
    {
        let s = self.sessions[token];
        let mut sub = s.sub;
        let r = self.hub.receive(&mut sub);
        self.sessions[token] = Session { id: s.id, gate: s.gate, sub };
        proof {
            let pre = old(self).sessions@;
            let post = self.sessions@;
            assert forall|k: u64| #[trigger] self.registry@.contains_key(k) implies exists|i: int|
                admitted_at(post, i, k) by {
                let i = choose|i: int| admitted_at(pre, i, k);
                assert(admitted_at(post, i, k));
            }
        }
        match r {
            Reception::Pending => PollResult::Pending,
            Reception::Lagged(missed) => {
                let notice = lag_notice(missed as u64);
                PollResult::Missed { count: missed, notice }
            }
            Reception::Delivered(m) => {
                match render_delivery(s.id, &m, &self.registry) {
                    DeliveryAction::Skip => PollResult::Skipped,
                    DeliveryAction::Write(out) => PollResult::Output(out),
                }
            }
        }
    }
}

/// What one poll of a session's subscription asks the handler to do.
pub enum PollResult {
    /// Nothing new past this session's cursor; a live handler suspends here.
    Pending,
    /// The session lagged: how many messages were dropped for it, and the
    /// notice to write in their place.
    Missed { count: usize, notice: Vec<u8> },
    /// The next entry was this session's own message: discarded, never
    /// echoed back.
    Skipped,
    /// The rendered line to write to this session's socket.
    Output(Vec<u8>),
}

} // verus!
