//! System-wide laws of the chat core, stated and proved over its model.
//!
//! Each law here speaks of an arbitrary well-formed core state, not of one
//! scenario; the per-step guarantees live in the contracts of the step
//! functions themselves.

use vstd::prelude::*;
use crate::relay::{attributed, delivery_decision};
use crate::server::{
    ChatCore, Session, admitted_at, ids_unique, session_admitted, session_live,
};

verus! {

/// How many sessions are open and authenticated.
pub open spec fn count_admitted(ss: Seq<Session>) -> nat
    decreases ss.len(),
{
    if ss.len() == 0 {
        0
    } else {
        count_admitted(ss.drop_last()) + if session_admitted(ss.last()) {
            1nat
        } else {
            0nat
        }
    }
}

/// The identities of the open, authenticated sessions.
spec fn admitted_ids(ss: Seq<Session>) -> Set<u64>
    decreases ss.len(),
{
    if ss.len() == 0 {
        Set::empty()
    } else if session_admitted(ss.last()) {
        admitted_ids(ss.drop_last()).insert(ss.last().id)
    } else {
        admitted_ids(ss.drop_last())
    }
}

proof fn lemma_admitted_ids(ss: Seq<Session>)
    requires
        ids_unique(ss),
    ensures
        admitted_ids(ss).finite(),
        forall|k: u64| #[trigger]
            admitted_ids(ss).contains(k) <==> exists|i: int| admitted_at(ss, i, k),
        admitted_ids(ss).len() == count_admitted(ss),
    decreases ss.len(),
{
    if ss.len() > 0 {
        let pre = ss.drop_last();
        let last = ss.last();
        let n = ss.len() - 1;
        assert(forall|i: int| 0 <= i < n ==> pre[i] == ss[i]);
        lemma_admitted_ids(pre);
        assert forall|k: u64| (exists|i: int| admitted_at(ss, i, k)) implies (
        admitted_ids(pre).contains(k) || (session_admitted(last) && last.id == k)) by {
            let i = choose|i: int| admitted_at(ss, i, k);
            if i < n {
                assert(admitted_at(pre, i, k));
            }
        }
        assert forall|k: u64| (admitted_ids(pre).contains(k) || (session_admitted(last) && last.id
            == k)) implies (exists|i: int| admitted_at(ss, i, k)) by {
            if admitted_ids(pre).contains(k) {
                let i = choose|i: int| admitted_at(pre, i, k);
                assert(admitted_at(ss, i, k));
            } else {
                assert(admitted_at(ss, n, k));
            }
        }
        if session_admitted(last) {
            assert(!admitted_ids(pre).contains(last.id)) by {
                if admitted_ids(pre).contains(last.id) {
                    let i = choose|i: int| admitted_at(pre, i, last.id);
                    assert(session_live(ss[i]) && session_live(ss[n]));
                    assert(false);
                }
            }
        }
    }
}

/// Law: at any point with no step in flight, the size of the presence
/// registry equals the number of currently open, authenticated connections.
pub proof fn lemma_registry_size_matches_presence(c: ChatCore)
    requires
        c.wf(),
    ensures
        c.registry@.dom().len() == count_admitted(c.sessions@),
{
    let ss = c.sessions@;
    lemma_admitted_ids(ss);
    assert forall|k: u64| #[trigger] c.registry@.dom().contains(k) implies admitted_ids(
        ss,
    ).contains(k) by {
        assert(c.registry@.contains_key(k));
    }
    assert forall|k: u64| #[trigger] admitted_ids(ss).contains(k) implies c.registry@.dom()
        .contains(k) by {
        let i = choose|i: int| admitted_at(ss, i, k);
        assert(session_admitted(ss[i]));
    }
    assert(c.registry@.dom() =~= admitted_ids(ss));
}

/// Law: a message published by an admitted client is rendered for every
/// other admitted client with the sender's resolved display name in front,
/// and is never rendered for the sender itself.
pub proof fn lemma_fanout_attribution(c: ChatCore, sender: int, receiver: int, p: int)
    requires
        c.wf(),
        0 <= sender < c.sessions@.len(),
        0 <= receiver < c.sessions@.len(),
        session_admitted(c.sessions@[sender]),
        session_admitted(c.sessions@[receiver]),
        0 <= p < c.hub@.len(),
        c.hub@[p].origin == c.sessions@[sender].id,
    ensures
        delivery_decision(c.sessions@[sender].id, c.hub@[p], c.registry@) is None,
        c.sessions@[receiver].id != c.sessions@[sender].id ==> delivery_decision(
            c.sessions@[receiver].id,
            c.hub@[p],
            c.registry@,
        ) == Some(attributed(c.registry@[c.sessions@[sender].id], c.hub@[p].text)),
{
    assert(session_admitted(c.sessions@[sender]));
    assert(c.registry@.contains_key(c.sessions@[sender].id));
}

/// Law: removing the sender's identity on logout affects exactly that
/// identity: it is gone afterwards, and every other registry entry is kept,
/// name and all.
pub proof fn lemma_logout_removes_exactly_sender(reg: Map<u64, Seq<u8>>, id: u64)
    ensures
        !reg.remove(id).contains_key(id),
        forall|k: u64| k != id ==> (#[trigger] reg.remove(id).contains_key(k)
            <==> reg.contains_key(k)),
        forall|k: u64| k != id && reg.contains_key(k) ==> reg.remove(id)[k] == reg[k],
{
}

} // verus!
