//! Relay rules: how one connection's steady-state loop reacts to events.
//!
//! The relay loop waits on exactly two events — a line from its own socket,
//! and a message delivered on its own subscription — and this module holds
//! the pure decisions for both: logout detection on the own-line side, and
//! self-filtering plus display-name resolution on the delivery side, together
//! with every line of text those decisions render.

use vstd::prelude::*;
use crate::hub::{Message, MsgModel};
use crate::line::is_logout_line;
use crate::registry::PresenceRegistry;

verus! {

/// ` : ` — the separator between a resolved display name and the text.
pub open spec fn name_separator() -> Seq<u8> {
    seq![32u8, 58u8, 32u8]
}

/// `<name> : <text>`.
pub open spec fn attributed(name: Seq<u8>, text: Seq<u8>) -> Seq<u8> {
    name + name_separator() + text
}

/// Append a byte line to another.
pub fn append_bytes(dst: &mut Vec<u8>, src: &Vec<u8>)
    ensures
        final(dst)@ == old(dst)@ + src@,
{
    let mut k: usize = 0;
    while k < src.len()
        invariant
            k <= src.len(),
            dst@ == old(dst)@ + src@.subrange(0, k as int),
        decreases src.len() - k,
    {
        dst.push(src[k]);
        k = k + 1;
        proof {
            assert(dst@ =~= old(dst)@ + src@.subrange(0, k as int));
        }
    }
    proof {
        assert(old(dst)@ + src@.subrange(0, src.len() as int) =~= old(dst)@ + src@);
    }
}

/// Render a broadcast line prefixed with its sender's resolved display name.
pub fn format_attributed(name: &Vec<u8>, text: &Vec<u8>) -> (r: Vec<u8>)
    ensures
        r@ == attributed(name@, text@),
{
    let mut r = crate::line::copy_bytes(name);
    r.push(32);
    r.push(58);
    r.push(32);
    append_bytes(&mut r, text);
    proof {
        assert(r@ =~= attributed(name@, text@));
    }
    r
}

/// The decimal digits of a number.
pub open spec fn decimal(n: nat) -> Seq<u8>
    decreases n,
{
    if n < 10 {
        seq![(48 + n) as u8]
    } else {
        decimal(n / 10).push((48 + n % 10) as u8)
    }
}

/// Render a number in decimal.
pub fn render_decimal(n: u64) -> (r: Vec<u8>)
    ensures
        r@ == decimal(n as nat),
    decreases n,
{
    if n < 10 {
        let mut r: Vec<u8> = Vec::new();
        r.push(48 + n as u8);
        proof {
            assert(r@ =~= decimal(n as nat));
        }
        r
    } else {
        let mut r = render_decimal(n / 10);
        r.push(48 + (n % 10) as u8);
        r
    }
}

/// `you missed `.
pub open spec fn missed_prefix() -> Seq<u8> {
    seq![121u8, 111u8, 117u8, 32u8, 109u8, 105u8, 115u8, 115u8, 101u8, 100u8, 32u8]
}

/// ` messages` and a newline.
pub open spec fn missed_suffix() -> Seq<u8> {
    seq![32u8, 109u8, 101u8, 115u8, 115u8, 97u8, 103u8, 101u8, 115u8, 10u8]
}

/// `you missed <count> messages` — written to a lagged subscriber in place
/// of the dropped entries.
pub open spec fn lag_notice_text(missed: nat) -> Seq<u8> {
    missed_prefix() + decimal(missed) + missed_suffix()
}

/// Render the missed-messages notice for a lagged subscriber.
pub fn lag_notice(missed: u64) -> (r: Vec<u8>)
    ensures
        r@ == lag_notice_text(missed as nat),
{
    let mut r: Vec<u8> = Vec::new();
    r.push(121);
    r.push(111);
    r.push(117);
    r.push(32);
    r.push(109);
    r.push(105);
    r.push(115);
    r.push(115);
    r.push(101);
    r.push(100);
    r.push(32);
    proof {
        assert(r@ =~= missed_prefix());
    }
    let digits = render_decimal(missed);
    append_bytes(&mut r, &digits);
    r.push(32);
    r.push(109);
    r.push(101);
    r.push(115);
    r.push(115);
    r.push(97);
    r.push(103);
    r.push(101);
    r.push(115);
    r.push(10);
    proof {
        assert(r@ =~= lag_notice_text(missed as nat));
    }
    r
}

/// ` joined` and a newline.
pub open spec fn joined_suffix() -> Seq<u8> {
    seq![32u8, 106u8, 111u8, 105u8, 110u8, 101u8, 100u8, 10u8]
}

/// The arrival notice published when a session opens: the joiner's name and
/// ` joined`.
pub open spec fn arrival_text(name: Seq<u8>) -> Seq<u8> {
    name + joined_suffix()
}

/// Render the arrival notice for a fresh session.
pub fn arrival_notice(name: &Vec<u8>) -> (r: Vec<u8>)
    ensures
        r@ == arrival_text(name@),
{
    let mut r = crate::line::copy_bytes(name);
    r.push(32);
    r.push(106);
    r.push(111);
    r.push(105);
    r.push(110);
    r.push(101);
    r.push(100);
    r.push(10);
    proof {
        assert(r@ =~= arrival_text(name@));
    }
    r
}

/// ` left` and a newline.
pub open spec fn left_suffix() -> Seq<u8> {
    seq![32u8, 108u8, 101u8, 102u8, 116u8, 10u8]
}

/// The departure notice published on graceful logout: the leaver's name and
/// ` left`.
pub open spec fn departure_text(name: Seq<u8>) -> Seq<u8> {
    name + left_suffix()
}

/// Render the departure notice for a graceful logout.
pub fn departure_notice(name: &Vec<u8>) -> (r: Vec<u8>)
    ensures
        r@ == departure_text(name@),
{
    let mut r = crate::line::copy_bytes(name);
    r.push(32);
    r.push(108);
    r.push(101);
    r.push(102);
    r.push(116);
    r.push(10);
    proof {
        assert(r@ =~= departure_text(name@));
    }
    r
}

/// What the relay loop does with one line read from its own socket.
#[derive(Clone, Copy, Debug, PartialEq, Eq, Structural)]
pub enum OwnLineDirective {
    /// The logout command: remove the sender from the registry, announce the
    /// departure, and close this connection.
    Logout,
    /// Any other line: publish it to the hub and keep going.
    Publish,
}

/// Classify one line read from the connection's own socket.
pub fn classify_own_line(line: &Vec<u8>) -> (d: OwnLineDirective)
    ensures
        d is Logout <==> is_logout_line(line@),
{
    if crate::line::is_logout(line) {
        OwnLineDirective::Logout
    } else {
        OwnLineDirective::Publish
    }
}

/// What one delivered message becomes for a given subscriber: nothing (the
/// subscriber's own message is never echoed back), or the bytes to write —
/// with the sender's resolved display name when it is present in the
/// registry, the raw text otherwise.
pub open spec fn delivery_decision(me: u64, m: MsgModel, reg: Map<u64, Seq<u8>>) -> Option<
    Seq<u8>,
> {
    if m.origin == me {
        None
    } else if reg.contains_key(m.origin) {
        Some(attributed(reg[m.origin], m.text))
    } else {
        Some(m.text)
    }
}

/// What the relay loop does with one delivered message.
pub enum DeliveryAction {
    /// The subscriber's own message: discarded, never echoed back.
    Skip,
    /// Bytes to write to the subscriber's socket.
    Write(Vec<u8>),
}

/// Decide and render one delivered message for subscriber `me`.
pub fn render_delivery(me: u64, m: &Message, reg: &PresenceRegistry) -> (a: DeliveryAction)
    ensures
        match a {
            DeliveryAction::Skip => delivery_decision(me, m@, reg@) is None,
            DeliveryAction::Write(out) => delivery_decision(me, m@, reg@) == Some(out@),
        },
{
    if m.origin == me {
        DeliveryAction::Skip
    } else {
        match reg.lookup(m.origin) {
            Some(name) => DeliveryAction::Write(format_attributed(name, &m.text)),
            None => DeliveryAction::Write(crate::line::copy_bytes(&m.text)),
        }
    }
}

} // verus!
