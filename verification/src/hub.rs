//! The fan-out hub: one shared, bounded, multi-producer broadcast queue.
//!
//! The hub is modelled by its full publish log together with one private
//! cursor per subscription. Every publish is visible, in publish order, to
//! every subscription that existed at publish time; a subscription created
//! after a publish never observes it. The bound shows up as the lag limit: a
//! subscriber that falls behind by more than the bound has the oldest entries
//! dropped on its behalf and is handed the count of missed messages instead.

use vstd::prelude::*;

verus! {

/// One broadcast entry: a line of text and the identity that published it.
pub struct Message {
    pub origin: u64,
    pub text: Vec<u8>,
}

/// Mathematical model of a [`Message`].
pub struct MsgModel {
    pub origin: u64,
    pub text: Seq<u8>,
}

impl View for Message {
    type V = MsgModel;

    open spec fn view(&self) -> MsgModel {
        MsgModel { origin: self.origin, text: self.text@ }
    }
}

/// An independent consumption cursor into the hub.
///
/// Its view is the position in the publish log of the next message this
/// subscription will observe.
#[derive(Clone, Copy)]
pub struct Subscription {
    next: usize,
}

impl View for Subscription {
    type V = int;

    closed spec fn view(&self) -> int {
        self.next as int
    }
}

/// What a subscriber observes when it polls its subscription.
pub enum Reception {
    /// Nothing published past this cursor yet; a live consumer suspends here
    /// until the next publish.
    Pending,
    /// The subscriber fell behind by more than the hub's bound: the oldest
    /// entries were dropped on its behalf, and only the count of missed
    /// messages is surfaced.
    Lagged(usize),
    /// The next message, in publish order across all producers.
    Delivered(Message),
}

/// The shared fan-out queue. `publish` never blocks; each subscription pays
/// for falling behind on its own.
pub struct Broadcaster {
    capacity: usize,
    log: Vec<Message>,
}

impl View for Broadcaster {
    type V = Seq<MsgModel>;

    closed spec fn view(&self) -> Seq<MsgModel> {
        self.log@.map_values(|m: Message| m@)
    }
}

impl Broadcaster {
    /// The backlog bound: how far a subscription may fall behind before it
    /// is declared lagged.
    pub closed spec fn bound(self) -> int {
        self.capacity as int
    }

    /// A hub with the given backlog bound and an empty publish log.
    pub fn new(capacity: usize) -> (r: Self)
        requires
            capacity >= 1,
        ensures
            r@ == Seq::<MsgModel>::empty(),
            r.bound() == capacity,
    {
        let r = Broadcaster { capacity, log: Vec::new() };
        proof {
            assert(r@ =~= Seq::<MsgModel>::empty());
        }
        r
    }

    /// The backlog bound, as configured at construction.
    pub fn capacity(&self) -> (c: usize)
        ensures
            c == self.bound(),
    {
        self.capacity
    }

    /// How many messages have been published so far.
    pub fn len(&self) -> (n: usize)
        ensures
            n == self@.len(),
    {
        self.log.len()
    }

    /// Enqueue a message for every current subscription; never blocks on a
    /// slow subscriber.
    pub fn publish(&mut self, m: Message)
        ensures
            final(self)@ == old(self)@.push(m@),
            final(self).bound() == old(self).bound(),
    {
        self.log.push(m);
        proof {
            assert(self@ =~= old(self)@.push(m@));
        }
    }

    /// A new independent cursor that starts at the end of the log: it sees
    /// only future publishes, never a replay.
    pub fn subscribe(&self) -> (s: Subscription)
        ensures
            s@ == self@.len(),
    {
        Subscription { next: self.log.len() }
    }

    /// Poll a subscription: the next message in publish order, a lag signal
    /// with the count of dropped messages, or nothing yet.
    pub fn receive(&self, sub: &mut Subscription) -> (r: Reception)
        requires
            old(sub)@ <= self@.len(),
        ensures
            final(sub)@ <= self@.len(),
            final(sub)@ >= old(sub)@,
            old(sub)@ == self@.len() ==> {
                &&& r is Pending
                &&& final(sub)@ == old(sub)@
            },
            self@.len() - old(sub)@ > self.bound() ==> {
                &&& r matches Reception::Lagged(missed) && missed == self@.len() - old(sub)@
                    - self.bound()
                &&& final(sub)@ == self@.len() - self.bound()
            },
            old(sub)@ < self@.len() && self@.len() - old(sub)@ <= self.bound() ==> {
                &&& r matches Reception::Delivered(m) && m@ == self@[old(sub)@]
                &&& final(sub)@ == old(sub)@ + 1
            },
    {
        let n = self.log.len();
        let p = sub.next;
        if p == n {
            Reception::Pending
        } else if n - p > self.capacity {
            let missed = n - p - self.capacity;
            sub.next = n - self.capacity;
            Reception::Lagged(missed)
        } else {
            let origin = self.log[p].origin;
            let text = crate::line::copy_bytes(&self.log[p].text);
            sub.next = p + 1;
            Reception::Delivered(Message { origin, text })
        }
    }
}

} // verus!
