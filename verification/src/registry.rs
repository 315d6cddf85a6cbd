//! The shared presence registry: connection identity to display name.
//!
//! An entry exists for an identity exactly while that identity has an open,
//! authenticated session. The process sharing this map across connection
//! handlers guards it with one lock held only for the duration of a single
//! operation, never across an I/O suspension point; each operation here is
//! one such critical section.

use std::collections::HashMap;
use vstd::prelude::*;

verus! {

broadcast use vstd::std_specs::hash::group_hash_axioms;

/// Mapping from connection identity to display name.
///
/// The identity is the numeric form of the connection's remote endpoint,
/// unique per live session; the display name is a byte line.
pub struct PresenceRegistry {
    entries: HashMap<u64, Vec<u8>>,
}

impl View for PresenceRegistry {
    type V = Map<u64, Seq<u8>>;

    closed spec fn view(&self) -> Map<u64, Seq<u8>> {
        self.entries@.map_values(|n: Vec<u8>| n@)
    }
}

impl PresenceRegistry {
    /// An empty registry: nobody is present.
    pub fn new() -> (r: Self)
        ensures
            r@ == Map::<u64, Seq<u8>>::empty(),
    {
        let entries: HashMap<u64, Vec<u8>> = HashMap::new();
        let r = PresenceRegistry { entries };
        proof {
            assert(r@ =~= Map::<u64, Seq<u8>>::empty());
        }
        r
    }

    /// Whether an identity is currently present.
    pub fn contains(&self, id: u64) -> (r: bool)
        ensures
            r == self@.contains_key(id),
    {
        self.entries.contains_key(&id)
    }

    /// Record the display name for an identity.
    ///
    /// Authentication happens once per session, so the identity must not be
    /// present yet.
    pub fn insert(&mut self, id: u64, name: Vec<u8>)
        requires
            !old(self)@.contains_key(id),
        ensures
            final(self)@ == old(self)@.insert(id, name@),
    {
        self.entries.insert(id, name);
        proof {
            assert(self@ =~= old(self)@.insert(id, name@));
        }
    }

    /// Resolve an identity to its display name; non-blocking read.
    pub fn lookup(&self, id: u64) -> (r: Option<&Vec<u8>>)
        ensures
            match r {
                Some(name) => self@.contains_key(id) && name@ == self@[id],
                None => !self@.contains_key(id),
            },
    {
        let r = self.entries.get(&id);
        proof {
            match r {
                Some(name) => {
                    assert(self.entries@.contains_key(id) && self.entries@[id] == *name);
                }
                None => {
                    assert(!self.entries@.contains_key(id));
                }
            }
        }
        r
    }

    /// Forget an identity; removing an absent identity is a no-op, not an
    /// error.
    pub fn remove(&mut self, id: u64)
        ensures
            final(self)@ == old(self)@.remove(id),
            !final(self)@.contains_key(id),
    {
        self.entries.remove(&id);
        proof {
            assert(self@ =~= old(self)@.remove(id));
        }
    }

    /// How many identities are present.
    pub fn len(&self) -> (n: usize)
        ensures
            n == self@.dom().len(),
    {
        let n = self.entries.len();
        proof {
            assert(self@.dom() =~= self.entries@.dom());
        }
        n
    }
}

} // verus!
