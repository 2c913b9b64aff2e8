//! Callbacks subscribed to the advances of a manual clock.
use crate::clock_domain::{allocate_identifier, identifier_issued, spec_next_identifier_state};
use crate::waiter_registry::keys_of;
use std::collections::HashMap;
use vstd::prelude::*;

verus! {

broadcast use vstd::std_specs::hash::group_hash_axioms;

/// Subscribed callbacks keyed by subscriber identifier.
///
/// Identifiers are handed out once each and never reused.
pub struct ManualAdvanceRegistry<C> {
    next_subscriber_id: u64,
    subscribers: HashMap<u64, C>,
}

impl<C: Clone> ManualAdvanceRegistry<C> {
    /// The subscribed callbacks, keyed by identifier.
    pub closed spec fn subscribers(self) -> Map<u64, C> {
        self.subscribers@
    }

    /// The next subscriber identifier; zero once exhausted.
    pub closed spec fn next_id(self) -> u64 {
        self.next_subscriber_id
    }

    /// Every subscribed identifier was issued by the allocator.
    pub open spec fn wf(self) -> bool {
        forall|id: u64| #[trigger] self.subscribers().contains_key(id) ==> identifier_issued(self.next_id(), id)
    }

    /// Creates an empty registry whose first identifier is one.
    pub fn new() -> (r: Self)
        ensures
            r.wf(),
            r.subscribers().is_empty(),
            r.next_id() == 1,
    {
        ManualAdvanceRegistry { next_subscriber_id: 1, subscribers: HashMap::new() }
    }

    /// Whether another subscriber identifier can still be handed out.
    pub fn ids_available(&self) -> (r: bool)
        ensures
            r == (self.next_id() != 0),
    {
        self.next_subscriber_id != 0
    }

    /// Subscribes `callback` and returns its new identifier.
    ///
    /// The identifier space must not be exhausted.
    pub fn register(&mut self, callback: C) -> (id: u64)
        requires
            old(self).wf(),
            old(self).next_id() != 0,
        ensures
            final(self).wf(),
            id == old(self).next_id(),
            !old(self).subscribers().contains_key(id),
            final(self).subscribers() == old(self).subscribers().insert(id, callback),
            Some(final(self).next_id()) == spec_next_identifier_state(old(self).next_id()),
    {
        let ghost old_next = self.next_subscriber_id;
        let id = match allocate_identifier(&mut self.next_subscriber_id) {
            Some(v) => v,
            None => 0,
        };
        self.subscribers.insert(id, callback);
        proof {
            assert forall|i: u64| #[trigger] self.subscribers().contains_key(i) implies identifier_issued(self.next_id(), i) by {
                if i != id {
                    assert(old(self).subscribers().contains_key(i));
                    crate::clock_domain::lemma_allocation_is_fresh(old_next, i);
                }
            }
        }
        id
    }

    /// Unsubscribes `subscriber_id` and returns its callback, or `None` when
    /// it was not subscribed.
    pub fn unregister(&mut self, subscriber_id: u64) -> (r: Option<C>)
        requires
            old(self).wf(),
        ensures
            final(self).wf(),
            final(self).subscribers() == old(self).subscribers().remove(subscriber_id),
            final(self).next_id() == old(self).next_id(),
            r == (if old(self).subscribers().contains_key(subscriber_id) { Some(old(self).subscribers()[subscriber_id]) } else { None }),
    {
        let removed = self.subscribers.remove(&subscriber_id);
        proof {
            assert forall|i: u64| #[trigger] self.subscribers().contains_key(i) implies identifier_issued(self.next_id(), i) by {
                assert(old(self).subscribers().contains_key(i));
            }
        }
        removed
    }

    /// Returns a clone of every subscribed callback, each once, in no
    /// particular order.
    pub fn callbacks(&self) -> (r: Vec<C>)
        ensures
            exists|ids: Seq<u64>| {
                &&& ids.len() == r@.len()
                &&& ids.no_duplicates()
                &&& ids.to_set() == self.subscribers().dom()
                &&& forall|i: int| 0 <= i < ids.len() ==> cloned::<C>(self.subscribers()[#[trigger] ids[i]], r@[i])
            },
    {
        let ids = keys_of(&self.subscribers);
        let mut out: Vec<C> = Vec::new();
        let mut i: usize = 0;
        while i < ids.len()
            invariant
                0 <= i <= ids.len(),
                out@.len() == i,
                ids@.to_set() == self.subscribers().dom(),
                ids@.no_duplicates(),
                forall|k: int| 0 <= k < i ==> cloned::<C>(self.subscribers()[#[trigger] ids@[k]], out@[k]),
            decreases ids.len() - i,
        {
            let id = ids[i];
            assert(ids@.to_set().contains(id));
            match self.subscribers.get(&id) {
                Some(callback) => {
                    out.push(callback.clone());
                },
                None => {
                    assert(false);
                },
            }
            i = i + 1;
        }
        out
    }
}

} // verus!
