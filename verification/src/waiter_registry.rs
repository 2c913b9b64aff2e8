//! Deadline waiters and waiter-count observers of a manual monotonic clock.
use crate::clock_domain::{allocate_identifier, identifier_issued, spec_next_identifier_state};
use std::collections::HashMap;
use std::task::Waker;
use vstd::prelude::*;
use vstd::std_specs::iter::IteratorSpec;

verus! {

broadcast use vstd::std_specs::hash::group_hash_axioms;

/// The standard task waker, carried opaquely by registrations.
#[verifier::external_type_specification]
#[verifier::external_body]
pub struct ExWaker(Waker);

/// Asks `Waker::will_wake` whether `registered` would wake the same task as
/// `candidate`.
///
/// Trusted for nothing: the answer depends on the wakers' addresses, so no
/// clause states it.
#[verifier::external_body]
fn waker_will_wake(registered: &Waker, candidate: &Waker) -> bool {
    registered.will_wake(candidate)
}

/// Clones a waker through `<Waker as Clone>::clone`.
///
/// Trusted for nothing: the clone is a new handle to the same task, which
/// the verifier cannot observe, so no clause states it.
#[verifier::external_body]
fn waker_clone(waker: &Waker) -> Waker {
    waker.clone()
}

/// One registered timer deadline.
pub struct TimerWaiter {
    /// Deadline as nanoseconds from the clock domain's origin.
    pub deadline: u128,
    /// Task waker stored by the most recent pending poll, if any.
    pub waker: Option<Waker>,
}

/// One observer waiting for the waiter count to reach a threshold.
pub struct CountObserver {
    /// Waiter count at which the observer becomes ready.
    pub expected_count: usize,
    /// Task waker stored by the most recent pending poll, if any.
    pub waker: Option<Waker>,
}

/// Whether some waiter in `timers` has a deadline strictly after `elapsed`.
pub open spec fn has_future_deadline(timers: Map<u64, TimerWaiter>, elapsed: u128) -> bool {
    exists|id: u64| #[trigger] timers.contains_key(id) && timers[id].deadline > elapsed
}

/// Whether `d` is the earliest deadline in `timers` strictly after `elapsed`.
pub open spec fn is_next_future_deadline(timers: Map<u64, TimerWaiter>, elapsed: u128, d: u128) -> bool {
    &&& d > elapsed
    &&& exists|id: u64| #[trigger] timers.contains_key(id) && timers[id].deadline == d
    &&& forall|id: u64| #[trigger] timers.contains_key(id) && timers[id].deadline > elapsed ==> d <= timers[id].deadline
}

/// The earliest deadline in `timers` strictly after `elapsed`, if any.
pub open spec fn next_future_deadline_of(timers: Map<u64, TimerWaiter>, elapsed: u128) -> Option<u128> {
    if has_future_deadline(timers, elapsed) {
        Some(choose|d: u128| is_next_future_deadline(timers, elapsed, d))
    } else {
        None
    }
}

/// The earliest future deadline is unique, so it is what
/// `next_future_deadline_of` reports.
pub proof fn lemma_next_future_deadline_unique(timers: Map<u64, TimerWaiter>, elapsed: u128, d: u128)
    requires
        is_next_future_deadline(timers, elapsed, d),
    ensures
        next_future_deadline_of(timers, elapsed) == Some(d),
{
    let id = choose|id: u64| #[trigger] timers.contains_key(id) && timers[id].deadline == d;
    assert(timers.contains_key(id) && timers[id].deadline > elapsed);
    let e = choose|e: u128| is_next_future_deadline(timers, elapsed, e);
    assert(is_next_future_deadline(timers, elapsed, e));
    let id2 = choose|id2: u64| #[trigger] timers.contains_key(id2) && timers[id2].deadline == e;
    assert(timers.contains_key(id2) && timers[id2].deadline > elapsed);
}

/// A finite set of registrations with a future deadline has an earliest one.
pub proof fn lemma_has_future_deadline_min(timers: Map<u64, TimerWaiter>, elapsed: u128)
    requires
        timers.dom().finite(),
        has_future_deadline(timers, elapsed),
    ensures
        exists|d: u128| is_next_future_deadline(timers, elapsed, d),
    decreases timers.dom().len(),
{
    let id = choose|id: u64| #[trigger] timers.contains_key(id) && timers[id].deadline > elapsed;
    let rest = timers.remove(id);
    timers.lemma_remove_key_len(id);
    let own = timers[id].deadline;
    if has_future_deadline(rest, elapsed) {
        lemma_has_future_deadline_min(rest, elapsed);
        let d = choose|d: u128| is_next_future_deadline(rest, elapsed, d);
        let m = if d < own { d } else { own };
        assert forall|j: u64| #[trigger] timers.contains_key(j) && timers[j].deadline > elapsed implies m <= timers[j].deadline by {
            if j != id {
                assert(rest.contains_key(j));
            }
        }
        if d < own {
            let k = choose|k: u64| #[trigger] rest.contains_key(k) && rest[k].deadline == d;
            assert(timers.contains_key(k));
        }
        assert(is_next_future_deadline(timers, elapsed, m));
    } else {
        assert forall|j: u64| #[trigger] timers.contains_key(j) && timers[j].deadline > elapsed implies own <= timers[j].deadline by {
            if j != id {
                assert(rest.contains_key(j));
            }
        }
        assert(is_next_future_deadline(timers, elapsed, own));
    }
}

/// `wakers` lists, each once and in some order, exactly the stored wakers
/// that `stored` holds for the identifiers selected by `chosen`.
pub open spec fn lists_wakers_of(
    wakers: Seq<Waker>,
    ids: Seq<u64>,
    stored: Map<u64, Option<Waker>>,
    chosen: Set<u64>,
) -> bool {
    &&& ids.len() == wakers.len()
    &&& ids.no_duplicates()
    &&& forall|i: int| 0 <= i < ids.len() ==> chosen.contains(#[trigger] ids[i]) && stored.contains_key(ids[i]) && stored[ids[i]] == Some(wakers[i])
    &&& forall|id: u64| chosen.contains(id) && stored.contains_key(id) && (#[trigger] stored[id]) is Some ==> ids.contains(id)
}

/// The stored wakers of timer waiters, keyed by waiter identifier.
pub open spec fn timer_wakers(timers: Map<u64, TimerWaiter>) -> Map<u64, Option<Waker>> {
    Map::new(|id: u64| timers.contains_key(id), |id: u64| timers[id].waker)
}

/// The identifiers of timer waiters whose deadlines were reached at `elapsed`.
pub open spec fn due_timer_ids(timers: Map<u64, TimerWaiter>, elapsed: u128) -> Set<u64> {
    Set::new(|id: u64| timers.contains_key(id) && timers[id].deadline <= elapsed)
}

/// `new_slot` holds a waker after a pending poll: either the registered
/// waker was kept and nothing was replaced, or the registered slot content
/// was handed back as `replaced`.
pub open spec fn waker_refreshed(old_slot: Option<Waker>, new_slot: Option<Waker>, replaced: Option<Waker>) -> bool {
    &&& new_slot is Some
    &&& (replaced is None && new_slot == old_slot) || replaced == old_slot
}

/// Stores `candidate` unless the waker in `slot` already wakes the same task.
///
/// Returns the new slot content and the replaced waker, which the caller must
/// destroy after releasing the clock state lock.
fn refresh_waker(slot: Option<Waker>, candidate: &Waker) -> (r: (Option<Waker>, Option<Waker>))
    ensures
        waker_refreshed(slot, r.0, r.1),
{
    match slot {
        Some(registered) => {
            if waker_will_wake(&registered, candidate) {
                (Some(registered), None)
            } else {
                (Some(waker_clone(candidate)), Some(registered))
            }
        },
        None => (Some(waker_clone(candidate)), None),
    }
}

/// The stored wakers of all observers, keyed by observer identifier.
pub open spec fn observer_wakers(counters: Map<u64, CountObserver>, watchers: Map<u64, Option<Waker>>) -> Map<u64, Option<Waker>> {
    Map::new(
        |id: u64| counters.contains_key(id) || watchers.contains_key(id),
        |id: u64| if counters.contains_key(id) { counters[id].waker } else { watchers[id] },
    )
}

/// The observers that a registry with `count` timer waiters and the given
/// future-deadline state has satisfied.
pub open spec fn reached_observer_ids(
    counters: Map<u64, CountObserver>,
    watchers: Map<u64, Option<Waker>>,
    count: nat,
    future: bool,
) -> Set<u64> {
    Set::new(|id: u64| (counters.contains_key(id) && counters[id].expected_count <= count) || (future && watchers.contains_key(id)))
}

/// The count observers that a registry with `count` timer waiters has not
/// yet satisfied.
pub open spec fn pending_counters(counters: Map<u64, CountObserver>, count: nat) -> Map<u64, CountObserver> {
    Map::new(|id: u64| counters.contains_key(id) && counters[id].expected_count > count, |id: u64| counters[id])
}

/// Selecting one more identifier extends a waker listing by that
/// identifier's stored waker, if it holds one.
proof fn lemma_lists_wakers_extend(wakers: Seq<Waker>, ids: Seq<u64>, stored: Map<u64, Option<Waker>>, chosen: Set<u64>, id: u64)
    requires
        lists_wakers_of(wakers, ids, stored, chosen),
        !chosen.contains(id),
        stored.contains_key(id),
    ensures
        stored[id] matches Some(w) ==> lists_wakers_of(wakers.push(w), ids.push(id), stored, chosen.insert(id)),
        stored[id] is None ==> lists_wakers_of(wakers, ids, stored, chosen.insert(id)),
{
    assert(!ids.contains(id)) by {
        if ids.contains(id) {
            let k = ids.index_of(id);
            assert(chosen.contains(ids[k]));
        }
    }
    match stored[id] {
        Some(w) => {
            let nw = wakers.push(w);
            let ni = ids.push(id);
            let nc = chosen.insert(id);
            assert forall|k: int| 0 <= k < ni.len() implies nc.contains(#[trigger] ni[k]) && stored.contains_key(ni[k]) && stored[ni[k]] == Some(nw[k]) by {
                if k < ids.len() {
                    assert(ni[k] == ids[k]);
                    assert(nw[k] == wakers[k]);
                }
            }
            assert forall|j: u64| nc.contains(j) && stored.contains_key(j) && (#[trigger] stored[j]) is Some implies ni.contains(j) by {
                if j == id {
                    assert(ni[ni.len() - 1] == id);
                } else {
                    let k = ids.index_of(j);
                    assert(ni[k] == j);
                }
            }
        },
        None => {
        },
    }
}

/// Collects the keys of `m`, each once.
pub(crate) fn keys_of<V>(m: &HashMap<u64, V>) -> (r: Vec<u64>)
    ensures
        r@.to_set() == m@.dom(),
        r@.no_duplicates(),
{
    let mut r: Vec<u64> = Vec::new();
    let keys = m.keys();
    let ghost all = keys.remaining().unref();
    for k in it: keys
        invariant
            all == it.seq().unref(),
            r@ == all.take(it.index()),
            all.to_set() == m@.dom(),
            all.no_duplicates(),
    {
        r.push(*k);
        assert(all.take(it.index() + 1) == all.take(it.index()).push(*k));
    }
    assert(r@ == all);
    r
}

/// `after` is `before` with the wakers of the waiters due at `elapsed`
/// detached, and `wakers` lists exactly those detached wakers.
pub open spec fn due_wakers_taken(before: ManualWaiterRegistry, after: ManualWaiterRegistry, elapsed: u128, wakers: Seq<Waker>) -> bool {
    &&& after.wf()
    &&& after.timers().dom() == before.timers().dom()
    &&& forall|id: u64| #[trigger] after.timers().contains_key(id) ==> {
        &&& after.timers()[id].deadline == before.timers()[id].deadline
        &&& after.timers()[id].waker == (if before.timers()[id].deadline <= elapsed { None } else { before.timers()[id].waker })
    }
    &&& after.next_timer_id() == before.next_timer_id()
    &&& after.observers_unchanged(before)
    &&& exists|ids: Seq<u64>| lists_wakers_of(wakers, ids, timer_wakers(before.timers()), due_timer_ids(before.timers(), elapsed))
}

/// `after` is `before` with the observers satisfied by its waiter count
/// removed and, when a future deadline exists at `elapsed`, every deadline
/// observer's waker detached; `wakers` lists exactly the detached wakers.
pub open spec fn reached_observers_taken(before: ManualWaiterRegistry, after: ManualWaiterRegistry, elapsed: u128, wakers: Seq<Waker>) -> bool {
    &&& after.wf()
    &&& after.timers_unchanged(before)
    &&& after.next_observer() == before.next_observer()
    &&& after.counters() == pending_counters(before.counters(), before.spec_count())
    &&& has_future_deadline(before.timers(), elapsed) ==> {
        &&& after.watchers().dom() == before.watchers().dom()
        &&& forall|j: u64| #[trigger] after.watchers().contains_key(j) ==> after.watchers()[j] is None
    }
    &&& !has_future_deadline(before.timers(), elapsed) ==> after.watchers() == before.watchers()
    &&& exists|ids: Seq<u64>| lists_wakers_of(
        wakers,
        ids,
        observer_wakers(before.counters(), before.watchers()),
        reached_observer_ids(before.counters(), before.watchers(), before.spec_count(), has_future_deadline(before.timers(), elapsed)),
    )
}

/// Waiters registered against one manual monotonic timeline.
pub struct ManualWaiterRegistry {
    /// Next identifier assigned to a timer waiter; zero once exhausted.
    next_timer_waiter_id: u64,
    /// Timer deadlines and optional task wakers keyed by registration ID.
    timer_waiters: HashMap<u64, TimerWaiter>,
    /// Next identifier assigned to an observer; zero once exhausted.
    next_observer_id: u64,
    /// Waiter-count observers keyed by registration identifier.
    count_observers: HashMap<u64, CountObserver>,
    /// Future-deadline observer wakers keyed by registration identifier.
    deadline_observers: HashMap<u64, Option<Waker>>,
}

impl ManualWaiterRegistry {
    /// Registered timer waiters keyed by identifier.
    pub closed spec fn timers(self) -> Map<u64, TimerWaiter> {
        self.timer_waiters@
    }

    /// Registered waiter-count observers keyed by identifier.
    pub closed spec fn counters(self) -> Map<u64, CountObserver> {
        self.count_observers@
    }

    /// Registered future-deadline observers and their wakers, keyed by
    /// identifier.
    pub closed spec fn watchers(self) -> Map<u64, Option<Waker>> {
        self.deadline_observers@
    }

    /// Next timer-waiter identifier; zero once exhausted.
    pub closed spec fn next_timer_id(self) -> u64 {
        self.next_timer_waiter_id
    }

    /// Next observer identifier; zero once exhausted.
    pub closed spec fn next_observer(self) -> u64 {
        self.next_observer_id
    }

    /// Registration identifiers are issued by their allocators, and the two
    /// kinds of observers never share one.
    pub open spec fn wf(self) -> bool {
        &&& forall|id: u64| #[trigger] self.timers().contains_key(id) ==> identifier_issued(self.next_timer_id(), id)
        &&& forall|id: u64| #[trigger] self.counters().contains_key(id) ==> identifier_issued(self.next_observer(), id)
        &&& forall|id: u64| #[trigger] self.watchers().contains_key(id) ==> identifier_issued(self.next_observer(), id)
        &&& forall|id: u64| #[trigger] self.counters().contains_key(id) ==> !self.watchers().contains_key(id)
        &&& self.timers().dom().finite()
    }

    /// The number of registered timer waiters.
    pub open spec fn spec_count(self) -> nat {
        self.timers().len()
    }

    /// The timer registrations and the observers are unchanged between
    /// `self` and `other`.
    pub open spec fn observers_unchanged(self, other: ManualWaiterRegistry) -> bool {
        &&& self.counters() == other.counters()
        &&& self.watchers() == other.watchers()
        &&& self.next_observer() == other.next_observer()
    }

    /// The timer registrations are unchanged between `self` and `other`.
    pub open spec fn timers_unchanged(self, other: ManualWaiterRegistry) -> bool {
        &&& self.timers() == other.timers()
        &&& self.next_timer_id() == other.next_timer_id()
    }

    /// Well-formedness survives a change of the timer registrations alone
    /// when every remaining timer identifier was issued.
    proof fn lemma_wf_timers_changed(before: ManualWaiterRegistry, after: ManualWaiterRegistry)
        requires
            before.wf(),
            after.observers_unchanged(before),
            forall|id: u64| #[trigger] after.timers().contains_key(id) ==> identifier_issued(after.next_timer_id(), id),
        ensures
            after.wf(),
    {
        assert forall|id: u64| #[trigger] after.counters().contains_key(id) implies identifier_issued(after.next_observer(), id) by {
            assert(before.counters().contains_key(id));
        }
        assert forall|id: u64| #[trigger] after.watchers().contains_key(id) implies identifier_issued(after.next_observer(), id) by {
            assert(before.watchers().contains_key(id));
        }
        assert forall|id: u64| #[trigger] after.counters().contains_key(id) implies !after.watchers().contains_key(id) by {
            assert(before.counters().contains_key(id));
        }
    }

    /// Well-formedness survives a change of the observers alone when every
    /// remaining observer identifier was issued and none is shared.
    proof fn lemma_wf_observers_changed(before: ManualWaiterRegistry, after: ManualWaiterRegistry)
        requires
            before.wf(),
            after.timers_unchanged(before),
            after.next_observer() == before.next_observer(),
            forall|id: u64| #[trigger] after.counters().contains_key(id) ==> before.counters().contains_key(id),
            forall|id: u64| #[trigger] after.watchers().contains_key(id) ==> before.watchers().contains_key(id),
        ensures
            after.wf(),
    {
        assert forall|id: u64| #[trigger] after.timers().contains_key(id) implies identifier_issued(after.next_timer_id(), id) by {
            assert(before.timers().contains_key(id));
        }
        assert forall|id: u64| #[trigger] after.counters().contains_key(id) implies identifier_issued(after.next_observer(), id) && !after.watchers().contains_key(id) by {
            assert(before.counters().contains_key(id));
        }
        assert forall|id: u64| #[trigger] after.watchers().contains_key(id) implies identifier_issued(after.next_observer(), id) by {
            assert(before.watchers().contains_key(id));
        }
    }

    /// Creates an empty registry.
    pub fn new() -> (r: ManualWaiterRegistry)
        ensures
            r.wf(),
            r.timers().is_empty(),
            r.counters().is_empty(),
            r.watchers().is_empty(),
            r.next_timer_id() == 1,
            r.next_observer() == 1,
    {
        let r = ManualWaiterRegistry {
            next_timer_waiter_id: 1,
            timer_waiters: HashMap::new(),
            next_observer_id: 1,
            count_observers: HashMap::new(),
            deadline_observers: HashMap::new(),
        };
        assert(r.timers() =~= Map::empty());
        assert(r.counters() =~= Map::empty());
        assert(r.watchers() =~= Map::empty());
        r
    }

    /// Whether another timer-waiter identifier can still be allocated.
    pub fn timer_ids_available(&self) -> (r: bool)
        ensures
            r == (self.next_timer_id() != 0),
    {
        self.next_timer_waiter_id != 0
    }

    /// Whether another observer identifier can still be allocated.
    pub fn observer_ids_available(&self) -> (r: bool)
        ensures
            r == (self.next_observer() != 0),
    {
        self.next_observer_id != 0
    }

    /// Registers a timer deadline and returns its new registration identifier.
    pub fn register_timer(&mut self, deadline: u128) -> (id: u64)
        requires
            old(self).wf(),
            old(self).next_timer_id() != 0,
        ensures
            final(self).wf(),
            id == old(self).next_timer_id(),
            !old(self).timers().contains_key(id),
            final(self).timers() == old(self).timers().insert(id, TimerWaiter { deadline, waker: None }),
            Some(final(self).next_timer_id()) == spec_next_identifier_state(old(self).next_timer_id()),
            final(self).observers_unchanged(*old(self)),
    {
        let ghost old_next = self.next_timer_waiter_id;
        let allocated = allocate_identifier(&mut self.next_timer_waiter_id);
        let waiter_id = match allocated {
            Some(v) => v,
            None => 0,
        };
        assert(waiter_id == old_next);
        self.timer_waiters.insert(waiter_id, TimerWaiter { deadline, waker: None });
        proof {
            assert forall|i: u64| #[trigger] self.timers().contains_key(i) implies identifier_issued(self.next_timer_id(), i) by {
                if i != waiter_id {
                    assert(old(self).timers().contains_key(i));
                    crate::clock_domain::lemma_allocation_is_fresh(old_next, i);
                }
            }
            Self::lemma_wf_timers_changed(*old(self), *self);
        }
        waiter_id
    }

    /// Removes a timer waiter and returns its optional registered waker.
    ///
    /// The outer option reports whether the waiter existed; the inner one
    /// holds the waker most recently registered by polling its future.
    pub fn unregister_timer(&mut self, waiter_id: u64) -> (r: Option<Option<Waker>>)
        requires
            old(self).wf(),
        ensures
            final(self).wf(),
            final(self).timers() == old(self).timers().remove(waiter_id),
            final(self).next_timer_id() == old(self).next_timer_id(),
            final(self).observers_unchanged(*old(self)),
            r == (if old(self).timers().contains_key(waiter_id) { Some(old(self).timers()[waiter_id].waker) } else { None }),
    {
        let removed = self.timer_waiters.remove(&waiter_id);
        proof {
            assert forall|i: u64| #[trigger] self.timers().contains_key(i) implies identifier_issued(self.next_timer_id(), i) by {
                assert(old(self).timers().contains_key(i));
            }
            Self::lemma_wf_timers_changed(*old(self), *self);
        }
        match removed {
            Some(waiter) => Some(waiter.waker),
            None => None,
        }
    }

    /// Returns the earliest registered deadline strictly after `elapsed`.
    pub fn next_future_deadline(&self, elapsed: u128) -> (r: Option<u128>)
        ensures
            r == next_future_deadline_of(self.timers(), elapsed),
            r matches Some(d) ==> is_next_future_deadline(self.timers(), elapsed, d),
    {
        let mut best: Option<u128> = None;
        let keys = self.timer_waiters.keys();
        let ghost all = keys.remaining().unref();
        let ghost timers = self.timers();
        for key in it: keys
            invariant
                all == it.seq().unref(),
                all.to_set() == timers.dom(),
                timers == self.timers(),
                best matches Some(d) ==> {
                    &&& d > elapsed
                    &&& exists|id: u64| #[trigger] timers.contains_key(id) && timers[id].deadline == d
                },
                forall|k: int| 0 <= k < it.index() && #[trigger] timers[all[k]].deadline > elapsed ==> (best matches Some(d) && d <= timers[all[k]].deadline),
        {
            let id = *key;
            assert(all[it.index()] == id);
            assert(all.to_set().contains(id));
            let waiter = self.timer_waiters.get(&id).unwrap();
            let d = waiter.deadline;
            if d > elapsed {
                match best {
                    Some(b) => {
                        if d < b {
                            best = Some(d);
                        }
                    },
                    None => {
                        best = Some(d);
                    },
                }
            }
        }
        proof {
            match best {
                Some(d) => {
                    assert forall|id: u64| #[trigger] timers.contains_key(id) && timers[id].deadline > elapsed implies d <= timers[id].deadline by {
                        assert(all.to_set().contains(id));
                        let k = all.index_of(id);
                        assert(timers[all[k]].deadline > elapsed);
                    }
                    assert(is_next_future_deadline(timers, elapsed, d));
                    lemma_next_future_deadline_unique(timers, elapsed, d);
                },
                None => {
                    assert(!has_future_deadline(timers, elapsed)) by {
                        if has_future_deadline(timers, elapsed) {
                            let id = choose|id: u64| #[trigger] timers.contains_key(id) && timers[id].deadline > elapsed;
                            assert(all.to_set().contains(id));
                            let k = all.index_of(id);
                            assert(timers[all[k]].deadline > elapsed);
                        }
                    }
                },
            }
        }
        best
    }

    /// Takes the task wakers of timer waiters whose deadlines were reached at
    /// `elapsed`.
    ///
    /// Waiter registrations remain present until their futures are polled or
    /// dropped, but later advances cannot wake the same stored waker again.
    pub fn take_due_timer_wakers(&mut self, elapsed: u128) -> (r: Vec<Waker>)
        requires
            old(self).wf(),
        ensures
            final(self).wf(),
            final(self).timers().dom() == old(self).timers().dom(),
            forall|id: u64| #[trigger] final(self).timers().contains_key(id) ==> {
                &&& final(self).timers()[id].deadline == old(self).timers()[id].deadline
                &&& final(self).timers()[id].waker == (if old(self).timers()[id].deadline <= elapsed { None } else { old(self).timers()[id].waker })
            },
            final(self).next_timer_id() == old(self).next_timer_id(),
            final(self).observers_unchanged(*old(self)),
            exists|ids: Seq<u64>| lists_wakers_of(r@, ids, timer_wakers(old(self).timers()), due_timer_ids(old(self).timers(), elapsed)),
    {
        let ghost old_t = self.timers();
        let ghost stored = timer_wakers(old_t);
        let ghost due = due_timer_ids(old_t, elapsed);
        let keys = keys_of(&self.timer_waiters);
        let mut r: Vec<Waker> = Vec::new();
        let ghost mut ids: Seq<u64> = Seq::empty();
        let mut i: usize = 0;
        while i < keys.len()
            invariant
                0 <= i <= keys@.len(),
                keys@.to_set() == old_t.dom(),
                keys@.no_duplicates(),
                old_t == old(self).timers(),
                stored == timer_wakers(old_t),
                due == due_timer_ids(old_t, elapsed),
                self.timers().dom() == old_t.dom(),
                self.next_timer_id() == old(self).next_timer_id(),
                self.observers_unchanged(*old(self)),
                forall|id: u64| #[trigger] self.timers().contains_key(id) ==> {
                    &&& self.timers()[id].deadline == old_t[id].deadline
                    &&& self.timers()[id].waker == (if keys@.take(i as int).contains(id) && old_t[id].deadline <= elapsed { None } else { old_t[id].waker })
                },
                lists_wakers_of(r@, ids, stored, due.intersect(keys@.take(i as int).to_set())),
            decreases keys@.len() - i,
        {
            let id = keys[i];
            assert(keys@.to_set().contains(id));
            let ghost prev_ids = ids;
            let ghost prev_r = r@;
            let removed = self.timer_waiters.remove(&id);
            let waiter = match removed {
                Some(w) => w,
                None => {
                    assert(false);
                    TimerWaiter { deadline: 0, waker: None }
                },
            };
            let deadline = waiter.deadline;
            if deadline <= elapsed {
                match waiter.waker {
                    Some(w) => {
                        r.push(w);
                        proof {
                            ids = ids.push(id);
                        }
                    },
                    None => {},
                }
                self.timer_waiters.insert(id, TimerWaiter { deadline, waker: None });
            } else {
                self.timer_waiters.insert(id, waiter);
            }
            proof {
                let before = keys@.take(i as int);
                let after = keys@.take(i + 1);
                assert(after == before.push(id));
                assert(!before.contains(id)) by {
                    if before.contains(id) {
                        let k = before.index_of(id);
                        assert(keys@[k] == keys@[i as int]);
                    }
                }
                before.lemma_push_to_set_commute(id);
                assert(after.to_set() == before.to_set().insert(id));
                assert forall|j: u64| #[trigger] after.contains(j) <==> (before.contains(j) || j == id) by {
                    assert(after.to_set().contains(j) <==> after.contains(j));
                    assert(before.to_set().contains(j) <==> before.contains(j));
                }
                assert(!prev_ids.contains(id)) by {
                    if prev_ids.contains(id) {
                        let k = prev_ids.index_of(id);
                        assert(due.intersect(before.to_set()).contains(prev_ids[k]));
                    }
                }
                let chosen = due.intersect(after.to_set());
                assert forall|k: int| 0 <= k < ids.len() implies chosen.contains(#[trigger] ids[k]) && stored.contains_key(ids[k]) && stored[ids[k]] == Some(r@[k]) by {
                    if k < prev_ids.len() {
                        assert(ids[k] == prev_ids[k]);
                        assert(r@[k] == prev_r[k]);
                    }
                }
                assert forall|j: u64| chosen.contains(j) && stored.contains_key(j) && (#[trigger] stored[j]) is Some implies ids.contains(j) by {
                    if j == id {
                        assert(ids[ids.len() - 1] == id);
                    } else {
                        assert(before.to_set().contains(j));
                        assert(prev_ids.contains(j));
                        let k = prev_ids.index_of(j);
                        assert(ids[k] == j);
                    }
                }
                assert(lists_wakers_of(r@, ids, stored, chosen));
                assert(self.timers().dom() =~= old_t.dom());
            }
            i = i + 1;
        }
        proof {
            assert(keys@.take(keys@.len() as int) == keys@);
            assert(due.intersect(keys@.to_set()) =~= due);
            assert forall|j: u64| #[trigger] self.timers().contains_key(j) implies identifier_issued(self.next_timer_id(), j) by {
                assert(old(self).timers().contains_key(j));
            }
            Self::lemma_wf_timers_changed(*old(self), *self);
        }
        r
    }

    /// Registers a count observer unless `count` already reaches
    /// `expected_count`.
    ///
    /// Returns `None`, changing nothing, when the count is already satisfied.
    pub fn register_observer(&mut self, expected_count: usize, count: usize) -> (r: Option<u64>)
        requires
            old(self).wf(),
            count < expected_count ==> old(self).next_observer() != 0,
        ensures
            final(self).wf(),
            final(self).timers_unchanged(*old(self)),
            final(self).watchers() == old(self).watchers(),
            count >= expected_count ==> r is None && *final(self) == *old(self),
            count < expected_count ==> {
                &&& r == Some(old(self).next_observer())
                &&& !old(self).counters().contains_key(old(self).next_observer())
                &&& !old(self).watchers().contains_key(old(self).next_observer())
                &&& final(self).counters() == old(self).counters().insert(old(self).next_observer(), CountObserver { expected_count, waker: None })
                &&& Some(final(self).next_observer()) == spec_next_identifier_state(old(self).next_observer())
            },
    {
        if count >= expected_count {
            return None;
        }
        let ghost old_next = self.next_observer_id;
        let allocated = allocate_identifier(&mut self.next_observer_id);
        let observer_id = match allocated {
            Some(v) => v,
            None => 0,
        };
        self.count_observers.insert(observer_id, CountObserver { expected_count, waker: None });
        proof {
            self.lemma_wf_observer_added(*old(self), observer_id);
        }
        Some(observer_id)
    }

    /// Registers an observer for the earliest strictly future deadline.
    pub fn register_deadline_observer(&mut self) -> (r: u64)
        requires
            old(self).wf(),
            old(self).next_observer() != 0,
        ensures
            final(self).wf(),
            final(self).timers_unchanged(*old(self)),
            final(self).counters() == old(self).counters(),
            r == old(self).next_observer(),
            !old(self).counters().contains_key(r),
            !old(self).watchers().contains_key(r),
            final(self).watchers() == old(self).watchers().insert(r, None),
            Some(final(self).next_observer()) == spec_next_identifier_state(old(self).next_observer()),
    {
        let allocated = allocate_identifier(&mut self.next_observer_id);
        let observer_id = match allocated {
            Some(v) => v,
            None => 0,
        };
        self.deadline_observers.insert(observer_id, None);
        proof {
            self.lemma_wf_observer_added(*old(self), observer_id);
        }
        observer_id
    }

    /// Well-formedness after a fresh observer identifier was allocated and
    /// registered.
    proof fn lemma_wf_observer_added(self, before: ManualWaiterRegistry, id: u64)
        requires
            before.wf(),
            before.next_observer() != 0,
            id == before.next_observer(),
            self.timers_unchanged(before),
            Some(self.next_observer()) == spec_next_identifier_state(before.next_observer()),
            (self.counters() == before.counters().insert(id, self.counters()[id]) && self.watchers() == before.watchers())
                || (self.watchers() == before.watchers().insert(id, self.watchers()[id]) && self.counters() == before.counters()),
        ensures
            self.wf(),
            !before.counters().contains_key(id),
            !before.watchers().contains_key(id),
    {
        assert(!before.counters().contains_key(id));
        assert(!before.watchers().contains_key(id));
        assert forall|j: u64| #[trigger] self.timers().contains_key(j) implies identifier_issued(self.next_timer_id(), j) by {
            assert(before.timers().contains_key(j));
        }
        assert forall|j: u64| #[trigger] self.counters().contains_key(j) implies identifier_issued(self.next_observer(), j) && !self.watchers().contains_key(j) by {
            crate::clock_domain::lemma_allocation_is_fresh(before.next_observer(), j);
            if j != id {
                assert(before.counters().contains_key(j));
            }
        }
        assert forall|j: u64| #[trigger] self.watchers().contains_key(j) implies identifier_issued(self.next_observer(), j) by {
            crate::clock_domain::lemma_allocation_is_fresh(before.next_observer(), j);
            if j != id {
                assert(before.watchers().contains_key(j));
            }
        }
    }

    /// Returns whether a count observer is still waiting for its target.
    pub fn contains_observer(&self, observer_id: u64) -> (r: bool)
        ensures
            r == self.counters().contains_key(observer_id),
    {
        self.count_observers.contains_key(&observer_id)
    }

    /// Returns whether a future-deadline observer is registered.
    pub fn contains_deadline_observer(&self, observer_id: u64) -> (r: bool)
        ensures
            r == self.watchers().contains_key(observer_id),
    {
        self.deadline_observers.contains_key(&observer_id)
    }

    /// Returns whether a timer waiter is registered.
    pub fn contains_timer(&self, waiter_id: u64) -> (r: bool)
        ensures
            r == self.timers().contains_key(waiter_id),
    {
        self.timer_waiters.contains_key(&waiter_id)
    }

    /// Polls a count observer and records the task waker while it remains
    /// pending.
    ///
    /// A missing observer is ready because reaching the count removes the
    /// observer before waking its task. Returns the ready state and any
    /// replaced waker, which the caller destroys after unlocking.
    pub fn poll_observer(&mut self, observer_id: u64, waker: &Waker) -> (r: (bool, Option<Waker>))
        requires
            old(self).wf(),
        ensures
            final(self).wf(),
            final(self).timers_unchanged(*old(self)),
            final(self).watchers() == old(self).watchers(),
            final(self).next_observer() == old(self).next_observer(),
            !old(self).counters().contains_key(observer_id) ==> r.0 && r.1 is None && final(self).counters() == old(self).counters(),
            old(self).counters().contains_key(observer_id) ==> {
                &&& !r.0
                &&& final(self).counters().dom() == old(self).counters().dom()
                &&& forall|j: u64| j != observer_id && #[trigger] old(self).counters().contains_key(j) ==> final(self).counters()[j] == old(self).counters()[j]
                &&& final(self).counters()[observer_id].expected_count == old(self).counters()[observer_id].expected_count
                &&& waker_refreshed(old(self).counters()[observer_id].waker, final(self).counters()[observer_id].waker, r.1)
            },
    {
        match self.count_observers.remove(&observer_id) {
            None => {
                proof {
                    assert(self.counters() =~= old(self).counters());
                    Self::lemma_wf_observers_changed(*old(self), *self);
                }
                (true, None)
            },
            Some(observer) => {
                let expected_count = observer.expected_count;
                let (slot, replaced) = refresh_waker(observer.waker, waker);
                self.count_observers.insert(observer_id, CountObserver { expected_count, waker: slot });
                proof {
                    assert(self.counters().dom() =~= old(self).counters().dom());
                    Self::lemma_wf_observers_changed(*old(self), *self);
                }
                (false, replaced)
            },
        }
    }

    /// Polls an observer for the earliest future deadline.
    ///
    /// Returns the ready deadline and any replaced or removed waker, which the
    /// caller destroys after unlocking.
    pub fn poll_deadline_observer(&mut self, observer_id: u64, elapsed: u128, waker: &Waker) -> (r: (Option<u128>, Option<Waker>))
        requires
            old(self).wf(),
            old(self).watchers().contains_key(observer_id),
        ensures
            final(self).wf(),
            final(self).timers_unchanged(*old(self)),
            final(self).counters() == old(self).counters(),
            final(self).next_observer() == old(self).next_observer(),
            r.0 == next_future_deadline_of(old(self).timers(), elapsed),
            r.0 is Some ==> final(self).watchers() == old(self).watchers().remove(observer_id) && r.1 == old(self).watchers()[observer_id],
            r.0 is None ==> {
                &&& final(self).watchers().dom() == old(self).watchers().dom()
                &&& forall|j: u64| j != observer_id && #[trigger] old(self).watchers().contains_key(j) ==> final(self).watchers()[j] == old(self).watchers()[j]
                &&& waker_refreshed(old(self).watchers()[observer_id], final(self).watchers()[observer_id], r.1)
            },
    {
        let next = self.next_future_deadline(elapsed);
        let removed = self.deadline_observers.remove(&observer_id);
        let slot = match removed {
            Some(slot) => slot,
            None => {
                assert(false);
                None
            },
        };
        match next {
            Some(deadline) => {
                proof {
                    Self::lemma_wf_observers_changed(*old(self), *self);
                }
                (Some(deadline), slot)
            },
            None => {
                let (new_slot, replaced) = refresh_waker(slot, waker);
                self.deadline_observers.insert(observer_id, new_slot);
                proof {
                    assert(self.watchers().dom() =~= old(self).watchers().dom());
                    Self::lemma_wf_observers_changed(*old(self), *self);
                }
                (None, replaced)
            },
        }
    }

    /// Removes an incomplete observer of either kind and returns its stored
    /// task waker, or `None` when absent or never polled.
    pub fn unregister_observer(&mut self, observer_id: u64) -> (r: Option<Waker>)
        requires
            old(self).wf(),
        ensures
            final(self).wf(),
            final(self).timers_unchanged(*old(self)),
            final(self).next_observer() == old(self).next_observer(),
            final(self).counters() == old(self).counters().remove(observer_id),
            final(self).watchers() == old(self).watchers().remove(observer_id),
            r == (if old(self).counters().contains_key(observer_id) {
                old(self).counters()[observer_id].waker
            } else if old(self).watchers().contains_key(observer_id) {
                old(self).watchers()[observer_id]
            } else {
                None
            }),
    {
        let removed = self.count_observers.remove(&observer_id);
        match removed {
            Some(observer) => {
                proof {
                    assert(!self.watchers().contains_key(observer_id));
                    assert(self.watchers() =~= old(self).watchers().remove(observer_id));
                    Self::lemma_wf_observers_changed(*old(self), *self);
                }
                observer.waker
            },
            None => {
                let slot = self.deadline_observers.remove(&observer_id);
                proof {
                    assert(self.counters() =~= old(self).counters().remove(observer_id));
                    Self::lemma_wf_observers_changed(*old(self), *self);
                }
                match slot {
                    Some(w) => w,
                    None => None,
                }
            },
        }
    }

    /// Updates a timer waiter's waker, or removes the waiter and reports it
    /// ready once its deadline was reached at `elapsed`.
    ///
    /// Returns the ready state and any replaced or removed waker, which the
    /// caller destroys after unlocking.
    pub fn poll_timer(&mut self, waiter_id: u64, elapsed: u128, waker: &Waker) -> (r: (bool, Option<Waker>))
        requires
            old(self).wf(),
            old(self).timers().contains_key(waiter_id),
        ensures
            final(self).wf(),
            final(self).next_timer_id() == old(self).next_timer_id(),
            final(self).observers_unchanged(*old(self)),
            r.0 == (elapsed >= old(self).timers()[waiter_id].deadline),
            r.0 ==> final(self).timers() == old(self).timers().remove(waiter_id) && r.1 == old(self).timers()[waiter_id].waker,
            !r.0 ==> {
                &&& final(self).timers().dom() == old(self).timers().dom()
                &&& forall|j: u64| j != waiter_id && #[trigger] old(self).timers().contains_key(j) ==> final(self).timers()[j] == old(self).timers()[j]
                &&& final(self).timers()[waiter_id].deadline == old(self).timers()[waiter_id].deadline
                &&& waker_refreshed(old(self).timers()[waiter_id].waker, final(self).timers()[waiter_id].waker, r.1)
            },
    {
        let removed = self.timer_waiters.remove(&waiter_id);
        let waiter = match removed {
            Some(w) => w,
            None => {
                assert(false);
                TimerWaiter { deadline: 0, waker: None }
            },
        };
        let deadline = waiter.deadline;
        if elapsed < deadline {
            let (slot, replaced) = refresh_waker(waiter.waker, waker);
            self.timer_waiters.insert(waiter_id, TimerWaiter { deadline, waker: slot });
            proof {
                assert(self.timers().dom() =~= old(self).timers().dom());
                assert forall|j: u64| #[trigger] self.timers().contains_key(j) implies identifier_issued(self.next_timer_id(), j) by {
                    assert(old(self).timers().contains_key(j));
                }
                Self::lemma_wf_timers_changed(*old(self), *self);
            }
            (false, replaced)
        } else {
            proof {
                assert forall|j: u64| #[trigger] self.timers().contains_key(j) implies identifier_issued(self.next_timer_id(), j) by {
                    assert(old(self).timers().contains_key(j));
                }
                Self::lemma_wf_timers_changed(*old(self), *self);
            }
            (true, waiter.waker)
        }
    }

    /// Removes the count observers satisfied by the current waiter count and,
    /// when a future deadline exists, detaches every deadline observer's
    /// waker. Returns those task wakers for invocation after unlocking.
    pub fn reached_observer_wakers(&mut self, elapsed: u128) -> (r: Vec<Waker>)
        requires
            old(self).wf(),
        ensures
            final(self).wf(),
            final(self).timers_unchanged(*old(self)),
            final(self).next_observer() == old(self).next_observer(),
            final(self).counters() == pending_counters(old(self).counters(), old(self).spec_count()),
            has_future_deadline(old(self).timers(), elapsed) ==> {
                &&& final(self).watchers().dom() == old(self).watchers().dom()
                &&& forall|j: u64| #[trigger] final(self).watchers().contains_key(j) ==> final(self).watchers()[j] is None
            },
            !has_future_deadline(old(self).timers(), elapsed) ==> final(self).watchers() == old(self).watchers(),
            exists|ids: Seq<u64>| lists_wakers_of(
                r@,
                ids,
                observer_wakers(old(self).counters(), old(self).watchers()),
                reached_observer_ids(old(self).counters(), old(self).watchers(), old(self).spec_count(), has_future_deadline(old(self).timers(), elapsed)),
            ),
    {
        let count = self.timer_waiters.len();
        let next = self.next_future_deadline(elapsed);
        let ghost oc = self.counters();
        let ghost ow = self.watchers();
        let ghost stored = observer_wakers(oc, ow);
        let ghost future = has_future_deadline(self.timers(), elapsed);
        let ghost reached_c = Set::new(|j: u64| oc.contains_key(j) && oc[j].expected_count <= count);
        let mut wakers: Vec<Waker> = Vec::new();
        let ghost mut ids: Seq<u64> = Seq::empty();
        let ghost mut chosen: Set<u64> = Set::empty();
        let ckeys = keys_of(&self.count_observers);
        let mut i: usize = 0;
        while i < ckeys.len()
            invariant
                0 <= i <= ckeys@.len(),
                ckeys@.to_set() == oc.dom(),
                ckeys@.no_duplicates(),
                oc == old(self).counters(),
                ow == old(self).watchers(),
                stored == observer_wakers(oc, ow),
                count == old(self).spec_count(),
                reached_c == Set::new(|j: u64| oc.contains_key(j) && oc[j].expected_count <= count),
                self.timers_unchanged(*old(self)),
                self.next_observer() == old(self).next_observer(),
                self.watchers() == ow,
                self.counters() == Map::new(|j: u64| oc.contains_key(j) && (!ckeys@.take(i as int).contains(j) || oc[j].expected_count > count), |j: u64| oc[j]),
                chosen == reached_c.intersect(ckeys@.take(i as int).to_set()),
                lists_wakers_of(wakers@, ids, stored, chosen),
            decreases ckeys@.len() - i,
        {
            let id = ckeys[i];
            assert(ckeys@.to_set().contains(id));
            let before = Ghost(ckeys@.take(i as int));
            assert(!before@.contains(id)) by {
                if before@.contains(id) {
                    let k = before@.index_of(id);
                    assert(ckeys@[k] == ckeys@[i as int]);
                }
            }
            let removed = self.count_observers.remove(&id);
            let observer = match removed {
                Some(o) => o,
                None => {
                    assert(false);
                    CountObserver { expected_count: 0, waker: None }
                },
            };
            proof {
                assert(!chosen.contains(id));
                assert(stored.contains_key(id));
                assert(stored[id] == oc[id].waker);
            }
            if observer.expected_count <= count {
                proof {
                    lemma_lists_wakers_extend(wakers@, ids, stored, chosen, id);
                }
                match observer.waker {
                    Some(w) => {
                        wakers.push(w);
                        proof {
                            ids = ids.push(id);
                        }
                    },
                    None => {},
                }
                proof {
                    chosen = chosen.insert(id);
                }
            } else {
                self.count_observers.insert(id, observer);
            }
            proof {
                let after = ckeys@.take(i + 1);
                assert(after == before@.push(id));
                before@.lemma_push_to_set_commute(id);
                assert forall|j: u64| #[trigger] after.contains(j) <==> (before@.contains(j) || j == id) by {
                    assert(after.to_set().contains(j) <==> after.contains(j));
                    assert(before@.to_set().contains(j) <==> before@.contains(j));
                }
                assert(chosen =~= reached_c.intersect(after.to_set()));
                assert(self.counters() =~= Map::new(|j: u64| oc.contains_key(j) && (!after.contains(j) || oc[j].expected_count > count), |j: u64| oc[j]));
            }
            i = i + 1;
        }
        proof {
            assert(ckeys@.take(ckeys@.len() as int) == ckeys@);
            assert(chosen =~= reached_c);
            assert(self.counters() =~= pending_counters(oc, count as nat));
            assert forall|j: u64| #[trigger] self.counters().contains_key(j) implies oc.contains_key(j) by {}
            Self::lemma_wf_observers_changed(*old(self), *self);
        }
        match next {
            None => {
                proof {
                    assert(reached_c =~= reached_observer_ids(oc, ow, count as nat, future));
                }
            },
            Some(_) => {
                let ghost mid = *self;
                assert forall|j: u64| #[trigger] oc.contains_key(j) implies !ow.contains_key(j) by {
                    assert(old(self).counters().contains_key(j));
                }
                let wkeys = keys_of(&self.deadline_observers);
                let mut k: usize = 0;
                while k < wkeys.len()
                    invariant
                        0 <= k <= wkeys@.len(),
                        wkeys@.to_set() == ow.dom(),
                        wkeys@.no_duplicates(),
                        mid.wf(),
                        oc == old(self).counters(),
                        ow == old(self).watchers(),
                        stored == observer_wakers(oc, ow),
                        reached_c == Set::new(|j: u64| oc.contains_key(j) && oc[j].expected_count <= count),
                        self.timers_unchanged(mid),
                        self.next_observer() == mid.next_observer(),
                        self.counters() == mid.counters(),
                        mid.watchers() == ow,
                        forall|j: u64| #[trigger] mid.counters().contains_key(j) ==> oc.contains_key(j),
                        self.watchers().dom() == ow.dom(),
                        forall|j: u64| #[trigger] self.watchers().contains_key(j) ==> self.watchers()[j] == (if wkeys@.take(k as int).contains(j) { None } else { ow[j] }),
                        chosen == reached_c.union(wkeys@.take(k as int).to_set()),
                        forall|j: u64| #[trigger] reached_c.contains(j) ==> oc.contains_key(j),
                        forall|j: u64| #[trigger] oc.contains_key(j) ==> !ow.contains_key(j),
                        lists_wakers_of(wakers@, ids, stored, chosen),
                    decreases wkeys@.len() - k,
                {
                    let id = wkeys[k];
                    assert(wkeys@.to_set().contains(id));
                    let before = Ghost(wkeys@.take(k as int));
                    assert(!before@.contains(id)) by {
                        if before@.contains(id) {
                            let q = before@.index_of(id);
                            assert(wkeys@[q] == wkeys@[k as int]);
                        }
                    }
                    let removed = self.deadline_observers.remove(&id);
                    let slot = match removed {
                        Some(sl) => sl,
                        None => {
                            assert(false);
                            None
                        },
                    };
                    proof {
                        assert(ow.contains_key(id));
                        assert(!reached_c.contains(id));
                        assert(!chosen.contains(id));
                        assert(stored.contains_key(id));
                        assert(stored[id] == ow[id]);
                        assert(slot == ow[id]);
                        lemma_lists_wakers_extend(wakers@, ids, stored, chosen, id);
                    }
                    match slot {
                        Some(w) => {
                            wakers.push(w);
                            proof {
                                ids = ids.push(id);
                            }
                        },
                        None => {},
                    }
                    self.deadline_observers.insert(id, None);
                    proof {
                        chosen = chosen.insert(id);
                        let after = wkeys@.take(k + 1);
                        assert(after == before@.push(id));
                        before@.lemma_push_to_set_commute(id);
                        assert forall|j: u64| #[trigger] after.contains(j) <==> (before@.contains(j) || j == id) by {
                            assert(after.to_set().contains(j) <==> after.contains(j));
                            assert(before@.to_set().contains(j) <==> before@.contains(j));
                        }
                        assert(chosen =~= reached_c.union(after.to_set()));
                        assert(self.watchers().dom() =~= ow.dom());
                    }
                    k = k + 1;
                }
                proof {
                    assert(wkeys@.take(wkeys@.len() as int) == wkeys@);
                    assert(chosen =~= reached_observer_ids(oc, ow, count as nat, future));
                    Self::lemma_wf_observers_changed(mid, *self);
                }
            },
        }
        wakers
    }

    /// Returns the number of registered timer waiters.
    pub fn count(&self) -> (r: usize)
        ensures
            r == self.spec_count(),
    {
        self.timer_waiters.len()
    }
}

} // verus!
