//! Single-flight, time-bounded memoization cache.
//!
//! The cache is keyed by an opaque string fingerprint. A lookup under a live,
//! unexpired entry returns the stored value. Otherwise at most one caller is
//! granted the lead for a key — it runs the expensive computation — while
//! concurrent callers for the same key follow the in-flight slot and receive
//! the lead's result. A successful result is stored until `created_at + ttl`
//! (lazy expiry); a failed result is never stored, so the next caller retries.
//!
//! `acquire` takes the reuse/lead/follow decision and, atomically with it,
//! registers the in-flight slot; `complete` resolves the slot. A driver that
//! suspends followers on the slot's completion runs outside this crate; the
//! decisions and the state they act on are all here. `get_or_compute` is the
//! single-caller path that performs a whole lookup-compute-store round.

use vstd::prelude::*;
use vstd::pervasive::cloned;
use vstd::pervasive::VecAdditionalExecFns;

verus! {

/// A memoized value: the fingerprint it is stored under, the value, and the
/// moment and time-to-live (both in milliseconds) that bound its freshness.
pub struct CacheEntry<V> {
    /// The fingerprint the value is stored under.
    pub key: String,
    /// The stored value.
    pub value: V,
    /// When the value was stored.
    pub created_at_ms: u64,
    /// How long past `created_at_ms` the value stays fresh.
    pub ttl_ms: u64,
}

/// What a caller is told to do for a key.
pub enum Flight<V> {
    /// A live entry exists: reuse this value, compute nothing.
    Hit(V),
    /// No live entry and nobody is computing: the caller leads, it runs the
    /// computation and must resolve it with `complete`.
    Lead,
    /// Somebody else is computing the key: the caller follows and receives
    /// the lead's result.
    Follow,
}

/// The decision of `acquire`, without the carried value.
#[derive(PartialEq, Eq, Structural)]
pub enum FlightKind {
    /// A live entry was reused.
    Hit,
    /// The caller was granted the (single) lead.
    Lead,
    /// The caller follows an in-flight computation.
    Follow,
}

/// The single-flight TTL cache: the stored entries and the keys whose
/// computation is currently in flight.
pub struct SingleFlightCache<V> {
    /// The stored entries, at most one per fingerprint.
    pub entries: Vec<CacheEntry<V>>,
    /// The fingerprints whose computation is in flight, at most once each.
    pub in_flight: Vec<String>,
}

impl<V> Flight<V> {
    /// The decision without the carried value.
    pub open spec fn kind(&self) -> FlightKind {
        match self {
            Flight::Hit(_) => FlightKind::Hit,
            Flight::Lead => FlightKind::Lead,
            Flight::Follow => FlightKind::Follow,
        }
    }
}

impl<V> SingleFlightCache<V> {
    /// Each fingerprint occurs at most once among the entries and at most
    /// once among the in-flight slots.
    pub open spec fn wf(self) -> bool {
        &&& forall|i: int, j: int|
            0 <= i < self.entries@.len() && 0 <= j < self.entries@.len()
                && #[trigger] self.entries@[i].key@ == #[trigger] self.entries@[j].key@ ==> i == j
        &&& forall|i: int, j: int|
            0 <= i < self.in_flight@.len() && 0 <= j < self.in_flight@.len()
                && #[trigger] self.in_flight@[i]@ == #[trigger] self.in_flight@[j]@ ==> i == j
    }

    /// Whether some entry is stored under the key (fresh or expired).
    pub open spec fn has_entry(self, k: Seq<char>) -> bool {
        exists|i: int| 0 <= i < self.entries@.len() && #[trigger] self.entries@[i].key@ == k
    }

    /// The entry stored under the key.
    pub open spec fn the_entry(self, k: Seq<char>) -> CacheEntry<V> {
        self.entries@[choose|i: int|
            0 <= i < self.entries@.len() && #[trigger] self.entries@[i].key@ == k]
    }

    /// Whether a computation for the key is in flight.
    pub open spec fn has_flight(self, k: Seq<char>) -> bool {
        exists|i: int| 0 <= i < self.in_flight@.len() && #[trigger] self.in_flight@[i]@ == k
    }

    /// The value stored under the key if it is still fresh at `now_ms`:
    /// entries past `created_at + ttl` are treated as absent.
    pub open spec fn spec_fresh(self, k: Seq<char>, now_ms: u64) -> Option<V> {
        if self.has_entry(k) {
            let e = self.the_entry(k);
            if (now_ms as int) < e.created_at_ms + e.ttl_ms {
                Some(e.value)
            } else {
                None
            }
        } else {
            None
        }
    }

    /// The decision for a key at a moment: reuse a fresh value, follow an
    /// in-flight computation, or lead a new one.
    pub open spec fn spec_decision(self, k: Seq<char>, now_ms: u64) -> FlightKind {
        if self.spec_fresh(k, now_ms) is Some {
            FlightKind::Hit
        } else if self.has_flight(k) {
            FlightKind::Follow
        } else {
            FlightKind::Lead
        }
    }

    /// An empty cache.
    pub fn new() -> (r: Self)
        ensures
            r.wf(),
            forall|k: Seq<char>| !r.has_entry(k),
            forall|k: Seq<char>| !r.has_flight(k),
    {
        SingleFlightCache { entries: Vec::new(), in_flight: Vec::new() }
    }

    /// The index of the entry stored under the key.
    fn find_entry_index(&self, key: &String) -> (r: Option<usize>)
        ensures
            match r {
                Some(i) => i < self.entries@.len() && self.entries@[i as int].key@ == key@,
                None => !self.has_entry(key@),
            },
    {
        let mut i: usize = 0;
        while i < self.entries.len()
            invariant
                i <= self.entries@.len(),
                forall|j: int| 0 <= j < i ==> #[trigger] self.entries@[j].key@ != key@,
            decreases self.entries@.len() - i,
        {
            if self.entries[i].key == *key {
                return Some(i);
            }
            i = i + 1;
        }
        None
    }

    /// The index of the in-flight slot for the key.
    fn find_flight_index(&self, key: &String) -> (r: Option<usize>)
        ensures
            match r {
                Some(i) => i < self.in_flight@.len() && self.in_flight@[i as int]@ == key@,
                None => !self.has_flight(key@),
            },
    {
        let mut i: usize = 0;
        while i < self.in_flight.len()
            invariant
                i <= self.in_flight@.len(),
                forall|j: int| 0 <= j < i ==> #[trigger] self.in_flight@[j]@ != key@,
            decreases self.in_flight@.len() - i,
        {
            if self.in_flight[i] == *key {
                return Some(i);
            }
            i = i + 1;
        }
        None
    }
}

impl<V: Clone> SingleFlightCache<V> {
    /// The value stored under the key, when it is still fresh at `now_ms`.
    pub fn get_fresh(&self, key: &String, now_ms: u64) -> (r: Option<V>)
        requires
            self.wf(),
        ensures
            (r is Some) == (self.spec_fresh(key@, now_ms) is Some),
            r is Some ==> cloned(self.spec_fresh(key@, now_ms)->0, r->0),
    {
        match self.find_entry_index(key) {
            Some(i) => {
                let e = &self.entries[i];
                proof {
                    assert(self.has_entry(key@));
                    let w = choose|w: int|
                        0 <= w < self.entries@.len() && #[trigger] self.entries@[w].key@ == key@;
                    assert(w == i as int);
                }
                if (now_ms as u128) < (e.created_at_ms as u128) + (e.ttl_ms as u128) {
                    Some(e.value.clone())
                } else {
                    None
                }
            },
            None => None,
        }
    }

    /// Decides for a key at a moment and, atomically with the decision,
    /// registers the in-flight slot when the caller is granted the lead.
    pub fn acquire(&mut self, key: &String, now_ms: u64) -> (d: Flight<V>)
        requires
            old(self).wf(),
        ensures
            final(self).wf(),
            d.kind() == old(self).spec_decision(key@, now_ms),
            d matches Flight::Hit(v) ==> cloned(old(self).spec_fresh(key@, now_ms)->0, v),
            d.kind() != FlightKind::Lead ==> *final(self) == *old(self),
            d.kind() == FlightKind::Lead ==> {
                &&& final(self).entries == old(self).entries
                &&& final(self).has_flight(key@)
                &&& forall|k2: Seq<char>|
                    k2 != key@ ==> final(self).has_flight(k2) == old(self).has_flight(k2)
            },
    {
        let fresh = self.get_fresh(key, now_ms);
        match fresh {
            Some(v) => Flight::Hit(v),
            None => {
                match self.find_flight_index(key) {
                    Some(_) => Flight::Follow,
                    None => {
                        let ghost pre = self.in_flight@;
                        self.in_flight.push(key.clone());
                        proof {
                            assert(self.in_flight@[pre.len() as int]@ == key@);
                            assert forall|k2: Seq<char>| k2 != key@ implies final(self).has_flight(
                                k2,
                            ) == old(self).has_flight(k2) by {
                                if old(self).has_flight(k2) {
                                    let j = choose|j: int|
                                        0 <= j < pre.len() && #[trigger] pre[j]@ == k2;
                                    assert(self.in_flight@[j]@ == k2);
                                }
                                if final(self).has_flight(k2) {
                                    let j = choose|j: int|
                                        0 <= j < self.in_flight@.len()
                                            && #[trigger] self.in_flight@[j]@ == k2;
                                    assert(j < pre.len());
                                    assert(pre[j]@ == k2);
                                }
                            }
                        }
                        Flight::Lead
                    },
                }
            },
        }
    }

    /// Stores a value under the key, replacing whatever entry the key had.
    fn store(&mut self, key: &String, value: V, now_ms: u64, ttl_ms: u64)
        requires
            old(self).wf(),
        ensures
            final(self).wf(),
            final(self).in_flight == old(self).in_flight,
            final(self).has_entry(key@),
            final(self).the_entry(key@).key@ == key@,
            final(self).the_entry(key@).value == value,
            final(self).the_entry(key@).created_at_ms == now_ms,
            final(self).the_entry(key@).ttl_ms == ttl_ms,
            forall|k2: Seq<char>|
                k2 != key@ ==> final(self).has_entry(k2) == old(self).has_entry(k2) && (old(
                    self,
                ).has_entry(k2) ==> final(self).the_entry(k2) == old(self).the_entry(k2)),
    {
        let entry = CacheEntry { key: key.clone(), value, created_at_ms: now_ms, ttl_ms };
        let found = self.find_entry_index(key);
        let ghost pre = self.entries@;
        match found {
            Some(i) => {
                self.entries.set(i, entry);
                proof {
                    assert(self.entries@[i as int].key@ == key@);
                    let w = choose|w: int|
                        0 <= w < self.entries@.len() && #[trigger] self.entries@[w].key@ == key@;
                    assert(self.entries@[w].key@ == pre[w].key@ || w == i as int);
                    assert(w == i as int);
                    assert forall|k2: Seq<char>| k2 != key@ implies final(self).has_entry(k2) == old(
                        self,
                    ).has_entry(k2) && (old(self).has_entry(k2) ==> final(self).the_entry(k2) == old(
                        self,
                    ).the_entry(k2)) by {
                        if old(self).has_entry(k2) {
                            let j = choose|j: int|
                                0 <= j < pre.len() && #[trigger] pre[j].key@ == k2;
                            assert(j != i as int);
                            assert(self.entries@[j].key@ == k2);
                            let w2 = choose|w2: int|
                                0 <= w2 < self.entries@.len() && #[trigger] self.entries@[w2].key@
                                    == k2;
                            assert(w2 != i as int);
                            assert(pre[w2].key@ == k2);
                            let w3 = choose|w3: int|
                                0 <= w3 < pre.len() && #[trigger] pre[w3].key@ == k2;
                            assert(pre[w3].key@ == pre[w2].key@);
                            assert(w3 == w2);
                        }
                        if final(self).has_entry(k2) {
                            let j = choose|j: int|
                                0 <= j < self.entries@.len() && #[trigger] self.entries@[j].key@
                                    == k2;
                            assert(j != i as int);
                            assert(pre[j].key@ == k2);
                        }
                    }
                }
            },
            None => {
                self.entries.push(entry);
                proof {
                    assert(self.entries@[pre.len() as int].key@ == key@);
                    let w = choose|w: int|
                        0 <= w < self.entries@.len() && #[trigger] self.entries@[w].key@ == key@;
                    assert(w == pre.len() as int) by {
                        if w < pre.len() {
                            assert(pre[w].key@ == key@);
                        }
                    }
                    assert forall|k2: Seq<char>| k2 != key@ implies final(self).has_entry(k2) == old(
                        self,
                    ).has_entry(k2) && (old(self).has_entry(k2) ==> final(self).the_entry(k2) == old(
                        self,
                    ).the_entry(k2)) by {
                        if old(self).has_entry(k2) {
                            let j = choose|j: int|
                                0 <= j < pre.len() && #[trigger] pre[j].key@ == k2;
                            assert(self.entries@[j].key@ == k2);
                        }
                        if final(self).has_entry(k2) {
                            let j = choose|j: int|
                                0 <= j < self.entries@.len() && #[trigger] self.entries@[j].key@
                                    == k2;
                            assert(j != pre.len() as int);
                            assert(pre[j].key@ == k2);
                        }
                    }
                }
            },
        }
    }

    /// Resolves the in-flight computation for a key: releases the slot, and
    /// stores the result under the key only when the computation succeeded —
    /// a failure is not cached, so the next caller for the key retries. The
    /// result itself is handed back, to be delivered to every follower.
    pub fn complete<E>(&mut self, key: &String, result: Result<V, E>, now_ms: u64, ttl_ms: u64) -> (r:
        Result<V, E>)
        requires
            old(self).wf(),
        ensures
            final(self).wf(),
            r == result,
            !final(self).has_flight(key@),
            forall|k2: Seq<char>|
                k2 != key@ ==> final(self).has_flight(k2) == old(self).has_flight(k2),
            result is Err ==> final(self).entries == old(self).entries,
            result matches Ok(v) ==> {
                &&& final(self).has_entry(key@)
                &&& cloned(v, final(self).the_entry(key@).value)
                &&& final(self).the_entry(key@).created_at_ms == now_ms
                &&& final(self).the_entry(key@).ttl_ms == ttl_ms
            },
            forall|k2: Seq<char>|
                k2 != key@ ==> final(self).has_entry(k2) == old(self).has_entry(k2) && (old(
                    self,
                ).has_entry(k2) ==> final(self).the_entry(k2) == old(self).the_entry(k2)),
    {
        let found = self.find_flight_index(key);
        let ghost pre = self.in_flight@;
        if let Some(i) = found {
            self.in_flight.remove(i);
            proof {
                assert forall|j: int|
                    0 <= j < self.in_flight@.len() implies #[trigger] self.in_flight@[j]@
                    != key@ by {
                    if j < i {
                        assert(pre[j]@ == self.in_flight@[j]@);
                        if pre[j]@ == key@ {
                            assert(pre[i as int]@ == key@);
                        }
                    } else {
                        assert(pre[j + 1]@ == self.in_flight@[j]@);
                        if pre[j + 1]@ == key@ {
                            assert(pre[i as int]@ == key@);
                        }
                    }
                }
                assert forall|k2: Seq<char>| k2 != key@ implies self.has_flight(k2) == old(
                    self,
                ).has_flight(k2) by {
                    if old(self).has_flight(k2) {
                        let j = choose|j: int| 0 <= j < pre.len() && #[trigger] pre[j]@ == k2;
                        assert(j != i as int);
                        if j < i {
                            assert(self.in_flight@[j]@ == k2);
                        } else {
                            assert(self.in_flight@[j - 1]@ == k2);
                        }
                    }
                    if self.has_flight(k2) {
                        let j = choose|j: int|
                            0 <= j < self.in_flight@.len() && #[trigger] self.in_flight@[j]@ == k2;
                        if j < i {
                            assert(pre[j]@ == k2);
                        } else {
                            assert(pre[j + 1]@ == k2);
                        }
                    }
                }
            }
        }
        let ghost mid = *self;
        match result {
            Ok(v) => {
                let stored = v.clone();
                self.store(key, stored, now_ms, ttl_ms);
                proof {
                    assert(!final(self).has_flight(key@)) by {
                        assert(final(self).in_flight == mid.in_flight);
                    }
                    assert forall|k2: Seq<char>| k2 != key@ implies final(self).has_flight(k2)
                        == old(self).has_flight(k2) && final(self).has_entry(k2) == old(
                        self,
                    ).has_entry(k2) && (old(self).has_entry(k2) ==> final(self).the_entry(k2) == old(
                        self,
                    ).the_entry(k2)) by {
                        assert(final(self).in_flight == mid.in_flight);
                        assert(mid.entries == old(self).entries);
                        assert(mid.has_entry(k2) == old(self).has_entry(k2));
                        if old(self).has_entry(k2) {
                            assert(mid.the_entry(k2) == old(self).the_entry(k2));
                        }
                    }
                }
                Ok(v)
            },
            Err(e) => {
                proof {
                    assert(final(self).entries == old(self).entries);
                    assert forall|k2: Seq<char>| k2 != key@ implies final(self).has_entry(k2) == old(
                        self,
                    ).has_entry(k2) && (old(self).has_entry(k2) ==> final(self).the_entry(k2) == old(
                        self,
                    ).the_entry(k2)) by {
                        assert(final(self).entries == old(self).entries);
                    }
                }
                Err(e)
            },
        }
    }

    /// The single-caller path: returns the fresh value stored under the key,
    /// or runs the computation exactly once and stores its result only on
    /// success. In-flight slots are neither consulted nor touched: they
    /// belong to the `acquire`/`complete` protocol of concurrent drivers.
    pub fn get_or_compute<E, F: FnOnce() -> Result<V, E>>(
        &mut self,
        key: &String,
        ttl_ms: u64,
        now_ms: u64,
        compute: F,
    ) -> (r: Result<V, E>)
        requires
            old(self).wf(),
            compute.requires(()),
        ensures
            final(self).wf(),
            final(self).in_flight == old(self).in_flight,
            old(self).spec_fresh(key@, now_ms) is Some ==> {
                &&& r is Ok
                &&& cloned(old(self).spec_fresh(key@, now_ms)->0, r->Ok_0)
                &&& *final(self) == *old(self)
            },
            old(self).spec_fresh(key@, now_ms) is None ==> {
                &&& call_ensures(compute, (), r)
                &&& (r matches Ok(v) ==> {
                    &&& final(self).has_entry(key@)
                    &&& cloned(v, final(self).the_entry(key@).value)
                    &&& final(self).the_entry(key@).created_at_ms == now_ms
                    &&& final(self).the_entry(key@).ttl_ms == ttl_ms
                })
                &&& (r is Err ==> final(self).entries == old(self).entries)
            },
            forall|k2: Seq<char>|
                k2 != key@ ==> final(self).has_entry(k2) == old(self).has_entry(k2) && (old(
                    self,
                ).has_entry(k2) ==> final(self).the_entry(k2) == old(self).the_entry(k2)),
    {
        let fresh = self.get_fresh(key, now_ms);
        match fresh {
            Some(v) => Ok(v),
            None => {
                let result = compute();
                match result {
                    Ok(v) => {
                        let stored = v.clone();
                        self.store(key, stored, now_ms, ttl_ms);
                        Ok(v)
                    },
                    Err(e) => Err(e),
                }
            },
        }
    }
}

/// Law (single flight): while a computation for a key is in flight and not
/// yet completed, no caller's decision for that key starts a second
/// computation — it reuses a fresh value or follows the in-flight slot.
/// Together with `acquire` (which grants Lead only when no slot exists and
/// registers the slot in the same step) and `complete` (which alone releases
/// it), at most one of any number of concurrent callers for a key computes.
pub proof fn lemma_single_flight<V>(c: SingleFlightCache<V>, k: Seq<char>, now_ms: u64)
    requires
        c.has_flight(k),
    ensures
        c.spec_decision(k, now_ms) != FlightKind::Lead,
{
}

/// Law (TTL correctness): a key with an entry is served from the cache
/// exactly while `now < created_at + ttl`, and the value served is the
/// stored one; from `created_at + ttl` on, the entry counts as absent.
pub proof fn lemma_ttl_expiry<V>(c: SingleFlightCache<V>, k: Seq<char>, now_ms: u64)
    requires
        c.has_entry(k),
    ensures
        (c.spec_fresh(k, now_ms) is Some) == ((now_ms as int) < c.the_entry(k).created_at_ms
            + c.the_entry(k).ttl_ms),
        c.spec_fresh(k, now_ms) is Some ==> c.spec_fresh(k, now_ms)->0 == c.the_entry(k).value,
{
}

/// Law (failures are not retained): when a computation for a key fails, the
/// entries are left as they were and the slot is released; so a later caller
/// that finds no fresh entry is granted the lead and computes again, rather
/// than being served the failure.
pub proof fn lemma_failure_retry<V>(
    pre: SingleFlightCache<V>,
    post: SingleFlightCache<V>,
    k: Seq<char>,
    now_ms: u64,
)
    requires
        post.entries@ == pre.entries@,
        !post.has_flight(k),
        pre.spec_fresh(k, now_ms) is None,
    ensures
        post.spec_decision(k, now_ms) == FlightKind::Lead,
{
    assert(post.has_entry(k) == pre.has_entry(k));
    if post.has_entry(k) {
        assert(post.the_entry(k) == pre.the_entry(k));
    }
}

} // verus!
