//! Multi-scope rate limiter over a quota store with atomic
//! increment-with-expiry.
//!
//! A request is checked against its configured scopes in a fixed order
//! (caller identity first, then credential, then global). Each check
//! atomically increments the scope's fixed window; the first scope whose
//! incremented count exceeds its limit rejects the request, and later scopes
//! are not evaluated — their counters are untouched. The over-limit increment
//! is not rolled back. When the store cannot be reached the limiter fails
//! open: the request is admitted ([`apply_outcome`]).
//!
//! All times are in milliseconds.

use vstd::prelude::*;

verus! {

/// The dimension along which a quota is independently tracked.
#[derive(Debug, Clone, Copy, PartialEq, Eq, Structural, Hash)]
pub enum ScopeKind {
    /// Per caller identity (IP address).
    Ip,
    /// Per credential (API key).
    ApiKey,
    /// Shared by every caller.
    Global,
}

/// An immutable per-endpoint quota: at most `limit` requests per `period_ms`.
#[derive(Debug, Clone, Copy, PartialEq, Eq, Structural, Hash)]
pub struct Quota {
    /// The dimension the quota is tracked along.
    pub scope: ScopeKind,
    /// The number of requests admitted per window.
    pub limit: u32,
    /// The length of the fixed window.
    pub period_ms: u64,
}

impl Quota {
    /// A per-caller-identity quota.
    pub fn ip_limit(limit: u32, period_ms: u64) -> (r: Self)
        ensures
            r == (Quota { scope: ScopeKind::Ip, limit, period_ms }),
    {
        Quota { scope: ScopeKind::Ip, limit, period_ms }
    }

    /// A per-credential quota.
    pub fn key_limit(limit: u32, period_ms: u64) -> (r: Self)
        ensures
            r == (Quota { scope: ScopeKind::ApiKey, limit, period_ms }),
    {
        Quota { scope: ScopeKind::ApiKey, limit, period_ms }
    }

    /// A global quota.
    pub fn global_limit(limit: u32, period_ms: u64) -> (r: Self)
        ensures
            r == (Quota { scope: ScopeKind::Global, limit, period_ms }),
    {
        Quota { scope: ScopeKind::Global, limit, period_ms }
    }
}

/// How many requests of the limit are left once `requests` are counted.
pub open spec fn spec_remaining(limit: u32, requests: u32) -> u32 {
    if requests >= limit {
        0u32
    } else {
        (limit - requests) as u32
    }
}

/// The read-only view of a scope's window, returned on success and rejection.
#[derive(Debug, Clone, Copy, PartialEq, Eq, Structural, Hash)]
pub struct Status {
    /// The quota the window counts against.
    pub quota: Quota,
    /// The requests counted in the window.
    pub requests: u32,
    /// When the window started.
    pub oldest_request: u64,
}

impl Status {
    /// How many requests of the limit are left: `max(0, limit - requests)`.
    pub fn remaining(&self) -> (r: u32)
        ensures
            r == spec_remaining(self.quota.limit, self.requests),
    {
        if self.requests >= self.quota.limit {
            0
        } else {
            self.quota.limit - self.requests
        }
    }

    /// The response headers that convey the quota, what remains of it, and
    /// the period (in seconds) for machine-readable retry logic, on success
    /// and on rejection alike.
    pub fn response_headers(&self) -> (r: Vec<(String, String)>)
        ensures
            r@.len() == 3,
            r@[0].0@ == "x-ratelimit-limit"@ && r@[0].1@ == crate::text::dec_digits(
                self.quota.limit as nat,
            ),
            r@[1].0@ == "x-ratelimit-remaining"@ && r@[1].1@ == crate::text::dec_digits(
                spec_remaining(self.quota.limit, self.requests) as nat,
            ),
            r@[2].0@ == "x-ratelimit-period"@ && r@[2].1@ == crate::text::dec_digits(
                (self.quota.period_ms / 1000) as nat,
            ),
    {
        let mut r: Vec<(String, String)> = Vec::new();
        r.push(("x-ratelimit-limit".to_owned(), crate::text::u32_to_dec(self.quota.limit)));
        r.push(("x-ratelimit-remaining".to_owned(), crate::text::u32_to_dec(self.remaining())));
        r.push(("x-ratelimit-period".to_owned(), crate::text::u64_to_dec(self.quota.period_ms / 1000)));
        r
    }
}

/// One fixed window: the scope it counts, the count, when it started, and
/// when the store expires it.
pub struct RateWindow {
    /// The scope the window counts requests for.
    pub scope_id: String,
    /// The requests counted so far.
    pub count: u32,
    /// When the window was created.
    pub window_start_ms: u64,
    /// When the window lapses; set only when the window is created.
    pub expires_at_ms: u64,
}

/// A count incremented by one more request, capped at its type's maximum.
pub open spec fn spec_bump(c: u32) -> u32 {
    if c < u32::MAX {
        (c + 1) as u32
    } else {
        c
    }
}

/// A sum of times, capped at the clock's maximum.
pub open spec fn spec_sat_add(a: u64, b: u64) -> u64 {
    if a + b <= u64::MAX {
        (a + b) as u64
    } else {
        u64::MAX
    }
}

/// A key/value store of fixed windows with atomic increment-with-expiry.
pub struct QuotaStore {
    /// The live and lapsed windows, at most one per scope.
    pub windows: Vec<RateWindow>,
}

impl QuotaStore {
    /// Each scope occurs at most once.
    pub open spec fn wf(self) -> bool {
        forall|i: int, j: int|
            0 <= i < self.windows@.len() && 0 <= j < self.windows@.len()
                && #[trigger] self.windows@[i].scope_id@ == #[trigger] self.windows@[j].scope_id@
                ==> i == j
    }

    /// Whether some window (live or lapsed) exists for the scope.
    pub open spec fn has_window(self, k: Seq<char>) -> bool {
        exists|i: int| 0 <= i < self.windows@.len() && #[trigger] self.windows@[i].scope_id@ == k
    }

    /// The window of the scope.
    pub open spec fn the_window(self, k: Seq<char>) -> RateWindow {
        self.windows@[choose|i: int|
            0 <= i < self.windows@.len() && #[trigger] self.windows@[i].scope_id@ == k]
    }

    /// Whether the scope has a window that has not lapsed at `now_ms`.
    pub open spec fn spec_live(self, k: Seq<char>, now_ms: u64) -> bool {
        self.has_window(k) && now_ms < self.the_window(k).expires_at_ms
    }

    /// The count an increment at `now_ms` yields for the scope: one more on a
    /// live window, 1 on a fresh one (a lapsed window resets wholesale).
    pub open spec fn spec_count_after(self, k: Seq<char>, now_ms: u64) -> u32 {
        if self.spec_live(k, now_ms) {
            spec_bump(self.the_window(k).count)
        } else {
            1u32
        }
    }

    /// The window start an increment at `now_ms` yields for the scope.
    pub open spec fn spec_start_after(self, k: Seq<char>, now_ms: u64) -> u64 {
        if self.spec_live(k, now_ms) {
            self.the_window(k).window_start_ms
        } else {
            now_ms
        }
    }

    /// The expiry an increment at `now_ms` with `period_ms` yields for the
    /// scope: the expiry is set only when the window is created.
    pub open spec fn spec_expiry_after(self, k: Seq<char>, period_ms: u64, now_ms: u64) -> u64 {
        if self.spec_live(k, now_ms) {
            self.the_window(k).expires_at_ms
        } else {
            spec_sat_add(now_ms, period_ms)
        }
    }

    /// Whether the scope's window is the same in both states.
    pub open spec fn same_window(self, other: Self, k: Seq<char>) -> bool {
        self.has_window(k) == other.has_window(k) && (self.has_window(k) ==> self.the_window(k)
            == other.the_window(k))
    }

    /// An empty store.
    pub fn new() -> (r: Self)
        ensures
            r.wf(),
            forall|k: Seq<char>| !r.has_window(k),
    {
        QuotaStore { windows: Vec::new() }
    }

    /// The index of the scope's window.
    fn find_index(&self, key: &String) -> (r: Option<usize>)
        ensures
            match r {
                Some(i) => i < self.windows@.len() && self.windows@[i as int].scope_id@ == key@,
                None => !self.has_window(key@),
            },
    {
        let mut i: usize = 0;
        while i < self.windows.len()
            invariant
                i <= self.windows@.len(),
                forall|j: int| 0 <= j < i ==> #[trigger] self.windows@[j].scope_id@ != key@,
            decreases self.windows@.len() - i,
        {
            if self.windows[i].scope_id == *key {
                return Some(i);
            }
            i = i + 1;
        }
        None
    }

    /// Atomically counts one request against the scope's fixed window and
    /// returns the new count and the window's start. A live window is bumped
    /// and keeps its start and expiry; a missing or lapsed window is created
    /// with one request, starting now and expiring a period from now.
    pub fn incr_with_expiry(&mut self, key: &String, period_ms: u64, now_ms: u64) -> (r: (u32, u64))
        requires
            old(self).wf(),
        ensures
            final(self).wf(),
            r.0 == old(self).spec_count_after(key@, now_ms),
            r.1 == old(self).spec_start_after(key@, now_ms),
            final(self).has_window(key@),
            final(self).the_window(key@) == (RateWindow {
                scope_id: final(self).the_window(key@).scope_id,
                count: old(self).spec_count_after(key@, now_ms),
                window_start_ms: old(self).spec_start_after(key@, now_ms),
                expires_at_ms: old(self).spec_expiry_after(key@, period_ms, now_ms),
            }),
            final(self).the_window(key@).scope_id@ == key@,
            forall|k2: Seq<char>| k2 != key@ ==> final(self).same_window(*old(self), k2),
    {
        let found = self.find_index(key);
        let ghost pre = self.windows@;
        match found {
            Some(i) => {
                proof {
                    let w = choose|w: int|
                        0 <= w < self.windows@.len() && #[trigger] self.windows@[w].scope_id@
                            == key@;
                    assert(w == i as int);
                }
                let live = now_ms < self.windows[i].expires_at_ms;
                let count: u32 = if live {
                    let c = self.windows[i].count;
                    if c < u32::MAX {
                        c + 1
                    } else {
                        c
                    }
                } else {
                    1
                };
                let start: u64 = if live {
                    self.windows[i].window_start_ms
                } else {
                    now_ms
                };
                let expires: u64 = if live {
                    self.windows[i].expires_at_ms
                } else {
                    if period_ms <= u64::MAX - now_ms {
                        now_ms + period_ms
                    } else {
                        u64::MAX
                    }
                };
                let window = RateWindow {
                    scope_id: key.clone(),
                    count,
                    window_start_ms: start,
                    expires_at_ms: expires,
                };
                vstd::pervasive::VecAdditionalExecFns::set(&mut self.windows, i, window);
                proof {
                    assert(self.windows@[i as int].scope_id@ == key@);
                    let w = choose|w: int|
                        0 <= w < self.windows@.len() && #[trigger] self.windows@[w].scope_id@
                            == key@;
                    assert(self.windows@[w].scope_id@ == pre[w].scope_id@ || w == i as int);
                    assert(w == i as int);
                    assert forall|k2: Seq<char>| k2 != key@ implies final(self).same_window(
                        *old(self),
                        k2,
                    ) by {
                        if old(self).has_window(k2) {
                            let j = choose|j: int|
                                0 <= j < pre.len() && #[trigger] pre[j].scope_id@ == k2;
                            assert(j != i as int);
                            assert(self.windows@[j].scope_id@ == k2);
                            let w2 = choose|w2: int|
                                0 <= w2 < self.windows@.len()
                                    && #[trigger] self.windows@[w2].scope_id@ == k2;
                            assert(w2 != i as int);
                            assert(pre[w2].scope_id@ == k2);
                            let w3 = choose|w3: int|
                                0 <= w3 < pre.len() && #[trigger] pre[w3].scope_id@ == k2;
                            assert(w3 == w2);
                        }
                        if final(self).has_window(k2) {
                            let j = choose|j: int|
                                0 <= j < self.windows@.len()
                                    && #[trigger] self.windows@[j].scope_id@ == k2;
                            assert(j != i as int);
                            assert(pre[j].scope_id@ == k2);
                        }
                    }
                }
                (count, start)
            },
            None => {
                let expires: u64 = if period_ms <= u64::MAX - now_ms {
                    now_ms + period_ms
                } else {
                    u64::MAX
                };
                let window = RateWindow {
                    scope_id: key.clone(),
                    count: 1,
                    window_start_ms: now_ms,
                    expires_at_ms: expires,
                };
                self.windows.push(window);
                proof {
                    assert(self.windows@[pre.len() as int].scope_id@ == key@);
                    let w = choose|w: int|
                        0 <= w < self.windows@.len() && #[trigger] self.windows@[w].scope_id@
                            == key@;
                    assert(w == pre.len() as int) by {
                        if w < pre.len() {
                            assert(pre[w].scope_id@ == key@);
                        }
                    }
                    assert forall|k2: Seq<char>| k2 != key@ implies final(self).same_window(
                        *old(self),
                        k2,
                    ) by {
                        if old(self).has_window(k2) {
                            let j = choose|j: int|
                                0 <= j < pre.len() && #[trigger] pre[j].scope_id@ == k2;
                            assert(self.windows@[j].scope_id@ == k2);
                        }
                        if final(self).has_window(k2) {
                            let j = choose|j: int|
                                0 <= j < self.windows@.len()
                                    && #[trigger] self.windows@[j].scope_id@ == k2;
                            assert(j != pre.len() as int);
                            assert(pre[j].scope_id@ == k2);
                        }
                    }
                }
                (1, now_ms)
            },
        }
    }
}

/// One scope a request is checked against: the quota and the key the window
/// is stored under (derived from the scope kind, the scope value and the
/// endpoint class).
pub struct Scope {
    /// The quota enforced along this scope.
    pub quota: Quota,
    /// The store key of this scope's window.
    pub scope_id: String,
}

/// Whether a scope rejects, given the store state before the request: its
/// incremented count would exceed its limit.
pub open spec fn spec_rejects(store: QuotaStore, s: Scope, now_ms: u64) -> bool {
    store.spec_count_after(s.scope_id@, now_ms) > s.quota.limit
}

/// The status a scope reports, given the store state before the request.
pub open spec fn spec_status_after(store: QuotaStore, s: Scope, now_ms: u64) -> Status {
    Status {
        quota: s.quota,
        requests: store.spec_count_after(s.scope_id@, now_ms),
        oldest_request: store.spec_start_after(s.scope_id@, now_ms),
    }
}

/// The fail-open admission decision on one scope's store outcome. `None`
/// stands for a store that could not be reached: the request is admitted
/// (rate limiting protects, it is not correctness-critical, so availability
/// wins); the degraded mode is the caller's to log. On a reachable store the
/// request is rejected exactly when the incremented count exceeds the limit.
pub fn apply_outcome(outcome: Option<(u32, u64)>, quota: &Quota) -> (r: Option<Status>)
    ensures
        outcome is None ==> r is None,
        outcome matches Some((count, start)) ==> r == (if count > quota.limit {
            Some(Status { quota: *quota, requests: count, oldest_request: start })
        } else {
            None::<Status>
        }),
{
    match outcome {
        None => None,
        Some((count, start)) => {
            if count > quota.limit {
                Some(Status { quota: *quota, requests: count, oldest_request: start })
            } else {
                None
            }
        },
    }
}

/// Whether `post` reflects exactly `pre` with one request counted against
/// the scope: the window carries the incremented count, the kept (or fresh)
/// start, and the expiry that was set when the window was created.
pub open spec fn spec_counted(pre: QuotaStore, post: QuotaStore, s: Scope, now_ms: u64) -> bool {
    &&& post.has_window(s.scope_id@)
    &&& post.the_window(s.scope_id@).scope_id@ == s.scope_id@
    &&& post.the_window(s.scope_id@).count == pre.spec_count_after(s.scope_id@, now_ms)
    &&& post.the_window(s.scope_id@).window_start_ms == pre.spec_start_after(s.scope_id@, now_ms)
    &&& post.the_window(s.scope_id@).expires_at_ms == pre.spec_expiry_after(
        s.scope_id@,
        s.quota.period_ms,
        now_ms,
    )
}

/// The scoped rate limiter over its quota store.
pub struct RateLimiter {
    /// The shared store of fixed windows.
    pub store: QuotaStore,
}

impl RateLimiter {
    /// A limiter over an empty store.
    pub fn new() -> (r: Self)
        ensures
            r.store.wf(),
            forall|k: Seq<char>| !r.store.has_window(k),
    {
        RateLimiter { store: QuotaStore::new() }
    }

    /// The read-only status of a scope: what its window counts at `now_ms`,
    /// without counting anything.
    pub fn status(&self, scope: &Scope, now_ms: u64) -> (st: Status)
        requires
            self.store.wf(),
        ensures
            st.quota == scope.quota,
            st.requests == (if self.store.spec_live(scope.scope_id@, now_ms) {
                self.store.the_window(scope.scope_id@).count
            } else {
                0u32
            }),
            st.oldest_request == (if self.store.spec_live(scope.scope_id@, now_ms) {
                self.store.the_window(scope.scope_id@).window_start_ms
            } else {
                now_ms
            }),
    {
        let found = self.store.find_index(&scope.scope_id);
        match found {
            Some(i) => {
                proof {
                    let w = choose|w: int|
                        0 <= w < self.store.windows@.len()
                            && #[trigger] self.store.windows@[w].scope_id@ == scope.scope_id@;
                    assert(w == i as int);
                }
                let win = &self.store.windows[i];
                if now_ms < win.expires_at_ms {
                    Status {
                        quota: scope.quota,
                        requests: win.count,
                        oldest_request: win.window_start_ms,
                    }
                } else {
                    Status { quota: scope.quota, requests: 0, oldest_request: now_ms }
                }
            },
            None => Status { quota: scope.quota, requests: 0, oldest_request: now_ms },
        }
    }

    /// Checks a request against its scopes, in the order given. Every scope
    /// up to and including the first rejecting one counts the request; the
    /// first rejecting scope's status is surfaced and later scopes are not
    /// evaluated — their windows are untouched. The over-limit increment is
    /// not rolled back. The scopes are distinct dimensions, so their store
    /// keys differ.
    pub fn check(&mut self, scopes: &Vec<Scope>, now_ms: u64) -> (r: Result<(), Status>)
        requires
            old(self).store.wf(),
            forall|i: int, j: int|
                0 <= i < j < scopes@.len() ==> #[trigger] scopes@[i].scope_id@
                    != #[trigger] scopes@[j].scope_id@,
        ensures
            final(self).store.wf(),
            // admitted exactly when every scope stays within its limit
            (r is Ok) == (forall|i: int|
                0 <= i < scopes@.len() ==> !spec_rejects(old(self).store, scopes@[i], now_ms)),
            // the first violated scope's status is what is surfaced
            r matches Err(st) ==> exists|j: int|
                {
                    &&& 0 <= j < scopes@.len()
                    &&& #[trigger] spec_rejects(old(self).store, scopes@[j], now_ms)
                    &&& forall|i: int|
                        0 <= i < j ==> !spec_rejects(old(self).store, scopes@[i], now_ms)
                    &&& st == spec_status_after(old(self).store, scopes@[j], now_ms)
                    // scopes up to the rejecting one counted the request ...
                    &&& forall|i: int|
                        0 <= i <= j ==> spec_counted(
                            old(self).store,
                            final(self).store,
                            #[trigger] scopes@[i],
                            now_ms,
                        )
                    // ... and later scopes were not evaluated
                    &&& forall|i: int|
                        j < i < scopes@.len() ==> final(self).store.same_window(
                            old(self).store,
                            #[trigger] scopes@[i].scope_id@,
                        )
                },
            // on admission every scope counted the request
            r is Ok ==> forall|i: int|
                0 <= i < scopes@.len() ==> spec_counted(
                    old(self).store,
                    final(self).store,
                    #[trigger] scopes@[i],
                    now_ms,
                ),
            // scopes other than the given ones are untouched
            forall|k2: Seq<char>|
                (forall|i: int| 0 <= i < scopes@.len() ==> #[trigger] scopes@[i].scope_id@ != k2)
                    ==> #[trigger] final(self).store.same_window(old(self).store, k2),
    {
        let mut idx: usize = 0;
        while idx < scopes.len()
            invariant
                self.store.wf(),
                idx <= scopes@.len(),
                forall|i: int, j: int|
                    0 <= i < j < scopes@.len() ==> #[trigger] scopes@[i].scope_id@
                        != #[trigger] scopes@[j].scope_id@,
                forall|i: int| 0 <= i < idx ==> !spec_rejects(old(self).store, scopes@[i], now_ms),
                forall|i: int|
                    0 <= i < idx ==> spec_counted(
                        old(self).store,
                        self.store,
                        #[trigger] scopes@[i],
                        now_ms,
                    ),
                forall|k2: Seq<char>|
                    (forall|i: int| 0 <= i < idx ==> #[trigger] scopes@[i].scope_id@ != k2)
                        ==> #[trigger] self.store.same_window(old(self).store, k2),
            decreases scopes@.len() - idx,
        {
            let scope = &scopes[idx];
            let ghost pre_step = self.store;
            proof {
                assert(pre_step.same_window(old(self).store, scope.scope_id@));
            }
            let (count, start) = self.store.incr_with_expiry(
                &scope.scope_id,
                scope.quota.period_ms,
                now_ms,
            );
            proof {
                assert(pre_step.spec_count_after(scope.scope_id@, now_ms) == old(
                    self,
                ).store.spec_count_after(scope.scope_id@, now_ms));
                assert(pre_step.spec_start_after(scope.scope_id@, now_ms) == old(
                    self,
                ).store.spec_start_after(scope.scope_id@, now_ms));
                assert(pre_step.spec_expiry_after(scope.scope_id@, scope.quota.period_ms, now_ms)
                    == old(self).store.spec_expiry_after(
                    scope.scope_id@,
                    scope.quota.period_ms,
                    now_ms,
                ));
                assert(spec_counted(old(self).store, self.store, scopes@[idx as int], now_ms));
            }
            if count > scope.quota.limit {
                let st = Status { quota: scope.quota, requests: count, oldest_request: start };
                proof {
                    let ghost j = idx as int;
                    assert(spec_rejects(old(self).store, scopes@[j], now_ms));
                    assert(st == spec_status_after(old(self).store, scopes@[j], now_ms));
                    assert forall|i: int| 0 <= i <= j implies spec_counted(
                        old(self).store,
                        self.store,
                        #[trigger] scopes@[i],
                        now_ms,
                    ) by {
                        if i < j {
                            assert(scopes@[i].scope_id@ != scope.scope_id@);
                            assert(self.store.same_window(pre_step, scopes@[i].scope_id@));
                        }
                    }
                    assert forall|i: int|
                        j < i < scopes@.len() implies self.store.same_window(
                        old(self).store,
                        #[trigger] scopes@[i].scope_id@,
                    ) by {
                        assert(scopes@[i].scope_id@ != scope.scope_id@);
                        assert(self.store.same_window(pre_step, scopes@[i].scope_id@));
                        assert(forall|m: int|
                            0 <= m < j ==> #[trigger] scopes@[m].scope_id@
                                != scopes@[i].scope_id@);
                        assert(pre_step.same_window(old(self).store, scopes@[i].scope_id@));
                    }
                    assert forall|k2: Seq<char>|
                        (forall|i: int|
                            0 <= i < scopes@.len() ==> #[trigger] scopes@[i].scope_id@
                                != k2) implies #[trigger] self.store.same_window(
                        old(self).store,
                        k2,
                    ) by {
                        assert(scope.scope_id@ != k2);
                        assert(self.store.same_window(pre_step, k2));
                        assert(pre_step.same_window(old(self).store, k2));
                    }
                }
                return Err(st);
            }
            proof {
                assert forall|i: int| 0 <= i < idx + 1 implies spec_counted(
                    old(self).store,
                    self.store,
                    #[trigger] scopes@[i],
                    now_ms,
                ) by {
                    if i < idx {
                        assert(scopes@[i].scope_id@ != scope.scope_id@);
                        assert(self.store.same_window(pre_step, scopes@[i].scope_id@));
                    }
                }
                assert forall|k2: Seq<char>|
                    (forall|i: int|
                        0 <= i < idx + 1 ==> #[trigger] scopes@[i].scope_id@
                            != k2) implies #[trigger] self.store.same_window(
                    old(self).store,
                    k2,
                ) by {
                    assert(scope.scope_id@ != k2);
                    assert(self.store.same_window(pre_step, k2));
                    assert(pre_step.same_window(old(self).store, k2));
                }
            }
            idx = idx + 1;
        }
        Ok(())
    }
}

/// Law (window reset): once a scope's window has lapsed — in particular once
/// a full period has passed since it was created — the next request starts a
/// fresh window: it is counted as the first, starting now.
pub proof fn lemma_window_reset(store: QuotaStore, k: Seq<char>, now_ms: u64)
    requires
        store.has_window(k),
        store.the_window(k).expires_at_ms <= now_ms,
    ensures
        store.spec_count_after(k, now_ms) == 1,
        store.spec_start_after(k, now_ms) == now_ms,
{
}

/// Law (rate-limit boundary): with `count` requests already in a live
/// window, the next request is admitted by the scope exactly when the
/// incremented count stays within the limit; the status it reports carries
/// the incremented count, and `remaining` is zero from the limit on.
pub proof fn lemma_boundary(store: QuotaStore, s: Scope, now_ms: u64)
    requires
        store.spec_live(s.scope_id@, now_ms),
        store.the_window(s.scope_id@).count < u32::MAX,
    ensures
        spec_rejects(store, s, now_ms) == (store.the_window(s.scope_id@).count + 1
            > s.quota.limit),
        spec_status_after(store, s, now_ms).requests == store.the_window(s.scope_id@).count + 1,
        spec_status_after(store, s, now_ms).requests >= s.quota.limit ==> spec_remaining(
            s.quota.limit,
            spec_status_after(store, s, now_ms).requests,
        ) == 0,
{
}

} // verus!
