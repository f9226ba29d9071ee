//! HTTP cache-control composer: turns a server-side freshness policy into the
//! `Cache-Control` directives a standards-compliant shared cache interprets.
//!
//! The composer does not cache bytes itself. It composes the header value
//! exactly, emits it only on successful responses, and never overwrites a
//! header that a more specific (inner) route group has already set.
//!
//! Durations here are in seconds, the unit of the HTTP directives.

use vstd::prelude::*;
use vstd::string::StringExecFns;

use crate::text::{dec_digits, u64_to_dec};

verus! {

/// A route group's freshness policy: how long a response is fresh, how long a
/// stale copy may be served while revalidating, and how long a stale copy may
/// be served when revalidation fails.
#[derive(Debug, Clone, Copy, PartialEq, Eq, Structural, Hash)]
pub struct CacheDirective {
    /// Seconds after which a shared cache must revalidate.
    pub max_age_s: u64,
    /// Seconds past `max_age_s` a stale copy may be served while refreshing.
    pub stale_while_revalidate_s: Option<u64>,
    /// Seconds past `max_age_s` a stale copy may be served when the origin
    /// request fails.
    pub stale_if_error_s: Option<u64>,
}

impl CacheDirective {
    /// A policy with the given freshness lifetime and no stale allowances.
    pub fn new(max_age_s: u64) -> (r: Self)
        ensures
            r == (CacheDirective {
                max_age_s,
                stale_while_revalidate_s: None,
                stale_if_error_s: None,
            }),
    {
        CacheDirective { max_age_s, stale_while_revalidate_s: None, stale_if_error_s: None }
    }

    /// The same policy, allowing a stale copy while revalidating.
    pub fn with_stale_while_revalidate(self, seconds: u64) -> (r: Self)
        ensures
            r == (CacheDirective { stale_while_revalidate_s: Some(seconds), ..self }),
    {
        CacheDirective { stale_while_revalidate_s: Some(seconds), ..self }
    }

    /// The same policy, allowing a stale copy when the origin fails.
    pub fn with_stale_if_error(self, seconds: u64) -> (r: Self)
        ensures
            r == (CacheDirective { stale_if_error_s: Some(seconds), ..self }),
    {
        CacheDirective { stale_if_error_s: Some(seconds), ..self }
    }
}

/// The composed `Cache-Control` value: `max-age` always, each stale allowance
/// exactly when the policy grants it.
pub open spec fn spec_header_value(d: CacheDirective) -> Seq<char> {
    "max-age="@ + dec_digits(d.max_age_s as nat) + (match d.stale_while_revalidate_s {
        Some(s) => ", stale-while-revalidate="@ + dec_digits(s as nat),
        None => Seq::empty(),
    }) + (match d.stale_if_error_s {
        Some(s) => ", stale-if-error="@ + dec_digits(s as nat),
        None => Seq::empty(),
    })
}

impl CacheDirective {
    /// Composes the `Cache-Control` header value for this policy.
    pub fn header_value(&self) -> (r: String)
        ensures
            r@ == spec_header_value(*self),
    {
        let mut r = "max-age=".to_owned();
        let age = u64_to_dec(self.max_age_s);
        r.append(age.as_str());
        if let Some(s) = self.stale_while_revalidate_s {
            r.append(", stale-while-revalidate=");
            let n = u64_to_dec(s);
            r.append(n.as_str());
        }
        if let Some(s) = self.stale_if_error_s {
            r.append(", stale-if-error=");
            let n = u64_to_dec(s);
            r.append(n.as_str());
        }
        proof {
            assert(r@ =~= spec_header_value(*self));
        }
        r
    }

    /// The header to set on a response that already carries `existing` from a
    /// nested route group: the innermost, most specific directive wins, so an
    /// existing header is kept (`None` = leave the response as it is). The
    /// header is emitted on successful responses; on failures nothing is set,
    /// and a shared cache holding a previously fresh copy may keep serving it
    /// under the stale-if-error allowance.
    pub fn header_for_response(&self, status: u16, existing: Option<&String>) -> (r: Option<
        String,
    >)
        ensures
            existing is Some ==> r is None,
            existing is None && 200 <= status < 300 ==> r is Some && r->0@ == spec_header_value(
                *self,
            ),
            existing is None && !(200 <= status < 300) ==> r is None,
    {
        match existing {
            Some(_) => None,
            None => {
                if 200 <= status && status < 300 {
                    Some(self.header_value())
                } else {
                    None
                }
            },
        }
    }
}

/// Law (cache-control composition): the policy of two minutes' freshness,
/// five minutes' stale-while-revalidate and ten minutes' stale-if-error
/// composes to exactly this header value; with `header_for_response` it is
/// what every successful response in such a route group carries.
pub proof fn lemma_cache_control_composition()
    ensures
        spec_header_value(
            CacheDirective {
                max_age_s: 120,
                stale_while_revalidate_s: Some(300),
                stale_if_error_s: Some(600),
            },
        ) == "max-age=120, stale-while-revalidate=300, stale-if-error=600"@,
{
    reveal_with_fuel(dec_digits, 4);
    assert(dec_digits(120nat) =~= seq!['1', '2', '0']);
    assert(dec_digits(300nat) =~= seq!['3', '0', '0']);
    assert(dec_digits(600nat) =~= seq!['6', '0', '0']);
    reveal_strlit("max-age=");
    reveal_strlit(", stale-while-revalidate=");
    reveal_strlit(", stale-if-error=");
    reveal_strlit("max-age=120, stale-while-revalidate=300, stale-if-error=600");
    assert(spec_header_value(
        CacheDirective {
            max_age_s: 120,
            stale_while_revalidate_s: Some(300),
            stale_if_error_s: Some(600),
        },
    ) =~= "max-age=120, stale-while-revalidate=300, stale-if-error=600"@);
}

} // verus!
