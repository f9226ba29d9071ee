use std::cell::Cell;

use analytics_gateway::assets::{hero_id_from_name, hero_name_from_id, validate_hero_id,
    upgrade_item_indices, AssetsHero, AssetsItem};
use analytics_gateway::cache::{Flight, SingleFlightCache};
use analytics_gateway::cache_control::CacheDirective;
use analytics_gateway::error::{json_escape, APIError};
use analytics_gateway::rate_limiter::{apply_outcome, Quota, RateLimiter, Scope, Status};
use analytics_gateway::text::{i64_to_dec, join_dec_u32, join_strings, u64_to_dec};

fn key(s: &str) -> String {
    s.to_owned()
}

#[test]
fn single_flight_computes_once() {
    // N callers for one key: the compute closure runs exactly once and every
    // caller observes the same result.
    let mut cache: SingleFlightCache<u64> = SingleFlightCache::new();
    let calls = Cell::new(0u32);
    let compute = || -> Result<u64, String> {
        calls.set(calls.get() + 1);
        Ok(42)
    };
    let k = key("fingerprint");
    let mut results = Vec::new();
    for _ in 0..5 {
        let r = cache.get_or_compute(&k, 1000, 0, &compute);
        results.push(r);
    }
    assert_eq!(calls.get(), 1);
    for r in results {
        assert_eq!(r, Ok(42));
    }
}

#[test]
fn single_flight_protocol_grants_one_lead() {
    // The concurrent protocol: the first caller leads, callers that arrive
    // while the computation is in flight follow, and after completion the
    // value is served from the cache.
    let mut cache: SingleFlightCache<u64> = SingleFlightCache::new();
    let k = key("fingerprint");
    let first = cache.acquire(&k, 0);
    assert!(matches!(first, Flight::Lead));
    let second = cache.acquire(&k, 0);
    assert!(matches!(second, Flight::Follow));
    let third = cache.acquire(&k, 0);
    assert!(matches!(third, Flight::Follow));
    let delivered = cache.complete::<String>(&k, Ok(42), 0, 1000);
    assert_eq!(delivered, Ok(42));
    match cache.acquire(&k, 500) {
        Flight::Hit(v) => assert_eq!(v, 42),
        _ => panic!("expected a cache hit"),
    }
}

#[test]
fn ttl_expiry_boundaries() {
    // ttl = 1s: a call at t=0 populates, a call at t=0.5s is served from the
    // cache, a call at t=1.5s computes again.
    let mut cache: SingleFlightCache<u64> = SingleFlightCache::new();
    let calls = Cell::new(0u32);
    let compute = || -> Result<u64, String> {
        calls.set(calls.get() + 1);
        Ok(calls.get() as u64)
    };
    let k = key("fingerprint");
    assert_eq!(cache.get_or_compute(&k, 1000, 0, &compute), Ok(1));
    assert_eq!(cache.get_or_compute(&k, 1000, 500, &compute), Ok(1));
    assert_eq!(calls.get(), 1);
    assert_eq!(cache.get_or_compute(&k, 1000, 1500, &compute), Ok(2));
    assert_eq!(calls.get(), 2);
}

#[test]
fn failures_are_not_cached() {
    // A failed computation is delivered but not stored: the next call for the
    // same key, within the TTL window, computes again.
    let mut cache: SingleFlightCache<u64> = SingleFlightCache::new();
    let calls = Cell::new(0u32);
    let compute = || -> Result<u64, String> {
        calls.set(calls.get() + 1);
        if calls.get() == 1 {
            Err("downstream failed".to_owned())
        } else {
            Ok(7)
        }
    };
    let k = key("fingerprint");
    assert_eq!(
        cache.get_or_compute(&k, 1000, 0, &compute),
        Err("downstream failed".to_owned())
    );
    assert_eq!(cache.get_or_compute(&k, 1000, 1, &compute), Ok(7));
    assert_eq!(calls.get(), 2);
}

#[test]
fn failure_through_protocol_releases_slot() {
    let mut cache: SingleFlightCache<u64> = SingleFlightCache::new();
    let k = key("fingerprint");
    assert!(matches!(cache.acquire(&k, 0), Flight::Lead));
    let delivered = cache.complete(&k, Err("boom".to_owned()), 0, 1000);
    assert_eq!(delivered, Err("boom".to_owned()));
    // the failure was not retained: the next caller leads and retries
    assert!(matches!(cache.acquire(&k, 1), Flight::Lead));
}

#[test]
fn rate_limiter_boundary() {
    // quota = {limit: 3, period: 60s}: requests 1-3 are admitted with
    // remaining 2, 1, 0; the 4th is rejected with requests = 4, remaining = 0.
    let mut limiter = RateLimiter::new();
    let scope = Scope {
        quota: Quota::ip_limit(3, 60_000),
        scope_id: key("ip:203.0.113.9"),
    };
    let scopes = vec![Scope { quota: scope.quota, scope_id: scope.scope_id.clone() }];
    let expected_remaining = [2u32, 1, 0];
    for expect in expected_remaining {
        assert!(limiter.check(&scopes, 0).is_ok());
        let status = limiter.status(&scope, 0);
        assert_eq!(status.remaining(), expect);
    }
    let rejection = limiter.check(&scopes, 0);
    let status = rejection.expect_err("the 4th request must be rejected");
    assert_eq!(status.requests, 4);
    assert_eq!(status.remaining(), 0);
    assert_eq!(status.oldest_request, 0);
}

#[test]
fn rate_limiter_window_reset() {
    // After the period elapses from window_start, a new request is admitted
    // and requests resets to 1.
    let mut limiter = RateLimiter::new();
    let scope = Scope {
        quota: Quota::ip_limit(1, 60_000),
        scope_id: key("ip:203.0.113.9"),
    };
    let scopes = vec![Scope { quota: scope.quota, scope_id: scope.scope_id.clone() }];
    assert!(limiter.check(&scopes, 0).is_ok());
    assert!(limiter.check(&scopes, 59_999).is_err());
    assert!(limiter.check(&scopes, 60_000).is_ok());
    let status = limiter.status(&scope, 60_000);
    assert_eq!(status.requests, 1);
    assert_eq!(status.oldest_request, 60_000);
}

#[test]
fn scope_precedence_short_circuits() {
    // A request whose IP-scope quota is already exceeded is rejected without
    // incrementing the credential- or global-scope counters.
    let mut limiter = RateLimiter::new();
    let scopes = vec![
        Scope { quota: Quota::ip_limit(1, 60_000), scope_id: key("ip:203.0.113.9") },
        Scope { quota: Quota::key_limit(100, 60_000), scope_id: key("key:abc") },
        Scope { quota: Quota::global_limit(1000, 60_000), scope_id: key("global") },
    ];
    assert!(limiter.check(&scopes, 0).is_ok());
    let rejection = limiter.check(&scopes, 1);
    let status = rejection.expect_err("the IP scope must reject");
    assert_eq!(status.quota, Quota::ip_limit(1, 60_000));
    assert_eq!(status.requests, 2);
    // the later scopes still count only the first, admitted request
    let key_status = limiter.status(&scopes[1], 1);
    assert_eq!(key_status.requests, 1);
    let global_status = limiter.status(&scopes[2], 1);
    assert_eq!(global_status.requests, 1);
}

#[test]
fn store_unavailable_fails_open() {
    // With no store outcome, the decision is to admit; with an outcome, the
    // request is rejected exactly when the count exceeds the limit.
    let quota = Quota::ip_limit(3, 60_000);
    assert_eq!(apply_outcome(None, &quota), None);
    assert_eq!(apply_outcome(Some((3, 5)), &quota), None);
    let rejected = apply_outcome(Some((4, 5)), &quota);
    assert_eq!(
        rejected,
        Some(Status { quota, requests: 4, oldest_request: 5 })
    );
}

#[test]
fn cache_control_composition() {
    // {max_age: 120, swr: 300, sie: 600} yields exactly this header value.
    let directive = CacheDirective::new(120)
        .with_stale_while_revalidate(300)
        .with_stale_if_error(600);
    assert_eq!(
        directive.header_value(),
        "max-age=120, stale-while-revalidate=300, stale-if-error=600"
    );
}

#[test]
fn cache_control_on_responses() {
    let directive = CacheDirective::new(120)
        .with_stale_while_revalidate(300)
        .with_stale_if_error(600);
    // set on every successful response in the route group
    assert_eq!(
        directive.header_for_response(200, None),
        Some("max-age=120, stale-while-revalidate=300, stale-if-error=600".to_owned())
    );
    // an inner route group's directive wins
    let inner = "max-age=3600".to_owned();
    assert_eq!(directive.header_for_response(200, Some(&inner)), None);
    // failures carry no freshness directive
    assert_eq!(directive.header_for_response(500, None), None);
    assert_eq!(directive.header_for_response(429, None), None);
}

#[test]
fn cache_control_partial_directives() {
    assert_eq!(CacheDirective::new(120).header_value(), "max-age=120");
    assert_eq!(
        CacheDirective::new(0).with_stale_if_error(600).header_value(),
        "max-age=0, stale-if-error=600"
    );
}

#[test]
fn rate_limit_error_body() {
    let status = Status {
        quota: Quota::ip_limit(100, 60_000),
        requests: 101,
        oldest_request: 0,
    };
    let error = APIError::RateLimitExceeded { status };
    assert_eq!(error.status_code(), 429);
    assert_eq!(
        error.body(),
        "{\"status\":429,\"error\":{\"quota\":{\"limit\":100,\"period\":60},\"requests\":101,\"remaining\":0}}"
    );
    let headers = status.response_headers();
    assert_eq!(
        headers,
        vec![
            ("x-ratelimit-limit".to_owned(), "100".to_owned()),
            ("x-ratelimit-remaining".to_owned(), "0".to_owned()),
            ("x-ratelimit-period".to_owned(), "60".to_owned()),
        ]
    );
}

#[test]
fn error_bodies_and_codes() {
    let error = APIError::status_msg(400, "Invalid input");
    assert_eq!(error.status_code(), 400);
    assert_eq!(error.body(), "{\"status\":400,\"error\":\"Invalid input\"}");

    let error = APIError::bad_request("bad");
    assert_eq!(error.status_code(), 400);

    let error = APIError::protected_user();
    assert_eq!(error.status_code(), 403);
    assert_eq!(
        error.body(),
        "{\"status\":403,\"error\":\"The requested user is protected.\"}"
    );

    let error = APIError::internal("Database connection failed");
    assert_eq!(error.status_code(), 500);
    assert_eq!(
        error.body(),
        "{\"status\":500,\"error\":\"Internal server error: Database connection failed\"}"
    );

    let error = APIError::Status { status: 404 };
    assert_eq!(error.status_code(), 404);
    assert_eq!(error.body(), "");
}

#[test]
fn json_escaping() {
    assert_eq!(json_escape("plain"), "plain");
    assert_eq!(json_escape("say \"hi\""), "say \\\"hi\\\"");
    assert_eq!(json_escape("back\\slash"), "back\\\\slash");
    assert_eq!(json_escape("line\nbreak\ttab"), "line\\u000abreak\\u0009tab");
    assert_eq!(json_escape("\u{1f}"), "\\u001f");
    let error = APIError::status_msg(400, "a \"quoted\" value");
    assert_eq!(
        error.body(),
        "{\"status\":400,\"error\":\"a \\\"quoted\\\" value\"}"
    );
}

#[test]
fn asset_lookups() {
    let heroes = vec![
        AssetsHero { id: 1, name: "Abrams".to_owned() },
        AssetsHero { id: 2, name: "Bebop".to_owned() },
        AssetsHero { id: 2, name: "Duplicate".to_owned() },
    ];
    assert_eq!(hero_id_from_name(&heroes, "bebop"), Some(2));
    assert_eq!(hero_id_from_name(&heroes, "BEBOP"), Some(2));
    assert_eq!(hero_id_from_name(&heroes, "nobody"), None);
    assert_eq!(hero_name_from_id(&heroes, 2), Some("Bebop".to_owned()));
    assert_eq!(hero_name_from_id(&heroes, 9), None);
    assert!(validate_hero_id(&heroes, 1));
    assert!(!validate_hero_id(&heroes, 9));
}

#[test]
fn upgrade_items_are_selected() {
    let item = |id: u32, item_type: Option<&str>| AssetsItem {
        id,
        name: format!("item{id}"),
        tier: Some(1),
        cost: None,
        item_type: item_type.map(str::to_owned),
        slot: None,
    };
    let items = vec![
        item(10, Some("upgrade")),
        item(11, Some("ability")),
        item(12, None),
        item(13, Some("upgrade")),
    ];
    assert_eq!(upgrade_item_indices(&items), vec![0, 3]);
}

#[test]
fn decimal_formatting() {
    assert_eq!(u64_to_dec(0), "0");
    assert_eq!(u64_to_dec(10), "10");
    assert_eq!(u64_to_dec(u64::MAX), "18446744073709551615");
    assert_eq!(i64_to_dec(-1), "-1");
    assert_eq!(i64_to_dec(i64::MIN), "-9223372036854775808");
    assert_eq!(i64_to_dec(1672531200), "1672531200");
}

#[test]
fn join_formatting() {
    assert_eq!(join_dec_u32(&vec![1, 2, 3], ", "), "1, 2, 3");
    assert_eq!(join_dec_u32(&vec![7], ","), "7");
    assert_eq!(join_dec_u32(&vec![], ","), "");
    let parts = vec!["a".to_owned(), "b".to_owned()];
    assert_eq!(join_strings(&parts, " AND "), "a AND b");
}
