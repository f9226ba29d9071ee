//! Core library of an HTTP analytics gateway.
//!
//! The library covers the admission-control and result-reuse layer that every
//! request passes through, together with the canonical query-text builders of
//! the statistics endpoints:
//!
//! * a single-flight, time-bounded memoization cache ([`cache`]),
//! * a multi-scope rate limiter ([`rate_limiter`]),
//! * an HTTP cache-control composer ([`cache_control`]),
//! * the parameterized query builders ([`item_stats`], [`item_timing_stats`],
//!   [`item_upgrade_stats`], [`build_creator`]),
//! * asset-metadata lookups over plain values ([`assets`]) and the error
//!   response bodies ([`error`]).
//!
//! Every executable function carries a contract that pins its result down;
//! transport, I/O and floating-point aggregation live outside this crate.

pub mod assets;
pub mod build_creator;
pub mod cache;
pub mod cache_control;
pub mod error;
pub mod item_stats;
pub mod rate_limiter;
pub mod item_timing_stats;
pub mod item_upgrade_stats;
pub mod text;
