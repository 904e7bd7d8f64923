//! Core of a two-venue prediction-market arbitrage system.
//!
//! The crate holds the decision and execution core: quote caching, market
//! matching, opportunity detection, a circuit breaker gating execution,
//! position tracking, and the two-leg execution engine. Venue adapters and
//! the notification transport live outside the library and exchange plain
//! values with it.

pub mod circuit_breaker;
pub mod detector;
pub mod execution;
pub mod matcher;
pub mod position_tracker;
pub mod price_cache;
pub mod telegram;
pub mod text;
pub mod types;
