//! Core of an account sweeper: key-pair generation and address derivation,
//! fee-aware sweep arithmetic, the probe-cycle state machine, the shared
//! success counter's bookkeeping, and a cooldown gate for rate-limited runs.
//!
//! All network traffic (node connection, balance queries, fee queries,
//! transaction broadcast) happens outside this crate; callers feed the
//! results back in as plain values and this crate decides every step.

pub mod clock;
pub mod counter;
pub mod cycle;
pub mod limiter;
pub mod scalar;
pub mod sweep;
pub mod wallet;
