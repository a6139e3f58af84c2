//! Retrying fallible operations with exponential backoff and optional jitter.
//!
//! The library holds the policy and every decision a retry loop makes: where
//! a run starts, whether a failed attempt is the last one, how long to wait
//! before the next attempt and how the wait grows. The loop that invokes the
//! operation and sleeps is driven by the caller, one decision at a time.
pub mod backoff;
pub mod laws;
pub mod policy;
pub mod schedule;
