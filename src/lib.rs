//! Timing and retry policy for importing blocks from many chains: per-chain
//! request pacing and rescan intervals, jittered waits, and the decisions of
//! two bounded retry executors with linear backoff.
pub mod chain;
pub mod jitter;
pub mod pacing;
pub mod retry;
pub mod waiters;
