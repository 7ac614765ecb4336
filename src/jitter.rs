use vstd::prelude::*;
use rand::distributions::{Distribution, Uniform};

verus! {

/// Jitter is drawn from `[0, JITTER_RANGE_MS)` milliseconds.
pub const JITTER_RANGE_MS: u64 = 10;

/// `delay_ms` is a jittered wait for `base_ms`: never shorter than the base,
/// and less than the jitter range longer.
pub open spec fn within_jitter(base_ms: int, delay_ms: int) -> bool {
    base_ms <= delay_ms < base_ms + JITTER_RANGE_MS
}

/// Relies on rand's `Uniform::from(low..high)`, sampled with `thread_rng()`,
/// for a value in the half-open range `[low, high)`. `Uniform::new` panics
/// when `low >= high`.
#[verifier::external_body]
fn sample_uniform(low: u64, high: u64) -> (r: u64)
    requires
        low < high,
    ensures
        low <= r < high,
{
    Uniform::from(low..high).sample(&mut rand::thread_rng())
}

/// The wait for `base_ms` once a jitter of `jitter_ms` has been drawn.
pub fn jittered_ms(base_ms: u64, jitter_ms: u64) -> (r: u64)
    requires
        base_ms + jitter_ms <= u64::MAX,
    ensures
        r == base_ms + jitter_ms,
{
    base_ms + jitter_ms
}

/// How long to suspend for a wait of `base_ms`: the base plus a fresh jitter
/// drawn uniformly from `[0, JITTER_RANGE_MS)`.
pub fn jitter_delay_ms(base_ms: u64) -> (r: u64)
    requires
        base_ms + JITTER_RANGE_MS - 1 <= u64::MAX,
    ensures
        within_jitter(base_ms as int, r as int),
{
    let jitter = sample_uniform(0, JITTER_RANGE_MS);
    jittered_ms(base_ms, jitter)
}

} // verus!
