use vstd::prelude::*;
use crate::chain::Job;
use crate::jitter::{jitter_delay_ms, within_jitter};

verus! {

/// Pause after a job fails, before it is queued again.
pub const JOB_ERROR_DELAY_MS: u64 = 1000;

/// Pause before the derived throughput figures are recomputed.
pub const RECALCULATE_DELAY_MS: u64 = 5000;

/// Pause between sweeps that prune old blocks: one day.
pub const REMOVE_DATA_DELAY_MS: u64 = 60 * 60 * 24 * 1000;

/// How long to wait before retrying a job after it failed.
pub fn job_error_delay(_job: &Job) -> (r: u64)
    ensures
        within_jitter(JOB_ERROR_DELAY_MS as int, r as int),
{
    jitter_delay_ms(JOB_ERROR_DELAY_MS)
}

/// How long to wait before recalculating.
pub fn recalculate_delay() -> (r: u64)
    ensures
        within_jitter(RECALCULATE_DELAY_MS as int, r as int),
{
    jitter_delay_ms(RECALCULATE_DELAY_MS)
}

/// How long to wait before removing old blocks.
pub fn remove_data_delay() -> (r: u64)
    ensures
        within_jitter(REMOVE_DATA_DELAY_MS as int, r as int),
{
    jitter_delay_ms(REMOVE_DATA_DELAY_MS)
}

} // verus!
