use vstd::prelude::*;
use crate::chain::Chain;
use crate::jitter::{jitter_delay_ms, within_jitter};

verus! {

/// Minimum spacing between block requests to `chain`, in milliseconds.
/// Zero means the chain's client paces itself.
pub open spec fn spec_block_pace(chain: Chain) -> u64 {
    match chain {
        Chain::Elrond => 1000,
        Chain::Optimism => 1000,
        Chain::Solana => 0,
        _ => 500,
    }
}

/// The pace at which blocks of `chain` are requested, in milliseconds.
pub fn block_pace(chain: Chain) -> (r: u64)
    ensures
        r == spec_block_pace(chain),
{
    match chain {
        // six second block time
        Chain::Elrond => 1000,
        // throttled at 500 ms
        Chain::Optimism => 1000,
        // the client's own rate limiter paces requests to public nodes
        Chain::Solana => 0,
        _ => 500,
    }
}

/// Seconds between scans of `chain` for new blocks: somewhat longer than the
/// chain's block time, so that a scan rarely finds nothing new.
pub open spec fn spec_rescan_secs(chain: Chain) -> u64 {
    match chain {
        Chain::InternetComputer => 1,
        Chain::Solana => 1,
        Chain::Polkadot => 7,
        Chain::Kusama => 7,
        Chain::Optimism => 10,
        _ => 30,
    }
}

/// The base of the wait between scans of `chain`, in milliseconds.
pub open spec fn spec_rescan_base_ms(chain: Chain) -> int {
    1000 * spec_rescan_secs(chain)
}

/// The interval between scans of `chain` for new blocks, in seconds.
pub fn rescan_interval_secs(chain: Chain) -> (r: u64)
    ensures
        r == spec_rescan_secs(chain),
{
    match chain {
        Chain::InternetComputer => 1,
        // needs to go fast to keep up
        Chain::Solana => 1,
        // six second block time and a rate-limited server
        Chain::Polkadot => 7,
        Chain::Kusama => 7,
        Chain::Optimism => 10,
        _ => 30,
    }
}

/// How long to wait before scanning `chain` again, in milliseconds: the
/// chain's rescan interval plus jitter.
pub fn rescan_delay(chain: Chain) -> (r: u64)
    ensures
        within_jitter(spec_rescan_base_ms(chain), r as int),
{
    let msecs = 1000 * rescan_interval_secs(chain);
    jitter_delay_ms(msecs)
}

/// The request pace and the rescan interval depend on the chain alone: asking
/// twice for the same chain gives the same values.
pub proof fn lemma_pacing_depends_on_chain_alone(a: Chain, b: Chain)
    requires
        a == b,
    ensures
        spec_block_pace(a) == spec_block_pace(b),
        spec_rescan_base_ms(a) == spec_rescan_base_ms(b),
{
}

/// Every rescan interval lies between one and thirty seconds, and every request
/// pace is at most one second.
pub proof fn lemma_pacing_bounds(chain: Chain)
    ensures
        1000 <= spec_rescan_base_ms(chain) <= 30_000,
        spec_block_pace(chain) <= 1000,
{
}

} // verus!
