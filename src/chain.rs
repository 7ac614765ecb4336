use vstd::prelude::*;

verus! {

/// A blockchain network whose blocks are imported.
#[derive(Clone, Copy, Debug, PartialEq, Eq, Structural, Hash)]
pub enum Chain {
    Algorand,
    Arbitrum,
    Avalanche,
    Binance,
    Cardano,
    Celo,
    Cronos,
    Elrond,
    Ethereum,
    Fantom,
    Harmony,
    InternetComputer,
    Kusama,
    Near,
    Optimism,
    Polkadot,
    Polygon,
    Rootstock,
    Solana,
    Stellar,
    Tezos,
}

/// A unit of import work. It is only carried as a label for diagnostics.
#[derive(Clone, Copy, Debug, PartialEq, Eq, Structural)]
pub enum Job {
    /// Import the newest blocks of a chain.
    Import(Chain),
    /// Recompute the derived throughput figures.
    Calculate,
    /// Prune blocks that are no longer retained.
    RemoveData,
}

} // verus!
