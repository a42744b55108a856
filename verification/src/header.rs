//! Block headers as the data service reports them.

use vstd::prelude::*;

verus! {

/// A version of the consensus rules.
#[derive(Clone, Copy, Debug, PartialEq, Eq, Structural)]
pub enum HardFork {
    V1,
    V2,
    V3,
    V4,
    V5,
    V6,
    V7,
    V8,
    V9,
    V10,
    V11,
    V12,
    V13,
    V14,
    V15,
    V16,
}

/// What the data service knows of one block beyond its contents.
#[derive(Clone, Copy, Debug, PartialEq, Eq, Structural)]
pub struct ExtendedBlockHeader {
    /// The rules the block was made under.
    pub version: HardFork,
    /// The rules the block's miner votes for.
    pub vote: HardFork,
    /// Seconds since the epoch, as the miner claimed them.
    pub timestamp: u64,
    /// Sum of the difficulties of this block and all before it.
    pub cumulative_difficulty: u128,
    /// Weight of the block.
    pub block_weight: usize,
    /// Weight of the block as the long-term median counts it.
    pub long_term_weight: usize,
}

} // verus!
