//! The block-height minting window of the token sale that runs beside
//! the governance module. The sale mints only up to a fixed block
//! height; the window arithmetic lives here, while the price oracle
//! and the mint instructions belong to the hosting code.

use vstd::prelude::*;

verus! {

/// Blocks produced per day at one block every five seconds.
pub const AVG_BLOCKS_PER_DAY: u64 = 24 * 60 * 60 / 5;

/// The reported exchange rate of the price oracle.
#[derive(Clone, Debug, PartialEq, Eq)]
pub struct OracleResp {
    pub exchange_rate: String,
}

/// The reported end of the minting window.
#[derive(Clone, Copy, Debug, PartialEq, Eq, Structural)]
pub struct MintableBlockHeightResp {
    pub mintable_block_height: u64,
}

/// The last block height at which minting is allowed, for a sale set
/// up at `current_block_height` with a window of `mintable_period_days`
/// days; `None` when the window would lie beyond the machine range.
pub fn mintable_block_height(current_block_height: u64, mintable_period_days: u64) -> (r: Option<
    u64,
>)
    ensures
        match r {
            Some(h) => h == current_block_height + mintable_period_days * AVG_BLOCKS_PER_DAY
                && current_block_height + mintable_period_days * AVG_BLOCKS_PER_DAY <= u64::MAX,
            None => current_block_height + mintable_period_days * AVG_BLOCKS_PER_DAY > u64::MAX,
        },
{
    match mintable_period_days.checked_mul(AVG_BLOCKS_PER_DAY) {
        Some(blocks) => current_block_height.checked_add(blocks),
        None => {
            proof {
                assert(mintable_period_days * AVG_BLOCKS_PER_DAY > u64::MAX ==>
                    current_block_height + mintable_period_days * AVG_BLOCKS_PER_DAY > u64::MAX);
            }
            None
        },
    }
}

/// Whether minting is still allowed at `block_height` for a window
/// ending at `mintable_block_height`.
pub fn can_mint(block_height: u64, mintable_block_height: u64) -> (r: bool)
    ensures
        r == (block_height <= mintable_block_height),
{
    block_height <= mintable_block_height
}

} // verus!
