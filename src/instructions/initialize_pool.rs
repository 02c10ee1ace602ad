use vstd::prelude::*;

use crate::errors::ErrorCode;
use crate::state::{Address, Pool, address_lt, address_precedes};

verus! {

/// The accounts of a pool's creation, as the core reads them. The pool,
/// its vaults and its claim-token mint have been allocated at addresses
/// derived from the asset pair; `pool_bump` and `lp_mint_bump` are the
/// derivation bytes that were found.
#[derive(Clone, Copy, Debug, PartialEq, Eq, Structural)]
pub struct InitializePool {
    pub payer: Address,
    pub pool: Pool,
    pub token_a_vault: Address,
    pub token_b_vault: Address,
    pub token_a_mint: Address,
    pub token_b_mint: Address,
    pub lp_mint: Address,
    pub pool_bump: u8,
    pub lp_mint_bump: u8,
}

impl InitializePool {
    /// The record of a fresh pool over these accounts: no claim tokens yet.
    pub open spec fn fresh_pool(self) -> Pool {
        Pool {
            token_a_vault: self.token_a_vault,
            token_b_vault: self.token_b_vault,
            lp_mint: self.lp_mint,
            bump: self.pool_bump,
            total_lp: 0,
            bump_lp_mint: self.lp_mint_bump,
        }
    }

    /// The same accounts with the pool record replaced.
    pub open spec fn with_pool(self, pool: Pool) -> InitializePool {
        InitializePool { pool: pool, ..self }
    }
}

/// Writes the record of a new pool.
///
/// The pair is taken in one fixed order, asset A's identity sorting strictly
/// before asset B's, so that an unordered pair has a single pool; any other
/// order, and a pair of one asset twice, is refused with `InvalidMintOrder`.
pub fn process_initialize_pool(ctx: &mut InitializePool) -> (r: Result<(), ErrorCode>)
    ensures
        address_lt(old(ctx).token_a_mint, old(ctx).token_b_mint) ==> r is Ok && *final(ctx)
            == old(ctx).with_pool(old(ctx).fresh_pool()),
        !address_lt(old(ctx).token_a_mint, old(ctx).token_b_mint) ==> r == Err::<(), ErrorCode>(
            ErrorCode::InvalidMintOrder,
        ) && *final(ctx) == *old(ctx),
{
    if !address_precedes(&ctx.token_a_mint, &ctx.token_b_mint) {
        return Err(ErrorCode::InvalidMintOrder);
    }
    ctx.pool = Pool {
        token_a_vault: ctx.token_a_vault,
        token_b_vault: ctx.token_b_vault,
        lp_mint: ctx.lp_mint,
        total_lp: 0,
        bump: ctx.pool_bump,
        bump_lp_mint: ctx.lp_mint_bump,
    };
    Ok(())
}

} // verus!
