use vstd::prelude::*;

use crate::custody::CustodyAction;
use crate::errors::ErrorCode;
use crate::instructions::add_liquidity::{AddLiquidity, process_add_liquidity};
use crate::instructions::initialize_pool::{InitializePool, process_initialize_pool};
use crate::instructions::remove_liquidity::{RemoveLiquidity, process_remove_liquidity};
use crate::instructions::swap::{Swap, process_swap};
use crate::state::{address_lt, pool_with_total_lp};

verus! {

/// Creates the record of a pool over the pair `token_a_mint`, `token_b_mint`.
pub fn initialize_pool(ctx: &mut InitializePool) -> (r: Result<(), ErrorCode>)
    ensures
        address_lt(old(ctx).token_a_mint, old(ctx).token_b_mint) ==> r is Ok && *final(ctx)
            == old(ctx).with_pool(old(ctx).fresh_pool()),
        !address_lt(old(ctx).token_a_mint, old(ctx).token_b_mint) ==> r == Err::<(), ErrorCode>(
            ErrorCode::InvalidMintOrder,
        ) && *final(ctx) == *old(ctx),
{
    process_initialize_pool(ctx)
}

/// Deposits `amount_a` and `amount_b` against newly minted claim tokens.
pub fn add_liquidity(ctx: &mut AddLiquidity, amount_a: u64, amount_b: u64) -> (r: Result<
    Vec<CustodyAction>,
    ErrorCode,
>)
    ensures
        match old(ctx).minted_result(amount_a, amount_b) {
            Ok(lp) => {
                &&& r is Ok
                &&& r->Ok_0@ == old(ctx).deposit_actions(amount_a, amount_b, lp)
                &&& *final(ctx) == old(ctx).with_pool(
                    pool_with_total_lp(old(ctx).pool, (old(ctx).pool.total_lp + lp) as u64),
                )
            },
            Err(e) => r == Err::<Vec<CustodyAction>, ErrorCode>(e) && *final(ctx) == *old(ctx),
        },
{
    process_add_liquidity(ctx, amount_a, amount_b)
}

/// Burns `lp_burn` claim tokens against a proportional share of the reserves.
pub fn remove_liquidity(ctx: &mut RemoveLiquidity, lp_burn: u64) -> (r: Result<
    Vec<CustodyAction>,
    ErrorCode,
>)
    ensures
        match old(ctx).redeemed_result(lp_burn) {
            Ok(amounts) => {
                &&& r is Ok
                &&& r->Ok_0@ == old(ctx).withdrawal_actions(lp_burn, amounts.0, amounts.1)
                &&& *final(ctx) == old(ctx).with_pool(
                    pool_with_total_lp(old(ctx).pool, (old(ctx).pool.total_lp - lp_burn) as u64),
                )
            },
            Err(e) => r == Err::<Vec<CustodyAction>, ErrorCode>(e) && *final(ctx) == *old(ctx),
        },
{
    process_remove_liquidity(ctx, lp_burn)
}

/// Sells `amount_in` of one asset for at least `min_amount_out` of the other.
pub fn swap(ctx: &Swap, amount_in: u64, min_amount_out: u64) -> (r: Result<
    Vec<CustodyAction>,
    ErrorCode,
>)
    ensures
        match ctx.output_result(amount_in, min_amount_out) {
            Ok(amount_out) => r is Ok && r->Ok_0@ == ctx.swap_actions(amount_in, amount_out),
            Err(e) => r == Err::<Vec<CustodyAction>, ErrorCode>(e),
        },
{
    process_swap(ctx, amount_in, min_amount_out)
}

} // verus!
