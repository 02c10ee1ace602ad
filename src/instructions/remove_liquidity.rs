use vstd::prelude::*;

use crate::custody::{Authority, CustodyAction};
use crate::errors::ErrorCode;
use crate::pricing::{withdrawal_amounts, withdrawal_result};
use crate::state::{Address, MintState, Pool, TokenAccountState, pool_with_total_lp};
use crate::validation::{check_liquidity_accounts, liquidity_accounts_result};

verus! {

/// The accounts of a withdrawal, as the core reads them.
#[derive(Clone, Copy, Debug, PartialEq, Eq, Structural)]
pub struct RemoveLiquidity {
    pub user: Address,
    pub pool: Pool,
    pub lp_mint: MintState,
    pub token_a_vault: TokenAccountState,
    pub token_b_vault: TokenAccountState,
    pub token_a_mint: MintState,
    pub token_b_mint: MintState,
    pub user_token_a: TokenAccountState,
    pub user_token_b: TokenAccountState,
    pub user_lp_token_account: TokenAccountState,
}

impl RemoveLiquidity {
    /// Whether the presented accounts fit together, or the first reason they do not.
    pub open spec fn accounts_result(self) -> Result<(), ErrorCode> {
        liquidity_accounts_result(
            self.user,
            self.pool,
            self.lp_mint,
            self.token_a_vault,
            self.token_b_vault,
            self.token_a_mint,
            self.token_b_mint,
            self.user_token_a,
            self.user_token_b,
            self.user_lp_token_account,
        )
    }

    /// Amounts of asset A and asset B that burning `lp_burn` pays out, or
    /// why the withdrawal is refused.
    pub open spec fn redeemed_result(self, lp_burn: u64) -> Result<(u64, u64), ErrorCode> {
        if self.accounts_result() is Err {
            Err(self.accounts_result()->Err_0)
        } else {
            let redeemed = withdrawal_result(
                self.lp_mint.supply,
                self.token_a_vault.amount,
                self.token_b_vault.amount,
                self.user_lp_token_account.amount,
                lp_burn,
            );
            if redeemed is Err {
                redeemed
            } else if self.pool.total_lp < lp_burn {
                Err(ErrorCode::MathOverflow)
            } else {
                redeemed
            }
        }
    }

    /// The custody requests of a withdrawal: the burn of the caller's claim
    /// tokens, then asset A and asset B out of the vaults to the caller.
    pub open spec fn withdrawal_actions(self, lp_burn: u64, amount_a: u64, amount_b: u64) -> Seq<
        CustodyAction,
    > {
        seq![
            CustodyAction::BurnChecked {
                mint: self.lp_mint.key,
                from: self.user_lp_token_account.key,
                amount: lp_burn,
                decimals: self.lp_mint.decimals,
            },
            CustodyAction::TransferChecked {
                from: self.token_a_vault.key,
                to: self.user_token_a.key,
                mint: self.token_a_mint.key,
                authority: Authority::Pool,
                amount: amount_a,
                decimals: self.token_a_mint.decimals,
            },
            CustodyAction::TransferChecked {
                from: self.token_b_vault.key,
                to: self.user_token_b.key,
                mint: self.token_b_mint.key,
                authority: Authority::Pool,
                amount: amount_b,
                decimals: self.token_b_mint.decimals,
            },
        ]
    }

    /// The same accounts with the pool record replaced.
    pub open spec fn with_pool(self, pool: Pool) -> RemoveLiquidity {
        RemoveLiquidity { pool: pool, ..self }
    }

    /// Burn of `amount` of the caller's claim tokens, signed by the caller.
    fn burn_lp(&self, amount: u64) -> (r: CustodyAction)
        ensures
            r == (CustodyAction::BurnChecked {
                mint: self.lp_mint.key,
                from: self.user_lp_token_account.key,
                amount: amount,
                decimals: self.lp_mint.decimals,
            }),
    {
        CustodyAction::BurnChecked {
            mint: self.lp_mint.key,
            from: self.user_lp_token_account.key,
            amount,
            decimals: self.lp_mint.decimals,
        }
    }

    /// A transfer out of a vault, signed by the pool.
    fn transfer_tokens(
        &self,
        from: &TokenAccountState,
        to: &TokenAccountState,
        mint: &MintState,
        amount: u64,
    ) -> (r: CustodyAction)
        ensures
            r == (CustodyAction::TransferChecked {
                from: from.key,
                to: to.key,
                mint: mint.key,
                authority: Authority::Pool,
                amount: amount,
                decimals: mint.decimals,
            }),
    {
        CustodyAction::TransferChecked {
            from: from.key,
            to: to.key,
            mint: mint.key,
            authority: Authority::Pool,
            amount,
            decimals: mint.decimals,
        }
    }
}

/// Burns `lp_burn` of the caller's claim tokens against a proportional share
/// of both reserves.
///
/// On success the pool's claim-token count falls by `lp_burn`, each amount
/// paid out is at most its vault's balance, and the result lists the custody
/// requests to carry out: the burn first, then the two payments. On failure
/// nothing changes and the first reason is returned.
pub fn process_remove_liquidity(ctx: &mut RemoveLiquidity, lp_burn: u64) -> (r: Result<
    Vec<CustodyAction>,
    ErrorCode,
>)
    ensures
        match old(ctx).redeemed_result(lp_burn) {
            Ok(amounts) => {
                &&& r is Ok
                &&& r->Ok_0@ == old(ctx).withdrawal_actions(lp_burn, amounts.0, amounts.1)
                &&& *final(ctx) == old(ctx).with_pool(
                    pool_with_total_lp(old(ctx).pool, (old(ctx).pool.total_lp - lp_burn) as u64),
                )
                &&& amounts.0 <= old(ctx).token_a_vault.amount
                &&& amounts.1 <= old(ctx).token_b_vault.amount
            },
            Err(e) => r == Err::<Vec<CustodyAction>, ErrorCode>(e) && *final(ctx) == *old(ctx),
        },
{
    check_liquidity_accounts(
        &ctx.user,
        &ctx.pool,
        &ctx.lp_mint,
        &ctx.token_a_vault,
        &ctx.token_b_vault,
        &ctx.token_a_mint,
        &ctx.token_b_mint,
        &ctx.user_token_a,
        &ctx.user_token_b,
        &ctx.user_lp_token_account,
    )?;
    let (amount_a, amount_b) = withdrawal_amounts(
        ctx.lp_mint.supply,
        ctx.token_a_vault.amount,
        ctx.token_b_vault.amount,
        ctx.user_lp_token_account.amount,
        lp_burn,
    )?;
    let total_lp = match ctx.pool.total_lp.checked_sub(lp_burn) {
        Some(t) => t,
        None => {
            return Err(ErrorCode::MathOverflow);
        },
    };
    let mut actions: Vec<CustodyAction> = Vec::new();
    actions.push(ctx.burn_lp(lp_burn));
    actions.push(ctx.transfer_tokens(&ctx.token_a_vault, &ctx.user_token_a, &ctx.token_a_mint, amount_a));
    actions.push(ctx.transfer_tokens(&ctx.token_b_vault, &ctx.user_token_b, &ctx.token_b_mint, amount_b));
    ctx.pool.total_lp = total_lp;
    proof {
        assert(actions@ =~= old(ctx).withdrawal_actions(lp_burn, amount_a, amount_b));
    }
    Ok(actions)
}

} // verus!
