use vstd::prelude::*;

use crate::custody::{Authority, CustodyAction};
use crate::errors::ErrorCode;
use crate::pricing::{deposit_lp_result, lp_to_mint};
use crate::state::{Address, MintState, Pool, TokenAccountState, pool_with_total_lp};
use crate::validation::{check_liquidity_accounts, liquidity_accounts_result};

verus! {

/// The accounts of a deposit, as the core reads them.
#[derive(Clone, Copy, Debug, PartialEq, Eq, Structural)]
pub struct AddLiquidity {
    pub user: Address,
    pub pool: Pool,
    pub lp_mint: MintState,
    pub token_a_vault: TokenAccountState,
    pub token_b_vault: TokenAccountState,
    pub token_a_mint: MintState,
    pub token_b_mint: MintState,
    pub user_token_a: TokenAccountState,
    pub user_token_b: TokenAccountState,
    pub user_lp_token_account: TokenAccountState,
}

impl AddLiquidity {
    /// Whether the presented accounts fit together, or the first reason they do not.
    pub open spec fn accounts_result(self) -> Result<(), ErrorCode> {
        liquidity_accounts_result(
            self.user,
            self.pool,
            self.lp_mint,
            self.token_a_vault,
            self.token_b_vault,
            self.token_a_mint,
            self.token_b_mint,
            self.user_token_a,
            self.user_token_b,
            self.user_lp_token_account,
        )
    }

    /// Claim tokens that a deposit of `amount_a` and `amount_b` mints, or
    /// why the deposit is refused.
    pub open spec fn minted_result(self, amount_a: u64, amount_b: u64) -> Result<u64, ErrorCode> {
        if self.accounts_result() is Err {
            Err(self.accounts_result()->Err_0)
        } else {
            let minted = deposit_lp_result(
                self.pool.total_lp,
                self.lp_mint.supply,
                self.token_a_vault.amount,
                self.token_b_vault.amount,
                amount_a,
                amount_b,
            );
            if minted is Err {
                minted
            } else if self.pool.total_lp + minted->Ok_0 > u64::MAX {
                Err(ErrorCode::MathOverflow)
            } else {
                minted
            }
        }
    }

    /// The custody requests of a deposit that mints `lp`: asset A, then
    /// asset B from the caller into the vaults, then the claim tokens to the
    /// caller.
    pub open spec fn deposit_actions(self, amount_a: u64, amount_b: u64, lp: u64) -> Seq<
        CustodyAction,
    > {
        seq![
            CustodyAction::TransferChecked {
                from: self.user_token_a.key,
                to: self.token_a_vault.key,
                mint: self.token_a_mint.key,
                authority: Authority::User,
                amount: amount_a,
                decimals: self.token_a_mint.decimals,
            },
            CustodyAction::TransferChecked {
                from: self.user_token_b.key,
                to: self.token_b_vault.key,
                mint: self.token_b_mint.key,
                authority: Authority::User,
                amount: amount_b,
                decimals: self.token_b_mint.decimals,
            },
            CustodyAction::MintTo {
                mint: self.lp_mint.key,
                to: self.user_lp_token_account.key,
                amount: lp,
            },
        ]
    }

    /// The same accounts with the pool record replaced.
    pub open spec fn with_pool(self, pool: Pool) -> AddLiquidity {
        AddLiquidity { pool: pool, ..self }
    }

    /// A transfer signed by the caller from `from` to `to`.
    fn transfer_liquidity(
        &self,
        from: &TokenAccountState,
        to: &TokenAccountState,
        mint: &MintState,
        amount: u64,
    ) -> (r: CustodyAction)
        ensures
            r == (CustodyAction::TransferChecked {
                from: from.key,
                to: to.key,
                mint: mint.key,
                authority: Authority::User,
                amount: amount,
                decimals: mint.decimals,
            }),
    {
        CustodyAction::TransferChecked {
            from: from.key,
            to: to.key,
            mint: mint.key,
            authority: Authority::User,
            amount,
            decimals: mint.decimals,
        }
    }

    /// Issue of `amount` claim tokens to the caller, signed by the pool.
    fn mint_to(&self, amount: u64) -> (r: CustodyAction)
        ensures
            r == (CustodyAction::MintTo {
                mint: self.lp_mint.key,
                to: self.user_lp_token_account.key,
                amount: amount,
            }),
    {
        CustodyAction::MintTo { mint: self.lp_mint.key, to: self.user_lp_token_account.key, amount }
    }
}

/// Deposits `amount_a` of asset A and `amount_b` of asset B.
///
/// On success the pool's claim-token count grows by the minted amount, which
/// is positive, and the result lists the custody requests to carry out: the
/// two deposits into the vaults, then the mint to the caller. On failure
/// nothing changes and the first reason is returned.
pub fn process_add_liquidity(ctx: &mut AddLiquidity, amount_a: u64, amount_b: u64) -> (r: Result<
    Vec<CustodyAction>,
    ErrorCode,
>)
    ensures
        match old(ctx).minted_result(amount_a, amount_b) {
            Ok(lp) => {
                &&& r is Ok
                &&& r->Ok_0@ == old(ctx).deposit_actions(amount_a, amount_b, lp)
                &&& *final(ctx) == old(ctx).with_pool(
                    pool_with_total_lp(old(ctx).pool, (old(ctx).pool.total_lp + lp) as u64),
                )
            },
            Err(e) => r == Err::<Vec<CustodyAction>, ErrorCode>(e) && *final(ctx) == *old(ctx),
        },
        r is Ok ==> final(ctx).pool.total_lp > old(ctx).pool.total_lp,
{
    check_liquidity_accounts(
        &ctx.user,
        &ctx.pool,
        &ctx.lp_mint,
        &ctx.token_a_vault,
        &ctx.token_b_vault,
        &ctx.token_a_mint,
        &ctx.token_b_mint,
        &ctx.user_token_a,
        &ctx.user_token_b,
        &ctx.user_lp_token_account,
    )?;
    let lp = lp_to_mint(
        ctx.pool.total_lp,
        ctx.lp_mint.supply,
        ctx.token_a_vault.amount,
        ctx.token_b_vault.amount,
        amount_a,
        amount_b,
    )?;
    let total_lp = match ctx.pool.total_lp.checked_add(lp) {
        Some(t) => t,
        None => {
            return Err(ErrorCode::MathOverflow);
        },
    };
    let mut actions: Vec<CustodyAction> = Vec::new();
    actions.push(ctx.transfer_liquidity(&ctx.user_token_a, &ctx.token_a_vault, &ctx.token_a_mint, amount_a));
    actions.push(ctx.transfer_liquidity(&ctx.user_token_b, &ctx.token_b_vault, &ctx.token_b_mint, amount_b));
    actions.push(ctx.mint_to(lp));
    ctx.pool.total_lp = total_lp;
    proof {
        assert(actions@ =~= old(ctx).deposit_actions(amount_a, amount_b, lp));
    }
    Ok(actions)
}

} // verus!
