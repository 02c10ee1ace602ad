use vstd::prelude::*;

use crate::custody::{Authority, CustodyAction};
use crate::errors::ErrorCode;
use crate::pricing::{swap_amount_out, swap_result};
use crate::state::{Address, MintState, Pool, TokenAccountState, same_address};
use crate::validation::{check_pool_binding, check_vault, pool_binding_result, vault_result};

verus! {

/// The accounts of a swap, as the core reads them. The direction is the one
/// in which `user_token_in`'s token is sold.
#[derive(Clone, Copy, Debug, PartialEq, Eq, Structural)]
pub struct Swap {
    pub user: Address,
    pub pool: Pool,
    pub lp_mint: MintState,
    pub token_a_vault: TokenAccountState,
    pub token_b_vault: TokenAccountState,
    pub user_token_in: TokenAccountState,
    pub user_token_out: TokenAccountState,
    pub token_a_mint: MintState,
    pub token_b_mint: MintState,
}

/// A caller's account on one side of a swap: controlled by `user`, holding
/// one of the pool's two tokens.
pub open spec fn swap_side_result(account: TokenAccountState, user: Address, a: Address, b: Address) -> Result<
    (),
    ErrorCode,
> {
    if account.owner != user {
        Err(ErrorCode::InvalidTokenOwner)
    } else if account.mint != a && account.mint != b {
        Err(ErrorCode::InvalidTokenMint)
    } else {
        Ok(())
    }
}

/// Checks one side of a swap as `swap_side_result` describes.
fn check_swap_side(account: &TokenAccountState, user: &Address, a: &Address, b: &Address) -> (r:
    Result<(), ErrorCode>)
    ensures
        r == swap_side_result(*account, *user, *a, *b),
{
    if !same_address(&account.owner, user) {
        return Err(ErrorCode::InvalidTokenOwner);
    }
    if !same_address(&account.mint, a) && !same_address(&account.mint, b) {
        return Err(ErrorCode::InvalidTokenMint);
    }
    Ok(())
}

impl Swap {
    /// Whether the presented accounts fit together, or the first reason they
    /// do not: the pool's binding, the vaults' tokens, the input side, the
    /// output side, and last that the two sides hold different tokens.
    pub open spec fn accounts_result(self) -> Result<(), ErrorCode> {
        if pool_binding_result(self.pool, self.token_a_vault, self.token_b_vault, self.lp_mint) is Err {
            Err(ErrorCode::PoolAccountMismatch)
        } else if vault_result(self.token_a_vault, self.token_a_mint) is Err {
            vault_result(self.token_a_vault, self.token_a_mint)
        } else if vault_result(self.token_b_vault, self.token_b_mint) is Err {
            vault_result(self.token_b_vault, self.token_b_mint)
        } else if swap_side_result(
            self.user_token_in,
            self.user,
            self.token_a_mint.key,
            self.token_b_mint.key,
        ) is Err {
            swap_side_result(
                self.user_token_in,
                self.user,
                self.token_a_mint.key,
                self.token_b_mint.key,
            )
        } else if swap_side_result(
            self.user_token_out,
            self.user,
            self.token_a_mint.key,
            self.token_b_mint.key,
        ) is Err {
            swap_side_result(
                self.user_token_out,
                self.user,
                self.token_a_mint.key,
                self.token_b_mint.key,
            )
        } else if self.user_token_in.mint == self.user_token_out.mint {
            Err(ErrorCode::InvalidSwapDirection)
        } else {
            Ok(())
        }
    }

    /// Whether the caller sells asset A for asset B.
    pub open spec fn sells_a(self) -> bool {
        self.user_token_in.mint == self.token_a_vault.mint
    }

    /// The vault that receives the input.
    pub open spec fn vault_in(self) -> TokenAccountState {
        if self.sells_a() { self.token_a_vault } else { self.token_b_vault }
    }

    /// The vault that pays the output.
    pub open spec fn vault_out(self) -> TokenAccountState {
        if self.sells_a() { self.token_b_vault } else { self.token_a_vault }
    }

    /// The token sold.
    pub open spec fn mint_in(self) -> MintState {
        if self.sells_a() { self.token_a_mint } else { self.token_b_mint }
    }

    /// The token bought.
    pub open spec fn mint_out(self) -> MintState {
        if self.sells_a() { self.token_b_mint } else { self.token_a_mint }
    }

    /// What a swap of `amount_in` pays out, or why it is refused.
    pub open spec fn output_result(self, amount_in: u64, min_amount_out: u64) -> Result<u64, ErrorCode> {
        if self.accounts_result() is Err {
            Err(self.accounts_result()->Err_0)
        } else {
            swap_result(self.vault_in().amount, self.vault_out().amount, amount_in, min_amount_out)
        }
    }

    /// The custody requests of a swap: the input from the caller into its
    /// vault, then the output from the other vault to the caller.
    pub open spec fn swap_actions(self, amount_in: u64, amount_out: u64) -> Seq<CustodyAction> {
        seq![
            CustodyAction::TransferChecked {
                from: self.user_token_in.key,
                to: self.vault_in().key,
                mint: self.mint_in().key,
                authority: Authority::User,
                amount: amount_in,
                decimals: self.mint_in().decimals,
            },
            CustodyAction::TransferChecked {
                from: self.vault_out().key,
                to: self.user_token_out.key,
                mint: self.mint_out().key,
                authority: Authority::Pool,
                amount: amount_out,
                decimals: self.mint_out().decimals,
            },
        ]
    }

    /// Makes the checks that `accounts_result` describes.
    pub fn check_accounts(&self) -> (r: Result<(), ErrorCode>)
        ensures
            r == self.accounts_result(),
    {
        if check_pool_binding(&self.pool, &self.token_a_vault, &self.token_b_vault, &self.lp_mint).is_err() {
            return Err(ErrorCode::PoolAccountMismatch);
        }
        check_vault(&self.token_a_vault, &self.token_a_mint)?;
        check_vault(&self.token_b_vault, &self.token_b_mint)?;
        check_swap_side(&self.user_token_in, &self.user, &self.token_a_mint.key, &self.token_b_mint.key)?;
        check_swap_side(&self.user_token_out, &self.user, &self.token_a_mint.key, &self.token_b_mint.key)?;
        if same_address(&self.user_token_in.mint, &self.user_token_out.mint) {
            return Err(ErrorCode::InvalidSwapDirection);
        }
        Ok(())
    }

    /// A transfer of `amount` from `from` to `to`, signed by `authority`.
    fn transfer_tokens(
        &self,
        from: &TokenAccountState,
        to: &TokenAccountState,
        authority: Authority,
        mint: &MintState,
        amount: u64,
    ) -> (r: CustodyAction)
        ensures
            r == (CustodyAction::TransferChecked {
                from: from.key,
                to: to.key,
                mint: mint.key,
                authority: authority,
                amount: amount,
                decimals: mint.decimals,
            }),
    {
        CustodyAction::TransferChecked {
            from: from.key,
            to: to.key,
            mint: mint.key,
            authority,
            amount,
            decimals: mint.decimals,
        }
    }
}

/// Sells `amount_in` of the token in `user_token_in` for the other token,
/// at the price that the constant-product rule gives after the fee.
///
/// Reserves are read once, before any movement. On success the result lists
/// the custody requests to carry out: the input into its vault, then the
/// output to the caller. A payout below `min_amount_out` is refused with
/// `SlippageExceeded`.
pub fn process_swap(ctx: &Swap, amount_in: u64, min_amount_out: u64) -> (r: Result<
    Vec<CustodyAction>,
    ErrorCode,
>)
    ensures
        match ctx.output_result(amount_in, min_amount_out) {
            Ok(amount_out) => {
                &&& r is Ok
                &&& r->Ok_0@ == ctx.swap_actions(amount_in, amount_out)
                &&& amount_out >= min_amount_out
                &&& amount_out <= ctx.vault_out().amount
            },
            Err(e) => r == Err::<Vec<CustodyAction>, ErrorCode>(e),
        },
{
    ctx.check_accounts()?;
    let sells_a = same_address(&ctx.user_token_in.mint, &ctx.token_a_vault.mint);
    let (vault_in, vault_out, mint_in, mint_out) = if sells_a {
        (&ctx.token_a_vault, &ctx.token_b_vault, &ctx.token_a_mint, &ctx.token_b_mint)
    } else {
        (&ctx.token_b_vault, &ctx.token_a_vault, &ctx.token_b_mint, &ctx.token_a_mint)
    };
    let amount_out = swap_amount_out(vault_in.amount, vault_out.amount, amount_in, min_amount_out)?;
    let mut actions: Vec<CustodyAction> = Vec::new();
    actions.push(ctx.transfer_tokens(&ctx.user_token_in, vault_in, Authority::User, mint_in, amount_in));
    actions.push(ctx.transfer_tokens(vault_out, &ctx.user_token_out, Authority::Pool, mint_out, amount_out));
    proof {
        assert(actions@ =~= ctx.swap_actions(amount_in, amount_out));
    }
    Ok(actions)
}

} // verus!
