use vstd::prelude::*;

use crate::errors::ErrorCode;
use crate::state::{Address, MintState, Pool, TokenAccountState, same_address};

verus! {

/// The binding between the pool record and the accounts presented with it.
pub open spec fn pool_binding_result(
    pool: Pool,
    token_a_vault: TokenAccountState,
    token_b_vault: TokenAccountState,
    lp_mint: MintState,
) -> Result<(), ErrorCode> {
    if pool.token_a_vault != token_a_vault.key || pool.token_b_vault != token_b_vault.key
        || pool.lp_mint != lp_mint.key {
        Err(ErrorCode::PoolAccountMismatch)
    } else {
        Ok(())
    }
}

/// Checks that the vaults and the claim-token mint presented with a pool
/// are the ones its record names.
pub fn check_pool_binding(
    pool: &Pool,
    token_a_vault: &TokenAccountState,
    token_b_vault: &TokenAccountState,
    lp_mint: &MintState,
) -> (r: Result<(), ErrorCode>)
    ensures
        r == pool_binding_result(*pool, *token_a_vault, *token_b_vault, *lp_mint),
{
    if !same_address(&pool.token_a_vault, &token_a_vault.key) || !same_address(
        &pool.token_b_vault,
        &token_b_vault.key,
    ) || !same_address(&pool.lp_mint, &lp_mint.key) {
        return Err(ErrorCode::PoolAccountMismatch);
    }
    Ok(())
}

/// A user's token account must hold token `mint` and be controlled by `user`.
pub open spec fn user_account_result(account: TokenAccountState, mint: Address, user: Address) -> Result<
    (),
    ErrorCode,
> {
    if account.mint != mint {
        Err(ErrorCode::InvalidTokenMint)
    } else if account.owner != user {
        Err(ErrorCode::InvalidTokenOwner)
    } else {
        Ok(())
    }
}

/// Checks that a user's token account holds token `mint` and is controlled
/// by `user`.
pub fn check_user_account(account: &TokenAccountState, mint: &Address, user: &Address) -> (r: Result<
    (),
    ErrorCode,
>)
    ensures
        r == user_account_result(*account, *mint, *user),
{
    if !same_address(&account.mint, mint) {
        return Err(ErrorCode::InvalidTokenMint);
    }
    if !same_address(&account.owner, user) {
        return Err(ErrorCode::InvalidTokenOwner);
    }
    Ok(())
}


/// A vault must hold the token that the pool keeps in it.
pub open spec fn vault_result(vault: TokenAccountState, mint: MintState) -> Result<(), ErrorCode> {
    if vault.mint != mint.key {
        Err(ErrorCode::InvalidTokenMint)
    } else {
        Ok(())
    }
}

/// Checks that a vault holds the token `mint`.
pub fn check_vault(vault: &TokenAccountState, mint: &MintState) -> (r: Result<(), ErrorCode>)
    ensures
        r == vault_result(*vault, *mint),
{
    if !same_address(&vault.mint, &mint.key) {
        return Err(ErrorCode::InvalidTokenMint);
    }
    Ok(())
}

/// The checks shared by deposits and withdrawals, in the order in which
/// they are made: the pool's binding to its accounts, the vaults' tokens,
/// then the caller's accounts of asset A, asset B and the claim token.
pub open spec fn liquidity_accounts_result(
    user: Address,
    pool: Pool,
    lp_mint: MintState,
    token_a_vault: TokenAccountState,
    token_b_vault: TokenAccountState,
    token_a_mint: MintState,
    token_b_mint: MintState,
    user_token_a: TokenAccountState,
    user_token_b: TokenAccountState,
    user_lp_token_account: TokenAccountState,
) -> Result<(), ErrorCode> {
    if pool_binding_result(pool, token_a_vault, token_b_vault, lp_mint) is Err {
        pool_binding_result(pool, token_a_vault, token_b_vault, lp_mint)
    } else if vault_result(token_a_vault, token_a_mint) is Err {
        vault_result(token_a_vault, token_a_mint)
    } else if vault_result(token_b_vault, token_b_mint) is Err {
        vault_result(token_b_vault, token_b_mint)
    } else if user_account_result(user_token_a, token_a_mint.key, user) is Err {
        user_account_result(user_token_a, token_a_mint.key, user)
    } else if user_account_result(user_token_b, token_b_mint.key, user) is Err {
        user_account_result(user_token_b, token_b_mint.key, user)
    } else {
        user_account_result(user_lp_token_account, lp_mint.key, user)
    }
}

/// Makes the checks that `liquidity_accounts_result` describes.
pub fn check_liquidity_accounts(
    user: &Address,
    pool: &Pool,
    lp_mint: &MintState,
    token_a_vault: &TokenAccountState,
    token_b_vault: &TokenAccountState,
    token_a_mint: &MintState,
    token_b_mint: &MintState,
    user_token_a: &TokenAccountState,
    user_token_b: &TokenAccountState,
    user_lp_token_account: &TokenAccountState,
) -> (r: Result<(), ErrorCode>)
    ensures
        r == liquidity_accounts_result(
            *user,
            *pool,
            *lp_mint,
            *token_a_vault,
            *token_b_vault,
            *token_a_mint,
            *token_b_mint,
            *user_token_a,
            *user_token_b,
            *user_lp_token_account,
        ),
{
    check_pool_binding(pool, token_a_vault, token_b_vault, lp_mint)?;
    check_vault(token_a_vault, token_a_mint)?;
    check_vault(token_b_vault, token_b_mint)?;
    check_user_account(user_token_a, &token_a_mint.key, user)?;
    check_user_account(user_token_b, &token_b_mint.key, user)?;
    check_user_account(user_lp_token_account, &lp_mint.key, user)
}

} // verus!
