use mini_amm::custody::{Authority, CustodyAction};
use mini_amm::errors::ErrorCode;
use mini_amm::instructions::add_liquidity::{process_add_liquidity, AddLiquidity};
use mini_amm::instructions::initialize_pool::{process_initialize_pool, InitializePool};
use mini_amm::instructions::remove_liquidity::{process_remove_liquidity, RemoveLiquidity};
use mini_amm::instructions::swap::{process_swap, Swap};
use mini_amm::mini_amm::{add_liquidity, initialize_pool, remove_liquidity, swap};
use mini_amm::pricing::{lp_to_mint, swap_amount_out, withdrawal_amounts};
use mini_amm::state::{address_precedes, Address, MintState, Pool, TokenAccountState};
use mini_amm::utils::integer_sqrt;

fn addr(n: u64) -> Address {
    Address { w0: 0, w1: 0, w2: 0, w3: n }
}

const USER: u64 = 1;
const POOL: u64 = 2;
const MINT_A: u64 = 10;
const MINT_B: u64 = 11;
const LP_MINT: u64 = 12;
const VAULT_A: u64 = 20;
const VAULT_B: u64 = 21;
const USER_A: u64 = 30;
const USER_B: u64 = 31;
const USER_LP: u64 = 32;

fn account(key: u64, mint: u64, owner: u64, amount: u64) -> TokenAccountState {
    TokenAccountState { key: addr(key), mint: addr(mint), owner: addr(owner), amount }
}

fn mint(key: u64, supply: u64, decimals: u8) -> MintState {
    MintState { key: addr(key), supply, decimals }
}

fn pool(total_lp: u64) -> Pool {
    Pool {
        token_a_vault: addr(VAULT_A),
        token_b_vault: addr(VAULT_B),
        lp_mint: addr(LP_MINT),
        bump: 254,
        total_lp,
        bump_lp_mint: 253,
    }
}

fn deposit_ctx(reserve_a: u64, reserve_b: u64, supply: u64) -> AddLiquidity {
    AddLiquidity {
        user: addr(USER),
        pool: pool(supply),
        lp_mint: mint(LP_MINT, supply, 9),
        token_a_vault: account(VAULT_A, MINT_A, POOL, reserve_a),
        token_b_vault: account(VAULT_B, MINT_B, POOL, reserve_b),
        token_a_mint: mint(MINT_A, 1_000_000, 6),
        token_b_mint: mint(MINT_B, 1_000_000, 8),
        user_token_a: account(USER_A, MINT_A, USER, 10_000),
        user_token_b: account(USER_B, MINT_B, USER, 10_000),
        user_lp_token_account: account(USER_LP, LP_MINT, USER, 0),
    }
}

fn withdraw_ctx(reserve_a: u64, reserve_b: u64, supply: u64, user_lp: u64) -> RemoveLiquidity {
    RemoveLiquidity {
        user: addr(USER),
        pool: pool(supply),
        lp_mint: mint(LP_MINT, supply, 9),
        token_a_vault: account(VAULT_A, MINT_A, POOL, reserve_a),
        token_b_vault: account(VAULT_B, MINT_B, POOL, reserve_b),
        token_a_mint: mint(MINT_A, 1_000_000, 6),
        token_b_mint: mint(MINT_B, 1_000_000, 8),
        user_token_a: account(USER_A, MINT_A, USER, 0),
        user_token_b: account(USER_B, MINT_B, USER, 0),
        user_lp_token_account: account(USER_LP, LP_MINT, USER, user_lp),
    }
}

fn swap_ctx(reserve_a: u64, reserve_b: u64, sell_a: bool) -> Swap {
    let (in_key, in_mint, out_key, out_mint) =
        if sell_a { (USER_A, MINT_A, USER_B, MINT_B) } else { (USER_B, MINT_B, USER_A, MINT_A) };
    Swap {
        user: addr(USER),
        pool: pool(300),
        lp_mint: mint(LP_MINT, 300, 9),
        token_a_vault: account(VAULT_A, MINT_A, POOL, reserve_a),
        token_b_vault: account(VAULT_B, MINT_B, POOL, reserve_b),
        user_token_in: account(in_key, in_mint, USER, 10_000),
        user_token_out: account(out_key, out_mint, USER, 0),
        token_a_mint: mint(MINT_A, 1_000_000, 6),
        token_b_mint: mint(MINT_B, 1_000_000, 8),
    }
}

fn transfer(from: u64, to: u64, mint: u64, authority: Authority, amount: u64, decimals: u8) -> CustodyAction {
    CustodyAction::TransferChecked {
        from: addr(from),
        to: addr(to),
        mint: addr(mint),
        authority,
        amount,
        decimals,
    }
}

#[test]
fn integer_sqrt_small_values() {
    let expected: [u128; 18] = [0, 1, 1, 1, 2, 2, 2, 2, 2, 3, 3, 3, 3, 3, 3, 3, 4, 4];
    for (v, r) in expected.iter().enumerate() {
        assert_eq!(integer_sqrt(v as u128), *r, "sqrt of {}", v);
    }
}

#[test]
fn integer_sqrt_large_values() {
    assert_eq!(integer_sqrt(40_000), 200);
    assert_eq!(integer_sqrt(39_999), 199);
    let m = u64::MAX as u128;
    assert_eq!(integer_sqrt(m * m), m);
    assert_eq!(integer_sqrt(m * m - 1), m - 1);
    assert_eq!(integer_sqrt(u128::MAX), m);
}

#[test]
fn bootstrap_deposit_mints_geometric_mean() {
    let mut ctx = deposit_ctx(0, 0, 0);
    let actions = process_add_liquidity(&mut ctx, 100, 400).unwrap();
    assert_eq!(ctx.pool.total_lp, 200);
    assert_eq!(
        actions,
        vec![
            transfer(USER_A, VAULT_A, MINT_A, Authority::User, 100, 6),
            transfer(USER_B, VAULT_B, MINT_B, Authority::User, 400, 8),
            CustodyAction::MintTo { mint: addr(LP_MINT), to: addr(USER_LP), amount: 200 },
        ]
    );
}

#[test]
fn proportional_deposit_takes_worse_ratio() {
    assert_eq!(lp_to_mint(300, 300, 1000, 2000, 100, 100), Ok(15));
    let mut ctx = deposit_ctx(1000, 2000, 300);
    let actions = add_liquidity(&mut ctx, 100, 100).unwrap();
    assert_eq!(ctx.pool.total_lp, 315);
    assert_eq!(actions[2], CustodyAction::MintTo { mint: addr(LP_MINT), to: addr(USER_LP), amount: 15 });
}

#[test]
fn deposit_grows_supply_and_credits_vaults() {
    let mut ctx = deposit_ctx(1000, 2000, 300);
    let before = ctx;
    let actions = process_add_liquidity(&mut ctx, 50, 100).unwrap();
    assert_eq!(ctx.pool.total_lp, before.pool.total_lp + 15);
    assert_eq!(actions[0], transfer(USER_A, VAULT_A, MINT_A, Authority::User, 50, 6));
    assert_eq!(actions[1], transfer(USER_B, VAULT_B, MINT_B, Authority::User, 100, 8));
    assert_eq!(ctx.token_a_vault, before.token_a_vault);
}

#[test]
fn deposit_of_zero_amount_is_refused() {
    let mut ctx = deposit_ctx(1000, 2000, 300);
    let before = ctx;
    assert_eq!(process_add_liquidity(&mut ctx, 0, 100), Err(ErrorCode::ZeroLiquidityInput));
    assert_eq!(process_add_liquidity(&mut ctx, 100, 0), Err(ErrorCode::ZeroLiquidityInput));
    assert_eq!(ctx, before);
}

#[test]
fn deposit_minting_nothing_is_refused() {
    let mut ctx = deposit_ctx(1000, 2000, 300);
    assert_eq!(process_add_liquidity(&mut ctx, 1, 1), Err(ErrorCode::ZeroLpMint));
    assert_eq!(ctx.pool.total_lp, 300);
}

#[test]
fn deposit_overflows_are_reported() {
    assert_eq!(lp_to_mint(1, u64::MAX, 1, 1, u64::MAX, u64::MAX), Err(ErrorCode::MathOverflow));
    assert_eq!(lp_to_mint(1, 1, 0, 5, 10, 10), Err(ErrorCode::MathOverflow));
    let mut ctx = deposit_ctx(1000, 1000, 1000);
    ctx.pool.total_lp = u64::MAX - 5;
    assert_eq!(process_add_liquidity(&mut ctx, 10, 10), Err(ErrorCode::MathOverflow));
    assert_eq!(ctx.pool.total_lp, u64::MAX - 5);
    ctx.pool.total_lp = u64::MAX - 10;
    assert!(process_add_liquidity(&mut ctx, 10, 10).is_ok());
    assert_eq!(ctx.pool.total_lp, u64::MAX);
}

#[test]
fn deposit_with_foreign_accounts_is_refused() {
    let mut ctx = deposit_ctx(1000, 2000, 300);
    ctx.user_token_a.mint = addr(MINT_B);
    assert_eq!(process_add_liquidity(&mut ctx, 100, 100), Err(ErrorCode::InvalidTokenMint));
    let mut ctx = deposit_ctx(1000, 2000, 300);
    ctx.user_lp_token_account.owner = addr(99);
    assert_eq!(process_add_liquidity(&mut ctx, 100, 100), Err(ErrorCode::InvalidTokenOwner));
    let mut ctx = deposit_ctx(1000, 2000, 300);
    ctx.token_b_vault.key = addr(99);
    assert_eq!(process_add_liquidity(&mut ctx, 100, 100), Err(ErrorCode::PoolAccountMismatch));
    let mut ctx = deposit_ctx(1000, 2000, 300);
    ctx.token_a_vault.mint = addr(99);
    assert_eq!(process_add_liquidity(&mut ctx, 100, 100), Err(ErrorCode::InvalidTokenMint));
}

#[test]
fn withdrawal_pays_proportional_share() {
    assert_eq!(withdrawal_amounts(300, 1000, 2000, 30, 30), Ok((100, 200)));
    let mut ctx = withdraw_ctx(1000, 2000, 300, 30);
    let actions = process_remove_liquidity(&mut ctx, 30).unwrap();
    assert_eq!(ctx.pool.total_lp, 270);
    assert_eq!(
        actions,
        vec![
            CustodyAction::BurnChecked { mint: addr(LP_MINT), from: addr(USER_LP), amount: 30, decimals: 9 },
            transfer(VAULT_A, USER_A, MINT_A, Authority::Pool, 100, 6),
            transfer(VAULT_B, USER_B, MINT_B, Authority::Pool, 200, 8),
        ]
    );
}

#[test]
fn withdrawal_of_everything_drains_reserves() {
    let mut ctx = remove_ctx_all();
    let actions = remove_liquidity(&mut ctx, 300).unwrap();
    assert_eq!(ctx.pool.total_lp, 0);
    assert_eq!(actions[1], transfer(VAULT_A, USER_A, MINT_A, Authority::Pool, 1000, 6));
    assert_eq!(actions[2], transfer(VAULT_B, USER_B, MINT_B, Authority::Pool, 2000, 8));
}

fn remove_ctx_all() -> RemoveLiquidity {
    withdraw_ctx(1000, 2000, 300, 300)
}

#[test]
fn withdrawal_beyond_holdings_is_refused() {
    let mut ctx = withdraw_ctx(1000, 2000, 300, 30);
    assert_eq!(process_remove_liquidity(&mut ctx, 31), Err(ErrorCode::InvalidAmount));
    assert_eq!(process_remove_liquidity(&mut ctx, 301), Err(ErrorCode::InvalidAmount));
    assert_eq!(ctx.pool.total_lp, 300);
}

#[test]
fn withdrawal_overflows_are_reported() {
    let mut ctx = withdraw_ctx(1000, 2000, 300, 300);
    ctx.pool.total_lp = 10;
    assert_eq!(process_remove_liquidity(&mut ctx, 20), Err(ErrorCode::MathOverflow));
    assert_eq!(withdrawal_amounts(0, 0, 0, 0, 0), Err(ErrorCode::MathOverflow));
}

#[test]
fn withdrawal_never_exceeds_reserves() {
    for burn in [1u64, 7, 99, 150, 299, 300] {
        let (a, b) = withdrawal_amounts(300, 1001, 2003, 300, burn).unwrap();
        assert!(a <= 1001 && b <= 2003);
        assert_eq!(a as u128, 1001u128 * burn as u128 / 300);
    }
}

#[test]
fn swap_follows_constant_product() {
    // 100 * 997 / 1000 = 99; 2,000,000 / 1099 = 1819 (1099 * 1820 = 2,000,180); 2000 - 1819 = 181
    assert_eq!(swap_amount_out(1000, 2000, 100, 0), Ok(181));
    let ctx = swap_ctx(1000, 2000, true);
    let actions = process_swap(&ctx, 100, 181).unwrap();
    assert_eq!(
        actions,
        vec![
            transfer(USER_A, VAULT_A, MINT_A, Authority::User, 100, 6),
            transfer(VAULT_B, USER_B, MINT_B, Authority::Pool, 181, 8),
        ]
    );
}

#[test]
fn swap_below_floor_is_refused() {
    let ctx = swap_ctx(1000, 2000, true);
    assert_eq!(process_swap(&ctx, 100, 182), Err(ErrorCode::SlippageExceeded));
    assert_eq!(swap_amount_out(1000, 2000, 100, 182), Err(ErrorCode::SlippageExceeded));
}

#[test]
fn swap_in_other_direction() {
    let ctx = swap_ctx(1000, 2000, false);
    let actions = swap(&ctx, 200, 0).unwrap();
    // 200 * 997 / 1000 = 199; 2,000,000 / 2199 = 909; 1000 - 909 = 91
    assert_eq!(
        actions,
        vec![
            transfer(USER_B, VAULT_B, MINT_B, Authority::User, 200, 8),
            transfer(VAULT_A, USER_A, MINT_A, Authority::Pool, 91, 6),
        ]
    );
}

#[test]
fn swap_keeps_product_on_example() {
    let out = swap_amount_out(1000, 2000, 100, 0).unwrap();
    assert!((1000u128 + 100) * (2000u128 - out as u128) >= 1000u128 * 2000);
    let out = swap_amount_out(5_000_000, 7_000_000, 12_345, 0).unwrap();
    assert!((5_000_000u128 + 12_345) * (7_000_000u128 - out as u128) >= 5_000_000u128 * 7_000_000);
}

#[test]
fn swap_rounding_against_tiny_reserve() {
    // floor(1000 / 1001) = 0 leaves nothing: the whole output reserve goes.
    assert_eq!(swap_amount_out(1000, 1, 2, 0), Ok(1));
}

#[test]
fn swap_on_empty_curve_is_refused() {
    assert_eq!(swap_amount_out(0, 100, 1, 0), Err(ErrorCode::MathOverflow));
    assert_eq!(swap_amount_out(0, 100, 2, 0), Ok(100));
}

#[test]
fn swap_with_bad_accounts_is_refused() {
    let mut ctx = swap_ctx(1000, 2000, true);
    ctx.user_token_out = account(USER_B, MINT_A, USER, 0);
    assert_eq!(process_swap(&ctx, 100, 0), Err(ErrorCode::InvalidSwapDirection));
    let mut ctx = swap_ctx(1000, 2000, true);
    ctx.user_token_in.owner = addr(99);
    assert_eq!(process_swap(&ctx, 100, 0), Err(ErrorCode::InvalidTokenOwner));
    let mut ctx = swap_ctx(1000, 2000, true);
    ctx.user_token_out.mint = addr(99);
    assert_eq!(process_swap(&ctx, 100, 0), Err(ErrorCode::InvalidTokenMint));
    let mut ctx = swap_ctx(1000, 2000, true);
    ctx.lp_mint.key = addr(99);
    assert_eq!(process_swap(&ctx, 100, 0), Err(ErrorCode::PoolAccountMismatch));
}

#[test]
fn deposit_then_withdraw_returns_no_more() {
    let mut dep = deposit_ctx(1000, 2000, 300);
    process_add_liquidity(&mut dep, 100, 150).unwrap();
    let minted = dep.pool.total_lp - 300;
    assert_eq!(minted, 22);
    let (a, b) = withdrawal_amounts(322, 1100, 2150, minted, minted).unwrap();
    assert!(a <= 100 && b <= 150);
    assert_eq!((a, b), (75, 146));

    let mut dep = deposit_ctx(0, 0, 0);
    process_add_liquidity(&mut dep, 7, 13).unwrap();
    let minted = dep.pool.total_lp;
    assert_eq!(minted, 9);
    assert_eq!(withdrawal_amounts(minted, 7, 13, minted, minted), Ok((7, 13)));
}

#[test]
fn initialize_pool_writes_fresh_record() {
    let mut ctx = InitializePool {
        payer: addr(USER),
        pool: Pool {
            token_a_vault: addr(0),
            token_b_vault: addr(0),
            lp_mint: addr(0),
            bump: 0,
            total_lp: 77,
            bump_lp_mint: 0,
        },
        token_a_vault: addr(VAULT_A),
        token_b_vault: addr(VAULT_B),
        token_a_mint: addr(MINT_A),
        token_b_mint: addr(MINT_B),
        lp_mint: addr(LP_MINT),
        pool_bump: 254,
        lp_mint_bump: 253,
    };
    assert_eq!(process_initialize_pool(&mut ctx), Ok(()));
    assert_eq!(ctx.pool, pool(0));
}

#[test]
fn initialize_pool_requires_ordered_pair() {
    let mut ctx = InitializePool {
        payer: addr(USER),
        pool: pool(5),
        token_a_vault: addr(VAULT_A),
        token_b_vault: addr(VAULT_B),
        token_a_mint: addr(MINT_B),
        token_b_mint: addr(MINT_A),
        lp_mint: addr(LP_MINT),
        pool_bump: 1,
        lp_mint_bump: 2,
    };
    assert_eq!(initialize_pool(&mut ctx), Err(ErrorCode::InvalidMintOrder));
    assert_eq!(ctx.pool, pool(5));
    ctx.token_b_mint = addr(MINT_B);
    assert_eq!(initialize_pool(&mut ctx), Err(ErrorCode::InvalidMintOrder));
}

#[test]
fn address_order_follows_words() {
    let a = Address { w0: 1, w1: 0, w2: 0, w3: 0 };
    let b = Address { w0: 0, w1: u64::MAX, w2: u64::MAX, w3: u64::MAX };
    assert!(address_precedes(&b, &a));
    assert!(!address_precedes(&a, &b));
    assert!(!address_precedes(&a, &a));
    assert!(address_precedes(&addr(1), &addr(2)));
}
