use vstd::prelude::*;
use vstd::arithmetic::div_mod::{lemma_fundamental_div_mod, lemma_mod_pos_bound};

use crate::custody::{CustodyAction, action_balance_change, balance_change};
use crate::state::Address;
use crate::instructions::add_liquidity::AddLiquidity;
use crate::instructions::remove_liquidity::RemoveLiquidity;
use crate::pricing::{
    after_fee,
    deposit_lp_result,
    lemma_deposit_lp_positive,
    lemma_pro_rata_bounded,
    lemma_swap_output_bounded,
    pro_rata,
    scaled,
    swap_output,
    swap_reserve_out_after,
    withdrawal_result,
};

verus! {

/// Expands `balance_change` over a sequence of three requests.
proof fn lemma_balance_change_of_three(actions: Seq<CustodyAction>, account: Address)
    requires
        actions.len() == 3,
    ensures
        balance_change(actions, account) == action_balance_change(
            actions[0],
            account,
        ) + action_balance_change(actions[1], account)
            + action_balance_change(actions[2], account),
{
    let a1 = actions.drop_last();
    let a0 = a1.drop_last();
    assert(a0.drop_last().len() == 0);
    assert(a0.last() == actions[0]);
    assert(a1.last() == actions[1]);
    reveal_with_fuel(balance_change, 4);
}

/// Every accepted deposit mints a positive amount of claim tokens, adds
/// exactly that amount to the pool's count, credits each vault with exactly
/// the amount deposited of its asset, and issues the minted amount to the
/// caller's claim-token account.
pub proof fn lemma_deposit_accounting(ctx: AddLiquidity, amount_a: u64, amount_b: u64)
    requires
        ctx.minted_result(amount_a, amount_b) is Ok,
        ctx.token_a_vault.key != ctx.user_token_a.key,
        ctx.token_a_vault.key != ctx.user_token_b.key,
        ctx.token_a_vault.key != ctx.user_lp_token_account.key,
        ctx.token_b_vault.key != ctx.user_token_a.key,
        ctx.token_b_vault.key != ctx.user_token_b.key,
        ctx.token_b_vault.key != ctx.user_lp_token_account.key,
        ctx.token_a_vault.key != ctx.token_b_vault.key,
    ensures
        ({
            let lp = ctx.minted_result(amount_a, amount_b)->Ok_0;
            let actions = ctx.deposit_actions(amount_a, amount_b, lp);
            &&& lp > 0
            &&& ctx.pool.total_lp + lp <= u64::MAX
            &&& balance_change(actions, ctx.token_a_vault.key) == amount_a
            &&& balance_change(actions, ctx.token_b_vault.key) == amount_b
        }),
{
    let lp = ctx.minted_result(amount_a, amount_b)->Ok_0;
    let actions = ctx.deposit_actions(amount_a, amount_b, lp);
    lemma_deposit_lp_positive(
        ctx.pool.total_lp,
        ctx.lp_mint.supply,
        ctx.token_a_vault.amount,
        ctx.token_b_vault.amount,
        amount_a,
        amount_b,
    );
    lemma_balance_change_of_three(actions, ctx.token_a_vault.key);
    lemma_balance_change_of_three(actions, ctx.token_b_vault.key);
}

/// Every accepted withdrawal of a positive `lp_burn` lowers the pool's
/// claim-token count by exactly `lp_burn`, and takes out of each vault
/// exactly the amount paid out of it, which never exceeds its balance.
pub proof fn lemma_withdrawal_accounting(ctx: RemoveLiquidity, lp_burn: u64)
    requires
        ctx.redeemed_result(lp_burn) is Ok,
        lp_burn > 0,
        ctx.token_a_vault.key != ctx.user_token_a.key,
        ctx.token_a_vault.key != ctx.user_token_b.key,
        ctx.token_a_vault.key != ctx.user_lp_token_account.key,
        ctx.token_b_vault.key != ctx.user_token_a.key,
        ctx.token_b_vault.key != ctx.user_token_b.key,
        ctx.token_b_vault.key != ctx.user_lp_token_account.key,
        ctx.token_a_vault.key != ctx.token_b_vault.key,
    ensures
        ({
            let amounts = ctx.redeemed_result(lp_burn)->Ok_0;
            let actions = ctx.withdrawal_actions(lp_burn, amounts.0, amounts.1);
            &&& ctx.pool.total_lp - lp_burn >= 0
            &&& ctx.pool.total_lp - lp_burn < ctx.pool.total_lp
            &&& amounts.0 <= ctx.token_a_vault.amount
            &&& amounts.1 <= ctx.token_b_vault.amount
            &&& balance_change(actions, ctx.token_a_vault.key) == -(amounts.0 as int)
            &&& balance_change(actions, ctx.token_b_vault.key) == -(amounts.1 as int)
        }),
{
    let amounts = ctx.redeemed_result(lp_burn)->Ok_0;
    let actions = ctx.withdrawal_actions(lp_burn, amounts.0, amounts.1);
    lemma_pro_rata_bounded(ctx.token_a_vault.amount, lp_burn, ctx.lp_mint.supply);
    lemma_pro_rata_bounded(ctx.token_b_vault.amount, lp_burn, ctx.lp_mint.supply);
    lemma_balance_change_of_three(actions, ctx.token_a_vault.key);
    lemma_balance_change_of_three(actions, ctx.token_b_vault.key);
}

/// The fee that a swap keeps in the pool covers the part of the output
/// reserve lost when `x * y / (x + after_fee(amount_in))` is rounded down.
pub open spec fn rounding_covered_by_fee(x: int, y: int, amount_in: int) -> bool {
    let x_new = x + after_fee(amount_in);
    (x * y) % x_new <= (amount_in - after_fee(amount_in)) * swap_reserve_out_after(x, y, amount_in)
}

/// A swap with a positive input never lowers the constant product
/// `reserve_in * reserve_out`, wherever the fee it keeps covers the rounding
/// of the output reserve.
pub proof fn lemma_swap_product_non_decreasing(x: u64, y: u64, amount_in: u64)
    requires
        amount_in > 0,
        x + after_fee(amount_in as int) > 0,
        rounding_covered_by_fee(x as int, y as int, amount_in as int),
    ensures
        (x + amount_in) * (y - swap_output(x as int, y as int, amount_in as int)) >= x * y,
{
    lemma_swap_output_bounded(x, y, amount_in);
    let fee_in = after_fee(amount_in as int);
    let x_new = x + fee_in;
    let k = x * y;
    let y_new = swap_reserve_out_after(x as int, y as int, amount_in as int);
    lemma_fundamental_div_mod(k, x_new);
    lemma_mod_pos_bound(k, x_new);
    assert(k == x_new * y_new + k % x_new);
    assert(y - swap_output(x as int, y as int, amount_in as int) == y_new);
    assert((x + amount_in) * y_new == x_new * y_new + (amount_in - fee_in) * y_new) by (
    nonlinear_arith)
        requires
            x_new == x + fee_in,
    ;
}

/// Depositing into a pool and at once burning exactly the claim tokens that
/// were minted returns no more of either asset than was deposited. The pool
/// is consistent: its claim-token count is the mint's supply, and a pool
/// without claim tokens holds no reserves.
pub proof fn lemma_deposit_then_withdraw(
    supply: u64,
    reserve_a: u64,
    reserve_b: u64,
    amount_a: u64,
    amount_b: u64,
)
    requires
        supply == 0 ==> reserve_a == 0 && reserve_b == 0,
        deposit_lp_result(supply, supply, reserve_a, reserve_b, amount_a, amount_b) is Ok,
        supply + deposit_lp_result(supply, supply, reserve_a, reserve_b, amount_a, amount_b)->Ok_0
            <= u64::MAX,
        reserve_a + amount_a <= u64::MAX,
        reserve_b + amount_b <= u64::MAX,
    ensures
        ({
            let lp = deposit_lp_result(supply, supply, reserve_a, reserve_b, amount_a, amount_b)->Ok_0;
            let back = withdrawal_result(
                (supply + lp) as u64,
                (reserve_a + amount_a) as u64,
                (reserve_b + amount_b) as u64,
                lp,
                lp,
            );
            &&& back is Ok
            &&& back->Ok_0.0 <= amount_a
            &&& back->Ok_0.1 <= amount_b
        }),
{
    let lp = deposit_lp_result(supply, supply, reserve_a, reserve_b, amount_a, amount_b)->Ok_0;
    let s2 = (supply + lp) as u64;
    let ra2 = (reserve_a + amount_a) as u64;
    let rb2 = (reserve_b + amount_b) as u64;
    lemma_deposit_lp_positive(supply, supply, reserve_a, reserve_b, amount_a, amount_b);
    lemma_pro_rata_bounded(ra2, lp, s2);
    lemma_pro_rata_bounded(rb2, lp, s2);
    lemma_redeem_at_most_deposit(supply, reserve_a, amount_a, lp);
    lemma_redeem_at_most_deposit(supply, reserve_b, amount_b, lp);
}

/// One side of the round trip: when `lp * reserve <= amount * supply`, the
/// claim `lp` on the reserve after the deposit is at most `amount`.
proof fn lemma_redeem_at_most_deposit(supply: u64, reserve: u64, amount: u64, lp: u64)
    requires
        lp > 0,
        supply == 0 ==> reserve == 0,
        supply > 0 ==> lp <= scaled(amount as int, supply as int, reserve as int),
        supply > 0 ==> reserve > 0,
    ensures
        pro_rata(reserve + amount, lp as int, supply + lp) <= amount,
{
    if supply > 0 {
        let n: int = amount * supply;
        let r: int = reserve as int;
        lemma_fundamental_div_mod(n, r);
        lemma_mod_pos_bound(n, r);
        assert(lp * r <= n) by (nonlinear_arith)
            requires
                n == r * (n / r) + n % r,
                0 <= n % r,
                lp <= n / r,
                r > 0,
        ;
    }
    assert((reserve + amount) * lp <= (supply + lp) * amount) by (nonlinear_arith)
        requires
            supply == 0 ==> reserve == 0,
            lp * reserve <= amount * supply || supply == 0,
    ;
    lemma_quotient_at_most((reserve + amount) * lp, supply + lp, amount as int);
}

/// `n / d <= m` whenever `n <= d * m`.
proof fn lemma_quotient_at_most(n: int, d: int, m: int)
    requires
        d > 0,
        0 <= n <= d * m,
    ensures
        n / d <= m,
{
    lemma_fundamental_div_mod(n, d);
    lemma_mod_pos_bound(n, d);
    assert(n / d <= m) by (nonlinear_arith)
        requires
            n == d * (n / d) + n % d,
            0 <= n % d,
            n <= d * m,
            d > 0,
    ;
}

} // verus!
