use vstd::prelude::*;
use vstd::arithmetic::div_mod::{lemma_div_pos_is_pos, lemma_fundamental_div_mod, lemma_mod_pos_bound};

use crate::errors::ErrorCode;
use crate::utils::{floor_sqrt, integer_sqrt, is_floor_sqrt, lemma_floor_sqrt_exists};

verus! {

/// Share of every swap input that reaches the curve, in thousandths.
pub const FEE_NUMERATOR: u128 = 997;

/// Denominator of the swap fee ratio.
pub const FEE_DENOMINATOR: u128 = 1000;

pub open spec fn min_int(a: int, b: int) -> int {
    if a <= b { a } else { b }
}

/// `amount * numerator / denominator`, rounded down.
pub open spec fn scaled(amount: int, numerator: int, denominator: int) -> int {
    amount * numerator / denominator
}

/// Claim tokens owed for a deposit into a pool that already has holders:
/// the worse of the two ratios, so that existing holders are never diluted.
pub open spec fn proportional_lp(
    supply: int,
    reserve_a: int,
    reserve_b: int,
    amount_a: int,
    amount_b: int,
) -> int {
    min_int(scaled(amount_a, supply, reserve_a), scaled(amount_b, supply, reserve_b))
}

/// Claim tokens owed for a deposit of `amount_a` and `amount_b`: the
/// geometric mean for the first deposit, the proportional share after it.
pub open spec fn deposit_lp(
    total_lp: u64,
    supply: u64,
    reserve_a: u64,
    reserve_b: u64,
    amount_a: u64,
    amount_b: u64,
) -> int {
    if total_lp == 0 {
        floor_sqrt(amount_a * amount_b)
    } else {
        proportional_lp(
            supply as int,
            reserve_a as int,
            reserve_b as int,
            amount_a as int,
            amount_b as int,
        )
    }
}

/// What a deposit mints, or why it is refused.
pub open spec fn deposit_lp_result(
    total_lp: u64,
    supply: u64,
    reserve_a: u64,
    reserve_b: u64,
    amount_a: u64,
    amount_b: u64,
) -> Result<u64, ErrorCode> {
    let lp = deposit_lp(total_lp, supply, reserve_a, reserve_b, amount_a, amount_b);
    if amount_a == 0 || amount_b == 0 {
        Err(ErrorCode::ZeroLiquidityInput)
    } else if total_lp != 0 && (reserve_a == 0 || reserve_b == 0) {
        Err(ErrorCode::MathOverflow)
    } else if lp > u64::MAX {
        Err(ErrorCode::MathOverflow)
    } else if lp == 0 {
        Err(ErrorCode::ZeroLpMint)
    } else {
        Ok(lp as u64)
    }
}

/// An accepted deposit mints `deposit_lp`, a positive amount.
pub proof fn lemma_deposit_lp_positive(
    total_lp: u64,
    supply: u64,
    reserve_a: u64,
    reserve_b: u64,
    amount_a: u64,
    amount_b: u64,
)
    requires
        deposit_lp_result(total_lp, supply, reserve_a, reserve_b, amount_a, amount_b) is Ok,
    ensures
        ({
            let lp = deposit_lp_result(total_lp, supply, reserve_a, reserve_b, amount_a, amount_b)->Ok_0;
            &&& lp > 0
            &&& lp as int == deposit_lp(total_lp, supply, reserve_a, reserve_b, amount_a, amount_b)
        }),
{
    if total_lp == 0 {
        lemma_product_fits(amount_a, amount_b);
        lemma_floor_sqrt_exists(amount_a * amount_b);
    } else {
        assert(0 <= amount_a * supply && 0 <= amount_b * supply) by (nonlinear_arith);
        lemma_div_pos_is_pos(amount_a * supply, reserve_a as int);
        lemma_div_pos_is_pos(amount_b * supply, reserve_b as int);
    }
}

proof fn lemma_product_fits(a: u64, b: u64)
    ensures
        0 <= a * b <= u64::MAX * u64::MAX,
        u64::MAX * u64::MAX < u128::MAX,
{
    assert(0 <= a * b <= u64::MAX * u64::MAX) by (nonlinear_arith)
        requires
            a <= u64::MAX,
            b <= u64::MAX,
    ;
}

/// The square root of a product of two 64-bit values fits in 64 bits.
proof fn lemma_sqrt_of_product_fits(a: u64, b: u64, r: int)
    requires
        is_floor_sqrt(r, a * b),
    ensures
        r <= u64::MAX,
{
    lemma_product_fits(a, b);
    if r > u64::MAX {
        assert(r * r >= (u64::MAX + 1) * (u64::MAX + 1)) by (nonlinear_arith)
            requires
                r >= u64::MAX + 1,
        ;
    }
}

/// `q = n / d` with `n <= d * m` is at most `m`.
proof fn lemma_quotient_bounded(n: int, d: int, m: int)
    requires
        d > 0,
        0 <= n <= d * m,
    ensures
        0 <= n / d <= m,
{
    lemma_fundamental_div_mod(n, d);
    lemma_mod_pos_bound(n, d);
    let q = n / d;
    assert(q >= 0) by (nonlinear_arith)
        requires
            n == d * q + n % d,
            0 <= n % d < d,
            n >= 0,
    ;
    assert(q <= m) by (nonlinear_arith)
        requires
            n == d * q + n % d,
            0 <= n % d,
            n <= d * m,
            d > 0,
    ;
}

/// Claim tokens minted for a deposit of `amount_a` and `amount_b`.
///
/// The first deposit into an empty pool (`total_lp == 0`) mints the integer
/// square root of `amount_a * amount_b`; later deposits mint the smaller of
/// the two proportional shares of `supply`. A zero amount, a zero reserve
/// under a live supply, a result beyond 64 bits and a zero result are refused.
pub fn lp_to_mint(
    total_lp: u64,
    supply: u64,
    reserve_a: u64,
    reserve_b: u64,
    amount_a: u64,
    amount_b: u64,
) -> (r: Result<u64, ErrorCode>)
    ensures
        r == deposit_lp_result(total_lp, supply, reserve_a, reserve_b, amount_a, amount_b),
        r is Ok ==> r->Ok_0 > 0,
{
    if amount_a == 0 || amount_b == 0 {
        return Err(ErrorCode::ZeroLiquidityInput);
    }
    let minted: u128 = if total_lp == 0 {
        proof { lemma_product_fits(amount_a, amount_b); }
        let product = amount_a as u128 * amount_b as u128;
        let root = integer_sqrt(product);
        proof { lemma_sqrt_of_product_fits(amount_a, amount_b, root as int); }
        root
    } else {
        if reserve_a == 0 || reserve_b == 0 {
            return Err(ErrorCode::MathOverflow);
        }
        proof {
            lemma_product_fits(amount_a, supply);
            lemma_product_fits(amount_b, supply);
        }
        let lp_a = amount_a as u128 * supply as u128 / reserve_a as u128;
        let lp_b = amount_b as u128 * supply as u128 / reserve_b as u128;
        if lp_a <= lp_b {
            lp_a
        } else {
            lp_b
        }
    };
    if minted > u64::MAX as u128 {
        return Err(ErrorCode::MathOverflow);
    }
    if minted == 0 {
        return Err(ErrorCode::ZeroLpMint);
    }
    Ok(minted as u64)
}

/// The part of `reserve` that `lp_burn` claim tokens out of `supply` redeem.
pub open spec fn pro_rata(reserve: int, lp_burn: int, supply: int) -> int {
    reserve * lp_burn / supply
}

/// What a withdrawal pays out of each reserve, or why it is refused.
pub open spec fn withdrawal_result(
    supply: u64,
    reserve_a: u64,
    reserve_b: u64,
    user_lp: u64,
    lp_burn: u64,
) -> Result<(u64, u64), ErrorCode> {
    if lp_burn > supply || lp_burn > user_lp {
        Err(ErrorCode::InvalidAmount)
    } else if supply == 0 {
        Err(ErrorCode::MathOverflow)
    } else {
        Ok(
            (
                pro_rata(reserve_a as int, lp_burn as int, supply as int) as u64,
                pro_rata(reserve_b as int, lp_burn as int, supply as int) as u64,
            ),
        )
    }
}

/// A share of at most the whole supply redeems at most the whole reserve.
pub proof fn lemma_pro_rata_bounded(reserve: u64, lp_burn: u64, supply: u64)
    requires
        0 < supply,
        lp_burn <= supply,
    ensures
        0 <= pro_rata(reserve as int, lp_burn as int, supply as int) <= reserve,
{
    assert(0 <= reserve * lp_burn <= supply * reserve) by (nonlinear_arith)
        requires
            lp_burn <= supply,
    ;
    lemma_quotient_bounded(reserve * lp_burn, supply as int, reserve as int);
}

/// Amounts of the two assets that burning `lp_burn` claim tokens redeems.
///
/// The burn may exceed neither the supply nor the caller's balance
/// (`InvalidAmount`); each amount is the reserve's share of `lp_burn` out of
/// `supply`, rounded down, and never more than that reserve.
pub fn withdrawal_amounts(
    supply: u64,
    reserve_a: u64,
    reserve_b: u64,
    user_lp: u64,
    lp_burn: u64,
) -> (r: Result<(u64, u64), ErrorCode>)
    ensures
        r == withdrawal_result(supply, reserve_a, reserve_b, user_lp, lp_burn),
        r is Ok ==> r->Ok_0.0 <= reserve_a && r->Ok_0.1 <= reserve_b,
{
    if lp_burn > supply {
        return Err(ErrorCode::InvalidAmount);
    }
    if lp_burn > user_lp {
        return Err(ErrorCode::InvalidAmount);
    }
    if supply == 0 {
        return Err(ErrorCode::MathOverflow);
    }
    proof {
        lemma_product_fits(reserve_a, lp_burn);
        lemma_product_fits(reserve_b, lp_burn);
        lemma_pro_rata_bounded(reserve_a, lp_burn, supply);
        lemma_pro_rata_bounded(reserve_b, lp_burn, supply);
    }
    let amount_a = (reserve_a as u128 * lp_burn as u128 / supply as u128) as u64;
    let amount_b = (reserve_b as u128 * lp_burn as u128 / supply as u128) as u64;
    Ok((amount_a, amount_b))
}

/// The part of a swap input that reaches the curve once the fee is kept.
pub open spec fn after_fee(amount_in: int) -> int {
    scaled(amount_in, FEE_NUMERATOR as int, FEE_DENOMINATOR as int)
}

/// Reserve of the output asset left by the constant-product rule:
/// `floor(x * y / (x + after_fee(amount_in)))`.
pub open spec fn swap_reserve_out_after(x: int, y: int, amount_in: int) -> int {
    (x * y) / (x + after_fee(amount_in))
}

/// What a swap of `amount_in` against reserves `x` (input) and `y` (output) pays out.
pub open spec fn swap_output(x: int, y: int, amount_in: int) -> int {
    y - swap_reserve_out_after(x, y, amount_in)
}

/// What a swap pays out, or why it is refused.
pub open spec fn swap_result(x: u64, y: u64, amount_in: u64, min_amount_out: u64) -> Result<
    u64,
    ErrorCode,
> {
    if x + after_fee(amount_in as int) == 0 {
        Err(ErrorCode::MathOverflow)
    } else if swap_output(x as int, y as int, amount_in as int) < min_amount_out {
        Err(ErrorCode::SlippageExceeded)
    } else {
        Ok(swap_output(x as int, y as int, amount_in as int) as u64)
    }
}

/// A swap never pays out more than the output reserve.
pub proof fn lemma_swap_output_bounded(x: u64, y: u64, amount_in: u64)
    requires
        x + after_fee(amount_in as int) > 0,
    ensures
        0 <= after_fee(amount_in as int) <= amount_in,
        0 <= swap_output(x as int, y as int, amount_in as int) <= y,
{
    let x_new = x + after_fee(amount_in as int);
    assert(0 <= x * y <= x_new * y) by (nonlinear_arith)
        requires
            0 <= x <= x_new,
            y >= 0,
    ;
    lemma_quotient_bounded(x * y, x_new, y as int);
}

/// Output of a swap of `amount_in` against input reserve `reserve_in` and
/// output reserve `reserve_out`, under the constant-product rule with a fee
/// of three thousandths kept in the pool.
///
/// Refused with `SlippageExceeded` when the output falls below
/// `min_amount_out`, and with `MathOverflow` when the input side of the curve
/// would be zero.
pub fn swap_amount_out(reserve_in: u64, reserve_out: u64, amount_in: u64, min_amount_out: u64) -> (r:
    Result<u64, ErrorCode>)
    ensures
        r == swap_result(reserve_in, reserve_out, amount_in, min_amount_out),
        r is Ok ==> r->Ok_0 <= reserve_out,
{
    let x = reserve_in as u128;
    let y = reserve_out as u128;
    let x_in = amount_in as u128;
    let x_in_after_fee = x_in * FEE_NUMERATOR / FEE_DENOMINATOR;
    let x_new = x + x_in_after_fee;
    if x_new == 0 {
        return Err(ErrorCode::MathOverflow);
    }
    proof {
        lemma_product_fits(reserve_in, reserve_out);
        lemma_swap_output_bounded(reserve_in, reserve_out, amount_in);
    }
    let k = x * y;
    let y_new = k / x_new;
    let amount_out = (y - y_new) as u64;
    if amount_out < min_amount_out {
        return Err(ErrorCode::SlippageExceeded);
    }
    Ok(amount_out)
}

} // verus!
