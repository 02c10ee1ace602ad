use vstd::prelude::*;
use vstd::arithmetic::div_mod::{lemma_fundamental_div_mod, lemma_mod_pos_bound};

verus! {

/// `r` is the integer square root of `v`: the largest `r` with `r * r <= v`.
pub open spec fn is_floor_sqrt(r: int, v: int) -> bool {
    0 <= r && r * r <= v && v < (r + 1) * (r + 1)
}

/// The integer square root of a non-negative `v`.
pub open spec fn floor_sqrt(v: int) -> int {
    choose|r: int| is_floor_sqrt(r, v)
}

/// At most one integer is the square root of `v`.
pub proof fn lemma_floor_sqrt_unique(r1: int, r2: int, v: int)
    requires
        is_floor_sqrt(r1, v),
        is_floor_sqrt(r2, v),
    ensures
        r1 == r2,
{
    if r1 < r2 {
        assert((r1 + 1) * (r1 + 1) <= r2 * r2) by (nonlinear_arith)
            requires
                0 <= r1 + 1 <= r2,
        ;
    } else if r2 < r1 {
        assert((r2 + 1) * (r2 + 1) <= r1 * r1) by (nonlinear_arith)
            requires
                0 <= r2 + 1 <= r1,
        ;
    }
}

/// Every non-negative integer has a square root.
pub proof fn lemma_floor_sqrt_exists(v: int)
    requires
        v >= 0,
    ensures
        is_floor_sqrt(floor_sqrt(v), v),
    decreases v,
{
    if v == 0 {
        assert(is_floor_sqrt(0, 0));
    } else {
        lemma_floor_sqrt_exists(v - 1);
        let r = floor_sqrt(v - 1);
        if (r + 1) * (r + 1) <= v {
            assert(v < (r + 2) * (r + 2)) by (nonlinear_arith)
                requires
                    v - 1 < (r + 1) * (r + 1),
                    r >= 0,
            ;
            assert(is_floor_sqrt(r + 1, v));
        } else {
            assert(is_floor_sqrt(r, v));
        }
    }
}

/// Once a witness is known, `floor_sqrt` names it.
pub proof fn lemma_floor_sqrt_is(r: int, v: int)
    requires
        is_floor_sqrt(r, v),
    ensures
        floor_sqrt(v) == r,
{
    let c = floor_sqrt(v);
    assert(is_floor_sqrt(c, v));
    lemma_floor_sqrt_unique(c, r, v);
}

/// A Newton step never lands below the square root: for `x > 0`,
/// `y = (x + v / x) / 2` satisfies `v < (y + 1) * (y + 1)`.
proof fn lemma_newton_step_stays_above(x: int, v: int, y: int)
    requires
        x > 0,
        v >= 0,
        y == (x + v / x) / 2,
    ensures
        v < (y + 1) * (y + 1),
{
    let q = v / x;
    let r = v % x;
    lemma_fundamental_div_mod(v, x);
    lemma_mod_pos_bound(v, x);
    assert(v == x * q + r);
    assert(q >= 0) by (nonlinear_arith)
        requires
            v == x * q + r,
            0 <= r < x,
            v >= 0,
    ;
    let s = x + q + 1;
    assert(2 * (y + 1) >= s);
    assert(s * s >= 4 * x * (q + 1)) by (nonlinear_arith)
        requires
            s == x + q + 1,
    ;
    assert(4 * (y + 1) * (y + 1) >= s * s) by (nonlinear_arith)
        requires
            2 * (y + 1) >= s,
            s >= 0,
    ;
    assert(x * (q + 1) > v) by (nonlinear_arith)
        requires
            v == x * q + r,
            r < x,
    ;
    assert(v < (y + 1) * (y + 1)) by (nonlinear_arith)
        requires
            4 * (y + 1) * (y + 1) >= s * s,
            s * s >= 4 * x * (q + 1),
            x * (q + 1) > v,
    ;
}

/// Once a Newton step no longer decreases, `x * x <= v`.
proof fn lemma_newton_fixpoint_below(x: int, v: int)
    requires
        x > 0,
        v >= 0,
        (x + v / x) / 2 >= x,
    ensures
        x * x <= v,
{
    let q = v / x;
    lemma_fundamental_div_mod(v, x);
    lemma_mod_pos_bound(v, x);
    assert(q >= x);
    assert(x * x <= x * q) by (nonlinear_arith)
        requires
            x > 0,
            q >= x,
    ;
}

/// The mean of `a` and `b` rounded down, computed without leaving `u128`.
fn half_sum(a: u128, b: u128) -> (r: u128)
    ensures
        r == (a + b) / 2,
{
    a / 2 + b / 2 + (a % 2 + b % 2) / 2
}

/// The integer square root of `value`, by Newton's (Babylonian) iteration
/// started at `value` itself.
pub fn integer_sqrt(value: u128) -> (r: u128)
    ensures
        is_floor_sqrt(r as int, value as int),
        r == floor_sqrt(value as int),
{
    if value == 0 {
        assert(is_floor_sqrt(0, 0));
        proof { lemma_floor_sqrt_is(0, 0); }
        return 0;
    }
    let mut x: u128 = value;
    let mut y: u128 = half_sum(x, 1);
    assert(value as int / value as int == 1) by (nonlinear_arith)
        requires
            value > 0,
    ;
    assert(value < (value + 1) * (value + 1)) by (nonlinear_arith)
        requires
            value > 0,
    ;
    while y < x
        invariant
            0 < x,
            value > 0,
            y == (x + value / x) / 2,
            value < (x + 1) * (x + 1),
        decreases x,
    {
        proof {
            lemma_newton_step_stays_above(x as int, value as int, y as int);
            assert(y > 0) by (nonlinear_arith)
                requires
                    (value as int) < (y as int + 1) * (y as int + 1),
                    value > 0,
            ;
        }
        x = y;
        y = half_sum(x, value / x);
    }
    proof {
        lemma_newton_fixpoint_below(x as int, value as int);
        lemma_floor_sqrt_is(x as int, value as int);
    }
    x
}

} // verus!
