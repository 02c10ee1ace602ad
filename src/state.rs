use vstd::prelude::*;

verus! {

/// The 32-byte identity of an account on the ledger, held as four
/// big-endian 64-bit words, `w0` first, so that comparing the words in turn
/// orders addresses as their bytes do.
#[derive(Clone, Copy, Debug, PartialEq, Eq, Structural)]
pub struct Address {
    pub w0: u64,
    pub w1: u64,
    pub w2: u64,
    pub w3: u64,
}

/// Compares two account identities.
pub fn same_address(a: &Address, b: &Address) -> (r: bool)
    ensures
        r == (*a == *b),
{
    *a == *b
}

/// `a` sorts strictly before `b`: the first word in which they differ is
/// smaller in `a`.
pub open spec fn address_lt(a: Address, b: Address) -> bool {
    a.w0 < b.w0 || (a.w0 == b.w0 && (a.w1 < b.w1 || (a.w1 == b.w1 && (a.w2 < b.w2 || (a.w2
        == b.w2 && a.w3 < b.w3)))))
}

/// Whether `a` sorts strictly before `b`.
pub fn address_precedes(a: &Address, b: &Address) -> (r: bool)
    ensures
        r == address_lt(*a, *b),
{
    if a.w0 != b.w0 {
        return a.w0 < b.w0;
    }
    if a.w1 != b.w1 {
        return a.w1 < b.w1;
    }
    if a.w2 != b.w2 {
        return a.w2 < b.w2;
    }
    a.w3 < b.w3
}

/// The persisted record of one trading pair.
#[derive(Clone, Copy, Debug, PartialEq, Eq, Structural)]
pub struct Pool {
    /// Custody account of asset A, owned by the pool.
    pub token_a_vault: Address,
    /// Custody account of asset B, owned by the pool.
    pub token_b_vault: Address,
    /// Issuance record of the claim token, whose mint authority is the pool.
    pub lp_mint: Address,
    /// Derivation byte of the pool's own address.
    pub bump: u8,
    /// Claim tokens in circulation, as counted by the pool.
    pub total_lp: u64,
    /// Derivation byte of the claim-token mint's address.
    pub bump_lp_mint: u8,
}

/// What the core reads of a token account.
#[derive(Clone, Copy, Debug, PartialEq, Eq, Structural)]
pub struct TokenAccountState {
    /// The account's own address.
    pub key: Address,
    /// The token it holds.
    pub mint: Address,
    /// The party that controls it.
    pub owner: Address,
    /// Its balance.
    pub amount: u64,
}

/// What the core reads of a token's issuance record.
#[derive(Clone, Copy, Debug, PartialEq, Eq, Structural)]
pub struct MintState {
    /// The mint's own address, which is the token's identity.
    pub key: Address,
    /// Tokens in circulation.
    pub supply: u64,
    /// Decimal precision of the token.
    pub decimals: u8,
}

/// The pool record with its claim-token count replaced.
pub open spec fn pool_with_total_lp(pool: Pool, total_lp: u64) -> Pool {
    Pool {
        token_a_vault: pool.token_a_vault,
        token_b_vault: pool.token_b_vault,
        lp_mint: pool.lp_mint,
        bump: pool.bump,
        total_lp: total_lp,
        bump_lp_mint: pool.bump_lp_mint,
    }
}

} // verus!
