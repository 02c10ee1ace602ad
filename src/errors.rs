use vstd::prelude::*;

verus! {

/// Every way an operation of the pool can be refused.
#[derive(Clone, Copy, Debug, PartialEq, Eq, Structural)]
pub enum ErrorCode {
    /// A token account holds a different token than the one required.
    InvalidTokenMint,
    /// A user token account is not controlled by the caller.
    InvalidTokenOwner,
    /// A deposit names a zero amount of one of the two tokens.
    ZeroLiquidityInput,
    /// An addition, subtraction, multiplication or division left its range.
    MathOverflow,
    /// A deposit would mint no claim token.
    ZeroLpMint,
    /// A withdrawal burns more claim tokens than exist or than the caller holds.
    InvalidAmount,
    /// A swap names the same token as input and output.
    InvalidSwapDirection,
    /// A swap would pay out less than the caller's floor.
    SlippageExceeded,
    /// An account presented with the pool is not the one the pool record binds.
    PoolAccountMismatch,
    /// A pool's first asset does not sort strictly before its second.
    InvalidMintOrder,
}

} // verus!
