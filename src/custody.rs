use vstd::prelude::*;

use crate::state::Address;

verus! {

/// Who signs a movement of tokens.
#[derive(Clone, Copy, Debug, PartialEq, Eq, Structural)]
pub enum Authority {
    /// The caller, over accounts it controls.
    User,
    /// The pool, over its own vaults and its claim-token mint.
    Pool,
}

/// One request to the token-custody service. An operation hands back the
/// requests it needs, in the order in which they must be carried out; the
/// operation commits only if every one of them succeeds.
#[derive(Clone, Copy, Debug, PartialEq, Eq, Structural)]
pub enum CustodyAction {
    /// Move `amount` of token `mint` from `from` to `to`, checking that the
    /// token has `decimals` decimals.
    TransferChecked {
        from: Address,
        to: Address,
        mint: Address,
        authority: Authority,
        amount: u64,
        decimals: u8,
    },
    /// Issue `amount` claim tokens of `mint` to `to`, signed by the pool.
    MintTo { mint: Address, to: Address, amount: u64 },
    /// Destroy `amount` tokens of `mint` held in `from`, signed by the
    /// caller, checking that the token has `decimals` decimals.
    BurnChecked { mint: Address, from: Address, amount: u64, decimals: u8 },
}

/// The net change that one custody request makes to the balance of `account`.
pub open spec fn action_balance_change(action: CustodyAction, account: Address) -> int {
    match action {
        CustodyAction::TransferChecked { from, to, amount, .. } => (if to == account {
            amount as int
        } else {
            0
        }) - (if from == account {
            amount as int
        } else {
            0
        }),
        CustodyAction::MintTo { to, amount, .. } => if to == account {
            amount as int
        } else {
            0
        },
        CustodyAction::BurnChecked { from, amount, .. } => if from == account {
            -(amount as int)
        } else {
            0
        },
    }
}

/// The net change that a sequence of custody requests makes to the balance
/// of `account`.
pub open spec fn balance_change(actions: Seq<CustodyAction>, account: Address) -> int
    decreases actions.len(),
{
    if actions.len() == 0 {
        0
    } else {
        balance_change(actions.drop_last(), account) + action_balance_change(
            actions.last(),
            account,
        )
    }
}

} // verus!
