use vstd::prelude::*;

use crate::address::Address;

verus! {

/// A token account as the ledger holds it: its own address, the identity
/// that may move its tokens, the mint of its tokens, and its balance.
#[derive(Debug, Clone, Copy)]
pub struct TokenAccount {
    pub address: Address,
    pub owner: Address,
    pub mint: Address,
    pub amount: u64,
}

/// One call into the token ledger: move `amount` from the account at `from`
/// to the account at `to`, signed by `authority`.
#[derive(Debug, Clone, Copy)]
pub struct Leg {
    pub from: Address,
    pub to: Address,
    pub authority: Address,
    pub amount: u64,
}

/// `after` is `before` with its balance changed by `delta`, all else kept.
pub open spec fn rebalanced(before: TokenAccount, after: TokenAccount, delta: int) -> bool {
    &&& after.address == before.address
    &&& after.owner == before.owner
    &&& after.mint == before.mint
    &&& after.amount == before.amount + delta
}

/// The leg that moves `amount` from `from` to `to`, signed by `authority`.
pub open spec fn leg_of(from: TokenAccount, to: TokenAccount, authority: Address, amount: u64) -> Leg {
    Leg { from: from.address, to: to.address, authority, amount }
}

/// Applies one leg whose checks have all passed: debits `from`, credits
/// `to`, and returns the leg for the ledger.
pub(crate) fn move_balance(
    from: &mut TokenAccount,
    to: &mut TokenAccount,
    authority: &Address,
    amount: u64,
) -> (leg: Leg)
    requires
        amount <= old(from).amount,
        old(to).amount + amount <= u64::MAX,
    ensures
        rebalanced(*old(from), *final(from), -amount),
        rebalanced(*old(to), *final(to), amount as int),
        leg == leg_of(*old(from), *old(to), *authority, amount),
{
    from.amount = from.amount - amount;
    to.amount = to.amount + amount;
    Leg { from: from.address, to: to.address, authority: *authority, amount }
}

} // verus!
