use vstd::prelude::*;

use crate::account::{leg_of, move_balance, rebalanced, Leg, TokenAccount};
use crate::address::Address;
use crate::error::CpiError;
use crate::fee::{fee_split, split_fee};

verus! {

/// Checks that the token program supplied is the expected one.
pub fn check_token_program(supplied: &Address, expected: &Address) -> (r: Result<(), CpiError>)
    ensures
        r is Ok <==> supplied@ == expected@,
        r is Err ==> r == Err::<(), CpiError>(CpiError::InvalidProgram),
{
    if supplied.same(expected) {
        Ok(())
    } else {
        Err(CpiError::InvalidProgram)
    }
}

/// Two accounts of one mint hold together no more than a `u64`, as the
/// mint's supply is one.
pub open spec fn within_supply(a: TokenAccount, b: TokenAccount) -> bool {
    a.mint@ == b.mint@ ==> a.amount + b.amount <= u64::MAX
}

/// The error `transfer_tokens` ends in, if any: the signer must own the
/// source, the token program must be the expected one, the source must hold
/// the amount, and both accounts must hold one mint.
pub open spec fn transfer_tokens_error(
    user: Address,
    from: TokenAccount,
    to: TokenAccount,
    amount: u64,
    token_program: Address,
    expected_program: Address,
) -> Option<CpiError> {
    if from.owner@ != user@ {
        Some(CpiError::Unauthorized)
    } else if token_program@ != expected_program@ {
        Some(CpiError::InvalidProgram)
    } else if from.amount < amount {
        Some(CpiError::InsufficientBalance)
    } else if from.mint@ != to.mint@ {
        Some(CpiError::InvalidMint)
    } else {
        None
    }
}

/// Moves `amount` from `from` to `to`, signed by `user`, through the token
/// program `token_program`, which must be `expected_program`. On success the
/// balances are updated and the one ledger leg is returned; on failure
/// neither account changes.
pub fn transfer_tokens(
    user: &Address,
    from: &mut TokenAccount,
    to: &mut TokenAccount,
    amount: u64,
    token_program: &Address,
    expected_program: &Address,
) -> (r: Result<Vec<Leg>, CpiError>)
    requires
        within_supply(*old(from), *old(to)),
    ensures
        old(from).owner@ == user@ && token_program@ != expected_program@
            ==> r == Err::<Vec<Leg>, CpiError>(CpiError::InvalidProgram),
        old(from).owner@ == user@ && token_program@ == expected_program@ && amount > old(from).amount
            ==> r == Err::<Vec<Leg>, CpiError>(CpiError::InsufficientBalance),
        old(from).owner@ == user@ && token_program@ == expected_program@ && amount <= old(from).amount
            && old(from).mint@ != old(to).mint@ ==> r == Err::<Vec<Leg>, CpiError>(CpiError::InvalidMint),
        match r {
            Ok(legs) => {
                &&& transfer_tokens_error(*user, *old(from), *old(to), amount, *token_program, *expected_program) is None
                &&& legs@ == seq![leg_of(*old(from), *old(to), *user, amount)]
                &&& rebalanced(*old(from), *final(from), -amount)
                &&& rebalanced(*old(to), *final(to), amount as int)
            },
            Err(e) => {
                &&& transfer_tokens_error(*user, *old(from), *old(to), amount, *token_program, *expected_program) == Some(e)
                &&& *final(from) == *old(from)
                &&& *final(to) == *old(to)
            },
        },
{
    if !from.owner.same(user) {
        return Err(CpiError::Unauthorized);
    }
    if let Err(e) = check_token_program(token_program, expected_program) {
        return Err(e);
    }
    if from.amount < amount {
        return Err(CpiError::InsufficientBalance);
    }
    if !from.mint.same(&to.mint) {
        return Err(CpiError::InvalidMint);
    }
    let leg = move_balance(from, to, user, amount);
    Ok(vec![leg])
}

/// The error `transfer_with_fee` ends in, if any: the checks of a plain
/// transfer, the fee account's mint, and the fee arithmetic.
pub open spec fn transfer_with_fee_error(
    user: Address,
    from: TokenAccount,
    to: TokenAccount,
    fee_account: TokenAccount,
    amount: u64,
    token_program: Address,
    expected_program: Address,
) -> Option<CpiError> {
    if from.owner@ != user@ {
        Some(CpiError::Unauthorized)
    } else if token_program@ != expected_program@ {
        Some(CpiError::InvalidProgram)
    } else if from.amount < amount {
        Some(CpiError::InsufficientBalance)
    } else if to.mint@ != from.mint@ || fee_account.mint@ != from.mint@ {
        Some(CpiError::InvalidMint)
    } else if fee_split(amount) is Err {
        Some(CpiError::Overflow)
    } else {
        None
    }
}

/// The leg of `amount` from `from` to `to`, where `amount` is positive;
/// none where it is zero.
pub open spec fn leg_if_positive(from: TokenAccount, to: TokenAccount, authority: Address, amount: u64) -> Seq<Leg> {
    if amount > 0 {
        seq![leg_of(from, to, authority, amount)]
    } else {
        seq![]
    }
}

/// The legs of a fee-splitting transfer: the fee leg, then the recipient leg,
/// each only where its amount is positive.
pub open spec fn fee_legs(
    user: Address,
    from: TokenAccount,
    to: TokenAccount,
    fee_account: TokenAccount,
    fee: u64,
    rest: u64,
) -> Seq<Leg> {
    leg_if_positive(from, fee_account, user, fee) + leg_if_positive(from, to, user, rest)
}

/// Moves `amount` out of `from`, signed by `user`: the protocol fee to
/// `fee_account` and the rest to `to`, through the token program
/// `token_program`, which must be `expected_program`. A leg of zero is not
/// issued. On success the balances are updated and the legs are returned in
/// order; on failure no account changes.
pub fn transfer_with_fee(
    user: &Address,
    from: &mut TokenAccount,
    to: &mut TokenAccount,
    fee_account: &mut TokenAccount,
    amount: u64,
    token_program: &Address,
    expected_program: &Address,
) -> (r: Result<Vec<Leg>, CpiError>)
    requires
        within_supply(*old(from), *old(to)),
        within_supply(*old(from), *old(fee_account)),
    ensures
        match r {
            Ok(legs) => {
                let fee = fee_split(amount)->Ok_0.0;
                let rest = fee_split(amount)->Ok_0.1;
                &&& transfer_with_fee_error(*user, *old(from), *old(to), *old(fee_account), amount, *token_program, *expected_program) is None
                &&& legs@ == fee_legs(*user, *old(from), *old(to), *old(fee_account), fee, rest)
                &&& rebalanced(*old(from), *final(from), -amount)
                &&& rebalanced(*old(fee_account), *final(fee_account), fee as int)
                &&& rebalanced(*old(to), *final(to), rest as int)
            },
            Err(e) => {
                &&& transfer_with_fee_error(*user, *old(from), *old(to), *old(fee_account), amount, *token_program, *expected_program) == Some(e)
                &&& *final(from) == *old(from)
                &&& *final(to) == *old(to)
                &&& *final(fee_account) == *old(fee_account)
            },
        },
{
    if !from.owner.same(user) {
        return Err(CpiError::Unauthorized);
    }
    if let Err(e) = check_token_program(token_program, expected_program) {
        return Err(e);
    }
    if from.amount < amount {
        return Err(CpiError::InsufficientBalance);
    }
    if !to.mint.same(&from.mint) || !fee_account.mint.same(&from.mint) {
        return Err(CpiError::InvalidMint);
    }
    let (fee, rest) = match split_fee(amount) {
        Ok(p) => p,
        Err(e) => return Err(e),
    };
    let ghost from0 = *from;
    let ghost to0 = *to;
    let ghost fee0 = *fee_account;
    let mut legs: Vec<Leg> = Vec::new();
    if fee > 0 {
        let leg = move_balance(from, fee_account, user, fee);
        legs.push(leg);
    }
    if rest > 0 {
        let leg = move_balance(from, to, user, rest);
        legs.push(leg);
    }
    assert(legs@ =~= fee_legs(*user, from0, to0, fee0, fee, rest));
    Ok(legs)
}

} // verus!
