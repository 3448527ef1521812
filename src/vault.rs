use vstd::prelude::*;

use crate::account::{leg_of, move_balance, rebalanced, Leg, TokenAccount};
use crate::address::{
    create_program_address, created_program_address, find_program_address, found_program_address,
    seeds_view, Address,
};
use crate::error::CpiError;
use crate::transfer::{check_token_program, within_supply};

verus! {

/// The seed tag of vault authorities: the bytes of `vault_authority`.
pub open spec fn vault_tag() -> Seq<u8> {
    seq![118u8, 97, 117, 108, 116, 95, 97, 117, 116, 104, 111, 114, 105, 116, 121]
}

/// The seeds of the vault authority of `owner`: the tag, then the owner.
pub open spec fn vault_seeds(owner: Seq<u8>) -> Seq<Seq<u8>> {
    seq![vault_tag(), owner]
}

/// The canonical vault authority of `owner` under `program_id`, with its bump.
pub open spec fn vault_authority_of(owner: Address, program_id: Address) -> Option<(Seq<u8>, u8)> {
    found_program_address(vault_seeds(owner@), program_id@)
}

/// The view of a derivation result.
pub open spec fn derivation_view(d: Option<(Address, u8)>) -> Option<(Seq<u8>, u8)> {
    match d {
        Some(p) => Some((p.0@, p.1)),
        None => None,
    }
}

/// The bytes of an address as a vector.
fn address_bytes(a: &Address) -> (r: Vec<u8>)
    ensures
        r@ == a@,
{
    let mut r: Vec<u8> = Vec::new();
    let mut i: usize = 0;
    while i < 32
        invariant
            i <= 32,
            a@.len() == 32,
            r@ == a@.subrange(0, i as int),
        decreases 32 - i,
    {
        r.push(a.bytes[i]);
        i = i + 1;
    }
    assert(r@ =~= a@);
    r
}

/// The seeds of the vault authority of `owner`.
pub fn vault_seeds_of(owner: &Address) -> (r: Vec<Vec<u8>>)
    ensures
        seeds_view(r@) == vault_seeds(owner@),
{
    let tag: Vec<u8> = vec![118u8, 97, 117, 108, 116, 95, 97, 117, 116, 104, 111, 114, 105, 116, 121];
    let key = address_bytes(owner);
    let r: Vec<Vec<u8>> = vec![tag, key];
    assert(tag@ =~= vault_tag());
    assert(seeds_view(r@) =~= vault_seeds(owner@));
    r
}

/// The seeds that sign for the vault authority of `owner`: its derivation
/// seeds, then the bump.
pub open spec fn vault_signer_seeds(owner: Seq<u8>, bump: u8) -> Seq<Seq<u8>> {
    vault_seeds(owner).push(seq![bump])
}

/// The signer that the seeds of `owner` with `bump` derive under `program_id`.
pub open spec fn vault_signer_of(owner: Address, bump: u8, program_id: Address) -> Option<Seq<u8>> {
    created_program_address(vault_signer_seeds(owner@, bump), program_id@)
}

/// The view of a recomputed signer.
pub open spec fn signer_view(s: Option<Address>) -> Option<Seq<u8>> {
    match s {
        Some(a) => Some(a@),
        None => None,
    }
}

/// Recomputes the signing identity from the vault seeds of `owner` and the
/// bump supplied, as the ledger does when it checks a derived signature.
pub fn recompute_vault_authority(owner: &Address, bump: u8, program_id: &Address) -> (r: Option<Address>)
    ensures
        signer_view(r) == vault_signer_of(*owner, bump, *program_id),
{
    let mut seeds = vault_seeds_of(owner);
    let ghost base = seeds_view(seeds@);
    let last: Vec<u8> = vec![bump];
    assert(last@ =~= seq![bump]);
    seeds.push(last);
    assert(seeds_view(seeds@) =~= base.push(seq![bump]));
    create_program_address(&seeds, program_id)
}

/// Derives the vault authority of `owner`: the identity, with no key of its
/// own, that owns `owner`'s vault accounts, and the canonical bump that
/// derives it.
pub fn derive_vault_authority(owner: &Address, program_id: &Address) -> (r: Option<(Address, u8)>)
    ensures
        derivation_view(r) == vault_authority_of(*owner, *program_id),
        r is Some ==> vault_signer_of(*owner, r->Some_0.1, *program_id) == Some(r->Some_0.0@),
{
    let seeds = vault_seeds_of(owner);
    find_program_address(&seeds, program_id)
}

/// The error a deposit ends in, if any: the depositor must own the source,
/// the vault authority supplied must own the vault, the token program must
/// be the expected one, the source must hold the amount, and both accounts
/// must hold one mint.
pub open spec fn deposit_error(
    user: Address,
    from: TokenAccount,
    vault_authority: Address,
    vault: TokenAccount,
    amount: u64,
    token_program: Address,
    expected_program: Address,
) -> Option<CpiError> {
    if from.owner@ != user@ {
        Some(CpiError::Unauthorized)
    } else if vault.owner@ != vault_authority@ {
        Some(CpiError::Unauthorized)
    } else if token_program@ != expected_program@ {
        Some(CpiError::InvalidProgram)
    } else if from.amount < amount {
        Some(CpiError::InsufficientBalance)
    } else if from.mint@ != vault.mint@ {
        Some(CpiError::InvalidMint)
    } else {
        None
    }
}

/// Deposits `amount` from `from` into `vault`, signed by `user`. The vault
/// is accepted where `vault_authority` owns it; the depositor signs the leg
/// directly, through the token program `token_program`, which must be
/// `expected_program`. On success the balances are updated and the one leg
/// is returned; on failure neither account changes.
pub fn deposit(
    user: &Address,
    from: &mut TokenAccount,
    vault_authority: &Address,
    vault: &mut TokenAccount,
    amount: u64,
    token_program: &Address,
    expected_program: &Address,
) -> (r: Result<Vec<Leg>, CpiError>)
    requires
        within_supply(*old(from), *old(vault)),
    ensures
        match r {
            Ok(legs) => {
                &&& deposit_error(*user, *old(from), *vault_authority, *old(vault), amount, *token_program, *expected_program) is None
                &&& legs@ == seq![leg_of(*old(from), *old(vault), *user, amount)]
                &&& rebalanced(*old(from), *final(from), -amount)
                &&& rebalanced(*old(vault), *final(vault), amount as int)
            },
            Err(e) => {
                &&& deposit_error(*user, *old(from), *vault_authority, *old(vault), amount, *token_program, *expected_program) == Some(e)
                &&& *final(from) == *old(from)
                &&& *final(vault) == *old(vault)
            },
        },
{
    if !from.owner.same(user) {
        return Err(CpiError::Unauthorized);
    }
    if !vault.owner.same(vault_authority) {
        return Err(CpiError::Unauthorized);
    }
    if let Err(e) = check_token_program(token_program, expected_program) {
        return Err(e);
    }
    if from.amount < amount {
        return Err(CpiError::InsufficientBalance);
    }
    if !from.mint.same(&vault.mint) {
        return Err(CpiError::InvalidMint);
    }
    let leg = move_balance(from, vault, user, amount);
    Ok(vec![leg])
}

/// The error a withdrawal from a vault ends in, if any, given the canonical
/// vault authority of `authority` and the signer that the bump supplied
/// derives: the canonical authority must exist and own the vault, the bump
/// supplied must be the canonical one, the signer it derives must be the
/// vault's owner, the token program must be the expected one, the vault must
/// hold the amount, and both accounts must hold one mint.
pub open spec fn vault_transfer_error(
    canonical: Option<(Seq<u8>, u8)>,
    signer: Option<Seq<u8>>,
    vault: TokenAccount,
    to: TokenAccount,
    amount: u64,
    vault_bump: u8,
    token_program: Address,
    expected_program: Address,
) -> Option<CpiError> {
    if canonical is None || vault.owner@ != canonical->Some_0.0 {
        Some(CpiError::Unauthorized)
    } else if vault_bump != canonical->Some_0.1 {
        Some(CpiError::Unauthorized)
    } else if signer != Some(vault.owner@) {
        Some(CpiError::Unauthorized)
    } else if token_program@ != expected_program@ {
        Some(CpiError::InvalidProgram)
    } else if vault.amount < amount {
        Some(CpiError::InsufficientBalance)
    } else if vault.mint@ != to.mint@ {
        Some(CpiError::InvalidMint)
    } else {
        None
    }
}

/// Moves `amount` from `vault` to `to`, signed by `signer`, the identity
/// recomputed from the bump `vault_bump` supplied by the caller, where
/// `canonical` is the canonical vault authority, through the token program
/// `token_program`, which must be `expected_program`. A bump other than the
/// canonical one is refused as `Unauthorized`. On success the balances are
/// updated and the one leg is returned; on failure neither account changes.
pub fn vault_transfer_derived(
    canonical: &Option<(Address, u8)>,
    signer: &Option<Address>,
    vault: &mut TokenAccount,
    to: &mut TokenAccount,
    amount: u64,
    vault_bump: u8,
    token_program: &Address,
    expected_program: &Address,
) -> (r: Result<Vec<Leg>, CpiError>)
    requires
        within_supply(*old(vault), *old(to)),
    ensures
        canonical is Some && vault_bump != canonical->Some_0.1 ==> r == Err::<Vec<Leg>, CpiError>(CpiError::Unauthorized),
        match r {
            Ok(legs) => {
                &&& vault_transfer_error(derivation_view(*canonical), signer_view(*signer), *old(vault), *old(to), amount, vault_bump, *token_program, *expected_program) is None
                &&& legs@ == seq![leg_of(*old(vault), *old(to), signer->Some_0, amount)]
                &&& rebalanced(*old(vault), *final(vault), -amount)
                &&& rebalanced(*old(to), *final(to), amount as int)
            },
            Err(e) => {
                &&& vault_transfer_error(derivation_view(*canonical), signer_view(*signer), *old(vault), *old(to), amount, vault_bump, *token_program, *expected_program) == Some(e)
                &&& *final(vault) == *old(vault)
                &&& *final(to) == *old(to)
            },
        },
{
    let (owner, bump) = match canonical {
        Some(p) => *p,
        None => return Err(CpiError::Unauthorized),
    };
    if !vault.owner.same(&owner) {
        return Err(CpiError::Unauthorized);
    }
    if vault_bump != bump {
        return Err(CpiError::Unauthorized);
    }
    let signer = match signer {
        Some(a) => *a,
        None => return Err(CpiError::Unauthorized),
    };
    if !signer.same(&vault.owner) {
        return Err(CpiError::Unauthorized);
    }
    if let Err(e) = check_token_program(token_program, expected_program) {
        return Err(e);
    }
    if vault.amount < amount {
        return Err(CpiError::InsufficientBalance);
    }
    if !vault.mint.same(&to.mint) {
        return Err(CpiError::InvalidMint);
    }
    let leg = move_balance(vault, to, &signer, amount);
    Ok(vec![leg])
}

/// Withdraws `amount` from the vault of `authority` to `to`: derives the
/// canonical vault authority of `authority`, recomputes the signer from the
/// bump supplied, and goes on as `vault_transfer_derived`. The leg is signed
/// by the recomputed signer, through the token program `token_program`,
/// which must be `expected_program`. Where the canonical authority owns the
/// vault and the bump is the canonical one, only the program, the balance and
/// the mints can refuse the withdrawal.
pub fn vault_transfer(
    authority: &Address,
    vault: &mut TokenAccount,
    to: &mut TokenAccount,
    amount: u64,
    vault_bump: u8,
    program_id: &Address,
    token_program: &Address,
    expected_program: &Address,
) -> (r: Result<Vec<Leg>, CpiError>)
    requires
        within_supply(*old(vault), *old(to)),
    ensures
        vault_authority_of(*authority, *program_id) is Some
            && vault_bump != vault_authority_of(*authority, *program_id)->Some_0.1
            ==> r == Err::<Vec<Leg>, CpiError>(CpiError::Unauthorized),
        vault_authority_of(*authority, *program_id) is Some
            && old(vault).owner@ == vault_authority_of(*authority, *program_id)->Some_0.0
            && vault_bump == vault_authority_of(*authority, *program_id)->Some_0.1
            && token_program@ == expected_program@
            && amount <= old(vault).amount
            && old(vault).mint@ == old(to).mint@ ==> r is Ok,
        match r {
            Ok(legs) => {
                let error = vault_transfer_error(
                    vault_authority_of(*authority, *program_id),
                    vault_signer_of(*authority, vault_bump, *program_id),
                    *old(vault),
                    *old(to),
                    amount,
                    vault_bump,
                    *token_program,
                    *expected_program,
                );
                &&& error is None
                &&& legs@.len() == 1
                &&& legs@[0].from == old(vault).address
                &&& legs@[0].to == old(to).address
                &&& legs@[0].authority@ == old(vault).owner@
                &&& legs@[0].amount == amount
                &&& rebalanced(*old(vault), *final(vault), -amount)
                &&& rebalanced(*old(to), *final(to), amount as int)
            },
            Err(e) => {
                &&& vault_transfer_error(
                    vault_authority_of(*authority, *program_id),
                    vault_signer_of(*authority, vault_bump, *program_id),
                    *old(vault),
                    *old(to),
                    amount,
                    vault_bump,
                    *token_program,
                    *expected_program,
                ) == Some(e)
                &&& *final(vault) == *old(vault)
                &&& *final(to) == *old(to)
            },
        },
{
    let canonical = derive_vault_authority(authority, program_id);
    let signer = recompute_vault_authority(authority, vault_bump, program_id);
    vault_transfer_derived(&canonical, &signer, vault, to, amount, vault_bump, token_program, expected_program)
}

} // verus!
