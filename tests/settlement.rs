use cpi_token_transfer::account::{Leg, TokenAccount};
use cpi_token_transfer::address::Address;
use cpi_token_transfer::config::{derive_config_address, initialize};
use cpi_token_transfer::error::CpiError;
use cpi_token_transfer::fee::split_fee;
use cpi_token_transfer::transfer::{check_token_program, transfer_tokens, transfer_with_fee};
use cpi_token_transfer::vault::{
    derive_vault_authority, deposit, recompute_vault_authority, vault_seeds_of,
    vault_transfer, vault_transfer_derived,
};

fn addr(n: u8) -> Address {
    Address::new([n; 32])
}

fn account(address: u8, owner: Address, mint: u8, amount: u64) -> TokenAccount {
    TokenAccount { address: addr(address), owner, mint: addr(mint), amount }
}

fn program() -> Address {
    addr(200)
}

fn token_program() -> Address {
    addr(150)
}

fn same_leg(leg: &Leg, from: u8, to: u8, authority: &Address, amount: u64) -> bool {
    leg.from.same(&addr(from))
        && leg.to.same(&addr(to))
        && leg.authority.same(authority)
        && leg.amount == amount
}

#[test]
fn fee_split_exact_values() {
    assert_eq!(split_fee(0), Ok((0, 0)));
    assert_eq!(split_fee(1), Ok((0, 1)));
    assert_eq!(split_fee(99), Ok((0, 99)));
    assert_eq!(split_fee(100), Ok((1, 99)));
    assert_eq!(split_fee(10000), Ok((100, 9900)));
    assert_eq!(split_fee(12345), Ok((123, 12222)));
    for amount in [0u64, 7, 555, 10_001, 1_000_000, u64::MAX / 100] {
        let (fee, rest) = split_fee(amount).unwrap();
        assert_eq!(fee, amount * 100 / 10000);
        assert_eq!(fee + rest, amount);
    }
}

#[test]
fn fee_split_overflow() {
    assert_eq!(split_fee(u64::MAX), Err(CpiError::Overflow));
    assert_eq!(split_fee(u64::MAX / 100 + 1), Err(CpiError::Overflow));
}

#[test]
fn transfer_with_fee_zero_is_noop() {
    let user = addr(1);
    let mut from = account(10, user, 50, 500);
    let mut to = account(11, addr(2), 50, 7);
    let mut fee_account = account(12, addr(3), 50, 9);
    let legs = transfer_with_fee(&user, &mut from, &mut to, &mut fee_account, 0, &token_program(), &token_program()).unwrap();
    assert!(legs.is_empty());
    assert_eq!((from.amount, to.amount, fee_account.amount), (500, 7, 9));
}

#[test]
fn transfer_with_fee_one_unit_only_recipient_leg() {
    let user = addr(1);
    let mut from = account(10, user, 50, 500);
    let mut to = account(11, addr(2), 50, 0);
    let mut fee_account = account(12, addr(3), 50, 0);
    let legs = transfer_with_fee(&user, &mut from, &mut to, &mut fee_account, 1, &token_program(), &token_program()).unwrap();
    assert_eq!(legs.len(), 1);
    assert!(same_leg(&legs[0], 10, 11, &user, 1));
    assert_eq!((from.amount, to.amount, fee_account.amount), (499, 1, 0));
}

#[test]
fn transfer_with_fee_ten_thousand() {
    let user = addr(1);
    let mut from = account(10, user, 50, 20000);
    let mut to = account(11, addr(2), 50, 0);
    let mut fee_account = account(12, addr(3), 50, 0);
    let legs = transfer_with_fee(&user, &mut from, &mut to, &mut fee_account, 10000, &token_program(), &token_program()).unwrap();
    assert_eq!(legs.len(), 2);
    assert!(same_leg(&legs[0], 10, 12, &user, 100));
    assert!(same_leg(&legs[1], 10, 11, &user, 9900));
    assert_eq!((from.amount, to.amount, fee_account.amount), (10000, 9900, 100));
}

#[test]
fn transfer_with_fee_errors_leave_balances() {
    let user = addr(1);
    let mut from = account(10, user, 50, 100);
    let mut to = account(11, addr(2), 50, 0);
    let mut bad_fee = account(12, addr(3), 51, 0);
    assert_eq!(
        transfer_with_fee(&user, &mut from, &mut to, &mut bad_fee, 10, &token_program(), &token_program()).unwrap_err(),
        CpiError::InvalidMint
    );
    let mut fee_account = account(12, addr(3), 50, 0);
    assert_eq!(
        transfer_with_fee(&user, &mut from, &mut to, &mut fee_account, 101, &token_program(), &token_program()).unwrap_err(),
        CpiError::InsufficientBalance
    );
    assert_eq!(
        transfer_with_fee(&addr(9), &mut from, &mut to, &mut fee_account, 10, &token_program(), &token_program()).unwrap_err(),
        CpiError::Unauthorized
    );
    let mut rich = account(13, user, 50, u64::MAX);
    assert_eq!(
        transfer_with_fee(&user, &mut rich, &mut to, &mut fee_account, u64::MAX, &token_program(), &token_program()).unwrap_err(),
        CpiError::Overflow
    );
    assert_eq!(
        transfer_with_fee(&user, &mut from, &mut to, &mut fee_account, 10, &addr(151), &token_program()).unwrap_err(),
        CpiError::InvalidProgram
    );
    assert_eq!((from.amount, to.amount, fee_account.amount, rich.amount), (100, 0, 0, u64::MAX));
}

#[test]
fn transfer_with_fee_overflow_only_from_fee_arithmetic() {
    let user = addr(1);
    let limit = u64::MAX / 100;
    let mut from = account(10, user, 50, limit + 1);
    let mut to = account(11, addr(2), 50, 0);
    let mut fee_account = account(12, addr(3), 50, 0);
    assert_eq!(
        transfer_with_fee(&user, &mut from, &mut to, &mut fee_account, limit + 1, &token_program(), &token_program()).unwrap_err(),
        CpiError::Overflow
    );
    let legs = transfer_with_fee(&user, &mut from, &mut to, &mut fee_account, limit, &token_program(), &token_program()).unwrap();
    assert_eq!(legs.len(), 2);
    assert_eq!(fee_account.amount, limit / 100);
    assert_eq!(to.amount, limit - limit / 100);
    assert_eq!(from.amount, 1);
}

#[test]
fn transfer_tokens_moves_balance() {
    let user = addr(1);
    let mut from = account(10, user, 50, 300);
    let mut to = account(11, addr(2), 50, 5);
    let legs = transfer_tokens(&user, &mut from, &mut to, 120, &token_program(), &token_program()).unwrap();
    assert_eq!(legs.len(), 1);
    assert!(same_leg(&legs[0], 10, 11, &user, 120));
    assert_eq!((from.amount, to.amount), (180, 125));
}

#[test]
fn transfer_tokens_insufficient_balance() {
    let user = addr(1);
    let mut from = account(10, user, 50, 300);
    let mut to = account(11, addr(2), 50, 5);
    assert_eq!(transfer_tokens(&user, &mut from, &mut to, 301, &token_program(), &token_program()).unwrap_err(), CpiError::InsufficientBalance);
    assert_eq!((from.amount, to.amount), (300, 5));
}

#[test]
fn transfer_tokens_invalid_mint() {
    let user = addr(1);
    let mut from = account(10, user, 50, 300);
    let mut to = account(11, addr(2), 51, 5);
    assert_eq!(transfer_tokens(&user, &mut from, &mut to, 10, &token_program(), &token_program()).unwrap_err(), CpiError::InvalidMint);
    assert_eq!((from.amount, to.amount), (300, 5));
}

#[test]
fn transfer_tokens_unauthorized_and_wrong_program() {
    let user = addr(1);
    let mut from = account(10, user, 50, 300);
    let mut to = account(11, addr(2), 50, 5);
    assert_eq!(transfer_tokens(&addr(2), &mut from, &mut to, 10, &token_program(), &token_program()).unwrap_err(), CpiError::Unauthorized);
    assert_eq!(transfer_tokens(&addr(2), &mut from, &mut to, 10, &addr(151), &token_program()).unwrap_err(), CpiError::Unauthorized);
    assert_eq!(transfer_tokens(&user, &mut from, &mut to, 10, &addr(151), &token_program()).unwrap_err(), CpiError::InvalidProgram);
    assert_eq!(transfer_tokens(&user, &mut from, &mut to, 1000, &addr(151), &token_program()).unwrap_err(), CpiError::InvalidProgram);
    assert_eq!((from.amount, to.amount), (300, 5));
}

#[test]
fn token_program_check() {
    assert_eq!(check_token_program(&addr(4), &addr(4)), Ok(()));
    assert_eq!(check_token_program(&addr(4), &addr(5)), Err(CpiError::InvalidProgram));
}

#[test]
fn vault_authority_is_derived() {
    let user = addr(1);
    let seeds = vault_seeds_of(&user);
    assert_eq!(seeds.len(), 2);
    assert_eq!(seeds[0], b"vault_authority".to_vec());
    assert_eq!(seeds[1], vec![1u8; 32]);
    let (authority, bump) = derive_vault_authority(&user, &program()).unwrap();
    assert!(!authority.same(&user));
    assert!(!authority.same(&program()));
    let (again, bump_again) = derive_vault_authority(&user, &program()).unwrap();
    assert!(authority.same(&again));
    assert_eq!(bump, bump_again);
    let (other, _) = derive_vault_authority(&addr(2), &program()).unwrap();
    assert!(!authority.same(&other));
}

#[test]
fn deposit_then_vault_transfer() {
    let user = addr(1);
    let (vault_authority, bump) = derive_vault_authority(&user, &program()).unwrap();
    let mut from = account(10, user, 50, 5000);
    let mut vault = account(20, vault_authority, 50, 0);
    let mut dest = account(30, addr(3), 50, 70);
    let legs = deposit(&user, &mut from, &vault_authority, &mut vault, 1000, &token_program(), &token_program()).unwrap();
    assert_eq!(legs.len(), 1);
    assert!(same_leg(&legs[0], 10, 20, &user, 1000));
    assert_eq!((from.amount, vault.amount), (4000, 1000));
    let legs = vault_transfer(&user, &mut vault, &mut dest, 400, bump, &program(), &token_program(), &token_program()).unwrap();
    assert_eq!(legs.len(), 1);
    assert!(same_leg(&legs[0], 20, 30, &vault_authority, 400));
    assert_eq!((vault.amount, dest.amount), (600, 470));
}

#[test]
fn vault_transfer_wrong_bump_unauthorized() {
    let user = addr(1);
    let (vault_authority, bump) = derive_vault_authority(&user, &program()).unwrap();
    let mut vault = account(20, vault_authority, 50, 1000);
    let mut dest = account(30, addr(3), 50, 0);
    let wrong = bump.wrapping_sub(1);
    assert_eq!(
        vault_transfer(&user, &mut vault, &mut dest, 400, wrong, &program(), &token_program(), &token_program()).unwrap_err(),
        CpiError::Unauthorized
    );
    assert_eq!((vault.amount, dest.amount), (1000, 0));
}

#[test]
fn vault_signer_recomputed_from_bump() {
    let user = addr(1);
    let (vault_authority, bump) = derive_vault_authority(&user, &program()).unwrap();
    let signer = recompute_vault_authority(&user, bump, &program()).unwrap();
    assert!(signer.same(&vault_authority));
    assert!(!signer.same(&user));
    match recompute_vault_authority(&user, bump.wrapping_sub(1), &program()) {
        Some(other) => assert!(!other.same(&vault_authority)),
        None => {}
    }
}

#[test]
fn vault_transfer_errors() {
    let user = addr(1);
    let (vault_authority, bump) = derive_vault_authority(&user, &program()).unwrap();
    let canonical = Some((vault_authority, bump));
    let signer = recompute_vault_authority(&user, bump, &program());
    let mut vault = account(20, vault_authority, 50, 1000);
    let mut dest = account(30, addr(3), 50, 0);
    let mut other_mint = account(31, addr(3), 51, 0);
    assert_eq!(
        vault_transfer_derived(&canonical, &signer, &mut vault, &mut dest, 1001, bump, &token_program(), &token_program()).unwrap_err(),
        CpiError::InsufficientBalance
    );
    assert_eq!(
        vault_transfer_derived(&canonical, &signer, &mut vault, &mut other_mint, 10, bump, &token_program(), &token_program()).unwrap_err(),
        CpiError::InvalidMint
    );
    assert_eq!(
        vault_transfer_derived(&None, &signer, &mut vault, &mut dest, 10, bump, &token_program(), &token_program()).unwrap_err(),
        CpiError::Unauthorized
    );
    assert_eq!(
        vault_transfer_derived(&canonical, &None, &mut vault, &mut dest, 10, bump, &token_program(), &token_program()).unwrap_err(),
        CpiError::Unauthorized
    );
    assert_eq!(
        vault_transfer_derived(&canonical, &Some(addr(9)), &mut vault, &mut dest, 10, bump, &token_program(), &token_program()).unwrap_err(),
        CpiError::Unauthorized
    );
    let mut foreign = account(21, addr(7), 50, 1000);
    assert_eq!(
        vault_transfer_derived(&canonical, &signer, &mut foreign, &mut dest, 10, bump, &token_program(), &token_program()).unwrap_err(),
        CpiError::Unauthorized
    );
    assert_eq!(
        vault_transfer(&addr(2), &mut vault, &mut dest, 10, bump, &program(), &token_program(), &token_program()).unwrap_err(),
        CpiError::Unauthorized
    );
    assert_eq!(
        vault_transfer_derived(&canonical, &signer, &mut vault, &mut dest, 10, bump, &addr(151), &token_program()).unwrap_err(),
        CpiError::InvalidProgram
    );
    assert_eq!(
        vault_transfer(&user, &mut vault, &mut dest, 10, bump, &program(), &addr(151), &token_program()).unwrap_err(),
        CpiError::InvalidProgram
    );
    let legs = vault_transfer_derived(&canonical, &signer, &mut vault, &mut dest, 10, bump, &token_program(), &token_program()).unwrap();
    assert!(same_leg(&legs[0], 20, 30, &vault_authority, 10));
    assert_eq!((vault.amount, dest.amount), (990, 10));
}

#[test]
fn deposit_errors() {
    let user = addr(1);
    let (vault_authority, _) = derive_vault_authority(&user, &program()).unwrap();
    let mut from = account(10, user, 50, 100);
    let mut vault = account(20, vault_authority, 50, 0);
    assert_eq!(
        deposit(&user, &mut from, &vault_authority, &mut vault, 101, &token_program(), &token_program()).unwrap_err(),
        CpiError::InsufficientBalance
    );
    let mut other_vault = account(21, vault_authority, 51, 0);
    assert_eq!(
        deposit(&user, &mut from, &vault_authority, &mut other_vault, 10, &token_program(), &token_program()).unwrap_err(),
        CpiError::InvalidMint
    );
    assert_eq!(deposit(&user, &mut from, &addr(8), &mut vault, 10, &token_program(), &token_program()).unwrap_err(), CpiError::Unauthorized);
    assert_eq!(deposit(&addr(2), &mut from, &vault_authority, &mut vault, 10, &token_program(), &token_program()).unwrap_err(), CpiError::Unauthorized);
    assert_eq!(
        deposit(&user, &mut from, &vault_authority, &mut vault, 10, &addr(151), &token_program()).unwrap_err(),
        CpiError::InvalidProgram
    );
    assert_eq!((from.amount, vault.amount), (100, 0));
}

#[test]
fn initialize_fixes_fee_rate() {
    let config = initialize(&addr(1), &addr(2), &program()).unwrap();
    assert_eq!(config.fee_bps(), 100);
    assert!(config.authority.same(&addr(1)));
    assert!(config.fee_recipient.same(&addr(2)));
    let (config_address, bump) = derive_config_address(&program()).unwrap();
    assert_eq!(config.bump, bump);
    assert!(!config_address.same(&program()));
    let (vault_authority, _) = derive_vault_authority(&addr(1), &program()).unwrap();
    assert!(!config_address.same(&vault_authority));
    let other = initialize(&addr(5), &addr(6), &program()).unwrap();
    assert_eq!(other.fee_bps(), 100);
}

#[test]
fn error_messages() {
    assert_eq!(CpiError::Unauthorized.message(), "Unauthorized: Invalid authority");
    assert_eq!(CpiError::InvalidMint.message(), "Invalid token mint");
    assert_eq!(CpiError::InsufficientBalance.message(), "Insufficient balance for transfer");
    assert_eq!(CpiError::InvalidProgram.message(), "Invalid program for CPI");
    assert_eq!(CpiError::Overflow.message(), "Arithmetic overflow");
}
