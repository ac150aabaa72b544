use std::str::FromStr;

use contract_solana::{
    apply_instruction, find_vault_address, process_instruction, same_address, Account, Action,
    SolanaInstruction, VaultError,
};
use solana_program::pubkey::Pubkey;

const RENT: u64 = 890_880;

fn program() -> Pubkey {
    Pubkey::from_str("DWZr6WcGKbTgATQDVgBkfBWJzDafynkK9zNXpdbvCwZu").unwrap()
}

fn user(seed: u8) -> Pubkey {
    Pubkey::new_from_array([seed; 32])
}

fn vault_of(user: &Pubkey) -> (Pubkey, u8) {
    Pubkey::find_program_address(&[b"user", user.as_ref()], &program())
}

fn amount_data(tag: u8, amount: u64) -> Vec<u8> {
    let mut data = vec![tag];
    data.extend_from_slice(&amount.to_le_bytes());
    data
}

/// The user at 0, the user's vault (owned by the program) at 1 and the
/// system program at 2.
fn accounts(user_seed: u8, user_lamports: u64, vault_lamports: u64) -> Vec<Account> {
    let u = user(user_seed);
    let (pda, _) = vault_of(&u);
    vec![
        Account { key: u.to_bytes(), owner: [0u8; 32], lamports: user_lamports },
        Account { key: pda.to_bytes(), owner: program().to_bytes(), lamports: vault_lamports },
        Account { key: [0u8; 32], owner: [1u8; 32], lamports: 1 },
    ]
}

#[test]
fn derivation_matches_find_program_address() {
    let u = user(1);
    let (pda, bump) = vault_of(&u);
    assert_eq!(find_vault_address(&u.to_bytes(), &program().to_bytes()), Ok((pda.to_bytes(), bump)));
    assert_ne!(pda.to_bytes(), u.to_bytes());
}

#[test]
fn derivation_is_deterministic() {
    let u = user(2).to_bytes();
    let p = program().to_bytes();
    assert_eq!(find_vault_address(&u, &p), find_vault_address(&u, &p));
}

#[test]
fn different_users_get_different_vaults() {
    let p = program().to_bytes();
    let a = find_vault_address(&user(3).to_bytes(), &p).unwrap();
    let b = find_vault_address(&user(4).to_bytes(), &p).unwrap();
    assert_ne!(a.0, b.0);
}

#[test]
fn same_address_compares_bytes() {
    let a = [7u8; 32];
    let mut b = [7u8; 32];
    assert!(same_address(&a, &b));
    b[31] = 8;
    assert!(!same_address(&a, &b));
}

#[test]
fn initialize_asks_for_a_signed_creation() {
    let mut accs = accounts(5, 10_000_000, 0);
    let before = accs.clone();
    let (_, bump) = vault_of(&user(5));
    let r = process_instruction(&program().to_bytes(), &mut accs, &[0], RENT);
    assert_eq!(
        r,
        Ok(Action::CreateAccount {
            funder: before[0].key,
            vault: before[1].key,
            lamports: RENT,
            space: 0,
            owner: program().to_bytes(),
            bump,
        })
    );
    assert_eq!(accs, before);
}

#[test]
fn deposit_asks_for_a_transfer() {
    let mut accs = accounts(6, 1_000_000, RENT);
    let before = accs.clone();
    let r = process_instruction(&program().to_bytes(), &mut accs, &amount_data(1, 400), RENT);
    assert_eq!(r, Ok(Action::Transfer { from: before[0].key, to: before[1].key, lamports: 400 }));
    assert_eq!(accs, before);
}

#[test]
fn zero_deposit_is_refused_whatever_the_accounts() {
    let mut none: Vec<Account> = Vec::new();
    let p = program().to_bytes();
    assert_eq!(process_instruction(&p, &mut none, &amount_data(1, 0), RENT), Err(VaultError::InvalidAmount));
    let mut accs = accounts(7, 5, 5);
    let before = accs.clone();
    assert_eq!(process_instruction(&p, &mut accs, &amount_data(1, 0), RENT), Err(VaultError::InvalidAmount));
    assert_eq!(accs, before);
}

#[test]
fn withdraw_moves_lamports_in_place() {
    let mut accs = accounts(8, 100, RENT + 10_000_000);
    let r = process_instruction(&program().to_bytes(), &mut accs, &amount_data(2, 5_000_000), RENT);
    assert_eq!(r, Ok(Action::BalancesUpdated));
    assert_eq!(accs[1].lamports, RENT + 5_000_000);
    assert_eq!(accs[0].lamports, 5_000_100);
    assert_eq!(accs[2].lamports, 1);
}

#[test]
fn withdraw_over_balance_is_refused() {
    let mut accs = accounts(9, 100, 1_000);
    let before = accs.clone();
    let r = process_instruction(&program().to_bytes(), &mut accs, &amount_data(2, 1_001), RENT);
    assert_eq!(r, Err(VaultError::InsufficientFunds));
    assert_eq!(accs, before);
}

#[test]
fn zero_withdraw_succeeds_and_changes_nothing() {
    let mut accs = accounts(10, 100, 1_000);
    let before = accs.clone();
    let r = process_instruction(&program().to_bytes(), &mut accs, &amount_data(2, 0), RENT);
    assert_eq!(r, Ok(Action::BalancesUpdated));
    assert_eq!(accs, before);
}

#[test]
fn whole_balance_can_be_withdrawn() {
    let mut accs = accounts(11, 0, 1_000);
    let r = process_instruction(&program().to_bytes(), &mut accs, &amount_data(2, 1_000), RENT);
    assert_eq!(r, Ok(Action::BalancesUpdated));
    assert_eq!(accs[1].lamports, 0);
    assert_eq!(accs[0].lamports, 1_000);
}

#[test]
fn mismatched_vault_is_refused_by_every_operation() {
    let p = program().to_bytes();
    let other_vault = vault_of(&user(99)).0.to_bytes();
    for data in [vec![0u8], amount_data(1, 10), amount_data(2, 10)] {
        let mut accs = accounts(12, 1_000, 1_000);
        accs[1].key = other_vault;
        let before = accs.clone();
        assert_eq!(process_instruction(&p, &mut accs, &data, RENT), Err(VaultError::AddressMismatch));
        assert_eq!(accs, before);
    }
}

#[test]
fn foreign_vault_is_refused_for_its_owner() {
    let mut accs = accounts(13, 1_000, 1_000);
    accs[1].owner = [5u8; 32];
    let before = accs.clone();
    let r = process_instruction(&program().to_bytes(), &mut accs, &amount_data(2, 10), RENT);
    assert_eq!(r, Err(VaultError::WrongOwner));
    assert_eq!(accs, before);
}

#[test]
fn balance_is_checked_before_owner_and_address() {
    let mut accs = accounts(14, 1_000, 1_000);
    accs[1].owner = [5u8; 32];
    accs[1].key = [6u8; 32];
    let r = process_instruction(&program().to_bytes(), &mut accs, &amount_data(2, 2_000), RENT);
    assert_eq!(r, Err(VaultError::InsufficientFunds));
    let r = process_instruction(&program().to_bytes(), &mut accs, &amount_data(2, 10), RENT);
    assert_eq!(r, Err(VaultError::WrongOwner));
}

#[test]
fn too_few_accounts_are_refused() {
    let p = program().to_bytes();
    let mut accs = accounts(15, 1_000, 1_000);
    accs.truncate(2);
    assert_eq!(process_instruction(&p, &mut accs, &[0], RENT), Err(VaultError::NotEnoughAccountKeys));
    assert_eq!(process_instruction(&p, &mut accs, &amount_data(1, 5), RENT), Err(VaultError::NotEnoughAccountKeys));
    accs.truncate(1);
    assert_eq!(process_instruction(&p, &mut accs, &amount_data(2, 5), RENT), Err(VaultError::NotEnoughAccountKeys));
}

#[test]
fn crediting_past_the_largest_balance_is_refused() {
    let mut accs = accounts(16, u64::MAX, 1_000);
    let before = accs.clone();
    let r = process_instruction(&program().to_bytes(), &mut accs, &amount_data(2, 1), RENT);
    assert_eq!(r, Err(VaultError::ArithmeticOverflow));
    assert_eq!(accs, before);
}

#[test]
fn malformed_request_is_refused_before_accounts_are_read() {
    let mut none: Vec<Account> = Vec::new();
    assert_eq!(process_instruction(&program().to_bytes(), &mut none, &[4], RENT), Err(VaultError::MalformedRequest));
}

#[test]
fn apply_instruction_matches_decoded_request() {
    let mut accs = accounts(17, 0, 300);
    let r = apply_instruction(SolanaInstruction::Withdraw { amount: 300 }, &program().to_bytes(), &mut accs, RENT);
    assert_eq!(r, Ok(Action::BalancesUpdated));
    assert_eq!(accs[0].lamports, 300);
    assert_eq!(accs[1].lamports, 0);
}
