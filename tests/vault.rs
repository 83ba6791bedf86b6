use vault::account::{AccountState, Transfer};
use vault::address::{check_vault_address, derive_vault, is_custody_authority, vault_seed};
use vault::deposit::{deposit, read_le_u64, Deposit, DepositAccounts, DepositInstructionData};
use vault::error::VaultError;
use vault::withdraw::{withdraw, Withdraw, WithdrawAccounts};

const PROGRAM: [u8; 32] = [7u8; 32];
const O1: [u8; 32] = [11u8; 32];
const O2: [u8; 32] = [22u8; 32];
const SYSTEM: [u8; 32] = [0u8; 32];

fn vault_of(owner: &[u8; 32]) -> ([u8; 32], u8) {
    derive_vault(owner, &PROGRAM).expect("a vault address exists")
}

fn owner_account(address: [u8; 32], lamports: u64) -> AccountState {
    AccountState { address, is_signer: true, owner: SYSTEM, lamports }
}

fn vault_account(address: [u8; 32], lamports: u64) -> AccountState {
    AccountState { address, is_signer: false, owner: SYSTEM, lamports }
}

fn system_account() -> AccountState {
    AccountState { address: SYSTEM, is_signer: false, owner: [9u8; 32], lamports: 1 }
}

fn accounts_for(owner: [u8; 32], vault: [u8; 32], vault_lamports: u64) -> Vec<AccountState> {
    vec![owner_account(owner, 5_000_000), vault_account(vault, vault_lamports), system_account()]
}

fn apply(a: AccountState, t: &Transfer) -> AccountState {
    let mut a = a;
    if a.address == t.from && a.address != t.to {
        a.lamports -= t.lamports;
    } else if a.address == t.to && a.address != t.from {
        a.lamports += t.lamports;
    }
    a
}

#[test]
fn derive_is_deterministic() {
    let a = derive_vault(&O1, &PROGRAM);
    let b = derive_vault(&O1, &PROGRAM);
    assert_eq!(a, b);
    let (addr, _) = a.unwrap();
    assert_ne!(addr, O1);
    assert_ne!(addr, PROGRAM);
}

#[test]
fn derive_differs_by_owner_and_program() {
    assert_ne!(vault_of(&O1).0, vault_of(&O2).0);
    assert_ne!(derive_vault(&O1, &PROGRAM), derive_vault(&O1, &[8u8; 32]));
}

#[test]
fn check_vault_address_matches_derivation() {
    let (v1, _) = vault_of(&O1);
    assert!(check_vault_address(&v1, &O1, &PROGRAM));
    assert!(!check_vault_address(&v1, &O2, &PROGRAM));
    assert!(!check_vault_address(&O1, &O1, &PROGRAM));
}

#[test]
fn custody_authority_is_system_program() {
    assert!(is_custody_authority(&SYSTEM));
    assert!(!is_custody_authority(&PROGRAM));
}

#[test]
fn vault_seed_is_label() {
    assert_eq!(&vault_seed(), b"vault");
}

#[test]
fn read_le_u64_values() {
    assert_eq!(read_le_u64(&[0, 0, 0, 0, 0, 0, 0, 0]), 0);
    assert_eq!(read_le_u64(&[1, 2, 0, 0, 0, 0, 0, 0]), 0x0201);
    assert_eq!(read_le_u64(&[0xff; 8]), u64::MAX);
    assert_eq!(read_le_u64(&1_000_000u64.to_le_bytes()), 1_000_000);
}

#[test]
fn instruction_data_decodes_amount() {
    let d = DepositInstructionData::try_from(&42u64.to_le_bytes()).ok().unwrap();
    assert_eq!(d.amount, 42);
}

#[test]
fn instruction_data_wrong_length() {
    for len in [0usize, 7, 9, 16] {
        let data = vec![1u8; len];
        assert_eq!(DepositInstructionData::try_from(&data).err(), Some(VaultError::MalformedInstructionData));
    }
}

#[test]
fn instruction_data_zero_amount() {
    assert_eq!(DepositInstructionData::try_from(&[0u8; 8]).err(), Some(VaultError::ZeroAmount));
}

#[test]
fn deposit_of_a_million_into_empty_vault() {
    let (v1, _) = vault_of(&O1);
    let accounts = accounts_for(O1, v1, 0);
    let t = deposit(&1_000_000u64.to_le_bytes(), &accounts, &PROGRAM).unwrap();
    assert_eq!(t.from, O1);
    assert_eq!(t.to, v1);
    assert_eq!(t.lamports, 1_000_000);
    assert!(t.signer.is_none());
    assert_eq!(apply(accounts[1], &t).lamports, 1_000_000);
    assert_eq!(apply(accounts[0], &t).lamports, 4_000_000);
}

#[test]
fn deposit_of_zero_leaves_vault_empty() {
    let (v1, _) = vault_of(&O1);
    let accounts = accounts_for(O1, v1, 0);
    assert_eq!(deposit(&0u64.to_le_bytes(), &accounts, &PROGRAM).err(), Some(VaultError::ZeroAmount));
    assert_eq!(accounts[1].lamports, 0);
}

#[test]
fn deposit_with_seven_byte_payload() {
    let (v1, _) = vault_of(&O1);
    let accounts = accounts_for(O1, v1, 0);
    assert_eq!(deposit(&[1u8; 7], &accounts, &PROGRAM).err(), Some(VaultError::MalformedInstructionData));
}

#[test]
fn vault_of_another_owner_is_refused() {
    let (v2, _) = vault_of(&O2);
    let empty = accounts_for(O1, v2, 0);
    assert_eq!(deposit(&5u64.to_le_bytes(), &empty, &PROGRAM).err(), Some(VaultError::VaultAddressMismatch));
    let funded = accounts_for(O1, v2, 10);
    assert_eq!(withdraw(&funded, &PROGRAM).err(), Some(VaultError::VaultAddressMismatch));
}

#[test]
fn withdraw_from_empty_vault() {
    let (v1, _) = vault_of(&O1);
    let accounts = accounts_for(O1, v1, 0);
    assert_eq!(withdraw(&accounts, &PROGRAM).err(), Some(VaultError::VaultEmpty));
}

#[test]
fn deposit_account_errors_in_order() {
    let (v1, _) = vault_of(&O1);
    let data = 5u64.to_le_bytes();
    let good = accounts_for(O1, v1, 0);
    assert_eq!(deposit(&data, &good[..2], &PROGRAM).err(), Some(VaultError::MissingAccounts));
    let mut four = good.clone();
    four.push(system_account());
    assert_eq!(deposit(&data, &four, &PROGRAM).err(), Some(VaultError::MissingAccounts));
    let mut unsigned = good.clone();
    unsigned[0].is_signer = false;
    assert_eq!(deposit(&data, &unsigned, &PROGRAM).err(), Some(VaultError::Unauthorized));
    let mut foreign = good.clone();
    foreign[1].owner = PROGRAM;
    assert_eq!(deposit(&data, &foreign, &PROGRAM).err(), Some(VaultError::InvalidVaultOwner));
    let mut funded = good.clone();
    funded[1].lamports = 3;
    assert_eq!(deposit(&data, &funded, &PROGRAM).err(), Some(VaultError::VaultNotEmpty));
    let mut wrong = good.clone();
    wrong[1].address = [3u8; 32];
    assert_eq!(deposit(&data, &wrong, &PROGRAM).err(), Some(VaultError::VaultAddressMismatch));
    assert!(deposit(&data, &good, &PROGRAM).is_ok());
}

#[test]
fn deposit_checks_accounts_before_payload() {
    let mut accounts = accounts_for(O1, vault_of(&O1).0, 0);
    accounts[0].is_signer = false;
    assert_eq!(deposit(&[1u8; 7], &accounts, &PROGRAM).err(), Some(VaultError::Unauthorized));
}

#[test]
fn deposit_parts_match_handler() {
    let (v1, _) = vault_of(&O1);
    let accounts = accounts_for(O1, v1, 0);
    let parsed = DepositAccounts::try_from(&accounts, &PROGRAM).ok().unwrap();
    assert_eq!(parsed.owner.address, O1);
    assert_eq!(parsed.vault.address, v1);
    let d = Deposit::try_from(&9u64.to_le_bytes(), &accounts, &PROGRAM).ok().unwrap();
    assert_eq!(d.instruction_data.amount, 9);
    let t = d.process();
    assert_eq!((t.from, t.to, t.lamports), (O1, v1, 9));
}

#[test]
fn withdraw_account_errors_in_order() {
    let (v1, _) = vault_of(&O1);
    let good = accounts_for(O1, v1, 10);
    assert_eq!(withdraw(&good[..1], &PROGRAM).err(), Some(VaultError::MissingAccounts));
    let mut unsigned = good.clone();
    unsigned[0].is_signer = false;
    assert_eq!(withdraw(&unsigned, &PROGRAM).err(), Some(VaultError::Unauthorized));
    let mut foreign = good.clone();
    foreign[1].owner = PROGRAM;
    assert_eq!(withdraw(&foreign, &PROGRAM).err(), Some(VaultError::InvalidVaultOwner));
    let mut wrong = good.clone();
    wrong[1].address = [3u8; 32];
    assert_eq!(withdraw(&wrong, &PROGRAM).err(), Some(VaultError::VaultAddressMismatch));
    assert!(withdraw(&good, &PROGRAM).is_ok());
}

#[test]
fn withdraw_moves_entire_balance() {
    let (v1, bump) = vault_of(&O1);
    let accounts = accounts_for(O1, v1, 777);
    let t = withdraw(&accounts, &PROGRAM).unwrap();
    assert_eq!((t.from, t.to, t.lamports), (v1, O1, 777));
    let proof = t.signer.unwrap();
    assert_eq!(&proof.label, b"vault");
    assert_eq!(proof.owner, O1);
    assert_eq!(proof.bump, [bump]);
    assert_eq!(apply(accounts[1], &t).lamports, 0);
}

#[test]
fn withdraw_parts_match_handler() {
    let (v1, bump) = vault_of(&O1);
    let accounts = accounts_for(O1, v1, 3);
    let parsed = WithdrawAccounts::try_from(&accounts, &PROGRAM).ok().unwrap();
    assert_eq!(parsed.bumps, [bump]);
    let w = Withdraw::try_from(&accounts, &PROGRAM).ok().unwrap();
    assert_eq!(w.process().lamports, 3);
}

#[test]
fn deposit_then_withdraw_round_trip() {
    let (v1, _) = vault_of(&O1);
    let accounts = accounts_for(O1, v1, 0);
    let t1 = deposit(&1_000_000u64.to_le_bytes(), &accounts, &PROGRAM).unwrap();
    let after = vec![apply(accounts[0], &t1), apply(accounts[1], &t1), accounts[2]];
    let t2 = withdraw(&after, &PROGRAM).unwrap();
    assert_eq!(apply(after[1], &t2).lamports, 0);
    assert_eq!(apply(after[0], &t2).lamports, accounts[0].lamports);
}

#[test]
fn second_deposit_fails() {
    let (v1, _) = vault_of(&O1);
    let accounts = accounts_for(O1, v1, 0);
    let t1 = deposit(&10u64.to_le_bytes(), &accounts, &PROGRAM).unwrap();
    let after = vec![apply(accounts[0], &t1), apply(accounts[1], &t1), accounts[2]];
    assert_eq!(deposit(&10u64.to_le_bytes(), &after, &PROGRAM).err(), Some(VaultError::VaultNotEmpty));
}
