use pinocchio_vault::{
    derive_vault, process_instruction, Account, Deposit, ProgramIx, VaultCreation, VaultError,
    Withdraw, ID, VAULT_SIZE,
};

const VAULT_KEY: [u8; 32] = [9u8; 32];

fn owner(lamports: u64, is_signer: bool) -> Account {
    Account { key: [1u8; 32], owner: [0u8; 32], lamports, data_len: 0, is_signer }
}

fn vault(lamports: u64, program: [u8; 32]) -> Account {
    Account { key: VAULT_KEY, owner: program, lamports, data_len: VAULT_SIZE, is_signer: false }
}

fn deposit_data(amount: u64) -> Vec<u8> {
    let mut data = vec![0u8];
    data.extend_from_slice(&amount.to_le_bytes());
    data
}

#[test]
fn deposit_binds_owner_vault_and_amount() {
    let accounts = [owner(10, true), vault(5, ID)];
    let d = Deposit::try_from((&[44, 1, 0, 0, 0, 0, 0, 0][..], &accounts[..])).unwrap();
    assert_eq!(d.amount, 300);
    assert_eq!(d.owner.key, [1u8; 32]);
    assert_eq!(d.vault.key, VAULT_KEY);
}

#[test]
fn deposit_needs_two_accounts() {
    let accounts = [owner(10, true)];
    let r = Deposit::try_from((&[0u8; 8][..], &accounts[..]));
    assert_eq!(r.err(), Some(VaultError::NotEnoughAccounts));
}

#[test]
fn deposit_rejects_a_bad_amount() {
    let accounts = [owner(10, true), vault(5, ID)];
    let r = Deposit::try_from((&[0u8; 8][..], &accounts[..]));
    assert_eq!(r.err(), Some(VaultError::InvalidPayload));
    let r = Deposit::try_from((&[1u8; 4][..], &accounts[..]));
    assert_eq!(r.err(), Some(VaultError::InvalidPayload));
}

#[test]
fn deposit_into_existing_vault_adds_exactly_the_amount() {
    let mut d = Deposit { owner: owner(10_000, true), vault: vault(2_000, ID), amount: 750 };
    assert_eq!(d.process(), Ok(None));
    assert_eq!(d.vault.lamports, 2_750);
    assert_eq!(d.owner.lamports, 9_250);
}

#[test]
fn deposit_that_creates_the_vault_pays_reserve_then_amount() {
    let mut d = Deposit { owner: owner(10_000, true), vault: vault(0, [0u8; 32]), amount: 750 };
    let r = d.settle(1_500);
    assert_eq!(r, Ok(Some(VaultCreation { lamports: 1_500, space: 16 })));
    assert_eq!(d.vault.lamports, 2_250);
    assert_eq!(d.vault.owner, ID);
    assert_eq!(d.owner.lamports, 7_750);
}

#[test]
fn deposit_beyond_owner_balance_fails_and_changes_nothing() {
    let mut d = Deposit { owner: owner(100, true), vault: vault(2_000, ID), amount: 101 };
    assert_eq!(d.process(), Err(VaultError::InsufficientFunds));
    assert_eq!(d.vault.lamports, 2_000);
    assert_eq!(d.owner.lamports, 100);
    let mut e = Deposit { owner: owner(2_000, true), vault: vault(0, [0u8; 32]), amount: 600 };
    assert_eq!(e.settle(1_500), Err(VaultError::InsufficientFunds));
    assert_eq!(e.owner.lamports, 2_000);
    assert_eq!(e.vault.lamports, 0);
}

#[test]
fn deposit_without_signature_is_unauthorized() {
    let mut d = Deposit { owner: owner(10_000, false), vault: vault(2_000, ID), amount: 5 };
    assert_eq!(d.process(), Err(VaultError::Unauthorized));
    assert_eq!(d.vault.lamports, 2_000);
}

#[test]
fn deposit_into_missing_vault_reads_the_host_rent() {
    let mut d = Deposit { owner: owner(10_000, true), vault: vault(0, [0u8; 32]), amount: 5 };
    assert_eq!(d.process(), Err(VaultError::RentUnavailable));
    assert_eq!(d.owner.lamports, 10_000);
}

#[test]
fn withdraw_binds_two_accounts() {
    let accounts = [owner(10, true), vault(5, ID), owner(1, false)];
    let w = Withdraw::try_from(&accounts[..]).unwrap();
    assert_eq!(w.vault.key, VAULT_KEY);
    assert_eq!(Withdraw::try_from(&accounts[..1]).err(), Some(VaultError::NotEnoughAccounts));
}

#[test]
fn withdraw_moves_the_surplus_above_the_reserve() {
    let reserve = 1_002_240;
    let mut w = Withdraw { owner: owner(40, true), vault: vault(reserve + 500, ID) };
    assert_eq!(w.settle(&VAULT_KEY, reserve), Ok(500));
    assert_eq!(w.vault.lamports, reserve);
    assert_eq!(w.owner.lamports, 540);
}

#[test]
fn withdraw_with_nothing_above_the_reserve_fails() {
    let mut w = Withdraw { owner: owner(40, true), vault: vault(1_000, ID) };
    assert_eq!(w.settle(&VAULT_KEY, 1_000), Err(VaultError::InsufficientFunds));
    assert_eq!(w.settle(&VAULT_KEY, 1_001), Err(VaultError::InsufficientFunds));
    assert_eq!(w.vault.lamports, 1_000);
    assert_eq!(w.owner.lamports, 40);
}

#[test]
fn withdraw_from_a_vault_at_another_address_fails() {
    let mut w = Withdraw { owner: owner(40, true), vault: vault(5_000, ID) };
    assert_eq!(w.settle(&[8u8; 32], 1_000), Err(VaultError::AddressMismatch));
    assert_eq!(w.vault.lamports, 5_000);
}

#[test]
fn withdraw_from_a_vault_of_another_program_is_unauthorized() {
    let mut w = Withdraw { owner: owner(40, true), vault: vault(5_000, [2u8; 32]) };
    assert_eq!(w.settle(&VAULT_KEY, 1_000), Err(VaultError::Unauthorized));
    assert_eq!(w.process(), Err(VaultError::Unauthorized));
}

#[test]
fn withdraw_without_signature_is_unauthorized() {
    let mut w = Withdraw { owner: owner(40, false), vault: vault(5_000, ID) };
    assert_eq!(w.settle(&VAULT_KEY, 1_000), Err(VaultError::Unauthorized));
    assert_eq!(w.process(), Err(VaultError::Unauthorized));
    assert_eq!(w.vault.lamports, 5_000);
}

#[test]
fn withdraw_that_would_overflow_the_owner_fails() {
    let mut w = Withdraw { owner: owner(u64::MAX - 10, true), vault: vault(1_020, ID) };
    assert_eq!(w.settle(&VAULT_KEY, 1_000), Err(VaultError::InsufficientFunds));
    assert_eq!(w.vault.lamports, 1_020);
}

#[test]
fn withdraw_needs_the_host_derivation() {
    let mut w = Withdraw { owner: owner(40, true), vault: vault(5_000, ID) };
    assert_eq!(w.process(), Err(VaultError::NoDerivedAddress));
    assert_eq!(w.vault.lamports, 5_000);
}

#[test]
fn derive_vault_is_repeatable() {
    let o = owner(0, true);
    assert_eq!(derive_vault(&o), derive_vault(&o));
}

#[test]
fn instruction_with_unknown_discriminator_is_invalid() {
    let accounts = [owner(10, true), vault(5, ID)];
    assert_eq!(process_instruction(&accounts, &[2]).err(), Some(VaultError::InvalidPayload));
    assert_eq!(process_instruction(&accounts, &[255, 1]).err(), Some(VaultError::InvalidPayload));
}

#[test]
fn empty_instruction_is_invalid() {
    let accounts = [owner(10, true), vault(5, ID)];
    assert_eq!(process_instruction(&accounts, &[]).err(), Some(VaultError::InvalidPayload));
}

#[test]
fn deposit_of_zero_is_invalid() {
    let accounts = [owner(10, true), vault(5, ID)];
    let data = [0u8; 9];
    assert_eq!(process_instruction(&accounts, &data).err(), Some(VaultError::InvalidPayload));
}

#[test]
fn deposit_payload_of_wrong_length_is_invalid() {
    let accounts = [owner(10, true), vault(5, ID)];
    let mut data = deposit_data(3);
    data.push(0);
    assert_eq!(process_instruction(&accounts, &data).err(), Some(VaultError::InvalidPayload));
    assert_eq!(process_instruction(&accounts, &data[..5]).err(), Some(VaultError::InvalidPayload));
    assert_eq!(process_instruction(&accounts, &[0]).err(), Some(VaultError::InvalidPayload));
}

#[test]
fn instructions_need_two_accounts() {
    let accounts = [owner(10, true)];
    let r = process_instruction(&accounts, &deposit_data(3));
    assert_eq!(r.err(), Some(VaultError::NotEnoughAccounts));
    let r = process_instruction(&accounts, &[0u8; 9]);
    assert_eq!(r.err(), Some(VaultError::NotEnoughAccounts));
    let r = process_instruction(&accounts, &[1]);
    assert_eq!(r.err(), Some(VaultError::NotEnoughAccounts));
}

#[test]
fn deposit_instruction_credits_the_vault() {
    let accounts = [owner(10_000, true), vault(2_000, ID)];
    let e = process_instruction(&accounts, &deposit_data(1_234)).unwrap();
    assert_eq!(e.ix, ProgramIx::Deposit { amount: 1_234 });
    assert_eq!(e.moved, 1_234);
    assert_eq!(e.created, None);
    assert_eq!(e.vault.lamports, 3_234);
    assert_eq!(e.owner.lamports, 8_766);
}

#[test]
fn unsigned_instructions_are_unauthorized() {
    let accounts = [owner(10_000, false), vault(2_000, ID)];
    let r = process_instruction(&accounts, &deposit_data(1));
    assert_eq!(r.err(), Some(VaultError::Unauthorized));
    let r = process_instruction(&accounts, &[1]);
    assert_eq!(r.err(), Some(VaultError::Unauthorized));
}

#[test]
fn withdraw_instruction_checks_the_vault_owner() {
    let accounts = [owner(10_000, true), vault(2_000, [2u8; 32])];
    let r = process_instruction(&accounts, &[1, 7, 7]);
    assert_eq!(r.err(), Some(VaultError::Unauthorized));
}
