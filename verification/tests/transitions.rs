//! The two transition handlers, run against realistic account lists with the
//! real SDK linked: rent sysvar bytes, packed token accounts, and the token
//! program's true address.

use escrow::error::EscrowError;
use escrow::key::Pubkey;
use escrow::processor::{derive_escrow_address, AccountInfo, EscrowOutcome, Processor};
use escrow::state::Escrow;
use spl_token::solana_program::program_option::COption;
use spl_token::solana_program::program_pack::Pack;
use spl_token::state::{Account as SplAccount, AccountState};

fn key(b: u8) -> Pubkey {
    Pubkey { bytes: [b; 32] }
}

fn sol(p: &Pubkey) -> solana_pubkey::Pubkey {
    solana_pubkey::Pubkey::new_from_array(p.bytes)
}

fn token_program_key() -> Pubkey {
    Pubkey {
        bytes: spl_token::id().to_bytes(),
    }
}

fn rent_sysvar_bytes() -> Vec<u8> {
    bincode::serialize(&solana_rent::Rent::default()).unwrap()
}

fn rent_sysvar_key() -> Pubkey {
    Pubkey {
        bytes: solana_sdk_ids::sysvar::rent::id().to_bytes(),
    }
}

fn rent_exempt_minimum(data_len: usize) -> u64 {
    solana_rent::Rent::default().minimum_balance(data_len)
}

fn account(k: Pubkey, is_signer: bool, owner: Pubkey, lamports: u64, data: Vec<u8>) -> AccountInfo {
    AccountInfo {
        key: k,
        is_signer,
        owner,
        lamports,
        data,
    }
}

fn token_account_bytes(owner: &Pubkey, amount: u64) -> Vec<u8> {
    let state = SplAccount {
        mint: solana_pubkey::Pubkey::new_from_array([9u8; 32]),
        owner: sol(owner),
        amount,
        delegate: COption::None,
        state: AccountState::Initialized,
        is_native: COption::None,
        delegated_amount: 0,
        close_authority: COption::None,
    };
    let mut data = vec![0u8; SplAccount::LEN];
    SplAccount::pack(state, &mut data).unwrap();
    data
}

fn program_id() -> Pubkey {
    key(42)
}

fn pda_and_nonce() -> (Pubkey, u8) {
    derive_escrow_address(&program_id()).unwrap()
}

/// A valid `InitEscrow` account list: initializer, holding account,
/// receiving account, escrow record account, rent sysvar, token program.
fn init_accounts() -> Vec<AccountInfo> {
    let escrow_lamports = rent_exempt_minimum(105);
    vec![
        account(key(1), true, key(0), 10, vec![]),
        account(key(2), false, token_program_key(), 5, vec![]),
        account(key(3), false, token_program_key(), 5, vec![]),
        account(key(4), false, program_id(), escrow_lamports, vec![0u8; 105]),
        account(rent_sysvar_key(), false, key(0), 1, rent_sysvar_bytes()),
        account(token_program_key(), false, key(0), 1, vec![]),
    ]
}

#[test]
fn init_escrow_succeeds_and_delegates_custody() {
    let accounts = init_accounts();
    let outcome = Processor::process_init_escrow(&accounts, 5, &program_id()).unwrap();
    let (pda, _nonce) = pda_and_nonce();

    let expected_record = Escrow {
        is_initialized: true,
        initializer_pubkey: key(1),
        temp_token_account_pubkey: key(2),
        initializer_token_to_receive_account_pubkey: key(3),
        expected_amount: 5,
    };
    assert_eq!(outcome.escrow_record, expected_record);
    assert_eq!(outcome.escrow_data, expected_record.pack());
    assert_eq!(outcome.pda, pda);

    let expected_ix = spl_token::instruction::set_authority(
        &spl_token::id(),
        &sol(&key(2)),
        Some(&sol(&pda)),
        spl_token::instruction::AuthorityType::AccountOwner,
        &sol(&key(1)),
        &[&sol(&key(1))],
    )
    .unwrap();
    assert_eq!(outcome.owner_change_ix, expected_ix);
}

#[test]
fn init_escrow_derived_address_matches_sdk() {
    let (pda, nonce) = pda_and_nonce();
    let (expected, expected_nonce) =
        solana_pubkey::Pubkey::find_program_address(&[b"escrow"], &sol(&program_id()));
    assert_eq!(pda.bytes, expected.to_bytes());
    assert_eq!(nonce, expected_nonce);
}

#[test]
fn init_escrow_requires_signature() {
    let mut accounts = init_accounts();
    accounts[0].is_signer = false;
    assert_eq!(
        Processor::process_init_escrow(&accounts, 5, &program_id()),
        Err(EscrowError::MissingRequiredSignature)
    );
}

#[test]
fn init_escrow_rejects_non_token_receiving_account() {
    let mut accounts = init_accounts();
    accounts[2].owner = key(99);
    assert_eq!(
        Processor::process_init_escrow(&accounts, 5, &program_id()),
        Err(EscrowError::IncorrectProgramId)
    );
}

#[test]
fn init_escrow_rejects_underfunded_record() {
    let mut accounts = init_accounts();
    accounts[3].lamports = rent_exempt_minimum(105) - 1;
    assert_eq!(
        Processor::process_init_escrow(&accounts, 5, &program_id()),
        Err(EscrowError::NotRentExempt)
    );
}

#[test]
fn init_escrow_rejects_garbage_rent_sysvar() {
    let mut accounts = init_accounts();
    accounts[4].data = vec![1, 2, 3];
    assert_eq!(
        Processor::process_init_escrow(&accounts, 5, &program_id()),
        Err(EscrowError::InvalidArgument)
    );
}

#[test]
fn init_escrow_rejects_impostor_rent_sysvar() {
    let mut accounts = init_accounts();
    accounts[4].key = key(88);
    assert_eq!(
        Processor::process_init_escrow(&accounts, 5, &program_id()),
        Err(EscrowError::InvalidArgument)
    );
}

#[test]
fn init_escrow_rejects_overflowing_rent_schedule() {
    let mut accounts = init_accounts();
    let forged = solana_rent::Rent {
        lamports_per_byte_year: u64::MAX,
        ..solana_rent::Rent::default()
    };
    accounts[4].data = bincode::serialize(&forged).unwrap();
    assert_eq!(
        Processor::process_init_escrow(&accounts, 5, &program_id()),
        Err(EscrowError::InvalidArgument)
    );
}

#[test]
fn init_escrow_rejects_initialized_record() {
    let mut accounts = init_accounts();
    accounts[3].data[0] = 1;
    assert_eq!(
        Processor::process_init_escrow(&accounts, 5, &program_id()),
        Err(EscrowError::AccountAlreadyInitialized)
    );
}

#[test]
fn init_escrow_rejects_short_account_list() {
    let mut accounts = init_accounts();
    accounts.truncate(4);
    assert_eq!(
        Processor::process_init_escrow(&accounts, 5, &program_id()),
        Err(EscrowError::NotEnoughAccountKeys)
    );
    assert_eq!(
        Processor::process_init_escrow(&vec![], 5, &program_id()),
        Err(EscrowError::NotEnoughAccountKeys)
    );
}

#[test]
fn init_escrow_rejects_wrong_token_program_account() {
    let mut accounts = init_accounts();
    accounts[5].key = key(77);
    assert_eq!(
        Processor::process_init_escrow(&accounts, 5, &program_id()),
        Err(EscrowError::IncorrectProgramId)
    );
}

/// A valid `Exchange` account list: taker, taker's sending account, taker's
/// receiving account, holding account (3 locked tokens, owned by the derived
/// address), initializer, initializer's receiving account, escrow record,
/// token program, derived-address account.
fn exchange_accounts() -> Vec<AccountInfo> {
    let (pda, _nonce) = pda_and_nonce();
    let record = Escrow {
        is_initialized: true,
        initializer_pubkey: key(11),
        temp_token_account_pubkey: key(22),
        initializer_token_to_receive_account_pubkey: key(33),
        expected_amount: 5,
    };
    vec![
        account(key(10), true, key(0), 10, vec![]),
        account(key(20), false, token_program_key(), 5, vec![]),
        account(key(30), false, token_program_key(), 5, vec![]),
        account(key(22), false, token_program_key(), 900, token_account_bytes(&pda, 3)),
        account(key(11), false, key(0), 1_000, vec![]),
        account(key(33), false, token_program_key(), 5, vec![]),
        account(key(44), false, program_id(), 2_000, record.pack()),
        account(token_program_key(), false, key(0), 1, vec![]),
        account(pda, false, key(0), 0, vec![]),
    ]
}

#[test]
fn exchange_succeeds_with_exact_delegated_calls() {
    let accounts = exchange_accounts();
    let (pda, nonce) = pda_and_nonce();
    let outcome = Processor::process_exchange(&accounts, 3, &program_id()).unwrap();

    assert_eq!(outcome.temp_amount, 3);
    assert_eq!(outcome.escrow_record.expected_amount, 5);
    assert_eq!(outcome.initializer_lamports_after, 1_000 + 900 + 2_000);
    assert_eq!(outcome.pda, pda);
    assert_eq!(outcome.nonce, nonce);

    let pay_initializer = spl_token::instruction::transfer(
        &spl_token::id(),
        &sol(&key(20)),
        &sol(&key(33)),
        &sol(&key(10)),
        &[&sol(&key(10))],
        5,
    )
    .unwrap();
    assert_eq!(outcome.transfer_to_initializer_ix, pay_initializer);

    let release_to_taker = spl_token::instruction::transfer(
        &spl_token::id(),
        &sol(&key(22)),
        &sol(&key(30)),
        &sol(&pda),
        &[&sol(&pda)],
        3,
    )
    .unwrap();
    assert_eq!(outcome.transfer_to_taker_ix, release_to_taker);

    let close_holding = spl_token::instruction::close_account(
        &spl_token::id(),
        &sol(&key(22)),
        &sol(&key(11)),
        &sol(&pda),
        &[&sol(&pda)],
    )
    .unwrap();
    assert_eq!(outcome.close_temp_ix, close_holding);
}

#[test]
fn exchange_requires_signature() {
    let mut accounts = exchange_accounts();
    accounts[0].is_signer = false;
    assert_eq!(
        Processor::process_exchange(&accounts, 3, &program_id()),
        Err(EscrowError::MissingRequiredSignature)
    );
}

#[test]
fn exchange_rejects_amount_mismatch() {
    let accounts = exchange_accounts();
    assert_eq!(
        Processor::process_exchange(&accounts, 4, &program_id()),
        Err(EscrowError::ExpectedAmountMismatch)
    );
}

#[test]
fn exchange_rejects_substituted_holding_account() {
    let mut accounts = exchange_accounts();
    accounts[3].key = key(66);
    assert_eq!(
        Processor::process_exchange(&accounts, 3, &program_id()),
        Err(EscrowError::InvalidAccountData)
    );
}

#[test]
fn exchange_rejects_substituted_initializer() {
    let mut accounts = exchange_accounts();
    accounts[4].key = key(66);
    assert_eq!(
        Processor::process_exchange(&accounts, 3, &program_id()),
        Err(EscrowError::InvalidAccountData)
    );
}

#[test]
fn exchange_rejects_substituted_receiving_account() {
    let mut accounts = exchange_accounts();
    accounts[5].key = key(66);
    assert_eq!(
        Processor::process_exchange(&accounts, 3, &program_id()),
        Err(EscrowError::InvalidAccountData)
    );
}

#[test]
fn exchange_rejects_malformed_holding_account() {
    let mut accounts = exchange_accounts();
    accounts[3].data = vec![0u8; 10];
    assert_eq!(
        Processor::process_exchange(&accounts, 3, &program_id()),
        Err(EscrowError::InvalidAccountData)
    );
}

#[test]
fn exchange_rejects_uninitialized_record() {
    let mut accounts = exchange_accounts();
    accounts[6].data[0] = 0;
    assert_eq!(
        Processor::process_exchange(&accounts, 3, &program_id()),
        Err(EscrowError::UninitializedAccount)
    );
}

#[test]
fn exchange_fails_closed_on_lamport_overflow() {
    let mut accounts = exchange_accounts();
    accounts[4].lamports = u64::MAX - 900;
    assert_eq!(
        Processor::process_exchange(&accounts, 3, &program_id()),
        Err(EscrowError::AmountOverflow)
    );
}

#[test]
fn exchange_rejects_short_account_list() {
    let mut accounts = exchange_accounts();
    accounts.truncate(6);
    assert_eq!(
        Processor::process_exchange(&accounts, 3, &program_id()),
        Err(EscrowError::NotEnoughAccountKeys)
    );
}

#[test]
fn exchange_rejects_wrong_token_program_account() {
    let mut accounts = exchange_accounts();
    accounts[7].key = key(77);
    assert_eq!(
        Processor::process_exchange(&accounts, 3, &program_id()),
        Err(EscrowError::IncorrectProgramId)
    );
}

#[test]
fn process_dispatches_init_escrow() {
    let accounts = init_accounts();
    let mut data = vec![0u8];
    data.extend_from_slice(&5u64.to_le_bytes());
    let outcome = Processor::process(&program_id(), &accounts, &data).unwrap();
    match outcome {
        EscrowOutcome::Init(o) => assert_eq!(o.escrow_record.expected_amount, 5),
        EscrowOutcome::Exchange(_) => panic!("wrong transition dispatched"),
    }
}

#[test]
fn process_dispatches_exchange() {
    let accounts = exchange_accounts();
    let mut data = vec![1u8];
    data.extend_from_slice(&3u64.to_le_bytes());
    let outcome = Processor::process(&program_id(), &accounts, &data).unwrap();
    match outcome {
        EscrowOutcome::Exchange(o) => assert_eq!(o.temp_amount, 3),
        EscrowOutcome::Init(_) => panic!("wrong transition dispatched"),
    }
}

#[test]
fn try_process_refuses_bad_buffer() {
    let accounts = init_accounts();
    let r = Processor::try_process(&program_id(), &accounts, &[9, 9]);
    assert_eq!(
        r.unwrap().unwrap_err(),
        EscrowError::InvalidInstruction
    );
}
