//! The trusted boundary to the host SDK and the token program.
//!
//! Everything the library takes from an outside crate passes through one of
//! the wrappers here. Each wrapper's contract states what the outside
//! function's own source shows; results that are pure functions of the
//! arguments but too involved to restate are given an opaque name instead.

use vstd::prelude::*;

use crate::error::EscrowError;
use crate::key::Pubkey;
use spl_token::solana_program::program_pack::Pack;

verus! {

/// The host instruction value a delegated call is made of. Opaque here: the
/// contracts identify one only as the result of a particular builder.
#[verifier::external_type_specification]
#[verifier::external_body]
pub struct ExInstruction(spl_token::solana_program::instruction::Instruction);

/// What `try_find_program_address` returns for one seed and a program id:
/// the derived address and its bump seed, or `None` when no bump yields a
/// valid derived address.
pub uninterp spec fn pda_of(seed: Seq<u8>, program_id: Seq<u8>) -> Option<(Seq<u8>, u8)>;

/// Whether a key is the token program's fixed address.
pub uninterp spec fn is_spl_token_id(key: Seq<u8>) -> bool;

/// What a token account's bytes decode to: its balance, or `None` when the
/// bytes are not an initialized token account.
pub uninterp spec fn spl_token_amount_of(data: Seq<u8>) -> Option<u64>;

/// Whether a balance is rent-exempt for a data size under the rent sysvar's
/// bytes, or `None` when those bytes do not decode to the rent schedule, or
/// decode to one whose minimum-balance computation would overflow.
pub uninterp spec fn rent_exempt_of(rent_data: Seq<u8>, lamports: u64, data_len: usize) -> Option<
    bool,
>;

/// Whether a key is the rent sysvar's fixed address.
pub uninterp spec fn is_rent_sysvar_id(key: Seq<u8>) -> bool;

/// The delegated instruction that reassigns a token account's owner.
pub uninterp spec fn set_owner_authority_ix_of(
    token_program: Seq<u8>,
    account: Seq<u8>,
    new_owner: Seq<u8>,
    current_owner: Seq<u8>,
) -> spl_token::solana_program::instruction::Instruction;

/// The delegated instruction that moves `amount` tokens.
pub uninterp spec fn transfer_ix_of(
    token_program: Seq<u8>,
    source: Seq<u8>,
    destination: Seq<u8>,
    authority: Seq<u8>,
    amount: u64,
) -> spl_token::solana_program::instruction::Instruction;

/// The delegated instruction that closes a token account and returns its
/// lamports to `destination`.
pub uninterp spec fn close_account_ix_of(
    token_program: Seq<u8>,
    account: Seq<u8>,
    destination: Seq<u8>,
    owner: Seq<u8>,
) -> spl_token::solana_program::instruction::Instruction;

/// Relies on `solana_pubkey::Pubkey::try_find_program_address`: the result is
/// a pure function of the seeds and the program id, and is `None` exactly
/// when no bump seed yields a valid derived address.
#[verifier::external_body]
pub(crate) fn find_pda(seed: &Vec<u8>, program_id: &Pubkey) -> (r: Option<(Pubkey, u8)>)
    ensures
        r is Some <==> pda_of(seed@, program_id@) is Some,
        r is Some ==> r.unwrap().0@ == pda_of(seed@, program_id@).unwrap().0,
        r is Some ==> r.unwrap().1 == pda_of(seed@, program_id@).unwrap().1,
{
    let pid = solana_pubkey::Pubkey::new_from_array(program_id.bytes);
    match solana_pubkey::Pubkey::try_find_program_address(&[seed.as_slice()], &pid) {
        Some((address, bump)) => Some((Pubkey { bytes: address.to_bytes() }, bump)),
        None => None,
    }
}

/// Relies on `spl_token::id` and address equality: true exactly when `key`
/// is the token program's fixed address.
#[verifier::external_body]
pub(crate) fn is_token_program(key: &Pubkey) -> (r: bool)
    ensures
        r == is_spl_token_id(key@),
{
    solana_pubkey::Pubkey::new_from_array(key.bytes) == spl_token::id()
}

/// Relies on `spl_token::state::Account::unpack`: whether 165 bytes decode to
/// an initialized token account is a pure function of the bytes, and the
/// decoded balance is the little-endian word at bytes 64..72.
#[verifier::external_body]
pub(crate) fn unpack_token_amount(data: &[u8]) -> (r: Option<u64>)
    ensures
        r == spl_token_amount_of(data@),
        r is Some ==> data@.len() == 165 && r.unwrap() == vstd::bytes::spec_u64_from_le_bytes(
            data@.subrange(64, 72),
        ),
{
    match spl_token::state::Account::unpack(data) {
        Ok(account) => Some(account.amount),
        Err(_) => None,
    }
}

/// Relies on `bincode::deserialize::<solana_rent::Rent>` and
/// `solana_rent::Rent::is_exempt`: whether the sysvar bytes decode, and
/// whether a balance then meets the minimum for a data size, are pure
/// functions of the bytes and the arguments. `Rent::minimum_balance`
/// multiplies the padded byte count by the per-byte-year rate unchecked, so
/// a schedule on which that product overflows is refused up front, like one
/// that does not decode: the call is never made on an input where the
/// source could abort.
#[verifier::external_body]
pub(crate) fn rent_is_exempt(rent_data: &[u8], lamports: u64, data_len: usize) -> (r: Option<bool>)
    ensures
        r == rent_exempt_of(rent_data@, lamports, data_len),
{
    let rent: solana_rent::Rent = match bincode::deserialize(rent_data) {
        Ok(r) => r,
        Err(_) => return None,
    };
    let padded = (data_len as u64).checked_add(solana_rent::ACCOUNT_STORAGE_OVERHEAD)?;
    padded.checked_mul(rent.lamports_per_byte_year)?;
    Some(rent.is_exempt(lamports, data_len))
}

/// Relies on `solana_sdk_ids::sysvar::rent::id` and address equality: true
/// exactly when `key` is the rent sysvar's fixed address.
#[verifier::external_body]
pub(crate) fn is_rent_sysvar(key: &Pubkey) -> (r: bool)
    ensures
        r == is_rent_sysvar_id(key@),
{
    key.bytes == solana_sdk_ids::sysvar::rent::id().to_bytes()
}

/// Relies on `spl_token::instruction::set_authority` with the
/// `AuthorityType::AccountOwner` kind: it fails exactly when the token
/// program id is wrong (`check_program_account`, `IncorrectProgramId`), and
/// otherwise builds an instruction that is a pure function of the addresses.
#[verifier::external_body]
pub(crate) fn build_set_owner_authority(
    token_program: &Pubkey,
    account: &Pubkey,
    new_owner: &Pubkey,
    current_owner: &Pubkey,
) -> (r: Result<spl_token::solana_program::instruction::Instruction, EscrowError>)
    ensures
        r is Ok <==> is_spl_token_id(token_program@),
        r is Ok ==> r.unwrap() == set_owner_authority_ix_of(
            token_program@,
            account@,
            new_owner@,
            current_owner@,
        ),
        r is Err ==> r.unwrap_err() == EscrowError::IncorrectProgramId,
{
    let tp = solana_pubkey::Pubkey::new_from_array(token_program.bytes);
    let owned = solana_pubkey::Pubkey::new_from_array(account.bytes);
    let new_auth = solana_pubkey::Pubkey::new_from_array(new_owner.bytes);
    let owner = solana_pubkey::Pubkey::new_from_array(current_owner.bytes);
    match spl_token::instruction::set_authority(
        &tp,
        &owned,
        Some(&new_auth),
        spl_token::instruction::AuthorityType::AccountOwner,
        &owner,
        &[&owner],
    ) {
        Ok(ix) => Ok(ix),
        Err(_) => Err(EscrowError::IncorrectProgramId),
    }
}

/// Relies on `spl_token::instruction::transfer`: it fails exactly when the
/// token program id is wrong (`check_program_account`, `IncorrectProgramId`),
/// and otherwise builds an instruction that is a pure function of the
/// addresses and the amount.
#[verifier::external_body]
pub(crate) fn build_transfer(
    token_program: &Pubkey,
    source: &Pubkey,
    destination: &Pubkey,
    authority: &Pubkey,
    amount: u64,
) -> (r: Result<spl_token::solana_program::instruction::Instruction, EscrowError>)
    ensures
        r is Ok <==> is_spl_token_id(token_program@),
        r is Ok ==> r.unwrap() == transfer_ix_of(
            token_program@,
            source@,
            destination@,
            authority@,
            amount,
        ),
        r is Err ==> r.unwrap_err() == EscrowError::IncorrectProgramId,
{
    let tp = solana_pubkey::Pubkey::new_from_array(token_program.bytes);
    let src = solana_pubkey::Pubkey::new_from_array(source.bytes);
    let dst = solana_pubkey::Pubkey::new_from_array(destination.bytes);
    let auth = solana_pubkey::Pubkey::new_from_array(authority.bytes);
    match spl_token::instruction::transfer(&tp, &src, &dst, &auth, &[&auth], amount) {
        Ok(ix) => Ok(ix),
        Err(_) => Err(EscrowError::IncorrectProgramId),
    }
}

/// Relies on `spl_token::instruction::close_account`: it fails exactly when
/// the token program id is wrong (`check_program_account`,
/// `IncorrectProgramId`), and otherwise builds an instruction that is a pure
/// function of the addresses.
#[verifier::external_body]
pub(crate) fn build_close_account(
    token_program: &Pubkey,
    account: &Pubkey,
    destination: &Pubkey,
    owner: &Pubkey,
) -> (r: Result<spl_token::solana_program::instruction::Instruction, EscrowError>)
    ensures
        r is Ok <==> is_spl_token_id(token_program@),
        r is Ok ==> r.unwrap() == close_account_ix_of(
            token_program@,
            account@,
            destination@,
            owner@,
        ),
        r is Err ==> r.unwrap_err() == EscrowError::IncorrectProgramId,
{
    let tp = solana_pubkey::Pubkey::new_from_array(token_program.bytes);
    let acct = solana_pubkey::Pubkey::new_from_array(account.bytes);
    let dst = solana_pubkey::Pubkey::new_from_array(destination.bytes);
    let owner = solana_pubkey::Pubkey::new_from_array(owner.bytes);
    match spl_token::instruction::close_account(&tp, &acct, &dst, &owner, &[&owner]) {
        Ok(ix) => Ok(ix),
        Err(_) => Err(EscrowError::IncorrectProgramId),
    }
}

} // verus!
