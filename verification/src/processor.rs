//! The instruction-processing state machine.
//!
//! Accounts arrive as a positional list (the wire interface); each handler
//! validates them in a fixed order and, when every gate passes, returns the
//! exact record bytes to persist and the delegated token-program calls to
//! issue. A handler never performs the delegated calls itself: the embedding
//! program invokes them, and the host's per-call atomicity guarantees that a
//! failure anywhere leaves no partial state.

use vstd::prelude::*;

use crate::error::EscrowError;
use crate::instruction::{spec_unpack_instruction, EscrowInstruction};
use crate::key::Pubkey;
use crate::state::{spec_pack, spec_unpack_ok, Escrow};
use crate::token::{
    build_close_account, build_set_owner_authority, build_transfer, close_account_ix_of, find_pda,
    is_rent_sysvar, is_rent_sysvar_id, is_spl_token_id, is_token_program, pda_of, rent_exempt_of,
    rent_is_exempt, set_owner_authority_ix_of, spl_token_amount_of, transfer_ix_of,
    unpack_token_amount,
};

verus! {

/// A snapshot of one account as the host hands it to the program: its
/// address, whether it signed the call, the program that owns it, its
/// lamport balance, and its data bytes.
#[derive(Clone, Debug, PartialEq, Eq)]
pub struct AccountInfo {
    pub key: Pubkey,
    pub is_signer: bool,
    pub owner: Pubkey,
    pub lamports: u64,
    pub data: Vec<u8>,
}

/// Everything a successful `InitEscrow` asks the embedding program to do:
/// persist `escrow_data` into the escrow record account, then issue the
/// owner-change instruction, which hands the holding account to `pda`.
#[derive(Debug, PartialEq, Eq)]
pub struct InitEscrowOutcome {
    pub escrow_record: Escrow,
    pub escrow_data: Vec<u8>,
    pub pda: Pubkey,
    pub owner_change_ix: spl_token::solana_program::instruction::Instruction,
}

/// Everything a successful `Exchange` asks the embedding program to do, in
/// order: the two transfers, the close of the holding account (signed with
/// the seed and `nonce`), then set the initializer's lamports to
/// `initializer_lamports_after` and destroy the escrow record.
#[derive(Debug, PartialEq, Eq)]
pub struct ExchangeOutcome {
    pub escrow_record: Escrow,
    pub temp_amount: u64,
    pub initializer_lamports_after: u64,
    pub pda: Pubkey,
    pub nonce: u8,
    pub transfer_to_initializer_ix: spl_token::solana_program::instruction::Instruction,
    pub transfer_to_taker_ix: spl_token::solana_program::instruction::Instruction,
    pub close_temp_ix: spl_token::solana_program::instruction::Instruction,
}

/// The outcome of a dispatched call: which transition ran, and its effects.
#[derive(Debug, PartialEq, Eq)]
pub enum EscrowOutcome {
    Init(InitEscrowOutcome),
    Exchange(ExchangeOutcome),
}

/// The fixed seed the program's delegated address is derived from: the
/// bytes of "escrow".
pub open spec fn spec_escrow_seed() -> Seq<u8> {
    seq![101u8, 115u8, 99u8, 114u8, 111u8, 119u8]
}

/// The seed as a byte vector.
pub fn escrow_seed() -> (v: Vec<u8>)
    ensures
        v@ == spec_escrow_seed(),
{
    let mut v: Vec<u8> = Vec::new();
    v.push(101);
    v.push(115);
    v.push(99);
    v.push(114);
    v.push(111);
    v.push(119);
    proof {
        assert(v@ =~= spec_escrow_seed());
    }
    v
}

/// The program's delegated address and its bump seed, derived from the fixed
/// seed and the program's identity, or `None` in the statistically
/// improbable case that no bump seed yields a valid derived address.
pub fn derive_escrow_address(program_id: &Pubkey) -> (r: Option<(Pubkey, u8)>)
    ensures
        r is Some <==> pda_of(spec_escrow_seed(), program_id@) is Some,
        r matches Some(p) ==> p.0@ == pda_of(spec_escrow_seed(), program_id@).unwrap().0 && p.1
            == pda_of(spec_escrow_seed(), program_id@).unwrap().1,
{
    let seed = escrow_seed();
    find_pda(&seed, program_id)
}

/// The first gate an `InitEscrow` account list fails, in the order the
/// handler checks them, or `None` when every gate passes. Positions: 0 the
/// initializer, 1 the holding account, 2 the initializer's receiving
/// account, 3 the escrow record account, 4 the rent sysvar, 5 the token
/// program.
pub open spec fn spec_init_error(v: Seq<AccountInfo>) -> Option<EscrowError> {
    if v.len() < 1 {
        Some(EscrowError::NotEnoughAccountKeys)
    } else if !v[0].is_signer {
        Some(EscrowError::MissingRequiredSignature)
    } else if v.len() < 3 {
        Some(EscrowError::NotEnoughAccountKeys)
    } else if !is_spl_token_id(v[2].owner@) {
        Some(EscrowError::IncorrectProgramId)
    } else if v.len() < 5 {
        Some(EscrowError::NotEnoughAccountKeys)
    } else if !is_rent_sysvar_id(v[4].key@) {
        Some(EscrowError::InvalidArgument)
    } else if rent_exempt_of(v[4].data@, v[3].lamports, v[3].data@.len() as usize) is None {
        Some(EscrowError::InvalidArgument)
    } else if rent_exempt_of(v[4].data@, v[3].lamports, v[3].data@.len() as usize) == Some(false) {
        Some(EscrowError::NotRentExempt)
    } else if !spec_unpack_ok(v[3].data@) {
        Some(EscrowError::InvalidAccountData)
    } else if v[3].data@[0] == 1u8 {
        Some(EscrowError::AccountAlreadyInitialized)
    } else if v.len() < 6 {
        Some(EscrowError::NotEnoughAccountKeys)
    } else if !is_spl_token_id(v[5].key@) {
        Some(EscrowError::IncorrectProgramId)
    } else {
        None
    }
}

/// What a successful `InitEscrow` outcome holds: the populated record, its
/// packed bytes, the derived address, and the owner-change instruction that
/// hands the holding account to that address.
pub open spec fn init_outcome_ok(
    o: InitEscrowOutcome,
    v: Seq<AccountInfo>,
    amount: u64,
    pid: Seq<u8>,
) -> bool {
    &&& o.escrow_record == (Escrow {
        is_initialized: true,
        initializer_pubkey: v[0].key,
        temp_token_account_pubkey: v[1].key,
        initializer_token_to_receive_account_pubkey: v[2].key,
        expected_amount: amount,
    })
    &&& o.escrow_data@ == spec_pack(o.escrow_record)
    &&& o.pda@ == pda_of(spec_escrow_seed(), pid).unwrap().0
    &&& o.owner_change_ix == set_owner_authority_ix_of(v[5].key@, v[1].key@, o.pda@, v[0].key@)
}

/// The first gate an `Exchange` account list fails, in the order the handler
/// checks them, or `None` when every gate passes. Positions: 0 the taker,
/// 1 the taker's sending account, 2 the taker's receiving account, 3 the
/// holding account, 4 the initializer's main account, 5 the initializer's
/// receiving account, 6 the escrow record account, 7 the token program,
/// 8 the derived-address account.
pub open spec fn spec_exchange_error(v: Seq<AccountInfo>, amount_expected: u64) -> Option<
    EscrowError,
> {
    if v.len() < 1 {
        Some(EscrowError::NotEnoughAccountKeys)
    } else if !v[0].is_signer {
        Some(EscrowError::MissingRequiredSignature)
    } else if v.len() < 4 {
        Some(EscrowError::NotEnoughAccountKeys)
    } else if spl_token_amount_of(v[3].data@) is None {
        Some(EscrowError::InvalidAccountData)
    } else if amount_expected != spl_token_amount_of(v[3].data@).unwrap() {
        Some(EscrowError::ExpectedAmountMismatch)
    } else if v.len() < 7 {
        Some(EscrowError::NotEnoughAccountKeys)
    } else if !spec_unpack_ok(v[6].data@) {
        Some(EscrowError::InvalidAccountData)
    } else if v[6].data@[0] == 0u8 {
        Some(EscrowError::UninitializedAccount)
    } else if v[6].data@.subrange(33, 65) != v[3].key@ {
        Some(EscrowError::InvalidAccountData)
    } else if v[6].data@.subrange(1, 33) != v[4].key@ {
        Some(EscrowError::InvalidAccountData)
    } else if v[6].data@.subrange(65, 97) != v[5].key@ {
        Some(EscrowError::InvalidAccountData)
    } else if v.len() < 8 {
        Some(EscrowError::NotEnoughAccountKeys)
    } else if !is_spl_token_id(v[7].key@) {
        Some(EscrowError::IncorrectProgramId)
    } else if v.len() < 9 {
        Some(EscrowError::NotEnoughAccountKeys)
    } else if v[4].lamports + v[3].lamports + v[6].lamports > u64::MAX {
        Some(EscrowError::AmountOverflow)
    } else {
        None
    }
}

/// What a successful `Exchange` outcome holds: the decoded record, the live
/// holding balance, the exact delegated calls with the recorded amount and
/// the live balance, and the initializer's lamports after the holding
/// account's and the record's lamports are both credited.
pub open spec fn exchange_outcome_ok(o: ExchangeOutcome, v: Seq<AccountInfo>, pid: Seq<u8>) -> bool {
    let d = v[6].data@;
    let live = spl_token_amount_of(v[3].data@).unwrap();
    let demanded = vstd::bytes::spec_u64_from_le_bytes(d.subrange(97, 105));
    &&& crate::state::record_matches_bytes(o.escrow_record, d)
    &&& o.temp_amount == live
    &&& o.initializer_lamports_after == v[4].lamports + v[3].lamports + v[6].lamports
    &&& o.pda@ == pda_of(spec_escrow_seed(), pid).unwrap().0
    &&& o.nonce == pda_of(spec_escrow_seed(), pid).unwrap().1
    &&& o.transfer_to_initializer_ix == transfer_ix_of(
        v[7].key@,
        v[1].key@,
        v[5].key@,
        v[0].key@,
        demanded,
    )
    &&& o.transfer_to_taker_ix == transfer_ix_of(v[7].key@, v[3].key@, v[2].key@, o.pda@, live)
    &&& o.close_temp_ix == close_account_ix_of(v[7].key@, v[3].key@, v[4].key@, o.pda@)
}

/// The escrow program's instruction processor.
pub struct Processor;

impl Processor {
    /// Validate an `InitEscrow` call and, when every gate passes, return the
    /// populated record with the owner-change call to issue.
    pub fn process_init_escrow(
        accounts: &Vec<AccountInfo>,
        amount: u64,
        program_id: &Pubkey,
    ) -> (r: Result<InitEscrowOutcome, EscrowError>)
        requires
            pda_of(spec_escrow_seed(), program_id@) is Some,
        ensures
            r is Err <==> spec_init_error(accounts@) is Some,
            r is Err ==> r.unwrap_err() == spec_init_error(accounts@).unwrap(),
            r is Ok ==> init_outcome_ok(r.unwrap(), accounts@, amount, program_id@),
    {
        if accounts.len() < 1 {
            return Err(EscrowError::NotEnoughAccountKeys);
        }
        let initializer = &accounts[0];
        if !initializer.is_signer {
            return Err(EscrowError::MissingRequiredSignature);
        }
        if accounts.len() < 3 {
            return Err(EscrowError::NotEnoughAccountKeys);
        }
        let temp_token_account = &accounts[1];
        let token_to_receive_account = &accounts[2];
        if !is_token_program(&token_to_receive_account.owner) {
            return Err(EscrowError::IncorrectProgramId);
        }
        if accounts.len() < 5 {
            return Err(EscrowError::NotEnoughAccountKeys);
        }
        let escrow_account = &accounts[3];
        let rent_account = &accounts[4];
        if !is_rent_sysvar(&rent_account.key) {
            return Err(EscrowError::InvalidArgument);
        }
        let exempt = match rent_is_exempt(
            rent_account.data.as_slice(),
            escrow_account.lamports,
            escrow_account.data.len(),
        ) {
            Some(b) => b,
            None => {
                return Err(EscrowError::InvalidArgument);
            },
        };
        if !exempt {
            return Err(EscrowError::NotRentExempt);
        }
        let escrow_info = match Escrow::unpack_unchecked(escrow_account.data.as_slice()) {
            Ok(e) => e,
            Err(e) => {
                return Err(e);
            },
        };
        if escrow_info.is_initialized {
            return Err(EscrowError::AccountAlreadyInitialized);
        }
        if accounts.len() < 6 {
            return Err(EscrowError::NotEnoughAccountKeys);
        }
        let token_program = &accounts[5];
        let seed = escrow_seed();
        let pda = match find_pda(&seed, program_id) {
            Some(p) => p.0,
            None => {
                proof {
                    assert(false);
                }
                return Err(EscrowError::InvalidAccountData);
            },
        };
        let escrow_record = Escrow {
            is_initialized: true,
            initializer_pubkey: initializer.key,
            temp_token_account_pubkey: temp_token_account.key,
            initializer_token_to_receive_account_pubkey: token_to_receive_account.key,
            expected_amount: amount,
        };
        let escrow_data = escrow_record.pack();
        let owner_change_ix = match build_set_owner_authority(
            &token_program.key,
            &temp_token_account.key,
            &pda,
            &initializer.key,
        ) {
            Ok(ix) => ix,
            Err(e) => {
                return Err(e);
            },
        };
        Ok(InitEscrowOutcome { escrow_record, escrow_data, pda, owner_change_ix })
    }

    /// Validate an `Exchange` call and, when every gate passes, return the
    /// decoded record with the three delegated calls to issue and the final
    /// lamport credit.
    pub fn process_exchange(
        accounts: &Vec<AccountInfo>,
        amount_expected_by_taker: u64,
        program_id: &Pubkey,
    ) -> (r: Result<ExchangeOutcome, EscrowError>)
        requires
            pda_of(spec_escrow_seed(), program_id@) is Some,
        ensures
            r is Err <==> spec_exchange_error(accounts@, amount_expected_by_taker) is Some,
            r is Err ==> r.unwrap_err() == spec_exchange_error(
                accounts@,
                amount_expected_by_taker,
            ).unwrap(),
            r is Ok ==> exchange_outcome_ok(r.unwrap(), accounts@, program_id@),
    {
        if accounts.len() < 1 {
            return Err(EscrowError::NotEnoughAccountKeys);
        }
        let taker = &accounts[0];
        if !taker.is_signer {
            return Err(EscrowError::MissingRequiredSignature);
        }
        if accounts.len() < 4 {
            return Err(EscrowError::NotEnoughAccountKeys);
        }
        let takers_sending_token_account = &accounts[1];
        let takers_token_to_receive_account = &accounts[2];
        let pdas_temp_token_account = &accounts[3];
        let temp_amount = match unpack_token_amount(pdas_temp_token_account.data.as_slice()) {
            Some(a) => a,
            None => {
                return Err(EscrowError::InvalidAccountData);
            },
        };
        let seed = escrow_seed();
        let (pda, nonce) = match find_pda(&seed, program_id) {
            Some(p) => p,
            None => {
                proof {
                    assert(false);
                }
                return Err(EscrowError::InvalidAccountData);
            },
        };
        if amount_expected_by_taker != temp_amount {
            return Err(EscrowError::ExpectedAmountMismatch);
        }
        if accounts.len() < 7 {
            return Err(EscrowError::NotEnoughAccountKeys);
        }
        let initializers_main_account = &accounts[4];
        let initializers_token_to_receive_account = &accounts[5];
        let escrow_account = &accounts[6];
        let escrow_record = match Escrow::unpack(escrow_account.data.as_slice()) {
            Ok(e) => e,
            Err(e) => {
                return Err(e);
            },
        };
        if !escrow_record.temp_token_account_pubkey.eq_key(&pdas_temp_token_account.key) {
            return Err(EscrowError::InvalidAccountData);
        }
        if !escrow_record.initializer_pubkey.eq_key(&initializers_main_account.key) {
            return Err(EscrowError::InvalidAccountData);
        }
        if !escrow_record.initializer_token_to_receive_account_pubkey.eq_key(
            &initializers_token_to_receive_account.key,
        ) {
            return Err(EscrowError::InvalidAccountData);
        }
        if accounts.len() < 8 {
            return Err(EscrowError::NotEnoughAccountKeys);
        }
        let token_program = &accounts[7];
        let transfer_to_initializer_ix = match build_transfer(
            &token_program.key,
            &takers_sending_token_account.key,
            &initializers_token_to_receive_account.key,
            &taker.key,
            escrow_record.expected_amount,
        ) {
            Ok(ix) => ix,
            Err(e) => {
                return Err(e);
            },
        };
        if accounts.len() < 9 {
            return Err(EscrowError::NotEnoughAccountKeys);
        }
        let transfer_to_taker_ix = match build_transfer(
            &token_program.key,
            &pdas_temp_token_account.key,
            &takers_token_to_receive_account.key,
            &pda,
            temp_amount,
        ) {
            Ok(ix) => ix,
            Err(e) => {
                proof {
                    assert(false);
                }
                return Err(e);
            },
        };
        let close_temp_ix = match build_close_account(
            &token_program.key,
            &pdas_temp_token_account.key,
            &initializers_main_account.key,
            &pda,
        ) {
            Ok(ix) => ix,
            Err(e) => {
                proof {
                    assert(false);
                }
                return Err(e);
            },
        };
        let after_close = match initializers_main_account.lamports.checked_add(
            pdas_temp_token_account.lamports,
        ) {
            Some(x) => x,
            None => {
                return Err(EscrowError::AmountOverflow);
            },
        };
        let initializer_lamports_after = match after_close.checked_add(escrow_account.lamports) {
            Some(x) => x,
            None => {
                return Err(EscrowError::AmountOverflow);
            },
        };
        Ok(
            ExchangeOutcome {
                escrow_record,
                temp_amount,
                initializer_lamports_after,
                pda,
                nonce,
                transfer_to_initializer_ix,
                transfer_to_taker_ix,
                close_temp_ix,
            },
        )
    }

    /// Decode an instruction buffer and run the transition it requests.
    pub fn process(
        program_id: &Pubkey,
        accounts: &Vec<AccountInfo>,
        instruction_data: &[u8],
    ) -> (r: Result<EscrowOutcome, EscrowError>)
        requires
            spec_unpack_instruction(instruction_data@) is Ok ==> pda_of(
                spec_escrow_seed(),
                program_id@,
            ) is Some,
        ensures
            process_post(r, accounts@, instruction_data@, program_id@),
    {
        let instruction = EscrowInstruction::unpack(instruction_data)?;
        match instruction {
            EscrowInstruction::InitEscrow { amount } => {
                match Self::process_init_escrow(accounts, amount, program_id) {
                    Ok(o) => Ok(EscrowOutcome::Init(o)),
                    Err(e) => Err(e),
                }
            },
            EscrowInstruction::Exchange { amount } => {
                match Self::process_exchange(accounts, amount, program_id) {
                    Ok(o) => Ok(EscrowOutcome::Exchange(o)),
                    Err(e) => Err(e),
                }
            },
        }
    }

    /// Like [`Processor::process`], but derives the program's delegated
    /// address first and answers `None` in the (statistically improbable)
    /// case that no bump seed yields one, instead of demanding it up front.
    pub fn try_process(
        program_id: &Pubkey,
        accounts: &Vec<AccountInfo>,
        instruction_data: &[u8],
    ) -> (r: Option<Result<EscrowOutcome, EscrowError>>)
        ensures
            r is None <==> (spec_unpack_instruction(instruction_data@) is Ok && pda_of(
                spec_escrow_seed(),
                program_id@,
            ) is None),
            r matches Some(x) ==> process_post(x, accounts@, instruction_data@, program_id@),
    {
        if EscrowInstruction::unpack(instruction_data).is_err() {
            return Some(Err(EscrowError::InvalidInstruction));
        }
        let seed = escrow_seed();
        if find_pda(&seed, program_id).is_none() {
            return None;
        }
        Some(Self::process(program_id, accounts, instruction_data))
    }
}

/// What dispatching promises: a bad buffer is refused as such, and each
/// transition's result is exactly its handler's.
pub open spec fn process_post(
    r: Result<EscrowOutcome, EscrowError>,
    v: Seq<AccountInfo>,
    data: Seq<u8>,
    pid: Seq<u8>,
) -> bool {
    let ins = spec_unpack_instruction(data);
    &&& ins is Err ==> r == Err::<EscrowOutcome, EscrowError>(EscrowError::InvalidInstruction)
    &&& (ins matches Ok(EscrowInstruction::InitEscrow { amount }) ==> {
        &&& r is Err <==> spec_init_error(v) is Some
        &&& r is Err ==> r.unwrap_err() == spec_init_error(v).unwrap()
        &&& r matches Ok(o) ==> o is Init && init_outcome_ok(o->Init_0, v, amount, pid)
    })
    &&& (ins matches Ok(EscrowInstruction::Exchange { amount }) ==> {
        &&& r is Err <==> spec_exchange_error(v, amount) is Some
        &&& r is Err ==> r.unwrap_err() == spec_exchange_error(v, amount).unwrap()
        &&& r matches Ok(o) ==> o is Exchange && exchange_outcome_ok(o->Exchange_0, v, pid)
    })
}

} // verus!
