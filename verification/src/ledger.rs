//! The two transitions run end to end against a model of the state they
//! touch.
//!
//! The host applies a call atomically, and the token collaborator's
//! transfer, owner-change and close operations are specified only at their
//! interface. This module states both as one contract: a world value holds
//! every balance and record a call reads or writes, a run function either
//! returns the complete next world or an error, and its `ensures` pins down
//! exactly who gained what, who lost what, and what was destroyed. An error
//! leaves the caller's world untouched by construction, which is the host's
//! all-or-nothing guarantee.

use vstd::prelude::*;

use crate::error::EscrowError;
use crate::key::Pubkey;
use crate::state::{record_matches_bytes, spec_pack, spec_unpack_ok, Escrow};
use crate::token::{
    is_rent_sysvar, is_rent_sysvar_id, is_spl_token_id, is_token_program, rent_exempt_of,
    rent_is_exempt,
};

verus! {

/// One token account as the collaborator's ledger sees it: its address, the
/// authority entitled to move or close it, and its balance.
#[derive(Clone, Copy, Debug, PartialEq, Eq)]
pub struct TokenAccount {
    pub key: Pubkey,
    pub owner: Pubkey,
    pub amount: u64,
}

/// Every piece of state an `InitEscrow` call reads or writes.
#[derive(Clone, Debug, PartialEq, Eq)]
pub struct InitEscrowWorld {
    pub initializer_key: Pubkey,
    pub initializer_is_signer: bool,
    /// The holding account, already funded with the locked tokens and still
    /// owned by the initializer.
    pub temp_account: TokenAccount,
    /// The address of the account that is to receive the demanded payment.
    pub receiving_key: Pubkey,
    /// The program that owns that receiving account.
    pub receiving_account_owner: Pubkey,
    pub escrow_lamports: u64,
    pub escrow_data: Vec<u8>,
    /// The address of the account supplied as the rent sysvar.
    pub rent_sysvar_key: Pubkey,
    pub rent_sysvar_data: Vec<u8>,
    pub token_program_key: Pubkey,
}

/// Every piece of state an `Exchange` call reads or writes.
#[derive(Clone, Debug, PartialEq, Eq)]
pub struct ExchangeWorld {
    pub taker_key: Pubkey,
    pub taker_is_signer: bool,
    /// The taker's account of the demanded token kind.
    pub taker_sending: TokenAccount,
    /// The taker's account of the locked token kind.
    pub taker_receiving: TokenAccount,
    /// The holding account, owned by the derived address since `InitEscrow`.
    pub temp_account: TokenAccount,
    /// The holding account's own lamports, returned on close.
    pub temp_lamports: u64,
    pub initializer_key: Pubkey,
    pub initializer_lamports: u64,
    /// The initializer's account of the demanded token kind.
    pub initializer_receiving: TokenAccount,
    pub escrow_lamports: u64,
    pub escrow_data: Vec<u8>,
    pub token_program_key: Pubkey,
}

/// The first gate an `InitEscrow` fails against a world, in the order the
/// rules are checked, or `None` when every gate passes.
pub open spec fn spec_world_init_error(w: InitEscrowWorld) -> Option<EscrowError> {
    if !w.initializer_is_signer {
        Some(EscrowError::MissingRequiredSignature)
    } else if !is_spl_token_id(w.receiving_account_owner@) {
        Some(EscrowError::IncorrectProgramId)
    } else if !is_rent_sysvar_id(w.rent_sysvar_key@) {
        Some(EscrowError::InvalidArgument)
    } else if rent_exempt_of(
        w.rent_sysvar_data@,
        w.escrow_lamports,
        w.escrow_data@.len() as usize,
    ) is None {
        Some(EscrowError::InvalidArgument)
    } else if rent_exempt_of(w.rent_sysvar_data@, w.escrow_lamports, w.escrow_data@.len() as usize)
        == Some(false) {
        Some(EscrowError::NotRentExempt)
    } else if !spec_unpack_ok(w.escrow_data@) {
        Some(EscrowError::InvalidAccountData)
    } else if w.escrow_data@[0] == 1u8 {
        Some(EscrowError::AccountAlreadyInitialized)
    } else if !is_spl_token_id(w.token_program_key@) {
        Some(EscrowError::IncorrectProgramId)
    } else {
        None
    }
}

/// The record an `InitEscrow` persists for this world and amount.
pub open spec fn spec_init_record(w: InitEscrowWorld, amount: u64) -> Escrow {
    Escrow {
        is_initialized: true,
        initializer_pubkey: w.initializer_key,
        temp_token_account_pubkey: w.temp_account.key,
        initializer_token_to_receive_account_pubkey: w.receiving_key,
        expected_amount: amount,
    }
}

/// Run an `InitEscrow` call against a world.
///
/// On success the record is populated and the holding account's owner is the
/// derived address handed in as the delegation target — and no longer the
/// initializer, unless the initializer's key coincides with that address.
/// Nothing else changes. On failure the returned error is the first gate
/// failed and no world is produced: the caller keeps the old one whole.
///
/// The one demand on the caller is the collaborator's own: the owner-change
/// call only succeeds when the holding account still belongs to the
/// initializer who signs it.
pub fn run_init_escrow(w: &InitEscrowWorld, amount: u64, pda: &Pubkey) -> (r: Result<
    InitEscrowWorld,
    EscrowError,
>)
    requires
        spec_world_init_error(*w) is None ==> w.temp_account.owner == w.initializer_key,
    ensures
        r is Err <==> spec_world_init_error(*w) is Some,
        r matches Err(e) ==> e == spec_world_init_error(*w).unwrap(),
        r matches Ok(w2) ==> {
            &&& w2.temp_account.owner == *pda
            &&& w.initializer_key@ != pda@ ==> w2.temp_account.owner@ != w.initializer_key@
            &&& w2.escrow_data@ == spec_pack(spec_init_record(*w, amount))
            &&& record_matches_bytes(spec_init_record(*w, amount), w2.escrow_data@)
            &&& w2.temp_account.key == w.temp_account.key
            &&& w2.temp_account.amount == w.temp_account.amount
            &&& w2.initializer_key == w.initializer_key
            &&& w2.initializer_is_signer == w.initializer_is_signer
            &&& w2.receiving_key == w.receiving_key
            &&& w2.receiving_account_owner == w.receiving_account_owner
            &&& w2.escrow_lamports == w.escrow_lamports
            &&& w2.rent_sysvar_key == w.rent_sysvar_key
            &&& w2.rent_sysvar_data@ == w.rent_sysvar_data@
            &&& w2.token_program_key == w.token_program_key
        },
{
    if !w.initializer_is_signer {
        return Err(EscrowError::MissingRequiredSignature);
    }
    if !is_token_program(&w.receiving_account_owner) {
        return Err(EscrowError::IncorrectProgramId);
    }
    if !is_rent_sysvar(&w.rent_sysvar_key) {
        return Err(EscrowError::InvalidArgument);
    }
    let exempt = match rent_is_exempt(
        w.rent_sysvar_data.as_slice(),
        w.escrow_lamports,
        w.escrow_data.len(),
    ) {
        Some(b) => b,
        None => {
            return Err(EscrowError::InvalidArgument);
        },
    };
    if !exempt {
        return Err(EscrowError::NotRentExempt);
    }
    let escrow_info = match Escrow::unpack_unchecked(w.escrow_data.as_slice()) {
        Ok(e) => e,
        Err(e) => {
            return Err(e);
        },
    };
    if escrow_info.is_initialized {
        return Err(EscrowError::AccountAlreadyInitialized);
    }
    if !is_token_program(&w.token_program_key) {
        return Err(EscrowError::IncorrectProgramId);
    }
    let escrow_record = Escrow {
        is_initialized: true,
        initializer_pubkey: w.initializer_key,
        temp_token_account_pubkey: w.temp_account.key,
        initializer_token_to_receive_account_pubkey: w.receiving_key,
        expected_amount: amount,
    };
    let escrow_data = escrow_record.pack();
    let rent_sysvar_data = vstd::slice::slice_to_vec(w.rent_sysvar_data.as_slice());
    Ok(
        InitEscrowWorld {
            initializer_key: w.initializer_key,
            initializer_is_signer: w.initializer_is_signer,
            temp_account: TokenAccount {
                key: w.temp_account.key,
                owner: *pda,
                amount: w.temp_account.amount,
            },
            receiving_key: w.receiving_key,
            receiving_account_owner: w.receiving_account_owner,
            escrow_lamports: w.escrow_lamports,
            escrow_data,
            rent_sysvar_key: w.rent_sysvar_key,
            rent_sysvar_data,
            token_program_key: w.token_program_key,
        },
    )
}

/// An `InitEscrow` whose other gates all pass, aimed at a record already
/// marked initialized, is always refused as `AccountAlreadyInitialized` —
/// a populated record can never be overwritten.
pub proof fn lemma_no_double_init(w: InitEscrowWorld, e: Escrow)
    requires
        w.initializer_is_signer,
        is_spl_token_id(w.receiving_account_owner@),
        is_rent_sysvar_id(w.rent_sysvar_key@),
        rent_exempt_of(w.rent_sysvar_data@, w.escrow_lamports, w.escrow_data@.len() as usize)
            == Some(true),
        record_matches_bytes(e, w.escrow_data@),
        e.is_initialized,
    ensures
        spec_world_init_error(w) == Some(EscrowError::AccountAlreadyInitialized),
{
}

/// The first gate an `Exchange` fails against a world, in the order the
/// rules are checked, or `None` when every gate passes: the taker signs; the
/// taker's asserted amount equals the live holding balance; the record
/// decodes and is initialized; the record names exactly this holding
/// account, this initializer and this receiving account; the token program
/// is the real one; and the final lamport credit fits.
pub open spec fn spec_world_exchange_error(w: ExchangeWorld, amount_expected: u64) -> Option<
    EscrowError,
> {
    if !w.taker_is_signer {
        Some(EscrowError::MissingRequiredSignature)
    } else if amount_expected != w.temp_account.amount {
        Some(EscrowError::ExpectedAmountMismatch)
    } else if !spec_unpack_ok(w.escrow_data@) {
        Some(EscrowError::InvalidAccountData)
    } else if w.escrow_data@[0] == 0u8 {
        Some(EscrowError::UninitializedAccount)
    } else if w.escrow_data@.subrange(33, 65) != w.temp_account.key@ {
        Some(EscrowError::InvalidAccountData)
    } else if w.escrow_data@.subrange(1, 33) != w.initializer_key@ {
        Some(EscrowError::InvalidAccountData)
    } else if w.escrow_data@.subrange(65, 97) != w.initializer_receiving.key@ {
        Some(EscrowError::InvalidAccountData)
    } else if !is_spl_token_id(w.token_program_key@) {
        Some(EscrowError::IncorrectProgramId)
    } else if w.initializer_lamports + w.temp_lamports + w.escrow_lamports > u64::MAX {
        Some(EscrowError::AmountOverflow)
    } else {
        None
    }
}

/// The amount the record demands, read from its packed bytes.
pub open spec fn spec_demanded(d: Seq<u8>) -> u64 {
    vstd::bytes::spec_u64_from_le_bytes(d.subrange(97, 105))
}

/// The token collaborator's own interface conditions for the three delegated
/// calls of an exchange: each authority is the account's owner, the sender
/// can cover the recorded amount, no receiving balance overflows, and the
/// four token accounts are four distinct accounts. A real call that breaks
/// one of these is refused by the collaborator itself before any escrow rule
/// applies.
pub open spec fn exchange_collaborator_ok(w: ExchangeWorld, pda: Pubkey) -> bool {
    &&& w.taker_sending.owner == w.taker_key
    &&& w.temp_account.owner == pda
    &&& w.taker_sending.amount >= spec_demanded(w.escrow_data@)
    &&& w.initializer_receiving.amount + spec_demanded(w.escrow_data@) <= u64::MAX
    &&& w.taker_receiving.amount + w.temp_account.amount <= u64::MAX
    &&& w.taker_sending.key@ != w.initializer_receiving.key@
    &&& w.taker_sending.key@ != w.taker_receiving.key@
    &&& w.taker_sending.key@ != w.temp_account.key@
    &&& w.taker_receiving.key@ != w.initializer_receiving.key@
    &&& w.taker_receiving.key@ != w.temp_account.key@
    &&& w.temp_account.key@ != w.initializer_receiving.key@
}

/// Run an `Exchange` call against a world.
///
/// It succeeds exactly when every gate of [`spec_world_exchange_error`]
/// passes. On success: the taker's sending account loses exactly the
/// recorded amount, which lands whole on the initializer's receiving
/// account; the taker's receiving account gains exactly the holding
/// account's whole balance; the holding account is closed (zero balance,
/// zero lamports) and its lamports, with the record's, land on the
/// initializer's main balance; and the record is destroyed (zero lamports,
/// empty data). Nothing else changes. If the credit to the initializer
/// would exceed the largest representable balance the call fails closed
/// with `AmountOverflow` and nothing moves.
pub fn run_exchange(w: &ExchangeWorld, amount_expected_by_taker: u64, pda: &Pubkey) -> (r: Result<
    ExchangeWorld,
    EscrowError,
>)
    requires
        spec_world_exchange_error(*w, amount_expected_by_taker) is None
            ==> exchange_collaborator_ok(*w, *pda),
    ensures
        r is Err <==> spec_world_exchange_error(*w, amount_expected_by_taker) is Some,
        r matches Err(e) ==> e == spec_world_exchange_error(*w, amount_expected_by_taker).unwrap(),
        r matches Ok(w2) ==> {
            let demanded = spec_demanded(w.escrow_data@);
            &&& w2.taker_sending.amount == w.taker_sending.amount - demanded
            &&& w2.initializer_receiving.amount == w.initializer_receiving.amount + demanded
            &&& w2.taker_receiving.amount == w.taker_receiving.amount + w.temp_account.amount
            &&& w2.temp_account.amount == 0
            &&& w2.temp_lamports == 0
            &&& w2.initializer_lamports == w.initializer_lamports + w.temp_lamports
                + w.escrow_lamports
            &&& w2.escrow_lamports == 0
            &&& w2.escrow_data@.len() == 0
            &&& w2.taker_key == w.taker_key
            &&& w2.taker_is_signer == w.taker_is_signer
            &&& w2.taker_sending.key == w.taker_sending.key
            &&& w2.taker_sending.owner == w.taker_sending.owner
            &&& w2.taker_receiving.key == w.taker_receiving.key
            &&& w2.taker_receiving.owner == w.taker_receiving.owner
            &&& w2.temp_account.key == w.temp_account.key
            &&& w2.initializer_key == w.initializer_key
            &&& w2.initializer_receiving.key == w.initializer_receiving.key
            &&& w2.initializer_receiving.owner == w.initializer_receiving.owner
            &&& w2.token_program_key == w.token_program_key
        },
{
    if !w.taker_is_signer {
        return Err(EscrowError::MissingRequiredSignature);
    }
    if amount_expected_by_taker != w.temp_account.amount {
        return Err(EscrowError::ExpectedAmountMismatch);
    }
    let escrow_record = match Escrow::unpack(w.escrow_data.as_slice()) {
        Ok(e) => e,
        Err(e) => {
            return Err(e);
        },
    };
    if !escrow_record.temp_token_account_pubkey.eq_key(&w.temp_account.key) {
        return Err(EscrowError::InvalidAccountData);
    }
    if !escrow_record.initializer_pubkey.eq_key(&w.initializer_key) {
        return Err(EscrowError::InvalidAccountData);
    }
    if !escrow_record.initializer_token_to_receive_account_pubkey.eq_key(
        &w.initializer_receiving.key,
    ) {
        return Err(EscrowError::InvalidAccountData);
    }
    if !is_token_program(&w.token_program_key) {
        return Err(EscrowError::IncorrectProgramId);
    }
    let after_close = match w.initializer_lamports.checked_add(w.temp_lamports) {
        Some(x) => x,
        None => {
            return Err(EscrowError::AmountOverflow);
        },
    };
    let initializer_lamports_after = match after_close.checked_add(w.escrow_lamports) {
        Some(x) => x,
        None => {
            return Err(EscrowError::AmountOverflow);
        },
    };
    let demanded = escrow_record.expected_amount;
    Ok(
        ExchangeWorld {
            taker_key: w.taker_key,
            taker_is_signer: w.taker_is_signer,
            taker_sending: TokenAccount {
                key: w.taker_sending.key,
                owner: w.taker_sending.owner,
                amount: w.taker_sending.amount - demanded,
            },
            taker_receiving: TokenAccount {
                key: w.taker_receiving.key,
                owner: w.taker_receiving.owner,
                amount: w.taker_receiving.amount + w.temp_account.amount,
            },
            temp_account: TokenAccount {
                key: w.temp_account.key,
                owner: w.temp_account.owner,
                amount: 0,
            },
            temp_lamports: 0,
            initializer_key: w.initializer_key,
            initializer_lamports: initializer_lamports_after,
            initializer_receiving: TokenAccount {
                key: w.initializer_receiving.key,
                owner: w.initializer_receiving.owner,
                amount: w.initializer_receiving.amount + demanded,
            },
            escrow_lamports: 0,
            escrow_data: Vec::new(),
            token_program_key: w.token_program_key,
        },
    )
}

} // verus!
