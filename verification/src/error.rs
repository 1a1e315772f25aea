use vstd::prelude::*;

verus! {

/// Every way a transition can be refused.
///
/// A failure anywhere aborts the whole call: the caller sees one of these
/// kinds and no state has changed.
#[derive(Clone, Copy, Debug, PartialEq, Eq, Structural)]
pub enum EscrowError {
    /// The instruction buffer has an unknown discriminator or is too short.
    InvalidInstruction,
    /// An account that must sign the call did not.
    MissingRequiredSignature,
    /// An account is not owned by the token program, or the token program
    /// account handed in is not the token program.
    IncorrectProgramId,
    /// The account supplied as the rent sysvar is not that sysvar, or its
    /// data yields no usable rent schedule.
    InvalidArgument,
    /// The escrow record account could be reclaimed by the host mid-life.
    NotRentExempt,
    /// The escrow record is already populated.
    AccountAlreadyInitialized,
    /// The escrow record exists but was never populated.
    UninitializedAccount,
    /// An account's data does not decode, or an address recorded at
    /// initialization does not match the account supplied now.
    InvalidAccountData,
    /// The taker's asserted amount differs from the live holding balance.
    ExpectedAmountMismatch,
    /// Crediting the initializer's lamports would exceed the largest
    /// representable balance.
    AmountOverflow,
    /// The positional account list is shorter than the transition needs.
    NotEnoughAccountKeys,
}

} // verus!
