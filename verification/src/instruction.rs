use vstd::prelude::*;

use crate::error::EscrowError;

verus! {

broadcast use vstd::slice::group_slice_axioms;

/// A decoded transition request: which transition, and the single unsigned
/// 64-bit amount it carries.
#[derive(Clone, Copy, Debug, PartialEq, Eq, Structural)]
pub enum EscrowInstruction {
    /// Lock tokens and record the trade terms; `amount` is the quantity the
    /// initializer demands in return.
    InitEscrow { amount: u64 },
    /// Settle a recorded trade; `amount` is the holding balance the taker
    /// expects to receive.
    Exchange { amount: u64 },
}

/// The wire form: one discriminator byte (0 or 1), then the amount as eight
/// little-endian bytes. Bytes past the ninth are ignored; anything shorter,
/// or any other discriminator, is refused.
pub open spec fn spec_unpack_instruction(data: Seq<u8>) -> Result<
    EscrowInstruction,
    EscrowError,
> {
    if data.len() < 9 {
        Err(EscrowError::InvalidInstruction)
    } else if data[0] == 0u8 {
        Ok(
            EscrowInstruction::InitEscrow {
                amount: vstd::bytes::spec_u64_from_le_bytes(data.subrange(1, 9)),
            },
        )
    } else if data[0] == 1u8 {
        Ok(
            EscrowInstruction::Exchange {
                amount: vstd::bytes::spec_u64_from_le_bytes(data.subrange(1, 9)),
            },
        )
    } else {
        Err(EscrowError::InvalidInstruction)
    }
}

impl EscrowInstruction {
    /// Decode an opaque instruction buffer into exactly one transition
    /// request, or refuse it as `InvalidInstruction`.
    pub fn unpack(input: &[u8]) -> (r: Result<EscrowInstruction, EscrowError>)
        ensures
            r == spec_unpack_instruction(input@),
    {
        if input.len() < 9 {
            return Err(EscrowError::InvalidInstruction);
        }
        let tag = input[0];
        if tag == 0 || tag == 1 {
            let amount_bytes = vstd::slice::slice_subrange(input, 1, 9);
            let amount = vstd::bytes::u64_from_le_bytes(amount_bytes);
            if tag == 0 {
                Ok(EscrowInstruction::InitEscrow { amount })
            } else {
                Ok(EscrowInstruction::Exchange { amount })
            }
        } else {
            Err(EscrowError::InvalidInstruction)
        }
    }
}

} // verus!
