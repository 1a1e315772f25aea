use vstd::prelude::*;

use crate::error::EscrowError;
use crate::key::Pubkey;

verus! {

broadcast use vstd::array::group_array_axioms, vstd::slice::group_slice_axioms;

/// The byte width of a packed escrow record: one flag byte, three 32-byte
/// addresses, and an eight-byte little-endian amount.
pub const ESCROW_LEN: usize = 105;

/// The persistent state of one pending trade.
///
/// Once `is_initialized` is set, the other four fields are immutable until
/// the record is destroyed, and together they fully define the trade terms.
#[derive(Clone, Copy, Debug, PartialEq, Eq)]
pub struct Escrow {
    /// Guards against double-initialization and against reading garbage.
    pub is_initialized: bool,
    /// The party entitled to the final payment and to the record's lamports.
    pub initializer_pubkey: Pubkey,
    /// The intermediary account holding the locked tokens.
    pub temp_token_account_pubkey: Pubkey,
    /// The account that must receive the payment demanded at initialization.
    pub initializer_token_to_receive_account_pubkey: Pubkey,
    /// The quantity the initializer demands, transferred verbatim at exchange.
    pub expected_amount: u64,
}

/// The packed form of a record.
pub open spec fn spec_pack(e: Escrow) -> Seq<u8> {
    seq![if e.is_initialized { 1u8 } else { 0u8 }] + e.initializer_pubkey@
        + e.temp_token_account_pubkey@ + e.initializer_token_to_receive_account_pubkey@
        + vstd::bytes::spec_u64_to_le_bytes(e.expected_amount)
}

/// Whether a byte string decodes to a record at all: exactly `ESCROW_LEN`
/// bytes whose flag byte is 0 or 1.
pub open spec fn spec_unpack_ok(d: Seq<u8>) -> bool {
    d.len() == ESCROW_LEN && (d[0] == 0u8 || d[0] == 1u8)
}

/// The record `e` is exactly what the byte string `d` encodes.
pub open spec fn record_matches_bytes(e: Escrow, d: Seq<u8>) -> bool {
    &&& spec_unpack_ok(d)
    &&& e.is_initialized == (d[0] == 1u8)
    &&& e.initializer_pubkey@ == d.subrange(1, 33)
    &&& e.temp_token_account_pubkey@ == d.subrange(33, 65)
    &&& e.initializer_token_to_receive_account_pubkey@ == d.subrange(65, 97)
    &&& e.expected_amount == vstd::bytes::spec_u64_from_le_bytes(d.subrange(97, 105))
}

impl Escrow {
    /// Serialize the record into its fixed-width packed form.
    pub fn pack(&self) -> (out: Vec<u8>)
        ensures
            out@ == spec_pack(*self),
            record_matches_bytes(*self, out@),
    {
        let mut out: Vec<u8> = Vec::new();
        out.push(if self.is_initialized {
            1
        } else {
            0
        });
        out.extend_from_slice(self.initializer_pubkey.bytes.as_slice());
        out.extend_from_slice(self.temp_token_account_pubkey.bytes.as_slice());
        out.extend_from_slice(self.initializer_token_to_receive_account_pubkey.bytes.as_slice());
        let amount_bytes = vstd::bytes::u64_to_le_bytes(self.expected_amount);
        out.extend_from_slice(amount_bytes.as_slice());
        proof {
            assert(out@ =~= spec_pack(*self));
            lemma_pack_decodes(*self);
        }
        out
    }

    /// Decode a record without insisting that it be initialized.
    ///
    /// Fails with `InvalidAccountData` when the bytes are not a record.
    pub fn unpack_unchecked(data: &[u8]) -> (r: Result<Escrow, EscrowError>)
        ensures
            r is Ok <==> spec_unpack_ok(data@),
            r is Ok ==> record_matches_bytes(r.unwrap(), data@),
            !spec_unpack_ok(data@) ==> r == Err::<Escrow, EscrowError>(
                EscrowError::InvalidAccountData,
            ),
    {
        if data.len() != ESCROW_LEN {
            return Err(EscrowError::InvalidAccountData);
        }
        let flag = data[0];
        if flag != 0 && flag != 1 {
            return Err(EscrowError::InvalidAccountData);
        }
        let amount_bytes = vstd::slice::slice_subrange(data, 97, 105);
        Ok(
            Escrow {
                is_initialized: flag == 1,
                initializer_pubkey: Pubkey::from_slice_at(data, 1),
                temp_token_account_pubkey: Pubkey::from_slice_at(data, 33),
                initializer_token_to_receive_account_pubkey: Pubkey::from_slice_at(data, 65),
                expected_amount: vstd::bytes::u64_from_le_bytes(amount_bytes),
            },
        )
    }

    /// Decode a record and insist that it be initialized.
    ///
    /// Fails with `InvalidAccountData` when the bytes are not a record, and
    /// with `UninitializedAccount` when the record was never populated.
    pub fn unpack(data: &[u8]) -> (r: Result<Escrow, EscrowError>)
        ensures
            r is Ok <==> spec_unpack_ok(data@) && data@[0] == 1u8,
            r is Ok ==> record_matches_bytes(r.unwrap(), data@) && r.unwrap().is_initialized,
            !spec_unpack_ok(data@) ==> r == Err::<Escrow, EscrowError>(
                EscrowError::InvalidAccountData,
            ),
            spec_unpack_ok(data@) && data@[0] == 0u8 ==> r == Err::<Escrow, EscrowError>(
                EscrowError::UninitializedAccount,
            ),
    {
        let e = Self::unpack_unchecked(data)?;
        if e.is_initialized {
            Ok(e)
        } else {
            Err(EscrowError::UninitializedAccount)
        }
    }
}

/// The packed form of any record decodes, and decodes to that record.
pub proof fn lemma_pack_decodes(e: Escrow)
    ensures
        record_matches_bytes(e, spec_pack(e)),
{
    let d = spec_pack(e);
    vstd::bytes::lemma_auto_spec_u64_to_from_le_bytes();
    assert(d.subrange(1, 33) =~= e.initializer_pubkey@);
    assert(d.subrange(33, 65) =~= e.temp_token_account_pubkey@);
    assert(d.subrange(65, 97) =~= e.initializer_token_to_receive_account_pubkey@);
    assert(d.subrange(97, 105) =~= vstd::bytes::spec_u64_to_le_bytes(e.expected_amount));
}

/// Packing a record and decoding the bytes again yields the identical
/// record: any record the packed bytes decode to is the one packed.
pub proof fn lemma_pack_round_trip(e: Escrow, f: Escrow)
    requires
        record_matches_bytes(f, spec_pack(e)),
    ensures
        f == e,
{
    lemma_pack_decodes(e);
    assert(f.initializer_pubkey.bytes =~= e.initializer_pubkey.bytes);
    assert(f.temp_token_account_pubkey.bytes =~= e.temp_token_account_pubkey.bytes);
    let fr = f.initializer_token_to_receive_account_pubkey.bytes;
    let er = e.initializer_token_to_receive_account_pubkey.bytes;
    assert(fr =~= er);
}

/// The converse direction: a record decoded from some bytes packs back to
/// exactly those bytes, so the packed form is unique.
pub proof fn lemma_unpack_pack(e: Escrow, d: Seq<u8>)
    requires
        record_matches_bytes(e, d),
    ensures
        spec_pack(e) == d,
{
    vstd::bytes::lemma_auto_spec_u64_to_from_le_bytes();
    assert(spec_pack(e) =~= d);
}

} // verus!
