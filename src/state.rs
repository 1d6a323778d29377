use vstd::prelude::*;

use crate::bytes::{push_key, push_u64_le, read_key, read_u64_le, u64_from_le, u64_to_le};
use crate::bytes::{lemma_le_bytes_round_trip, lemma_le_value_round_trip};
use crate::error::ProgramError;

verus! {

/// Size of an encoded escrow record: flag, three keys, amount.
pub const ESCROW_LEN: usize = 105;

/// The persisted terms of one escrow.
#[derive(Debug, Clone, Copy, PartialEq, Eq)]
pub struct Escrow {
    pub is_initialized: bool,
    pub initializer_pubkey: [u8; 32],
    pub temp_token_account_pubkey: [u8; 32],
    pub initializer_account_to_receive_token_pubkey: [u8; 32],
    pub expected_amount: u64,
}

/// An escrow record with its keys as byte sequences.
pub struct EscrowView {
    pub is_initialized: bool,
    pub initializer: Seq<u8>,
    pub temp_token_account: Seq<u8>,
    pub receive_account: Seq<u8>,
    pub expected_amount: u64,
}

impl View for Escrow {
    type V = EscrowView;

    open spec fn view(&self) -> EscrowView {
        EscrowView {
            is_initialized: self.is_initialized,
            initializer: self.initializer_pubkey@,
            temp_token_account: self.temp_token_account_pubkey@,
            receive_account: self.initializer_account_to_receive_token_pubkey@,
            expected_amount: self.expected_amount,
        }
    }
}

/// A record whose three keys are 32 bytes long, as every `Escrow` value's are.
pub open spec fn well_formed(v: EscrowView) -> bool {
    v.initializer.len() == 32 && v.temp_token_account.len() == 32 && v.receive_account.len()
        == 32
}

/// The 105 bytes of a record: flag (0 or 1), the three keys, the amount little-endian.
pub open spec fn encode(v: EscrowView) -> Seq<u8> {
    seq![if v.is_initialized { 1u8 } else { 0u8 }] + v.initializer + v.temp_token_account
        + v.receive_account + u64_to_le(v.expected_amount)
}

/// A buffer that holds a record: the right length and a flag byte of 0 or 1.
pub open spec fn layout_ok(data: Seq<u8>) -> bool {
    data.len() == ESCROW_LEN && data[0] <= 1
}

/// The record that a buffer of the right layout holds.
pub open spec fn decode(data: Seq<u8>) -> EscrowView {
    EscrowView {
        is_initialized: data[0] == 1,
        initializer: data.subrange(1, 33),
        temp_token_account: data.subrange(33, 65),
        receive_account: data.subrange(65, 97),
        expected_amount: u64_from_le(data.subrange(97, 105)),
    }
}

/// Decoding a buffer of the right layout and encoding the result gives back
/// the same bytes.
pub proof fn lemma_decode_encode(data: Seq<u8>)
    requires
        layout_ok(data),
    ensures
        encode(decode(data)) == data,
{
    lemma_le_bytes_round_trip(data.subrange(97, 105));
    assert(encode(decode(data)) =~= data);
}

/// Encoding a record and decoding the bytes gives back the same record; the
/// bytes have the layout of a record.
pub proof fn lemma_encode_decode(v: EscrowView)
    requires
        well_formed(v),
    ensures
        layout_ok(encode(v)),
        decode(encode(v)) == v,
{
    let e = encode(v);
    lemma_le_value_round_trip(v.expected_amount);
    assert(e.subrange(1, 33) =~= v.initializer);
    assert(e.subrange(33, 65) =~= v.temp_token_account);
    assert(e.subrange(65, 97) =~= v.receive_account);
    assert(e.subrange(97, 105) =~= u64_to_le(v.expected_amount));
}

impl Escrow {
    /// Encodes the record into a fresh 105-byte buffer.
    pub fn pack(&self) -> (r: Vec<u8>)
        ensures
            r@ == encode(self@),
            r@.len() == ESCROW_LEN,
    {
        let mut out: Vec<u8> = Vec::new();
        out.push(if self.is_initialized { 1u8 } else { 0u8 });
        push_key(&mut out, &self.initializer_pubkey);
        push_key(&mut out, &self.temp_token_account_pubkey);
        push_key(&mut out, &self.initializer_account_to_receive_token_pubkey);
        push_u64_le(&mut out, self.expected_amount);
        assert(out@ =~= encode(self@));
        out
    }

    /// Encodes the record over a buffer of the record's size.
    pub fn pack_into_slice(&self, dst: &mut Vec<u8>)
        requires
            old(dst)@.len() == ESCROW_LEN,
        ensures
            final(dst)@ == encode(self@),
    {
        *dst = self.pack();
    }

    /// Decodes a buffer whether or not it holds an initialised record: an
    /// all-zero buffer gives a record with `is_initialized` false.
    pub fn unpack_unchecked(data: &[u8]) -> (r: Result<Escrow, ProgramError>)
        ensures
            match r {
                Ok(e) => layout_ok(data@) && e@ == decode(data@),
                Err(err) => !layout_ok(data@) && err == ProgramError::InvalidAccountData,
            },
    {
        if data.len() != ESCROW_LEN {
            return Err(ProgramError::InvalidAccountData);
        }
        let flag = data[0];
        if flag > 1 {
            return Err(ProgramError::InvalidAccountData);
        }
        let e = Escrow {
            is_initialized: flag == 1,
            initializer_pubkey: read_key(data, 1),
            temp_token_account_pubkey: read_key(data, 33),
            initializer_account_to_receive_token_pubkey: read_key(data, 65),
            expected_amount: read_u64_le(data, 97),
        };
        Ok(e)
    }

    /// Decodes a buffer that must hold an initialised record.
    pub fn unpack(data: &[u8]) -> (r: Result<Escrow, ProgramError>)
        ensures
            match r {
                Ok(e) => layout_ok(data@) && data@[0] == 1 && e@ == decode(data@),
                Err(err) => if layout_ok(data@) {
                    data@[0] == 0 && err == ProgramError::UninitializedAccount
                } else {
                    err == ProgramError::InvalidAccountData
                },
            },
    {
        let e = Escrow::unpack_unchecked(data)?;
        if !e.is_initialized {
            return Err(ProgramError::UninitializedAccount);
        }
        Ok(e)
    }
}

} // verus!
