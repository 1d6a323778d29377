use vstd::prelude::*;

use crate::bytes::{read_u64_le, u64_from_le};
use crate::error::{reported, EscrowError, ProgramError};

verus! {

/// The instructions the escrow program understands.
#[derive(Debug, Clone, Copy, PartialEq, Eq, Structural)]
pub enum EscrowInstruction {
    /// Records the terms of a new escrow; `amount` is what the counterparty must pay.
    InitEscrow { amount: u64 },
}

/// The instruction that a byte buffer encodes: tag `0` followed by at least
/// eight bytes of little-endian amount; anything after those is ignored.
pub open spec fn spec_unpack(input: Seq<u8>) -> Option<EscrowInstruction> {
    if input.len() >= 9 && input[0] == 0 {
        Some(EscrowInstruction::InitEscrow { amount: u64_from_le(input.subrange(1, 9)) })
    } else {
        None
    }
}

/// A buffer whose first byte is not `0` names no instruction.
pub proof fn lemma_unknown_tag_rejected(input: Seq<u8>)
    requires
        input.len() > 0,
        input[0] != 0,
    ensures
        spec_unpack(input) is None,
{
}

/// Tag `0` with fewer than eight payload bytes names no instruction.
pub proof fn lemma_short_payload_rejected(input: Seq<u8>)
    requires
        input.len() > 0,
        input[0] == 0,
        input.len() - 1 < 8,
    ensures
        spec_unpack(input) is None,
{
}

impl EscrowInstruction {
    /// Decodes an instruction buffer.
    pub fn unpack(input: &[u8]) -> (r: Result<EscrowInstruction, ProgramError>)
        ensures
            r == match spec_unpack(input@) {
                Some(i) => Ok(i),
                None => Err(reported(EscrowError::InvalidInstruction)),
            },
    {
        if input.len() < 9 || input[0] != 0 {
            return Err(ProgramError::from(EscrowError::InvalidInstruction));
        }
        let amount = read_u64_le(input, 1);
        Ok(EscrowInstruction::InitEscrow { amount })
    }
}

} // verus!
