use vstd::prelude::*;

verus! {

/// Errors of the escrow program's own taxonomy.
#[derive(Debug, Clone, Copy, PartialEq, Eq, Structural)]
pub enum EscrowError {
    /// The instruction bytes do not decode.
    InvalidInstruction,
    /// The initializing party did not sign.
    MissingRequiredSignature,
    /// The escrow record account is below the rent-exemption threshold.
    NotRentExempt,
}

impl EscrowError {
    /// The stable wire code of each kind.
    pub open spec fn spec_code(self) -> u32 {
        match self {
            EscrowError::InvalidInstruction => 0,
            EscrowError::MissingRequiredSignature => 1,
            EscrowError::NotRentExempt => 2,
        }
    }

    /// The code under which the runtime reports this error.
    pub fn code(&self) -> (r: u32)
        ensures
            r == self.spec_code(),
    {
        match self {
            EscrowError::InvalidInstruction => 0,
            EscrowError::MissingRequiredSignature => 1,
            EscrowError::NotRentExempt => 2,
        }
    }
}

/// How a failed instruction is reported through the runtime's generic error
/// channel: a custom code of this program, or one of the runtime's own kinds.
#[derive(Debug, Clone, Copy, PartialEq, Eq, Structural)]
pub enum ProgramError {
    Custom(u32),
    InvalidArgument,
    InvalidAccountData,
    UninitializedAccount,
    NotEnoughAccountKeys,
    AccountAlreadyInitialized,
    IncorrectProgramId,
    ArithmeticOverflow,
}

impl From<EscrowError> for ProgramError {
    fn from(e: EscrowError) -> Self {
        ProgramError::Custom(e.code())
    }
}

impl vstd::std_specs::convert::FromSpecImpl<EscrowError> for ProgramError {
    open spec fn obeys_from_spec() -> bool {
        true
    }

    open spec fn from_spec(e: EscrowError) -> ProgramError {
        ProgramError::Custom(e.spec_code())
    }
}

/// The program error under which an escrow error is reported.
pub open spec fn reported(e: EscrowError) -> ProgramError {
    ProgramError::Custom(e.spec_code())
}

} // verus!
