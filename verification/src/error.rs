use vstd::prelude::*;

verus! {

/// The closed set of failures the escrow program can report. Failures raised
/// by the external token ledger during a sub-operation are not reinterpreted;
/// they are surfaced by the caller that issued the sub-operation.
#[derive(Clone, Copy, Debug, PartialEq, Eq, Structural)]
pub enum EscrowError {
    /// The instruction bytes name no known command.
    InvalidInstruction,
    /// The party that must authorize the call carries no verified signature.
    MissingSignature,
    /// A token account is not owned by the expected token-ledger program.
    IncorrectOwningProgram,
    /// The escrow-state account's balance is below the minimum-balance exemption.
    NotRentExempt,
    /// The escrow-state account already holds an active record.
    AccountAlreadyInitialized,
    /// Account bytes do not parse, or a stored identity does not match a
    /// supplied account.
    InvalidAccountData,
    /// The custody account's balance differs from what the taker expects.
    ExpectedAmountMismatch,
    /// Sweeping the escrow-state deposit would overflow the target balance.
    AmountOverflow,
}

impl EscrowError {
    /// The numeric code of this error in the host's custom error-code space.
    pub open spec fn spec_code(self) -> u32 {
        match self {
            EscrowError::InvalidInstruction => 0,
            EscrowError::MissingSignature => 1,
            EscrowError::IncorrectOwningProgram => 2,
            EscrowError::NotRentExempt => 3,
            EscrowError::AccountAlreadyInitialized => 4,
            EscrowError::InvalidAccountData => 5,
            EscrowError::ExpectedAmountMismatch => 6,
            EscrowError::AmountOverflow => 7,
        }
    }

    /// Exhaustive translation of the error taxonomy to numeric codes.
    pub fn code(&self) -> (c: u32)
        ensures
            c == self.spec_code(),
    {
        match self {
            EscrowError::InvalidInstruction => 0,
            EscrowError::MissingSignature => 1,
            EscrowError::IncorrectOwningProgram => 2,
            EscrowError::NotRentExempt => 3,
            EscrowError::AccountAlreadyInitialized => 4,
            EscrowError::InvalidAccountData => 5,
            EscrowError::ExpectedAmountMismatch => 6,
            EscrowError::AmountOverflow => 7,
        }
    }
}

} // verus!
