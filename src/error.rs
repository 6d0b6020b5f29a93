//! The ways an escrow operation can fail.
use vstd::prelude::*;

verus! {

/// Failures particular to the escrow protocol.
#[derive(Debug, Clone, Copy, PartialEq, Eq, Structural)]
pub enum EscrowError {
    /// Unknown tag, or a payload too short.
    InvalidInstruction,
    /// The escrow storage account holds less than the rent-exemption minimum.
    NotRentExempt,
    /// The amount offered on exchange differs from the amount the record expects.
    ExpectedAmountMismatch,
}

/// The numeric code of each protocol failure, in declaration order.
pub open spec fn escrow_error_code(e: EscrowError) -> u32 {
    match e {
        EscrowError::InvalidInstruction => 0,
        EscrowError::NotRentExempt => 1,
        EscrowError::ExpectedAmountMismatch => 2,
    }
}

impl EscrowError {
    /// The numeric code under which the host reports this failure.
    pub fn code(&self) -> (r: u32)
        ensures
            r == escrow_error_code(*self),
    {
        match self {
            EscrowError::InvalidInstruction => 0,
            EscrowError::NotRentExempt => 1,
            EscrowError::ExpectedAmountMismatch => 2,
        }
    }
}

/// Every failure an escrow operation reports: the protocol's own, and the
/// generic account failures of the host runtime.
#[derive(Debug, Clone, Copy, PartialEq, Eq, Structural)]
pub enum ProcessError {
    /// A failure particular to the escrow protocol.
    Custom(EscrowError),
    /// A record does not decode, or a required relation between accounts fails.
    InvalidAccountData,
    /// An account that must authorize the call did not sign it.
    MissingRequiredSignature,
    /// The storage account already holds a live escrow.
    AccountAlreadyInitialized,
    /// A token account holds less than it is asked to send.
    InsufficientFunds,
    /// A balance would exceed the largest representable amount.
    ArithmeticOverflow,
    /// No authority address can be derived for the program.
    InvalidSeeds,
    /// The accounts supplied do not fit the instruction.
    NotEnoughAccountKeys,
}

} // verus!
