//! The instruction wire format: a tag byte, then the operation's payload.
use vstd::prelude::*;
use vstd::slice::slice_subrange;
use crate::bytes::{le_value, read_u64_le};
use crate::error::{EscrowError, ProcessError};

verus! {

/// An operation of the escrow protocol.
#[derive(Debug, Clone, Copy, PartialEq, Eq, Structural)]
pub enum EscrowInstruction {
    /// Starts a trade: the storage account records the trade, and ownership of
    /// the initializer's temporary token account passes to the derived authority.
    ///
    /// Accounts expected:
    /// 0. `[signer]` the initializer
    /// 1. `[writable]` the temporary token account, owned by the initializer
    /// 2. `[]` the initializer's token account that receives the payment
    /// 3. `[writable]` the escrow storage account
    /// 4. `[]` the rent sysvar
    /// 5. `[]` the token program
    InitEscrow {
        /// The amount of token Y party A expects to receive.
        amount: u64,
    },
    /// Accepts a trade.
    ///
    /// Accounts expected:
    /// 0. `[signer]` the taker
    /// 1. `[writable]` the taker's token account for the token they send
    /// 2. `[writable]` the taker's token account for the token they receive
    /// 3. `[writable]` the temporary token account, owned by the derived authority
    /// 4. `[writable]` the initializer's main account, which gets the rent back
    /// 5. `[writable]` the initializer's token account that receives the payment
    /// 6. `[writable]` the escrow storage account
    /// 7. `[]` the token program
    /// 8. `[]` the derived authority
    Exchange {
        /// The amount the taker pays, which must match the record.
        amount: u64,
    },
}

/// The instruction that `s` encodes, if any.
pub open spec fn instruction_decode(s: Seq<u8>) -> Option<EscrowInstruction> {
    if s.len() < 9 {
        None
    } else if s[0] == 0 {
        Some(EscrowInstruction::InitEscrow { amount: le_value(s.subrange(1, 9)) })
    } else if s[0] == 1 {
        Some(EscrowInstruction::Exchange { amount: le_value(s.subrange(1, 9)) })
    } else {
        None
    }
}

/// The failure reported for every malformed instruction.
pub open spec fn invalid_instruction() -> ProcessError {
    ProcessError::Custom(EscrowError::InvalidInstruction)
}

impl EscrowInstruction {
    /// Decodes an instruction: tag 0 or 1 followed by a little-endian `u64`.
    /// Bytes past the amount are ignored.
    pub fn unpack(input: &[u8]) -> (r: Result<Self, ProcessError>)
        ensures
            match instruction_decode(input@) {
                Some(i) => r == Ok::<Self, ProcessError>(i),
                None => r == Err::<Self, ProcessError>(invalid_instruction()),
            },
    {
        if input.len() == 0 {
            return Err(ProcessError::Custom(EscrowError::InvalidInstruction));
        }
        let tag = input[0];
        let rest = slice_subrange(input, 1, input.len());
        proof {
            if input@.len() >= 9 {
                assert(rest@.subrange(0, 8) =~= input@.subrange(1, 9));
            }
        }
        if tag == 0 {
            let amount = unpack_amount(rest)?;
            Ok(EscrowInstruction::InitEscrow { amount })
        } else if tag == 1 {
            let amount = unpack_amount(rest)?;
            Ok(EscrowInstruction::Exchange { amount })
        } else {
            Err(ProcessError::Custom(EscrowError::InvalidInstruction))
        }
    }
}

/// Reads the little-endian amount at the start of `input`.
pub fn unpack_amount(input: &[u8]) -> (r: Result<u64, ProcessError>)
    ensures
        input@.len() >= 8 ==> r == Ok::<u64, ProcessError>(le_value(input@.subrange(0, 8))),
        input@.len() < 8 ==> r == Err::<u64, ProcessError>(invalid_instruction()),
{
    if input.len() < 8 {
        return Err(ProcessError::Custom(EscrowError::InvalidInstruction));
    }
    Ok(read_u64_le(input, 0))
}

} // verus!
