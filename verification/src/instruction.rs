use vstd::prelude::*;
use vstd::bytes::spec_u64_from_le_bytes;
use vstd::bytes::u64_from_le_bytes;
use vstd::slice::slice_subrange;
use crate::error::EscrowError;

verus! {

/// A decoded command: the first instruction byte is the discriminant tag,
/// the next eight bytes are a little-endian unsigned amount.
#[derive(Clone, Copy, Debug, PartialEq, Eq, Structural)]
pub enum EscrowInstruction {
    /// Open an escrow expecting `amount` of the counter token.
    InitEscrow { amount: u64 },
    /// Take the open escrow, supplying `amount` as the expected custody balance.
    Exchange { amount: u64 },
}

/// What reading an amount from a payload yields: the first eight bytes as a
/// little-endian unsigned 64-bit value; fewer than eight bytes is a format error.
pub open spec fn spec_unpack_amount(input: Seq<u8>) -> Result<u64, EscrowError> {
    if input.len() >= 8 {
        Ok(spec_u64_from_le_bytes(input.subrange(0, 8)))
    } else {
        Err(EscrowError::InvalidInstruction)
    }
}

/// What decoding an instruction buffer yields: tag byte 0 opens an escrow,
/// tag byte 1 takes it, anything else is rejected; the payload must carry at
/// least eight bytes of amount, and trailing bytes beyond those are ignored.
pub open spec fn spec_unpack(input: Seq<u8>) -> Result<EscrowInstruction, EscrowError> {
    if input.len() == 0 {
        Err(EscrowError::InvalidInstruction)
    } else if input[0] == 0 {
        match spec_unpack_amount(input.skip(1)) {
            Ok(amount) => Ok(EscrowInstruction::InitEscrow { amount }),
            Err(e) => Err(e),
        }
    } else if input[0] == 1 {
        match spec_unpack_amount(input.skip(1)) {
            Ok(amount) => Ok(EscrowInstruction::Exchange { amount }),
            Err(e) => Err(e),
        }
    } else {
        Err(EscrowError::InvalidInstruction)
    }
}

impl EscrowInstruction {
    /// Read a little-endian unsigned 64-bit amount from the front of a payload.
    pub fn unpack_amount(input: &[u8]) -> (r: Result<u64, EscrowError>)
        ensures
            r == spec_unpack_amount(input@),
    {
        if input.len() >= 8 {
            let head = slice_subrange(input, 0, 8);
            Ok(u64_from_le_bytes(head))
        } else {
            Err(EscrowError::InvalidInstruction)
        }
    }

    /// Decode an instruction buffer into a typed command.
    pub fn unpack(input: &[u8]) -> (r: Result<EscrowInstruction, EscrowError>)
        ensures
            r == spec_unpack(input@),
    {
        if input.len() == 0 {
            return Err(EscrowError::InvalidInstruction);
        }
        let tag = *vstd::slice::slice_index_get(input, 0);
        let rest = slice_subrange(input, 1, input.len());
        proof {
            assert(rest@ =~= input@.skip(1));
        }
        if tag == 0 {
            match Self::unpack_amount(rest) {
                Ok(amount) => Ok(EscrowInstruction::InitEscrow { amount }),
                Err(e) => Err(e),
            }
        } else if tag == 1 {
            match Self::unpack_amount(rest) {
                Ok(amount) => Ok(EscrowInstruction::Exchange { amount }),
                Err(e) => Err(e),
            }
        } else {
            Err(EscrowError::InvalidInstruction)
        }
    }
}

} // verus!
