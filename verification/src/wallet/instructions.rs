//! The wallet program's instruction data: a tag byte, then the borsh-encoded payload.
use crate::codec::{at_end, check_end, read_u64, take_u64};
use crate::error::{BorshError, ProgramError};
use vstd::prelude::*;
use vstd::slice::slice_subrange;

verus! {

/// An instruction to the wallet program.
#[derive(Clone, Copy, Debug, PartialEq, Eq, Structural)]
pub enum InstructionFormat {
    /// Tag 0: create the signer's wallet.
    CreateAccount {},
    /// Tag 1: add to the signer's wallet.
    IncreaseAmount { amount: u64 },
    /// Tag 2: take from the signer's wallet.
    WithdrawAmount { amount: u64 },
    /// Tag 3: move from the signer's wallet to another user's wallet.
    TransferAmount { amount: u64 },
}

/// The amount payload: one `u64`, and nothing more.
pub open spec fn decode_amount(s: Seq<u8>) -> Result<u64, BorshError> {
    match take_u64(s, 0) {
        Err(e) => Err(e),
        Ok((a, p)) => match at_end(s, p) {
            Err(e) => Err(e),
            Ok(_) => Ok(a),
        },
    }
}

/// What `unpack` gives for these bytes.
pub open spec fn spec_unpack(input: Seq<u8>) -> Result<InstructionFormat, ProgramError> {
    if input.len() == 0 {
        Err(ProgramError::InvalidInstructionData)
    } else {
        let tag = input[0];
        let rest = input.subrange(1, input.len() as int);
        if tag == 0 {
            Ok(InstructionFormat::CreateAccount {  })
        } else if tag == 1 || tag == 2 || tag == 3 {
            match decode_amount(rest) {
                Err(e) => Err(ProgramError::BorshIoError(e)),
                Ok(amount) => if tag == 1 {
                    Ok(InstructionFormat::IncreaseAmount { amount })
                } else if tag == 2 {
                    Ok(InstructionFormat::WithdrawAmount { amount })
                } else {
                    Ok(InstructionFormat::TransferAmount { amount })
                },
            }
        } else {
            Err(ProgramError::InvalidInstructionData)
        }
    }
}

fn read_amount(s: &[u8]) -> (r: Result<u64, BorshError>)
    ensures
        r == decode_amount(s@),
{
    let (a, p) = read_u64(s, 0)?;
    check_end(s, p)?;
    Ok(a)
}

impl InstructionFormat {
    /// Reads an instruction: the first byte picks the kind, the rest is its payload.
    pub fn unpack(input: &[u8]) -> (r: Result<InstructionFormat, ProgramError>)
        ensures
            r == spec_unpack(input@),
    {
        if input.len() == 0 {
            return Err(ProgramError::InvalidInstructionData);
        }
        let variant = input[0];
        let rest = slice_subrange(input, 1, input.len());
        if variant == 0 {
            Ok(InstructionFormat::CreateAccount {  })
        } else if variant == 1 {
            match read_amount(rest) {
                Ok(amount) => Ok(InstructionFormat::IncreaseAmount { amount }),
                Err(e) => Err(ProgramError::BorshIoError(e)),
            }
        } else if variant == 2 {
            match read_amount(rest) {
                Ok(amount) => Ok(InstructionFormat::WithdrawAmount { amount }),
                Err(e) => Err(ProgramError::BorshIoError(e)),
            }
        } else if variant == 3 {
            match read_amount(rest) {
                Ok(amount) => Ok(InstructionFormat::TransferAmount { amount }),
                Err(e) => Err(ProgramError::BorshIoError(e)),
            }
        } else {
            Err(ProgramError::InvalidInstructionData)
        }
    }
}

} // verus!
