//! The vault program's instruction data: a tag byte, then the borsh-encoded payload.
use crate::codec::{at_end, check_end, read_key, read_u64, read_u8, take_key, take_u64, take_u8};
use crate::error::{BorshError, ProgramError};
use crate::key::Pubkey;
use crate::runtime::string_from_utf8;
use vstd::prelude::*;
use vstd::slice::slice_subrange;
use vstd::utf8::{decode_utf8, valid_utf8};

verus! {

/// An instruction to the vault program.
#[derive(Debug)]
pub enum InstructionFormat {
    /// Tag 0: create the vault, on behalf of the calling program.
    CreateVault { program_caller_id: Pubkey, vault_bump: u8 },
    /// Tag 1: add to the vault.
    IncreaseAmount { amount: u64, program_caller_id: Pubkey },
    /// Tag 2: take from the vault.
    WithdrawAmount { amount: u64, program_caller_id: Pubkey },
    /// Tag 3: a confirmation message, the rest of the data as UTF-8.
    LogAction { message: String },
}

pub enum InstructionModel {
    CreateVault { program_caller_id: Seq<u8>, vault_bump: u8 },
    IncreaseAmount { amount: u64, program_caller_id: Seq<u8> },
    WithdrawAmount { amount: u64, program_caller_id: Seq<u8> },
    LogAction { message: Seq<char> },
}

impl View for InstructionFormat {
    type V = InstructionModel;

    open spec fn view(&self) -> InstructionModel {
        match self {
            InstructionFormat::CreateVault { program_caller_id, vault_bump } =>
                InstructionModel::CreateVault {
                program_caller_id: program_caller_id@,
                vault_bump: *vault_bump,
            },
            InstructionFormat::IncreaseAmount { amount, program_caller_id } =>
                InstructionModel::IncreaseAmount {
                amount: *amount,
                program_caller_id: program_caller_id@,
            },
            InstructionFormat::WithdrawAmount { amount, program_caller_id } =>
                InstructionModel::WithdrawAmount {
                amount: *amount,
                program_caller_id: program_caller_id@,
            },
            InstructionFormat::LogAction { message } => InstructionModel::LogAction {
                message: message@,
            },
        }
    }
}

pub open spec fn unpacked(r: Result<InstructionFormat, ProgramError>) -> Result<
    InstructionModel,
    ProgramError,
> {
    match r {
        Ok(i) => Ok(i@),
        Err(e) => Err(e),
    }
}

/// The create payload: the caller's address, then the vault's bump seed, and nothing more.
pub open spec fn decode_create_payload(s: Seq<u8>) -> Result<(Seq<u8>, u8), BorshError> {
    match take_key(s, 0) {
        Err(e) => Err(e),
        Ok((k, p)) => match take_u8(s, p) {
            Err(e) => Err(e),
            Ok((b, q)) => match at_end(s, q) {
                Err(e) => Err(e),
                Ok(_) => Ok((k, b)),
            },
        },
    }
}

/// The deposit and withdraw payload: an amount, then the caller's address, and nothing more.
pub open spec fn decode_amount_payload(s: Seq<u8>) -> Result<(u64, Seq<u8>), BorshError> {
    match take_u64(s, 0) {
        Err(e) => Err(e),
        Ok((a, p)) => match take_key(s, p) {
            Err(e) => Err(e),
            Ok((k, q)) => match at_end(s, q) {
                Err(e) => Err(e),
                Ok(_) => Ok((a, k)),
            },
        },
    }
}

/// What `unpack` gives for these bytes.
pub open spec fn spec_unpack(input: Seq<u8>) -> Result<InstructionModel, ProgramError> {
    if input.len() == 0 {
        Err(ProgramError::InvalidInstructionData)
    } else {
        let tag = input[0];
        let rest = input.subrange(1, input.len() as int);
        if tag == 0 {
            match decode_create_payload(rest) {
                Ok((k, b)) => Ok(InstructionModel::CreateVault { program_caller_id: k, vault_bump: b }),
                Err(e) => Err(ProgramError::BorshIoError(e)),
            }
        } else if tag == 1 {
            match decode_amount_payload(rest) {
                Ok((a, k)) => Ok(InstructionModel::IncreaseAmount { amount: a, program_caller_id: k }),
                Err(e) => Err(ProgramError::BorshIoError(e)),
            }
        } else if tag == 2 {
            match decode_amount_payload(rest) {
                Ok((a, k)) => Ok(InstructionModel::WithdrawAmount { amount: a, program_caller_id: k }),
                Err(e) => Err(ProgramError::BorshIoError(e)),
            }
        } else if tag == 3 {
            if valid_utf8(rest) {
                Ok(InstructionModel::LogAction { message: decode_utf8(rest) })
            } else {
                Err(ProgramError::InvalidInstructionData)
            }
        } else {
            Err(ProgramError::InvalidInstructionData)
        }
    }
}

fn read_create_payload(s: &[u8]) -> (r: Result<(Pubkey, u8), BorshError>)
    ensures
        match r {
            Ok((k, b)) => decode_create_payload(s@) == Ok::<(Seq<u8>, u8), BorshError>((k@, b)),
            Err(e) => decode_create_payload(s@) == Err::<(Seq<u8>, u8), BorshError>(e),
        },
{
    let (k, p) = read_key(s, 0)?;
    let (b, q) = read_u8(s, p)?;
    check_end(s, q)?;
    Ok((k, b))
}

fn read_amount_payload(s: &[u8]) -> (r: Result<(u64, Pubkey), BorshError>)
    ensures
        match r {
            Ok((a, k)) => decode_amount_payload(s@) == Ok::<(u64, Seq<u8>), BorshError>((a, k@)),
            Err(e) => decode_amount_payload(s@) == Err::<(u64, Seq<u8>), BorshError>(e),
        },
{
    let (a, p) = read_u64(s, 0)?;
    let (k, q) = read_key(s, p)?;
    check_end(s, q)?;
    Ok((a, k))
}

impl InstructionFormat {
    /// Reads an instruction: the first byte picks the kind, the rest is its payload.
    pub fn unpack(input: &[u8]) -> (r: Result<InstructionFormat, ProgramError>)
        ensures
            unpacked(r) == spec_unpack(input@),
    {
        if input.len() == 0 {
            return Err(ProgramError::InvalidInstructionData);
        }
        let variant = input[0];
        let rest = slice_subrange(input, 1, input.len());
        if variant == 0 {
            match read_create_payload(rest) {
                Ok((k, b)) => Ok(InstructionFormat::CreateVault { program_caller_id: k, vault_bump: b }),
                Err(e) => Err(ProgramError::BorshIoError(e)),
            }
        } else if variant == 1 {
            match read_amount_payload(rest) {
                Ok((a, k)) => Ok(InstructionFormat::IncreaseAmount { amount: a, program_caller_id: k }),
                Err(e) => Err(ProgramError::BorshIoError(e)),
            }
        } else if variant == 2 {
            match read_amount_payload(rest) {
                Ok((a, k)) => Ok(InstructionFormat::WithdrawAmount { amount: a, program_caller_id: k }),
                Err(e) => Err(ProgramError::BorshIoError(e)),
            }
        } else if variant == 3 {
            match string_from_utf8(rest) {
                Some(message) => Ok(InstructionFormat::LogAction { message }),
                None => Err(ProgramError::InvalidInstructionData),
            }
        } else {
            Err(ProgramError::InvalidInstructionData)
        }
    }
}

} // verus!
