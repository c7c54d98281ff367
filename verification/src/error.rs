//! Errors: the program error codes the runtime sees, and the ways an instruction can fail.
use vstd::prelude::*;

verus! {

/// Why borsh could not read or write a value.
#[derive(Clone, Copy, Debug, PartialEq, Eq, Structural)]
pub enum BorshError {
    /// The input ended before the value did ("Unexpected length of input").
    UnexpectedLength,
    /// Bytes were left over after the value ("Not all bytes read").
    NotAllBytesRead,
    /// A `bool` byte other than 0 or 1 ("Invalid bool representation: b").
    InvalidBool(u8),
    /// The bytes of a string are not UTF-8.
    InvalidUtf8,
    /// A string longer than `u32::MAX` bytes cannot be written ("invalid input parameter").
    LengthTooLarge,
}

/// The program error codes that these programs return.
#[derive(Clone, Copy, Debug, PartialEq, Eq, Structural)]
pub enum ProgramError {
    Custom(u32),
    InvalidArgument,
    InvalidInstructionData,
    InvalidAccountData,
    InsufficientFunds,
    MissingRequiredSignature,
    AccountAlreadyInitialized,
    NotEnoughAccountKeys,
    IllegalOwner,
    BorshIoError(BorshError),
}

/// How an instruction fails: it returns an error, or it aborts.
#[derive(Clone, Copy, Debug, PartialEq, Eq, Structural)]
pub enum Failure {
    /// The instruction returns this error.
    Error(ProgramError),
    /// No bump seed gives a program address for the seeds: the address search aborts
    /// ("Unable to find a viable program address bump seed").
    NoProgramAddress,
    /// The instructions sysvar holds fewer than two bytes: reading the current index aborts.
    ShortInstructionsSysvar,
}

} // verus!
