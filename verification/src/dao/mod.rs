//! The voting program: an administrator, members with governance points, proposals that
//! members vote on with their points, and calls into the vault program that the
//! administrator or a member makes on the DAO's behalf.
pub mod instructions;
pub mod laws;
pub mod processor;
pub mod state;

use crate::error::ProgramError;
use crate::key::{vault_program_key, Pubkey};
use vstd::prelude::*;

verus! {

/// The voting program's own error codes.
#[derive(Clone, Copy, Debug, PartialEq, Eq, Structural)]
pub enum MyError {
    /// The proposal's voting time does not allow the action (code 0).
    TimeLimit,
    /// A subtraction would go below zero (code 1).
    ArithmeticError,
}

impl From<MyError> for ProgramError {
    fn from(e: MyError) -> (r: ProgramError) {
        match e {
            MyError::TimeLimit => ProgramError::Custom(0),
            MyError::ArithmeticError => ProgramError::Custom(1),
        }
    }
}

impl vstd::std_specs::convert::FromSpecImpl<MyError> for ProgramError {
    open spec fn obeys_from_spec() -> bool {
        true
    }

    open spec fn from_spec(e: MyError) -> ProgramError {
        match e {
            MyError::TimeLimit => ProgramError::Custom(0),
            MyError::ArithmeticError => ProgramError::Custom(1),
        }
    }
}

/// The address of the vault program that the DAO calls into,
/// `6dVLkpmd5BvVQF7oXpipnQFtKwba2uQkMMwzHnaqf8Gr`.
pub fn vault_program_id() -> (r: Pubkey)
    ensures
        r == vault_program_key(),
{
    Pubkey {
        bytes: [
            83, 163, 99, 122, 199, 240, 174, 136, 234, 110, 78, 59, 224, 157, 93, 103, 205, 150, 88,
            53, 227, 126, 244, 46, 100, 217, 151, 138, 221, 160, 84, 99,
        ],
    }
}

/// The name of a vault action, by its number.
pub fn action_as_str(action: u8) -> (r: &'static str)
    ensures
        action == 0 ==> r@ == "Create"@,
        action == 1 ==> r@ == "Deposit"@,
        action == 2 ==> r@ == "Withdraw"@,
        action > 2 ==> r@ == "Unknown"@,
{
    match action {
        0 => "Create",
        1 => "Deposit",
        2 => "Withdraw",
        _ => "Unknown",
    }
}

} // verus!
