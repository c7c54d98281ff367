//! Calls into the Solana runtime library and std whose results the programs' logic uses.
//! These are trusted: each contract states what the called function does.
use crate::account::bytes_seqs;
use crate::codec::{i64_le, u16_le};
use crate::key::{clock_sysvar_key, Pubkey};
use solana_program::sysvar::Sysvar;
use vstd::prelude::*;
use vstd::utf8::{decode_utf8, valid_utf8};

verus! {

/// The program address and bump seed that `Pubkey::try_find_program_address` finds for
/// these seeds and program id, or `None` when it finds none (no bump seed from 255 down
/// to 1 gives an address off the ed25519 curve, or the seeds are too many or too long).
pub uninterp spec fn program_address(seeds: Seq<Seq<u8>>, program_id: Seq<u8>) -> Option<(Seq<u8>, u8)>;

/// Whether `sysvar::instructions::load_instruction_at(index, data)` reads an instruction
/// out of these instructions-sysvar bytes (rather than failing on data too short for what
/// it holds, or an index out of range). The bytes hold the number of instructions (a
/// little-endian `u16`), then a `u16` offset per instruction; at an instruction's offset
/// stand its number of accounts (`u16`), 33 bytes per account (a flag byte and an
/// address), the 32-byte program id, its data length (`u16`) and its data.
pub open spec fn instruction_at_loads(index: usize, data: Seq<u8>) -> bool {
    &&& data.len() >= 2
    &&& index < u16_le(data, 0)
    &&& 4 + 2 * index <= data.len()
    &&& {
        let start = u16_le(data, 2 + 2 * index);
        let accounts_end = start + 2 + 33 * u16_le(data, start as int);
        &&& start + 2 <= data.len()
        &&& accounts_end + 34 <= data.len()
        &&& accounts_end + 34 + u16_le(data, accounts_end + 32) <= data.len()
    }
}

/// Calls `solana_program::pubkey::Pubkey::try_find_program_address`. Its result is a
/// function of the seeds and the program id alone (a search over bump seeds with SHA-256
/// and a curve test); the contract names it and states nothing more of it.
#[verifier::external_body]
pub(crate) fn find_program_address(seeds: &Vec<Vec<u8>>, program_id: &Pubkey) -> (r: Option<(Pubkey, u8)>)
    ensures
        address_view(r) == program_address(bytes_seqs(seeds@), program_id@),
{
    let refs: Vec<&[u8]> = seeds.iter().map(|s| s.as_slice()).collect();
    let id = solana_program::pubkey::Pubkey::new_from_array(program_id.bytes);
    solana_program::pubkey::Pubkey::try_find_program_address(&refs, &id).map(
        |(k, b)| (Pubkey { bytes: k.to_bytes() }, b),
    )
}

/// Calls `solana_program::sysvar::Sysvar::from_account_info` for `Clock` on an account with
/// this key and data, and keeps `unix_timestamp`. That function checks the key against the
/// clock sysvar's id, then reads the data with `bincode::deserialize` (fixed-width
/// little-endian integers, trailing bytes allowed): five 8-byte fields, the last of which
/// is `unix_timestamp`. Both failures are `ProgramError::InvalidArgument` from it; here they
/// are `None`.
#[verifier::external_body]
pub(crate) fn clock_unix_timestamp(key: &Pubkey, data: &[u8]) -> (r: Option<i64>)
    ensures
        r is Some <==> (key@ == clock_sysvar_key()@ && data@.len() >= 40),
        r matches Some(t) ==> t == i64_le(data@, 32),
{
    let k = solana_program::pubkey::Pubkey::new_from_array(key.bytes);
    let owner = solana_program::pubkey::Pubkey::default();
    let mut lamports: u64 = 0;
    let mut bytes = data.to_vec();
    let info = solana_program::account_info::AccountInfo::new(
        &k, false, false, &mut lamports, &mut bytes, &owner, false, 0,
    );
    solana_program::clock::Clock::from_account_info(&info).ok().map(|c| c.unix_timestamp)
}

/// Calls `solana_program::sysvar::instructions::load_current_index`, which reads the last
/// two bytes of the instructions sysvar as a little-endian `u16` (and panics on fewer).
#[verifier::external_body]
#[allow(deprecated)]
pub(crate) fn load_current_index(data: &[u8]) -> (r: u16)
    requires
        data@.len() >= 2,
    ensures
        r == u16_le(data@, data@.len() - 2),
{
    solana_program::sysvar::instructions::load_current_index(data)
}

/// Calls `solana_program::sysvar::instructions::load_instruction_at` and keeps only whether
/// it succeeded; the instruction it reads is not used. Every read it makes is checked
/// against the data's length, so it fails exactly when one of them would run past the end
/// or the index is not below the number of instructions.
#[verifier::external_body]
#[allow(deprecated)]
pub(crate) fn load_instruction_ok(index: usize, data: &[u8]) -> (r: bool)
    ensures
        r == instruction_at_loads(index, data@),
{
    solana_program::sysvar::instructions::load_instruction_at(index, data).is_ok()
}

/// Calls `std::string::String::from_utf8`, which succeeds exactly on valid UTF-8 and then
/// holds the decoded characters.
#[verifier::external_body]
pub(crate) fn string_from_utf8(bytes: &[u8]) -> (r: Option<String>)
    ensures
        r is Some <==> valid_utf8(bytes@),
        r matches Some(s) ==> s@ == decode_utf8(bytes@),
{
    String::from_utf8(bytes.to_vec()).ok()
}

} // verus!

verus! {

/// A found program address and bump seed, as plain values.
pub open spec fn address_view(a: Option<(Pubkey, u8)>) -> Option<(Seq<u8>, u8)> {
    match a {
        Some((k, b)) => Some((k@, b)),
        None => None,
    }
}

} // verus!
