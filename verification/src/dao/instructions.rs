//! The voting program's instruction data: a tag byte, then the borsh-encoded payload.
use crate::codec::{
    at_end, bool_byte, check_end, lemma_take_string, lemma_take_u32, lemma_take_u64, read_bool, read_key,
    read_string, read_u64, read_u8, string_bytes, string_fits, take_bool, take_key, take_string,
    take_u64, take_u8, u32_bytes, u64_bytes,
};
use crate::error::{BorshError, ProgramError};
use crate::key::Pubkey;
use vstd::prelude::*;
use vstd::slice::slice_subrange;

verus! {

/// An instruction to the voting program.
#[derive(Debug)]
pub enum InstructionFormat {
    /// Tag 0: make the signer the administrator.
    CreateAdmin {},
    /// Tag 1: hand the administrator role to `new_admin`.
    UpdateAdmin { new_admin: Pubkey },
    /// Tag 2: register the signer as a member (the program grants its own starting points).
    CreateAccount { amount_governance_points: u64 },
    /// Tag 3: open a proposal.
    OpenProposal { title: String, description: String },
    /// Tag 4: vote yes (`true`) or no on a proposal.
    Vote { vote_answer: bool },
    /// Tag 5: add (`true`) or remove governance points of a member.
    ManagePoints { amount: u64, instruction: bool },
    /// Tag 6: call the vault program: 0 creates the vault, 1 deposits, 2 withdraws.
    ExecuteIntrs { variant_instr: u8, amount: u64, vault_bump: u8 },
    /// Tag 7: close a proposal whose voting time is over.
    MakeDecision {},
}

pub enum InstructionModel {
    CreateAdmin,
    UpdateAdmin { new_admin: Seq<u8> },
    CreateAccount { amount_governance_points: u64 },
    OpenProposal { title: Seq<char>, description: Seq<char> },
    Vote { vote_answer: bool },
    ManagePoints { amount: u64, instruction: bool },
    ExecuteIntrs { variant_instr: u8, amount: u64, vault_bump: u8 },
    MakeDecision,
}

impl View for InstructionFormat {
    type V = InstructionModel;

    open spec fn view(&self) -> InstructionModel {
        match self {
            InstructionFormat::CreateAdmin {  } => InstructionModel::CreateAdmin,
            InstructionFormat::UpdateAdmin { new_admin } => InstructionModel::UpdateAdmin {
                new_admin: new_admin@,
            },
            InstructionFormat::CreateAccount { amount_governance_points } =>
                InstructionModel::CreateAccount { amount_governance_points: *amount_governance_points },
            InstructionFormat::OpenProposal { title, description } =>
                InstructionModel::OpenProposal { title: title@, description: description@ },
            InstructionFormat::Vote { vote_answer } => InstructionModel::Vote {
                vote_answer: *vote_answer,
            },
            InstructionFormat::ManagePoints { amount, instruction } =>
                InstructionModel::ManagePoints { amount: *amount, instruction: *instruction },
            InstructionFormat::ExecuteIntrs { variant_instr, amount, vault_bump } =>
                InstructionModel::ExecuteIntrs {
                variant_instr: *variant_instr,
                amount: *amount,
                vault_bump: *vault_bump,
            },
            InstructionFormat::MakeDecision {  } => InstructionModel::MakeDecision,
        }
    }
}

pub open spec fn unpacked(r: Result<InstructionFormat, ProgramError>) -> Result<
    InstructionModel,
    ProgramError,
> {
    match r {
        Ok(i) => Ok(i@),
        Err(e) => Err(e),
    }
}

/// Tag 1's payload: an address.
pub open spec fn decode_update_admin(s: Seq<u8>) -> Result<InstructionModel, BorshError> {
    match take_key(s, 0) {
        Err(e) => Err(e),
        Ok((k, p)) => match at_end(s, p) {
            Err(e) => Err(e),
            Ok(_) => Ok(InstructionModel::UpdateAdmin { new_admin: k }),
        },
    }
}

/// Tag 2's payload: a `u64`.
pub open spec fn decode_create_account(s: Seq<u8>) -> Result<InstructionModel, BorshError> {
    match take_u64(s, 0) {
        Err(e) => Err(e),
        Ok((a, p)) => match at_end(s, p) {
            Err(e) => Err(e),
            Ok(_) => Ok(InstructionModel::CreateAccount { amount_governance_points: a }),
        },
    }
}

/// Tag 3's payload: two strings.
pub open spec fn decode_open_proposal(s: Seq<u8>) -> Result<InstructionModel, BorshError> {
    match take_string(s, 0) {
        Err(e) => Err(e),
        Ok((title, p)) => match take_string(s, p) {
            Err(e) => Err(e),
            Ok((description, q)) => match at_end(s, q) {
                Err(e) => Err(e),
                Ok(_) => Ok(InstructionModel::OpenProposal { title, description }),
            },
        },
    }
}

/// Tag 4's payload: a `bool`.
pub open spec fn decode_vote(s: Seq<u8>) -> Result<InstructionModel, BorshError> {
    match take_bool(s, 0) {
        Err(e) => Err(e),
        Ok((b, p)) => match at_end(s, p) {
            Err(e) => Err(e),
            Ok(_) => Ok(InstructionModel::Vote { vote_answer: b }),
        },
    }
}

/// Tag 5's payload: a `u64`, then a `bool`.
pub open spec fn decode_manage_points(s: Seq<u8>) -> Result<InstructionModel, BorshError> {
    match take_u64(s, 0) {
        Err(e) => Err(e),
        Ok((a, p)) => match take_bool(s, p) {
            Err(e) => Err(e),
            Ok((b, q)) => match at_end(s, q) {
                Err(e) => Err(e),
                Ok(_) => Ok(InstructionModel::ManagePoints { amount: a, instruction: b }),
            },
        },
    }
}

/// Tag 6's payload: a byte, a `u64`, a byte.
pub open spec fn decode_execute(s: Seq<u8>) -> Result<InstructionModel, BorshError> {
    match take_u8(s, 0) {
        Err(e) => Err(e),
        Ok((v, p)) => match take_u64(s, p) {
            Err(e) => Err(e),
            Ok((a, q)) => match take_u8(s, q) {
                Err(e) => Err(e),
                Ok((b, r)) => match at_end(s, r) {
                    Err(e) => Err(e),
                    Ok(_) => Ok(
                        InstructionModel::ExecuteIntrs { variant_instr: v, amount: a, vault_bump: b },
                    ),
                },
            },
        },
    }
}

pub open spec fn borsh_payload(r: Result<InstructionModel, BorshError>) -> Result<
    InstructionModel,
    ProgramError,
> {
    match r {
        Ok(i) => Ok(i),
        Err(e) => Err(ProgramError::BorshIoError(e)),
    }
}

/// What `unpack` gives for these bytes. Tags 0 and 7 ignore the rest of the data.
pub open spec fn spec_unpack(input: Seq<u8>) -> Result<InstructionModel, ProgramError> {
    if input.len() == 0 {
        Err(ProgramError::InvalidInstructionData)
    } else {
        let tag = input[0];
        let rest = input.subrange(1, input.len() as int);
        if tag == 0 {
            Ok(InstructionModel::CreateAdmin)
        } else if tag == 1 {
            borsh_payload(decode_update_admin(rest))
        } else if tag == 2 {
            borsh_payload(decode_create_account(rest))
        } else if tag == 3 {
            borsh_payload(decode_open_proposal(rest))
        } else if tag == 4 {
            borsh_payload(decode_vote(rest))
        } else if tag == 5 {
            borsh_payload(decode_manage_points(rest))
        } else if tag == 6 {
            borsh_payload(decode_execute(rest))
        } else if tag == 7 {
            Ok(InstructionModel::MakeDecision)
        } else {
            Err(ProgramError::InvalidInstructionData)
        }
    }
}

pub open spec fn lift(r: Result<InstructionFormat, BorshError>) -> Result<InstructionModel, BorshError> {
    match r {
        Ok(i) => Ok(i@),
        Err(e) => Err(e),
    }
}

fn read_update_admin(s: &[u8]) -> (r: Result<InstructionFormat, BorshError>)
    ensures
        lift(r) == decode_update_admin(s@),
{
    let (new_admin, p) = read_key(s, 0)?;
    check_end(s, p)?;
    Ok(InstructionFormat::UpdateAdmin { new_admin })
}

fn read_create_account(s: &[u8]) -> (r: Result<InstructionFormat, BorshError>)
    ensures
        lift(r) == decode_create_account(s@),
{
    let (amount_governance_points, p) = read_u64(s, 0)?;
    check_end(s, p)?;
    Ok(InstructionFormat::CreateAccount { amount_governance_points })
}

fn read_open_proposal(s: &[u8]) -> (r: Result<InstructionFormat, BorshError>)
    ensures
        lift(r) == decode_open_proposal(s@),
{
    let (title, p) = read_string(s, 0)?;
    let (description, q) = read_string(s, p)?;
    check_end(s, q)?;
    Ok(InstructionFormat::OpenProposal { title, description })
}

fn read_vote(s: &[u8]) -> (r: Result<InstructionFormat, BorshError>)
    ensures
        lift(r) == decode_vote(s@),
{
    let (vote_answer, p) = read_bool(s, 0)?;
    check_end(s, p)?;
    Ok(InstructionFormat::Vote { vote_answer })
}

fn read_manage_points(s: &[u8]) -> (r: Result<InstructionFormat, BorshError>)
    ensures
        lift(r) == decode_manage_points(s@),
{
    let (amount, p) = read_u64(s, 0)?;
    let (instruction, q) = read_bool(s, p)?;
    check_end(s, q)?;
    Ok(InstructionFormat::ManagePoints { amount, instruction })
}

fn read_execute(s: &[u8]) -> (r: Result<InstructionFormat, BorshError>)
    ensures
        lift(r) == decode_execute(s@),
{
    let (variant_instr, p) = read_u8(s, 0)?;
    let (amount, q) = read_u64(s, p)?;
    let (vault_bump, r) = read_u8(s, q)?;
    check_end(s, r)?;
    Ok(InstructionFormat::ExecuteIntrs { variant_instr, amount, vault_bump })
}

fn payload(r: Result<InstructionFormat, BorshError>) -> (out: Result<InstructionFormat, ProgramError>)
    ensures
        unpacked(out) == borsh_payload(lift(r)),
{
    match r {
        Ok(i) => Ok(i),
        Err(e) => Err(ProgramError::BorshIoError(e)),
    }
}

impl InstructionFormat {
    /// Reads an instruction: the first byte picks the kind, the rest is its payload.
    pub fn unpack(input: &[u8]) -> (r: Result<InstructionFormat, ProgramError>)
        ensures
            unpacked(r) == spec_unpack(input@),
    {
        if input.len() == 0 {
            return Err(ProgramError::InvalidInstructionData);
        }
        let variant = input[0];
        let rest = slice_subrange(input, 1, input.len());
        if variant == 0 {
            Ok(InstructionFormat::CreateAdmin {  })
        } else if variant == 1 {
            payload(read_update_admin(rest))
        } else if variant == 2 {
            payload(read_create_account(rest))
        } else if variant == 3 {
            payload(read_open_proposal(rest))
        } else if variant == 4 {
            payload(read_vote(rest))
        } else if variant == 5 {
            payload(read_manage_points(rest))
        } else if variant == 6 {
            payload(read_execute(rest))
        } else if variant == 7 {
            Ok(InstructionFormat::MakeDecision {  })
        } else {
            Err(ProgramError::InvalidInstructionData)
        }
    }
}

} // verus!

verus! {

// ---------------------------------------------------------------------------------------
// Encoding
// ---------------------------------------------------------------------------------------

/// The tag byte of an instruction.
pub open spec fn instruction_tag(i: InstructionModel) -> u8 {
    match i {
        InstructionModel::CreateAdmin => 0,
        InstructionModel::UpdateAdmin { .. } => 1,
        InstructionModel::CreateAccount { .. } => 2,
        InstructionModel::OpenProposal { .. } => 3,
        InstructionModel::Vote { .. } => 4,
        InstructionModel::ManagePoints { .. } => 5,
        InstructionModel::ExecuteIntrs { .. } => 6,
        InstructionModel::MakeDecision => 7,
    }
}

/// The borsh encoding of an instruction's payload: its fields in order.
pub open spec fn encode_payload(i: InstructionModel) -> Seq<u8> {
    match i {
        InstructionModel::CreateAdmin => Seq::empty(),
        InstructionModel::UpdateAdmin { new_admin } => new_admin,
        InstructionModel::CreateAccount { amount_governance_points } => u64_bytes(
            amount_governance_points,
        ),
        InstructionModel::OpenProposal { title, description } => string_bytes(title)
            + string_bytes(description),
        InstructionModel::Vote { vote_answer } => seq![bool_byte(vote_answer)],
        InstructionModel::ManagePoints { amount, instruction } => u64_bytes(amount).push(
            bool_byte(instruction),
        ),
        InstructionModel::ExecuteIntrs { variant_instr, amount, vault_bump } => seq![variant_instr]
            + u64_bytes(amount) + seq![vault_bump],
        InstructionModel::MakeDecision => Seq::empty(),
    }
}

/// An instruction's data: the tag byte, then the payload.
pub open spec fn encode_instruction(i: InstructionModel) -> Seq<u8> {
    seq![instruction_tag(i)] + encode_payload(i)
}

/// Whether an instruction has an encoding: an address is 32 bytes, and each string's UTF-8
/// length fits the `u32` prefix.
pub open spec fn encodable(i: InstructionModel) -> bool {
    match i {
        InstructionModel::UpdateAdmin { new_admin } => new_admin.len() == 32,
        InstructionModel::OpenProposal { title, description } => string_fits(title)
            && string_fits(description),
        _ => true,
    }
}

/// Whether the instruction has no payload, so that `unpack` ignores the bytes after the tag.
pub open spec fn tag_only(i: InstructionModel) -> bool {
    i is CreateAdmin || i is MakeDecision
}

/// The payload decoder of an instruction's kind.
pub open spec fn decode_payload(i: InstructionModel, s: Seq<u8>) -> Result<InstructionModel, BorshError> {
    match i {
        InstructionModel::UpdateAdmin { .. } => decode_update_admin(s),
        InstructionModel::CreateAccount { .. } => decode_create_account(s),
        InstructionModel::OpenProposal { .. } => decode_open_proposal(s),
        InstructionModel::Vote { .. } => decode_vote(s),
        InstructionModel::ManagePoints { .. } => decode_manage_points(s),
        InstructionModel::ExecuteIntrs { .. } => decode_execute(s),
        _ => Ok(i),
    }
}

/// `unpack` sees the tag and the rest of the data.
proof fn lemma_unpack_split(i: InstructionModel, rest: Seq<u8>)
    ensures
        spec_unpack(seq![instruction_tag(i)] + rest) == if tag_only(i) {
            Ok::<InstructionModel, ProgramError>(i)
        } else {
            borsh_payload(decode_payload(i, rest))
        },
{
    let input = seq![instruction_tag(i)] + rest;
    assert(input[0] == instruction_tag(i));
    assert(input.subrange(1, input.len() as int) =~= rest);
}

/// Decoding a payload followed by more bytes: the fields are read back, and every byte
/// must have been read.
proof fn lemma_decode_payload_then(i: InstructionModel, extra: Seq<u8>)
    requires
        encodable(i),
        !tag_only(i),
        encode_payload(i).len() + extra.len() <= usize::MAX,
    ensures
        decode_payload(i, encode_payload(i) + extra) == if extra.len() == 0 {
            Ok::<InstructionModel, BorshError>(i)
        } else {
            Err(BorshError::NotAllBytesRead)
        },
{
    let e = encode_payload(i);
    let s = e + extra;
    match i {
        InstructionModel::UpdateAdmin { new_admin } => {
            assert(s.subrange(0, 32) =~= new_admin);
        },
        InstructionModel::CreateAccount { amount_governance_points } => {
            assert(s.subrange(0, 8) =~= u64_bytes(amount_governance_points));
            lemma_take_u64(s, 0, amount_governance_points);
        },
        InstructionModel::OpenProposal { title, description } => {
            let t = string_bytes(title);
            let d = string_bytes(description);
            assert(s.subrange(0, t.len() as int) =~= t);
            lemma_take_string(s, 0, title);
            assert(s.subrange(t.len() as int, (t.len() + d.len()) as int) =~= d);
            lemma_take_string(s, t.len() as usize, description);
        },
        InstructionModel::Vote { vote_answer } => {
            assert(s[0] == bool_byte(vote_answer));
        },
        InstructionModel::ManagePoints { amount, instruction } => {
            assert(s.subrange(0, 8) =~= u64_bytes(amount));
            lemma_take_u64(s, 0, amount);
            assert(s[8] == bool_byte(instruction));
        },
        InstructionModel::ExecuteIntrs { variant_instr, amount, vault_bump } => {
            assert(s[0] == variant_instr);
            assert(s.subrange(1, 9) =~= u64_bytes(amount));
            lemma_take_u64(s, 1, amount);
            assert(s[9] == vault_bump);
        },
        _ => {},
    }
}

/// A string encoding cut short is read as too short.
proof fn lemma_take_string_cut(s: Seq<u8>, pos: usize, chars: Seq<char>, m: int)
    requires
        string_fits(chars),
        pos + string_bytes(chars).len() <= s.len() <= usize::MAX,
        s.subrange(pos as int, pos + string_bytes(chars).len()) == string_bytes(chars),
        pos <= m < pos + string_bytes(chars).len(),
    ensures
        take_string(s.subrange(0, m), pos) == Err::<(Seq<char>, usize), BorshError>(
            BorshError::UnexpectedLength,
        ),
{
    let c = s.subrange(0, m);
    let b = string_bytes(chars);
    if pos + 4 <= m {
        let n = vstd::utf8::encode_utf8(chars).len();
        assert(c.subrange(pos as int, pos + 4) =~= b.subrange(0, 4));
        assert(b.subrange(0, 4) =~= u32_bytes(n as u32));
        lemma_take_u32(c, pos, n as u32);
    }
}

/// Decoding a payload cut short fails: the data ends before a field does.
proof fn lemma_decode_payload_cut(i: InstructionModel, m: int)
    requires
        encodable(i),
        !tag_only(i),
        encode_payload(i).len() <= usize::MAX,
        0 <= m < encode_payload(i).len(),
    ensures
        decode_payload(i, encode_payload(i).subrange(0, m)) == Err::<InstructionModel, BorshError>(
            BorshError::UnexpectedLength,
        ),
{
    let e = encode_payload(i);
    let c = e.subrange(0, m);
    match i {
        InstructionModel::OpenProposal { title, description } => {
            let t = string_bytes(title);
            let d = string_bytes(description);
            assert(e.subrange(0, t.len() as int) =~= t);
            if m < t.len() {
                lemma_take_string_cut(e, 0, title, m);
            } else {
                assert(c.subrange(0, t.len() as int) =~= t);
                lemma_take_string(c, 0, title);
                assert(e.subrange(t.len() as int, (t.len() + d.len()) as int) =~= d);
                assert(e.subrange(0, m) == c);
                lemma_take_string_cut(e, t.len() as usize, description, m);
            }
        },
        _ => {},
    }
}

/// Unpacking reads back an encoded instruction. After the payload of any kind but the two
/// without one, further bytes make it fail, as borsh requires every byte to be read; the
/// two kinds without a payload ignore them.
pub proof fn law_unpack_reads_encoded(i: InstructionModel, extra: Seq<u8>)
    requires
        encodable(i),
        encode_instruction(i).len() + extra.len() <= usize::MAX,
    ensures
        spec_unpack(encode_instruction(i) + extra) == if extra.len() == 0 || tag_only(i) {
            Ok::<InstructionModel, ProgramError>(i)
        } else {
            Err(ProgramError::BorshIoError(BorshError::NotAllBytesRead))
        },
{
    let rest = encode_payload(i) + extra;
    assert(encode_instruction(i) + extra =~= seq![instruction_tag(i)] + rest);
    lemma_unpack_split(i, rest);
    if !tag_only(i) {
        lemma_decode_payload_then(i, extra);
    }
}

/// Unpacking an instruction whose payload is cut short fails: the data ends before a
/// field does.
pub proof fn law_unpack_rejects_truncated(i: InstructionModel, n: int)
    requires
        encodable(i),
        !tag_only(i),
        encode_instruction(i).len() <= usize::MAX,
        1 <= n < encode_instruction(i).len(),
    ensures
        spec_unpack(encode_instruction(i).subrange(0, n)) == Err::<InstructionModel, ProgramError>(
            ProgramError::BorshIoError(BorshError::UnexpectedLength),
        ),
{
    let rest = encode_payload(i).subrange(0, n - 1);
    assert(encode_instruction(i).subrange(0, n) =~= seq![instruction_tag(i)] + rest);
    lemma_unpack_split(i, rest);
    lemma_decode_payload_cut(i, n - 1);
}

} // verus!
