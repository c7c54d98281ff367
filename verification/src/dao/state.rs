//! The records the voting program keeps in its accounts, and their borsh layout.
use crate::codec::{
    at_end, bool_byte, check_end, i64_bytes, lemma_i64_le_bytes, lemma_take_i64,
    lemma_take_string, lemma_take_string_bytes, lemma_take_u64, lemma_u64_le_bytes, read_bool,
    read_i64, read_key, read_string, read_u64, string_bytes, string_fits, take_bool, take_i64,
    take_key, take_string, take_u64, u64_bytes, write_bool, write_i64, write_key, write_string,
    write_u64,
};
use crate::error::BorshError;
use crate::key::Pubkey;
use vstd::prelude::*;

verus! {

/// A user's vote on a proposal: its weight.
#[derive(Debug)]
pub struct Vote_Record {
    pub proposal_id: Pubkey,
    pub vote_amount: u64,
}

/// A member of the DAO and the governance points they vote with.
#[derive(Debug)]
pub struct User_Account {
    pub user_id: Pubkey,
    pub amount_governance_points: u64,
}

/// The DAO's administrator, and when the record last changed.
#[derive(Debug)]
pub struct Admin_Account {
    pub admin_id: Pubkey,
    pub last_update: i64,
}

/// A proposal open for votes between `start_time` and `end_time`.
#[derive(Debug)]
pub struct Proposal {
    pub user_id: Pubkey,
    pub title: String,
    pub description: String,
    pub yes_votes: u64,
    pub no_votes: u64,
    pub executed: bool,
    pub start_time: i64,
    pub end_time: i64,
}

pub struct VoteRecordModel {
    pub proposal_id: Seq<u8>,
    pub vote_amount: u64,
}

pub struct UserModel {
    pub user_id: Seq<u8>,
    pub amount_governance_points: u64,
}

pub struct AdminModel {
    pub admin_id: Seq<u8>,
    pub last_update: i64,
}

pub struct ProposalModel {
    pub user_id: Seq<u8>,
    pub title: Seq<char>,
    pub description: Seq<char>,
    pub yes_votes: u64,
    pub no_votes: u64,
    pub executed: bool,
    pub start_time: i64,
    pub end_time: i64,
}

impl View for Vote_Record {
    type V = VoteRecordModel;

    open spec fn view(&self) -> VoteRecordModel {
        VoteRecordModel { proposal_id: self.proposal_id@, vote_amount: self.vote_amount }
    }
}

impl View for User_Account {
    type V = UserModel;

    open spec fn view(&self) -> UserModel {
        UserModel {
            user_id: self.user_id@,
            amount_governance_points: self.amount_governance_points,
        }
    }
}

impl View for Admin_Account {
    type V = AdminModel;

    open spec fn view(&self) -> AdminModel {
        AdminModel { admin_id: self.admin_id@, last_update: self.last_update }
    }
}

impl View for Proposal {
    type V = ProposalModel;

    open spec fn view(&self) -> ProposalModel {
        ProposalModel {
            user_id: self.user_id@,
            title: self.title@,
            description: self.description@,
            yes_votes: self.yes_votes,
            no_votes: self.no_votes,
            executed: self.executed,
            start_time: self.start_time,
            end_time: self.end_time,
        }
    }
}

pub open spec fn encode_vote_record(v: VoteRecordModel) -> Seq<u8> {
    v.proposal_id + u64_bytes(v.vote_amount)
}

pub open spec fn encode_user(u: UserModel) -> Seq<u8> {
    u.user_id + u64_bytes(u.amount_governance_points)
}

pub open spec fn encode_admin(a: AdminModel) -> Seq<u8> {
    a.admin_id + i64_bytes(a.last_update)
}

/// The bytes of a proposal's fields after its two strings.
pub open spec fn proposal_tail_bytes(
    yes_votes: u64,
    no_votes: u64,
    executed: bool,
    start_time: i64,
    end_time: i64,
) -> Seq<u8> {
    u64_bytes(yes_votes) + u64_bytes(no_votes) + seq![bool_byte(executed)] + i64_bytes(start_time)
        + i64_bytes(end_time)
}

/// The proposal's bytes, field after field.
#[verifier::opaque]
pub open spec fn proposal_bytes(p: ProposalModel) -> Seq<u8> {
    p.user_id + string_bytes(p.title) + string_bytes(p.description) + proposal_tail_bytes(
        p.yes_votes,
        p.no_votes,
        p.executed,
        p.start_time,
        p.end_time,
    )
}

/// The proposal's encoding, which fails when a string is longer than `u32::MAX` bytes.
pub open spec fn encode_proposal(p: ProposalModel) -> Result<Seq<u8>, BorshError> {
    if string_fits(p.title) && string_fits(p.description) {
        Ok(proposal_bytes(p))
    } else {
        Err(BorshError::LengthTooLarge)
    }
}

/// An address, then an eight-byte integer, and nothing more.
pub open spec fn decode_key_u64(s: Seq<u8>) -> Result<(Seq<u8>, u64), BorshError> {
    match take_key(s, 0) {
        Err(e) => Err(e),
        Ok((k, p)) => match take_u64(s, p) {
            Err(e) => Err(e),
            Ok((v, q)) => match at_end(s, q) {
                Err(e) => Err(e),
                Ok(_) => Ok((k, v)),
            },
        },
    }
}

pub open spec fn decode_vote_record(s: Seq<u8>) -> Result<VoteRecordModel, BorshError> {
    match decode_key_u64(s) {
        Err(e) => Err(e),
        Ok((k, v)) => Ok(VoteRecordModel { proposal_id: k, vote_amount: v }),
    }
}

pub open spec fn decode_user(s: Seq<u8>) -> Result<UserModel, BorshError> {
    match decode_key_u64(s) {
        Err(e) => Err(e),
        Ok((k, v)) => Ok(UserModel { user_id: k, amount_governance_points: v }),
    }
}

pub open spec fn decode_admin(s: Seq<u8>) -> Result<AdminModel, BorshError> {
    match take_key(s, 0) {
        Err(e) => Err(e),
        Ok((k, p)) => match take_i64(s, p) {
            Err(e) => Err(e),
            Ok((t, q)) => match at_end(s, q) {
                Err(e) => Err(e),
                Ok(_) => Ok(AdminModel { admin_id: k, last_update: t }),
            },
        },
    }
}

/// The proposal's fields after its two strings, from position `p3`.
pub open spec fn decode_proposal_tail(s: Seq<u8>, p3: usize) -> Result<
    (u64, u64, bool, i64, i64),
    BorshError,
> {
    match take_u64(s, p3) {
        Err(e) => Err(e),
        Ok((yes, p4)) => match take_u64(s, p4) {
            Err(e) => Err(e),
            Ok((no, p5)) => match take_bool(s, p5) {
                Err(e) => Err(e),
                Ok((executed, p6)) => match take_i64(s, p6) {
                    Err(e) => Err(e),
                    Ok((start, p7)) => match take_i64(s, p7) {
                        Err(e) => Err(e),
                        Ok((end, p8)) => match at_end(s, p8) {
                            Err(e) => Err(e),
                            Ok(_) => Ok((yes, no, executed, start, end)),
                        },
                    },
                },
            },
        },
    }
}

/// A proposal's address and two strings, and where its remaining fields start.
pub open spec fn decode_proposal_head(s: Seq<u8>) -> Result<
    (Seq<u8>, Seq<char>, Seq<char>, usize),
    BorshError,
> {
    match take_key(s, 0) {
        Err(e) => Err(e),
        Ok((user_id, p1)) => match take_string(s, p1) {
            Err(e) => Err(e),
            Ok((title, p2)) => match take_string(s, p2) {
                Err(e) => Err(e),
                Ok((description, p3)) => Ok((user_id, title, description, p3)),
            },
        },
    }
}

#[verifier::opaque]
pub open spec fn decode_proposal(s: Seq<u8>) -> Result<ProposalModel, BorshError> {
    match decode_proposal_head(s) {
        Err(e) => Err(e),
        Ok((user_id, title, description, p3)) => match decode_proposal_tail(s, p3) {
            Err(e) => Err(e),
            Ok((yes_votes, no_votes, executed, start_time, end_time)) => Ok(
                ProposalModel {
                    user_id,
                    title,
                    description,
                    yes_votes,
                    no_votes,
                    executed,
                    start_time,
                    end_time,
                },
            ),
        },
    }
}

pub open spec fn lift<T: View>(r: Result<T, BorshError>) -> Result<T::V, BorshError> {
    match r {
        Ok(v) => Ok(v@),
        Err(e) => Err(e),
    }
}

fn read_key_u64(s: &[u8]) -> (r: Result<(Pubkey, u64), BorshError>)
    ensures
        match r {
            Ok((k, v)) => decode_key_u64(s@) == Ok::<(Seq<u8>, u64), BorshError>((k@, v)),
            Err(e) => decode_key_u64(s@) == Err::<(Seq<u8>, u64), BorshError>(e),
        },
{
    let (k, p) = read_key(s, 0)?;
    let (v, q) = read_u64(s, p)?;
    check_end(s, q)?;
    Ok((k, v))
}

impl Vote_Record {
    pub fn try_to_vec(&self) -> (r: Vec<u8>)
        ensures
            r@ == encode_vote_record(self@),
    {
        let mut out: Vec<u8> = Vec::new();
        write_key(&mut out, &self.proposal_id);
        write_u64(&mut out, self.vote_amount);
        assert(out@ =~= encode_vote_record(self@));
        out
    }

    pub fn try_from_slice(s: &[u8]) -> (r: Result<Vote_Record, BorshError>)
        ensures
            lift(r) == decode_vote_record(s@),
    {
        let (proposal_id, vote_amount) = read_key_u64(s)?;
        Ok(Vote_Record { proposal_id, vote_amount })
    }
}

impl User_Account {
    pub fn try_to_vec(&self) -> (r: Vec<u8>)
        ensures
            r@ == encode_user(self@),
    {
        let mut out: Vec<u8> = Vec::new();
        write_key(&mut out, &self.user_id);
        write_u64(&mut out, self.amount_governance_points);
        assert(out@ =~= encode_user(self@));
        out
    }

    pub fn try_from_slice(s: &[u8]) -> (r: Result<User_Account, BorshError>)
        ensures
            lift(r) == decode_user(s@),
    {
        let (user_id, amount_governance_points) = read_key_u64(s)?;
        Ok(User_Account { user_id, amount_governance_points })
    }
}

impl Admin_Account {
    pub fn try_to_vec(&self) -> (r: Vec<u8>)
        ensures
            r@ == encode_admin(self@),
    {
        let mut out: Vec<u8> = Vec::new();
        write_key(&mut out, &self.admin_id);
        write_i64(&mut out, self.last_update);
        assert(out@ =~= encode_admin(self@));
        out
    }

    pub fn try_from_slice(s: &[u8]) -> (r: Result<Admin_Account, BorshError>)
        ensures
            lift(r) == decode_admin(s@),
    {
        let (admin_id, p) = read_key(s, 0)?;
        let (last_update, q) = read_i64(s, p)?;
        check_end(s, q)?;
        Ok(Admin_Account { admin_id, last_update })
    }
}

impl Proposal {
    pub fn try_to_vec(&self) -> (r: Result<Vec<u8>, BorshError>)
        ensures
            match r {
                Ok(v) => encode_proposal(self@) == Ok::<Seq<u8>, BorshError>(v@),
                Err(e) => encode_proposal(self@) == Err::<Seq<u8>, BorshError>(e),
            },
    {
        reveal(proposal_bytes);
        let mut out: Vec<u8> = Vec::new();
        write_key(&mut out, &self.user_id);
        write_string(&mut out, &self.title)?;
        write_string(&mut out, &self.description)?;
        write_u64(&mut out, self.yes_votes);
        write_u64(&mut out, self.no_votes);
        write_bool(&mut out, self.executed);
        write_i64(&mut out, self.start_time);
        write_i64(&mut out, self.end_time);
        assert(out@ =~= proposal_bytes(self@));
        Ok(out)
    }

    pub fn try_from_slice(s: &[u8]) -> (r: Result<Proposal, BorshError>)
        ensures
            lift(r) == decode_proposal(s@),
    {
        reveal(decode_proposal);
        let (user_id, p1) = read_key(s, 0)?;
        let (title, p2) = read_string(s, p1)?;
        let (description, p3) = read_string(s, p2)?;
        let (yes_votes, p4) = read_u64(s, p3)?;
        let (no_votes, p5) = read_u64(s, p4)?;
        let (executed, p6) = read_bool(s, p5)?;
        let (start_time, p7) = read_i64(s, p6)?;
        let (end_time, p8) = read_i64(s, p7)?;
        check_end(s, p8)?;
        Ok(
            Proposal {
                user_id,
                title,
                description,
                yes_votes,
                no_votes,
                executed,
                start_time,
                end_time,
            },
        )
    }
}

// ---------------------------------------------------------------------------------------
// Round trips
// ---------------------------------------------------------------------------------------

proof fn lemma_key_u64_decode_encode(k: Seq<u8>, v: u64)
    requires
        k.len() == 32,
    ensures
        decode_key_u64(k + u64_bytes(v)) == Ok::<(Seq<u8>, u64), BorshError>((k, v)),
{
    let s = k + u64_bytes(v);
    assert(s.subrange(0, 32) =~= k);
    assert(s.subrange(32, 40) =~= u64_bytes(v));
    lemma_take_u64(s, 32, v);
}

proof fn lemma_key_u64_encode_decode(s: Seq<u8>)
    requires
        decode_key_u64(s) is Ok,
    ensures
        ({
            let (k, v) = decode_key_u64(s)->Ok_0;
            k + u64_bytes(v) == s
        }),
{
    lemma_u64_le_bytes(s, 32);
    let (k, v) = decode_key_u64(s)->Ok_0;
    assert(k + u64_bytes(v) =~= s);
}

/// Decoding a user record gives back what was encoded.
pub proof fn lemma_user_decode_encode(u: UserModel)
    requires
        u.user_id.len() == 32,
    ensures
        decode_user(encode_user(u)) == Ok::<UserModel, BorshError>(u),
{
    lemma_key_u64_decode_encode(u.user_id, u.amount_governance_points);
}

/// Encoding a decoded user record gives back its bytes.
pub proof fn lemma_user_encode_decode(s: Seq<u8>)
    requires
        decode_user(s) is Ok,
    ensures
        encode_user(decode_user(s)->Ok_0) == s,
{
    lemma_key_u64_encode_decode(s);
}

/// Decoding a vote record gives back what was encoded.
pub proof fn lemma_vote_record_decode_encode(v: VoteRecordModel)
    requires
        v.proposal_id.len() == 32,
    ensures
        decode_vote_record(encode_vote_record(v)) == Ok::<VoteRecordModel, BorshError>(v),
{
    lemma_key_u64_decode_encode(v.proposal_id, v.vote_amount);
}

/// Encoding a decoded vote record gives back its bytes.
pub proof fn lemma_vote_record_encode_decode(s: Seq<u8>)
    requires
        decode_vote_record(s) is Ok,
    ensures
        encode_vote_record(decode_vote_record(s)->Ok_0) == s,
{
    lemma_key_u64_encode_decode(s);
}

/// Decoding an administrator record gives back what was encoded.
pub proof fn lemma_admin_decode_encode(a: AdminModel)
    requires
        a.admin_id.len() == 32,
    ensures
        decode_admin(encode_admin(a)) == Ok::<AdminModel, BorshError>(a),
{
    let s = encode_admin(a);
    assert(s.subrange(0, 32) =~= a.admin_id);
    assert(s.subrange(32, 40) =~= i64_bytes(a.last_update));
    lemma_take_i64(s, 32, a.last_update);
}

/// Encoding a decoded administrator record gives back its bytes.
pub proof fn lemma_admin_encode_decode(s: Seq<u8>)
    requires
        decode_admin(s) is Ok,
    ensures
        encode_admin(decode_admin(s)->Ok_0) == s,
{
    lemma_i64_le_bytes(s, 32);
    assert(encode_admin(decode_admin(s)->Ok_0) =~= s);
}

proof fn lemma_tail_decode_encode(
    s: Seq<u8>,
    p3: usize,
    yes: u64,
    no: u64,
    executed: bool,
    start: i64,
    end: i64,
)
    requires
        s.len() == p3 + 33,
        s.len() <= usize::MAX,
        s.subrange(p3 as int, s.len() as int) == proposal_tail_bytes(yes, no, executed, start, end),
    ensures
        decode_proposal_tail(s, p3) == Ok::<(u64, u64, bool, i64, i64), BorshError>(
            (yes, no, executed, start, end),
        ),
{
    let t = proposal_tail_bytes(yes, no, executed, start, end);
    assert(s.subrange(p3 as int, p3 + 8) =~= t.subrange(0, 8));
    assert(t.subrange(0, 8) =~= u64_bytes(yes));
    lemma_take_u64(s, p3, yes);
    assert(s.subrange(p3 + 8, p3 + 16) =~= t.subrange(8, 16));
    assert(t.subrange(8, 16) =~= u64_bytes(no));
    lemma_take_u64(s, (p3 + 8) as usize, no);
    assert(s[p3 + 16] == t[16]);
    assert(t[16] == bool_byte(executed));
    assert(s.subrange(p3 + 17, p3 + 25) =~= t.subrange(17, 25));
    assert(t.subrange(17, 25) =~= i64_bytes(start));
    lemma_take_i64(s, (p3 + 17) as usize, start);
    assert(s.subrange(p3 + 25, p3 + 33) =~= t.subrange(25, 33));
    assert(t.subrange(25, 33) =~= i64_bytes(end));
    lemma_take_i64(s, (p3 + 25) as usize, end);
}

proof fn lemma_tail_encode_decode(s: Seq<u8>, p3: usize)
    requires
        decode_proposal_tail(s, p3) is Ok,
        s.len() <= usize::MAX,
    ensures
        ({
            let (yes, no, executed, start, end) = decode_proposal_tail(s, p3)->Ok_0;
            &&& s.len() == p3 + 33
            &&& s.subrange(p3 as int, s.len() as int) == proposal_tail_bytes(
                yes,
                no,
                executed,
                start,
                end,
            )
        }),
{
    let (yes, no, executed, start, end) = decode_proposal_tail(s, p3)->Ok_0;
    lemma_u64_le_bytes(s, p3 as int);
    lemma_u64_le_bytes(s, p3 + 8);
    lemma_i64_le_bytes(s, p3 + 17);
    lemma_i64_le_bytes(s, p3 + 25);
    assert(s[p3 + 16] == bool_byte(executed));
    assert(s.subrange(p3 as int, s.len() as int) =~= proposal_tail_bytes(
        yes,
        no,
        executed,
        start,
        end,
    ));
}

proof fn lemma_head_decode_encode(s: Seq<u8>, p: ProposalModel)
    requires
        p.user_id.len() == 32,
        string_fits(p.title),
        string_fits(p.description),
        s.len() <= usize::MAX,
        32 + string_bytes(p.title).len() + string_bytes(p.description).len() <= s.len(),
        s.subrange(0, (32 + string_bytes(p.title).len() + string_bytes(p.description).len()) as int)
            == p.user_id + string_bytes(p.title) + string_bytes(p.description),
    ensures
        decode_proposal_head(s) == Ok::<(Seq<u8>, Seq<char>, Seq<char>, usize), BorshError>(
            (
                p.user_id,
                p.title,
                p.description,
                (32 + string_bytes(p.title).len() + string_bytes(p.description).len()) as usize,
            ),
        ),
{
    let t = string_bytes(p.title);
    let d = string_bytes(p.description);
    let head = p.user_id + t + d;
    let p2: usize = (32 + t.len()) as usize;
    let p3: usize = (p2 + d.len()) as usize;
    assert(s.subrange(0, 32) =~= head.subrange(0, 32));
    assert(head.subrange(0, 32) =~= p.user_id);
    assert(s.subrange(32, p2 as int) =~= head.subrange(32, p2 as int));
    assert(head.subrange(32, p2 as int) =~= t);
    lemma_take_string(s, 32, p.title);
    assert(s.subrange(p2 as int, p3 as int) =~= head.subrange(p2 as int, p3 as int));
    assert(head.subrange(p2 as int, p3 as int) =~= d);
    lemma_take_string(s, p2, p.description);
}

/// A proposal's encoded length depends on its address and strings only.
pub proof fn lemma_proposal_bytes_len(p: ProposalModel)
    ensures
        proposal_bytes(p).len() == p.user_id.len() + string_bytes(p.title).len() + string_bytes(
            p.description,
        ).len() + 33,
{
    reveal(proposal_bytes);
}

/// Decoding a proposal gives back what was encoded.
pub proof fn lemma_proposal_decode_encode(p: ProposalModel)
    requires
        p.user_id.len() == 32,
        string_fits(p.title),
        string_fits(p.description),
        proposal_bytes(p).len() <= usize::MAX,
    ensures
        decode_proposal(proposal_bytes(p)) == Ok::<ProposalModel, BorshError>(p),
{
    reveal(proposal_bytes);
    let s = proposal_bytes(p);
    let head = p.user_id + string_bytes(p.title) + string_bytes(p.description);
    let tail = proposal_tail_bytes(p.yes_votes, p.no_votes, p.executed, p.start_time, p.end_time);
    let p3: usize = head.len() as usize;
    assert(s == head + tail);
    assert(s.subrange(0, p3 as int) =~= head);
    lemma_head_decode_encode(s, p);
    assert(s.subrange(p3 as int, s.len() as int) =~= tail);
    lemma_tail_decode_encode(s, p3, p.yes_votes, p.no_votes, p.executed, p.start_time, p.end_time);
    lemma_decode_proposal_parts(s, p, p3);
}

proof fn lemma_decode_proposal_parts(s: Seq<u8>, p: ProposalModel, p3: usize)
    requires
        decode_proposal_head(s) == Ok::<(Seq<u8>, Seq<char>, Seq<char>, usize), BorshError>(
            (p.user_id, p.title, p.description, p3),
        ),
        decode_proposal_tail(s, p3) == Ok::<(u64, u64, bool, i64, i64), BorshError>(
            (p.yes_votes, p.no_votes, p.executed, p.start_time, p.end_time),
        ),
    ensures
        decode_proposal(s) == Ok::<ProposalModel, BorshError>(p),
{
    reveal(decode_proposal);
}

/// A decoded proposal's strings fit, and encoding it gives back its bytes.
pub proof fn lemma_proposal_encode_decode(s: Seq<u8>)
    requires
        decode_proposal(s) is Ok,
        s.len() <= usize::MAX,
    ensures
        encode_proposal(decode_proposal(s)->Ok_0) == Ok::<Seq<u8>, BorshError>(s),
        decode_proposal(s)->Ok_0.user_id.len() == 32,
{
    reveal(decode_proposal);
    reveal(proposal_bytes);
    let p = decode_proposal(s)->Ok_0;
    let (_, p1) = take_key(s, 0)->Ok_0;
    lemma_take_string_bytes(s, p1);
    let (_, p2) = take_string(s, p1)->Ok_0;
    lemma_take_string_bytes(s, p2);
    let (_, p3) = take_string(s, p2)->Ok_0;
    lemma_tail_encode_decode(s, p3);
    assert(proposal_bytes(p) =~= s.subrange(0, 32) + s.subrange(p1 as int, p2 as int)
        + s.subrange(p2 as int, p3 as int) + s.subrange(p3 as int, s.len() as int));
    assert(proposal_bytes(p) =~= s);
}

} // verus!
