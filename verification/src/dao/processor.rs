//! The voting program's instructions: what each checks, and the effects it asks for.
use super::instructions::{spec_unpack, InstructionFormat, InstructionModel};
use super::state::{
    decode_admin, decode_proposal, decode_user, encode_admin, encode_proposal, encode_user,
    encode_vote_record, lemma_proposal_encode_decode, proposal_bytes, Admin_Account, AdminModel,
    Proposal, ProposalModel, User_Account, UserModel, Vote_Record, VoteRecordModel,
};
use super::{vault_program_id, MyError};
use crate::account::{
    accounts_view, actions_view, admin_seed, admin_seed_vec, bytes_seqs, fail, metas_view,
    outcome, proposal_seed, proposal_seed_vec, seeds1, seeds2, seeds3, signer_seeds,
    user_account_seed, user_account_seed_vec, vault_seed, vault_seed_vec, vote_seed,
    vote_seed_vec, with_bump, AccountMeta, AccountModel, AccountView, Action, ActionModel,
    MetaModel,
};
use crate::codec::{i64_le, u16_le, u64_bytes, write_bytes, write_key, write_u64, write_u8};
use crate::error::{BorshError, Failure, ProgramError};
use crate::key::{
    clock_sysvar_id, clock_sysvar_key, instructions_sysvar_id, instructions_sysvar_key,
    vault_program_key, Pubkey,
};
use crate::runtime::{
    address_view, clock_unix_timestamp, find_program_address, instruction_at_loads,
    load_current_index, load_instruction_ok, program_address,
};
use vstd::prelude::*;
use vstd::utf8::encode_utf8;

verus! {

// ---------------------------------------------------------------------------------------
// Addresses and the clock
// ---------------------------------------------------------------------------------------

/// The administrator record's address.
pub open spec fn admin_address(program_id: Seq<u8>) -> Option<(Seq<u8>, u8)> {
    program_address(seq![admin_seed()], program_id)
}

/// A member's record address.
pub open spec fn user_address(program_id: Seq<u8>, user: Seq<u8>) -> Option<(Seq<u8>, u8)> {
    program_address(seq![user_account_seed(), user], program_id)
}

/// A proposal's address, from its title.
pub open spec fn proposal_address(program_id: Seq<u8>, title: Seq<char>) -> Option<(Seq<u8>, u8)> {
    program_address(seq![proposal_seed(), encode_utf8(title)], program_id)
}

/// The address of a member's vote on a proposal.
pub open spec fn vote_address(program_id: Seq<u8>, user_account: Seq<u8>, proposal: Seq<u8>) -> Option<
    (Seq<u8>, u8),
> {
    program_address(seq![vote_seed(), user_account, proposal], program_id)
}

/// The time the clock sysvar account gives: its key must be the clock's, and its data
/// must hold the timestamp.
pub open spec fn spec_clock(clock: AccountModel) -> Result<i64, Failure> {
    if clock.key != clock_sysvar_key()@ || clock.data.len() < 40 {
        Err(Failure::Error(ProgramError::InvalidArgument))
    } else {
        Ok(i64_le(clock.data, 32))
    }
}

fn read_clock(clock: &AccountView) -> (r: Result<i64, Failure>)
    ensures
        r == spec_clock(clock@),
{
    if !clock.key.same(&clock_sysvar_id()) {
        return Err(Failure::Error(ProgramError::InvalidArgument));
    }
    match clock_unix_timestamp(&clock.key, clock.data.as_slice()) {
        Some(t) => Ok(t),
        None => Err(Failure::Error(ProgramError::InvalidArgument)),
    }
}

fn find_admin_address(program_id: &Pubkey) -> (r: Option<(Pubkey, u8)>)
    ensures
        address_view(r) == admin_address(program_id@),
{
    find_program_address(&seeds1(admin_seed_vec()), program_id)
}

fn find_user_address(program_id: &Pubkey, user: &Pubkey) -> (r: Option<(Pubkey, u8)>)
    ensures
        address_view(r) == user_address(program_id@, user@),
{
    find_program_address(&seeds2(user_account_seed_vec(), user.to_vec()), program_id)
}

// ---------------------------------------------------------------------------------------
// create_admin
// ---------------------------------------------------------------------------------------

pub open spec fn spec_create_admin(
    program_id: Seq<u8>,
    accounts: Seq<AccountModel>,
    admin_addr: Option<(Seq<u8>, u8)>,
) -> Result<Seq<ActionModel>, Failure> {
    if accounts.len() < 4 {
        fail(ProgramError::NotEnoughAccountKeys)
    } else if !accounts[0].is_signer {
        fail(ProgramError::MissingRequiredSignature)
    } else if accounts[1].lamports > 0 {
        fail(ProgramError::AccountAlreadyInitialized)
    } else {
        match admin_addr {
            None => Err(Failure::NoProgramAddress),
            Some((addr, bump)) => if accounts[1].key != addr {
                fail(ProgramError::InvalidArgument)
            } else {
                match spec_clock(accounts[3]) {
                    Err(f) => Err(f),
                    Ok(now) => {
                        let data = encode_admin(
                            AdminModel { admin_id: accounts[0].key, last_update: now },
                        );
                        Ok(
                            seq![
                                ActionModel::CreateAccount {
                                    payer: 0,
                                    account: 1,
                                    system_program: 2,
                                    space: data.len() as u64,
                                    owner: program_id,
                                    seeds: signer_seeds(seq![admin_seed()], bump),
                                },
                                ActionModel::Write { account: 1, data },
                            ],
                        )
                    },
                }
            },
        }
    }
}

/// Makes the signer the administrator: creates the administrator record at its program
/// address. Accounts: the payer (signer), the record (not yet funded), the system program,
/// the clock sysvar.
pub fn create_admin(program_id: &Pubkey, accounts: &[AccountView]) -> (r: Result<Vec<Action>, Failure>)
    ensures
        outcome(r) == spec_create_admin(
            program_id@,
            accounts_view(accounts@),
            admin_address(program_id@),
        ),
{
    if accounts.len() < 4 {
        return Err(Failure::Error(ProgramError::NotEnoughAccountKeys));
    }
    let admin_addr = find_admin_address(program_id);
    create_admin_at(program_id, accounts, admin_addr)
}

/// `create_admin`, given what the search for the administrator record's address found.
pub fn create_admin_at(
    program_id: &Pubkey,
    accounts: &[AccountView],
    admin_addr: Option<(Pubkey, u8)>,
) -> (r: Result<Vec<Action>, Failure>)
    ensures
        outcome(r) == spec_create_admin(
            program_id@,
            accounts_view(accounts@),
            address_view(admin_addr),
        ),
{
    if accounts.len() < 4 {
        return Err(Failure::Error(ProgramError::NotEnoughAccountKeys));
    }
    let admin_payer = &accounts[0];
    let admin_account_dao = &accounts[1];
    let clock_sysvar = &accounts[3];
    let ghost accts = accounts_view(accounts@);
    assert(accts[0] == admin_payer@ && accts[1] == admin_account_dao@ && accts[3]
        == clock_sysvar@);
    if !admin_payer.is_signer {
        return Err(Failure::Error(ProgramError::MissingRequiredSignature));
    }
    if admin_account_dao.lamports > 0 {
        return Err(Failure::Error(ProgramError::AccountAlreadyInitialized));
    }
    let (admin_pda, admin_bump) = match admin_addr {
        Some(a) => a,
        None => return Err(Failure::NoProgramAddress),
    };
    if !admin_account_dao.key.same(&admin_pda) {
        return Err(Failure::Error(ProgramError::InvalidArgument));
    }
    let now = read_clock(clock_sysvar)?;
    let account = Admin_Account { admin_id: admin_payer.key, last_update: now };
    let data = account.try_to_vec();
    let account_len = data.len() as u64;
    let seeds = with_bump(&seeds1(admin_seed_vec()), admin_bump);
    let mut actions: Vec<Action> = Vec::new();
    actions.push(
        Action::CreateAccount {
            payer: 0,
            account: 1,
            system_program: 2,
            space: account_len,
            owner: *program_id,
            seeds,
        },
    );
    actions.push(Action::Write { account: 1, data });
    assert(actions_view(actions@) =~= spec_create_admin(
        program_id@,
        accts,
        address_view(admin_addr),
    )->Ok_0);
    Ok(actions)
}

// ---------------------------------------------------------------------------------------
// update_admin
// ---------------------------------------------------------------------------------------

pub open spec fn spec_update_admin(
    program_id: Seq<u8>,
    accounts: Seq<AccountModel>,
    admin_addr: Option<(Seq<u8>, u8)>,
    new_admin: Seq<u8>,
) -> Result<Seq<ActionModel>, Failure> {
    if accounts.len() < 3 {
        fail(ProgramError::NotEnoughAccountKeys)
    } else if accounts[1].owner != program_id {
        fail(ProgramError::IllegalOwner)
    } else if !accounts[0].is_signer {
        fail(ProgramError::MissingRequiredSignature)
    } else {
        match decode_admin(accounts[1].data) {
            Err(e) => fail(ProgramError::BorshIoError(e)),
            Ok(admin) => match admin_addr {
                None => Err(Failure::NoProgramAddress),
                Some((addr, _)) => if accounts[1].key != addr {
                    fail(ProgramError::InvalidArgument)
                } else if admin.admin_id != accounts[0].key {
                    fail(ProgramError::InvalidArgument)
                } else {
                    match spec_clock(accounts[2]) {
                        Err(f) => Err(f),
                        Ok(now) => Ok(
                            seq![
                                ActionModel::Write {
                                    account: 1,
                                    data: encode_admin(
                                        AdminModel { admin_id: new_admin, last_update: now },
                                    ),
                                },
                            ],
                        ),
                    }
                },
            },
        }
    }
}

/// Hands the administrator role to `new_admin`; only the current administrator may.
/// Accounts: the administrator (signer), the administrator record, the clock sysvar.
pub fn update_admin(program_id: &Pubkey, accounts: &[AccountView], new_admin: Pubkey) -> (r: Result<
    Vec<Action>,
    Failure,
>)
    ensures
        outcome(r) == spec_update_admin(
            program_id@,
            accounts_view(accounts@),
            admin_address(program_id@),
            new_admin@,
        ),
{
    let admin_addr = find_admin_address(program_id);
    update_admin_at(program_id, accounts, admin_addr, new_admin)
}

/// `update_admin`, given what the search for the administrator record's address found.
pub fn update_admin_at(
    program_id: &Pubkey,
    accounts: &[AccountView],
    admin_addr: Option<(Pubkey, u8)>,
    new_admin: Pubkey,
) -> (r: Result<Vec<Action>, Failure>)
    ensures
        outcome(r) == spec_update_admin(
            program_id@,
            accounts_view(accounts@),
            address_view(admin_addr),
            new_admin@,
        ),
{
    if accounts.len() < 3 {
        return Err(Failure::Error(ProgramError::NotEnoughAccountKeys));
    }
    let admin_payer = &accounts[0];
    let admin_account_dao = &accounts[1];
    let clock_sysvar = &accounts[2];
    let ghost accts = accounts_view(accounts@);
    assert(accts[0] == admin_payer@ && accts[1] == admin_account_dao@ && accts[2]
        == clock_sysvar@);
    if !admin_account_dao.owner.same(program_id) {
        return Err(Failure::Error(ProgramError::IllegalOwner));
    }
    if !admin_payer.is_signer {
        return Err(Failure::Error(ProgramError::MissingRequiredSignature));
    }
    let mut config_admin = match Admin_Account::try_from_slice(admin_account_dao.data.as_slice()) {
        Ok(a) => a,
        Err(e) => return Err(Failure::Error(ProgramError::BorshIoError(e))),
    };
    let (admin_pda, _admin_bump) = match admin_addr {
        Some(a) => a,
        None => return Err(Failure::NoProgramAddress),
    };
    if !admin_account_dao.key.same(&admin_pda) {
        return Err(Failure::Error(ProgramError::InvalidArgument));
    }
    if !config_admin.admin_id.same(&admin_payer.key) {
        return Err(Failure::Error(ProgramError::InvalidArgument));
    }
    let now = read_clock(clock_sysvar)?;
    config_admin.admin_id = new_admin;
    config_admin.last_update = now;
    let data = config_admin.try_to_vec();
    let mut actions: Vec<Action> = Vec::new();
    actions.push(Action::Write { account: 1, data });
    assert(actions_view(actions@) =~= spec_update_admin(
        program_id@,
        accts,
        address_view(admin_addr),
        new_admin@,
    )->Ok_0);
    Ok(actions)
}

// ---------------------------------------------------------------------------------------
// create_account
// ---------------------------------------------------------------------------------------

/// The governance points a new member starts with.
pub open spec fn initial_points() -> u64 {
    10
}

pub open spec fn spec_create_account(
    program_id: Seq<u8>,
    accounts: Seq<AccountModel>,
    user_addr: Option<(Seq<u8>, u8)>,
) -> Result<Seq<ActionModel>, Failure> {
    if accounts.len() < 3 {
        fail(ProgramError::NotEnoughAccountKeys)
    } else if !accounts[0].is_signer {
        fail(ProgramError::MissingRequiredSignature)
    } else if accounts[1].lamports > 0 {
        fail(ProgramError::AccountAlreadyInitialized)
    } else {
        match user_addr {
            None => Err(Failure::NoProgramAddress),
            Some((addr, bump)) => if accounts[1].key != addr {
                fail(ProgramError::InvalidArgument)
            } else {
                let data = encode_user(
                    UserModel {
                        user_id: accounts[0].key,
                        amount_governance_points: initial_points(),
                    },
                );
                Ok(
                    seq![
                        ActionModel::CreateAccount {
                            payer: 0,
                            account: 1,
                            system_program: 2,
                            space: data.len() as u64,
                            owner: program_id,
                            seeds: signer_seeds(seq![user_account_seed(), accounts[0].key], bump),
                        },
                        ActionModel::Write { account: 1, data },
                    ],
                )
            },
        }
    }
}

/// Registers the signer as a member with the starting governance points, in a record at
/// the program address derived from the signer's address. Accounts: the user (signer), the
/// record (not yet funded), the system program.
pub fn create_account(program_id: &Pubkey, accounts: &[AccountView]) -> (r: Result<
    Vec<Action>,
    Failure,
>)
    ensures
        outcome(r) == spec_create_account(
            program_id@,
            accounts_view(accounts@),
            user_address(program_id@, accounts_view(accounts@)[0].key),
        ),
{
    if accounts.len() < 3 {
        return Err(Failure::Error(ProgramError::NotEnoughAccountKeys));
    }
    let user_addr = find_user_address(program_id, &accounts[0].key);
    create_account_at(program_id, accounts, user_addr)
}

/// `create_account`, given what the search for the member record's address found.
pub fn create_account_at(
    program_id: &Pubkey,
    accounts: &[AccountView],
    user_addr: Option<(Pubkey, u8)>,
) -> (r: Result<Vec<Action>, Failure>)
    ensures
        outcome(r) == spec_create_account(
            program_id@,
            accounts_view(accounts@),
            address_view(user_addr),
        ),
{
    if accounts.len() < 3 {
        return Err(Failure::Error(ProgramError::NotEnoughAccountKeys));
    }
    let user_payer = &accounts[0];
    let user_account_dao = &accounts[1];
    let ghost accts = accounts_view(accounts@);
    assert(accts[0] == user_payer@ && accts[1] == user_account_dao@);
    if !user_payer.is_signer {
        return Err(Failure::Error(ProgramError::MissingRequiredSignature));
    }
    if user_account_dao.lamports > 0 {
        return Err(Failure::Error(ProgramError::AccountAlreadyInitialized));
    }
    let (user_pda, user_bump) = match user_addr {
        Some(a) => a,
        None => return Err(Failure::NoProgramAddress),
    };
    if !user_account_dao.key.same(&user_pda) {
        return Err(Failure::Error(ProgramError::InvalidArgument));
    }
    let account = User_Account { user_id: user_payer.key, amount_governance_points: 10 };
    let data = account.try_to_vec();
    let account_len = data.len() as u64;
    let seeds = with_bump(&seeds2(user_account_seed_vec(), user_payer.key.to_vec()), user_bump);
    let mut actions: Vec<Action> = Vec::new();
    actions.push(
        Action::CreateAccount {
            payer: 0,
            account: 1,
            system_program: 2,
            space: account_len,
            owner: *program_id,
            seeds,
        },
    );
    actions.push(Action::Write { account: 1, data });
    assert(actions_view(actions@) =~= spec_create_account(
        program_id@,
        accts,
        address_view(user_addr),
    )->Ok_0);
    Ok(actions)
}

// ---------------------------------------------------------------------------------------
// open_proposal
// ---------------------------------------------------------------------------------------

/// How long a proposal stays open for votes, in seconds.
pub open spec fn voting_period() -> i64 {
    3600
}

pub open spec fn spec_open_proposal(
    program_id: Seq<u8>,
    accounts: Seq<AccountModel>,
    proposal_addr: Option<(Seq<u8>, u8)>,
    title: Seq<char>,
    description: Seq<char>,
) -> Result<Seq<ActionModel>, Failure> {
    if accounts.len() < 5 {
        fail(ProgramError::NotEnoughAccountKeys)
    } else if accounts[1].owner != program_id {
        fail(ProgramError::IllegalOwner)
    } else if !accounts[0].is_signer {
        fail(ProgramError::MissingRequiredSignature)
    } else if accounts[2].lamports > 0 {
        fail(ProgramError::AccountAlreadyInitialized)
    } else {
        match proposal_addr {
            None => Err(Failure::NoProgramAddress),
            Some((addr, bump)) => if accounts[2].key != addr {
                fail(ProgramError::InvalidArgument)
            } else {
                match spec_clock(accounts[4]) {
                    Err(f) => Err(f),
                    Ok(now) => {
                        let proposal = ProposalModel {
                            user_id: accounts[1].key,
                            title,
                            description,
                            yes_votes: 0,
                            no_votes: 0,
                            executed: false,
                            start_time: now,
                            end_time: vstd::wrapping::i64_specs::wrapping_add(now, voting_period()),
                        };
                        match encode_proposal(proposal) {
                            Err(e) => fail(ProgramError::BorshIoError(e)),
                            Ok(data) => Ok(
                                seq![
                                    ActionModel::CreateAccount {
                                        payer: 0,
                                        account: 2,
                                        system_program: 3,
                                        space: data.len() as u64,
                                        owner: program_id,
                                        seeds: signer_seeds(
                                            seq![proposal_seed(), encode_utf8(title)],
                                            bump,
                                        ),
                                    },
                                    ActionModel::Write { account: 2, data },
                                ],
                            ),
                        }
                    },
                }
            },
        }
    }
}

/// A title's UTF-8 bytes.
fn title_bytes(title: &String) -> (r: Vec<u8>)
    ensures
        r@ == encode_utf8(title@),
{
    let mut r: Vec<u8> = Vec::new();
    write_bytes(&mut r, title.as_str().as_bytes());
    assert(r@ =~= encode_utf8(title@));
    r
}

/// Opens a proposal, open for votes for an hour from now, in an account at the program
/// address derived from its title. Accounts: the member (signer), the member's record
/// (owned by this program), the proposal (not yet funded), the system program, the clock
/// sysvar.
pub fn open_proposal(
    program_id: &Pubkey,
    accounts: &[AccountView],
    title: String,
    description: String,
) -> (r: Result<Vec<Action>, Failure>)
    ensures
        outcome(r) == spec_open_proposal(
            program_id@,
            accounts_view(accounts@),
            proposal_address(program_id@, title@),
            title@,
            description@,
        ),
{
    let proposal_addr = find_program_address(&seeds2(proposal_seed_vec(), title_bytes(&title)), program_id);
    open_proposal_at(program_id, accounts, proposal_addr, title, description)
}

/// `open_proposal`, given what the search for the proposal's address found.
pub fn open_proposal_at(
    program_id: &Pubkey,
    accounts: &[AccountView],
    proposal_addr: Option<(Pubkey, u8)>,
    title: String,
    description: String,
) -> (r: Result<Vec<Action>, Failure>)
    ensures
        outcome(r) == spec_open_proposal(
            program_id@,
            accounts_view(accounts@),
            address_view(proposal_addr),
            title@,
            description@,
        ),
{
    if accounts.len() < 5 {
        return Err(Failure::Error(ProgramError::NotEnoughAccountKeys));
    }
    let user_payer = &accounts[0];
    let user_account_dao = &accounts[1];
    let proposal_account = &accounts[2];
    let clock_sysvar = &accounts[4];
    let ghost accts = accounts_view(accounts@);
    assert(accts[0] == user_payer@ && accts[1] == user_account_dao@ && accts[2]
        == proposal_account@ && accts[4] == clock_sysvar@);
    if !user_account_dao.owner.same(program_id) {
        return Err(Failure::Error(ProgramError::IllegalOwner));
    }
    if !user_payer.is_signer {
        return Err(Failure::Error(ProgramError::MissingRequiredSignature));
    }
    if proposal_account.lamports > 0 {
        return Err(Failure::Error(ProgramError::AccountAlreadyInitialized));
    }
    let (proposal_pda, proposal_bump) = match proposal_addr {
        Some(a) => a,
        None => return Err(Failure::NoProgramAddress),
    };
    if !proposal_account.key.same(&proposal_pda) {
        return Err(Failure::Error(ProgramError::InvalidArgument));
    }
    let start_time = read_clock(clock_sysvar)?;
    let end_time = start_time.wrapping_add(3600);
    let seeds = with_bump(&seeds2(proposal_seed_vec(), title_bytes(&title)), proposal_bump);
    let proposal = Proposal {
        user_id: user_account_dao.key,
        title,
        description,
        yes_votes: 0,
        no_votes: 0,
        executed: false,
        start_time,
        end_time,
    };
    let data = match proposal.try_to_vec() {
        Ok(d) => d,
        Err(e) => return Err(Failure::Error(ProgramError::BorshIoError(e))),
    };
    let proposal_len = data.len() as u64;
    let mut actions: Vec<Action> = Vec::new();
    actions.push(
        Action::CreateAccount {
            payer: 0,
            account: 2,
            system_program: 3,
            space: proposal_len,
            owner: *program_id,
            seeds,
        },
    );
    actions.push(Action::Write { account: 2, data });
    assert(actions_view(actions@) =~= spec_open_proposal(
        program_id@,
        accts,
        address_view(proposal_addr),
        proposal@.title,
        proposal@.description,
    )->Ok_0);
    Ok(actions)
}

// ---------------------------------------------------------------------------------------
// vote_process
// ---------------------------------------------------------------------------------------

/// The proposal after a vote of `weight` points, yes or no.
pub open spec fn counted(p: ProposalModel, vote_answer: bool, weight: u64) -> ProposalModel {
    if vote_answer {
        ProposalModel { yes_votes: vstd::wrapping::u64_specs::wrapping_add(p.yes_votes, weight), ..p }
    } else {
        ProposalModel { no_votes: vstd::wrapping::u64_specs::wrapping_add(p.no_votes, weight), ..p }
    }
}

pub open spec fn spec_vote_process(
    program_id: Seq<u8>,
    accounts: Seq<AccountModel>,
    vote_addr: Option<(Seq<u8>, u8)>,
    vote_answer: bool,
) -> Result<Seq<ActionModel>, Failure> {
    if accounts.len() < 6 {
        fail(ProgramError::NotEnoughAccountKeys)
    } else if accounts[1].owner != program_id || accounts[2].owner != program_id {
        fail(ProgramError::IllegalOwner)
    } else if !accounts[0].is_signer {
        fail(ProgramError::MissingRequiredSignature)
    } else if accounts[3].lamports > 0 {
        fail(ProgramError::AccountAlreadyInitialized)
    } else {
        match vote_addr {
            None => Err(Failure::NoProgramAddress),
            Some((addr, bump)) => if accounts[3].key != addr {
                fail(ProgramError::InvalidArgument)
            } else {
                match decode_proposal(accounts[2].data) {
                    Err(e) => fail(ProgramError::BorshIoError(e)),
                    Ok(proposal) => match decode_user(accounts[1].data) {
                        Err(e) => fail(ProgramError::BorshIoError(e)),
                        Ok(user) => match spec_clock(accounts[5]) {
                            Err(f) => Err(f),
                            Ok(now) => if now > proposal.end_time {
                                fail(ProgramError::Custom(0))
                            } else {
                                let record = encode_vote_record(
                                    VoteRecordModel {
                                        proposal_id: accounts[2].key,
                                        vote_amount: user.amount_governance_points,
                                    },
                                );
                                Ok(
                                    seq![
                                        ActionModel::CreateAccount {
                                            payer: 0,
                                            account: 3,
                                            system_program: 4,
                                            space: record.len() as u64,
                                            owner: program_id,
                                            seeds: signer_seeds(
                                                seq![vote_seed(), accounts[1].key, accounts[2].key],
                                                bump,
                                            ),
                                        },
                                        ActionModel::Write { account: 3, data: record },
                                        ActionModel::Write {
                                            account: 2,
                                            data: proposal_bytes(
                                                counted(
                                                    proposal,
                                                    vote_answer,
                                                    user.amount_governance_points,
                                                ),
                                            ),
                                        },
                                        ActionModel::Write { account: 1, data: encode_user(user) },
                                    ],
                                )
                            },
                        },
                    },
                }
            },
        }
    }
}

/// Records a member's vote on a proposal, weighted by the member's governance points, while
/// the proposal is open; the tally wraps around past `u64::MAX`. Accounts: the member
/// (signer), the member's record and the proposal (both owned by this program), the vote
/// record (not yet funded), the system program, the clock sysvar.
pub fn vote_process(program_id: &Pubkey, accounts: &[AccountView], vote_answer: bool) -> (r: Result<
    Vec<Action>,
    Failure,
>)
    ensures
        outcome(r) == spec_vote_process(
            program_id@,
            accounts_view(accounts@),
            vote_address(
                program_id@,
                accounts_view(accounts@)[1].key,
                accounts_view(accounts@)[2].key,
            ),
            vote_answer,
        ),
{
    if accounts.len() < 6 {
        return Err(Failure::Error(ProgramError::NotEnoughAccountKeys));
    }
    let seeds = seeds3(vote_seed_vec(), accounts[1].key.to_vec(), accounts[2].key.to_vec());
    let vote_addr = find_program_address(&seeds, program_id);
    vote_process_at(program_id, accounts, vote_addr, vote_answer)
}

/// `vote_process`, given what the search for the vote record's address found.
pub fn vote_process_at(
    program_id: &Pubkey,
    accounts: &[AccountView],
    vote_addr: Option<(Pubkey, u8)>,
    vote_answer: bool,
) -> (r: Result<Vec<Action>, Failure>)
    ensures
        outcome(r) == spec_vote_process(
            program_id@,
            accounts_view(accounts@),
            address_view(vote_addr),
            vote_answer,
        ),
{
    if accounts.len() < 6 {
        return Err(Failure::Error(ProgramError::NotEnoughAccountKeys));
    }
    let user_payer = &accounts[0];
    let user_account_dao = &accounts[1];
    let proposal_account = &accounts[2];
    let vote_record_account = &accounts[3];
    let clock_sysvar = &accounts[5];
    let ghost accts = accounts_view(accounts@);
    assert(accts[0] == user_payer@ && accts[1] == user_account_dao@ && accts[2]
        == proposal_account@ && accts[3] == vote_record_account@ && accts[5] == clock_sysvar@);
    if !user_account_dao.owner.same(program_id) || !proposal_account.owner.same(program_id) {
        return Err(Failure::Error(ProgramError::IllegalOwner));
    }
    if !user_payer.is_signer {
        return Err(Failure::Error(ProgramError::MissingRequiredSignature));
    }
    if vote_record_account.lamports > 0 {
        return Err(Failure::Error(ProgramError::AccountAlreadyInitialized));
    }
    let (vote_pda, vote_bump) = match vote_addr {
        Some(a) => a,
        None => return Err(Failure::NoProgramAddress),
    };
    if !vote_record_account.key.same(&vote_pda) {
        return Err(Failure::Error(ProgramError::InvalidArgument));
    }
    let mut proposal = match Proposal::try_from_slice(proposal_account.data.as_slice()) {
        Ok(p) => p,
        Err(e) => return Err(Failure::Error(ProgramError::BorshIoError(e))),
    };
    let user = match User_Account::try_from_slice(user_account_dao.data.as_slice()) {
        Ok(u) => u,
        Err(e) => return Err(Failure::Error(ProgramError::BorshIoError(e))),
    };
    let vote_record = Vote_Record {
        proposal_id: proposal_account.key,
        vote_amount: user.amount_governance_points,
    };
    let current_time = read_clock(clock_sysvar)?;
    if current_time > proposal.end_time {
        return Err(Failure::Error(ProgramError::from(MyError::TimeLimit)));
    }
    let ghost before = proposal@;
    if vote_answer {
        proposal.yes_votes = proposal.yes_votes.wrapping_add(user.amount_governance_points);
    } else {
        proposal.no_votes = proposal.no_votes.wrapping_add(user.amount_governance_points);
    }
    assert(proposal@ == counted(before, vote_answer, user.amount_governance_points));
    let record_data = vote_record.try_to_vec();
    let vote_len = record_data.len() as u64;
    proof {
        assert(proposal_account.data@.len() == proposal_account.data.len());
        lemma_proposal_encode_decode(proposal_account.data@);
    }
    let proposal_data = match proposal.try_to_vec() {
        Ok(d) => d,
        Err(e) => return Err(Failure::Error(ProgramError::BorshIoError(e))),
    };
    let user_data = user.try_to_vec();
    let seeds = with_bump(
        &seeds3(vote_seed_vec(), user_account_dao.key.to_vec(), proposal_account.key.to_vec()),
        vote_bump,
    );
    let mut actions: Vec<Action> = Vec::new();
    actions.push(
        Action::CreateAccount {
            payer: 0,
            account: 3,
            system_program: 4,
            space: vote_len,
            owner: *program_id,
            seeds,
        },
    );
    actions.push(Action::Write { account: 3, data: record_data });
    actions.push(Action::Write { account: 2, data: proposal_data });
    actions.push(Action::Write { account: 1, data: user_data });
    assert(actions_view(actions@) =~= spec_vote_process(
        program_id@,
        accts,
        address_view(vote_addr),
        vote_answer,
    )->Ok_0);
    Ok(actions)
}

// ---------------------------------------------------------------------------------------
// manage_governance_points
// ---------------------------------------------------------------------------------------

/// The checks that only the administrator passes: the second account is the administrator
/// record at its address, and the signer is the administrator it names. Gives the record.
pub open spec fn spec_admin_signed(
    accounts: Seq<AccountModel>,
    admin_addr: Option<(Seq<u8>, u8)>,
) -> Result<AdminModel, Failure> {
    match admin_addr {
        None => Err(Failure::NoProgramAddress),
        Some((addr, _)) => if accounts[1].key != addr {
            Err(Failure::Error(ProgramError::InvalidArgument))
        } else {
            match decode_admin(accounts[1].data) {
                Err(e) => Err(Failure::Error(ProgramError::BorshIoError(e))),
                Ok(admin) => if admin.admin_id != accounts[0].key {
                    Err(Failure::Error(ProgramError::InvalidArgument))
                } else {
                    Ok(admin)
                },
            }
        },
    }
}

fn admin_signed(accounts: &[AccountView], admin_addr: Option<(Pubkey, u8)>) -> (r: Result<
    Admin_Account,
    Failure,
>)
    requires
        accounts@.len() >= 2,
    ensures
        match r {
            Ok(a) => spec_admin_signed(accounts_view(accounts@), address_view(admin_addr))
                == Ok::<AdminModel, Failure>(a@),
            Err(f) => spec_admin_signed(accounts_view(accounts@), address_view(admin_addr))
                == Err::<AdminModel, Failure>(f),
        },
{
    let admin_payer = &accounts[0];
    let admin_account_dao = &accounts[1];
    let ghost accts = accounts_view(accounts@);
    assert(accts[0] == admin_payer@ && accts[1] == admin_account_dao@);
    let (admin_pda, _admin_bump) = match admin_addr {
        Some(a) => a,
        None => return Err(Failure::NoProgramAddress),
    };
    if !admin_account_dao.key.same(&admin_pda) {
        return Err(Failure::Error(ProgramError::InvalidArgument));
    }
    let admin = match Admin_Account::try_from_slice(admin_account_dao.data.as_slice()) {
        Ok(a) => a,
        Err(e) => return Err(Failure::Error(ProgramError::BorshIoError(e))),
    };
    if !admin.admin_id.same(&admin_payer.key) {
        return Err(Failure::Error(ProgramError::InvalidArgument));
    }
    Ok(admin)
}

pub open spec fn spec_manage_governance_points(
    program_id: Seq<u8>,
    accounts: Seq<AccountModel>,
    admin_addr: Option<(Seq<u8>, u8)>,
    amount: u64,
    instruction: bool,
) -> Result<Seq<ActionModel>, Failure> {
    if accounts.len() < 3 {
        fail(ProgramError::NotEnoughAccountKeys)
    } else if accounts[1].owner != program_id || accounts[2].owner != program_id {
        fail(ProgramError::IllegalOwner)
    } else if !accounts[0].is_signer {
        fail(ProgramError::MissingRequiredSignature)
    } else {
        match spec_admin_signed(accounts, admin_addr) {
            Err(f) => Err(f),
            Ok(admin) => match decode_user(accounts[2].data) {
                Err(e) => fail(ProgramError::BorshIoError(e)),
                Ok(user) => {
                    let points = user.amount_governance_points;
                    if !instruction && points < amount {
                        fail(ProgramError::Custom(1))
                    } else {
                        let new_points = if instruction {
                            vstd::wrapping::u64_specs::wrapping_add(points, amount)
                        } else {
                            (points - amount) as u64
                        };
                        Ok(
                            seq![
                                ActionModel::Write { account: 1, data: encode_admin(admin) },
                                ActionModel::Write {
                                    account: 2,
                                    data: encode_user(
                                        UserModel { amount_governance_points: new_points, ..user },
                                    ),
                                },
                            ],
                        )
                    }
                },
            },
        }
    }
}

/// Adds (`instruction` true; wrapping around past `u64::MAX`) or removes (failing below
/// zero) a member's governance points; only the administrator may. Accounts: the
/// administrator (signer), the administrator record, the member's record (both owned by
/// this program).
pub fn manage_governance_points(
    program_id: &Pubkey,
    accounts: &[AccountView],
    amount: u64,
    instruction: bool,
) -> (r: Result<Vec<Action>, Failure>)
    ensures
        outcome(r) == spec_manage_governance_points(
            program_id@,
            accounts_view(accounts@),
            admin_address(program_id@),
            amount,
            instruction,
        ),
{
    let admin_addr = find_admin_address(program_id);
    manage_governance_points_at(program_id, accounts, admin_addr, amount, instruction)
}

/// `manage_governance_points`, given what the search for the administrator record's address
/// found.
pub fn manage_governance_points_at(
    program_id: &Pubkey,
    accounts: &[AccountView],
    admin_addr: Option<(Pubkey, u8)>,
    amount: u64,
    instruction: bool,
) -> (r: Result<Vec<Action>, Failure>)
    ensures
        outcome(r) == spec_manage_governance_points(
            program_id@,
            accounts_view(accounts@),
            address_view(admin_addr),
            amount,
            instruction,
        ),
{
    if accounts.len() < 3 {
        return Err(Failure::Error(ProgramError::NotEnoughAccountKeys));
    }
    let admin_payer = &accounts[0];
    let admin_account_dao = &accounts[1];
    let user_account_dao = &accounts[2];
    let ghost accts = accounts_view(accounts@);
    assert(accts[0] == admin_payer@ && accts[1] == admin_account_dao@ && accts[2]
        == user_account_dao@);
    if !admin_account_dao.owner.same(program_id) || !user_account_dao.owner.same(program_id) {
        return Err(Failure::Error(ProgramError::IllegalOwner));
    }
    if !admin_payer.is_signer {
        return Err(Failure::Error(ProgramError::MissingRequiredSignature));
    }
    let admin = admin_signed(accounts, admin_addr)?;
    let admin_data = admin.try_to_vec();
    let mut user = match User_Account::try_from_slice(user_account_dao.data.as_slice()) {
        Ok(u) => u,
        Err(e) => return Err(Failure::Error(ProgramError::BorshIoError(e))),
    };
    if instruction {
        user.amount_governance_points = user.amount_governance_points.wrapping_add(amount);
    } else {
        user.amount_governance_points = match user.amount_governance_points.checked_sub(amount) {
            Some(p) => p,
            None => return Err(Failure::Error(ProgramError::from(MyError::ArithmeticError))),
        };
    }
    let user_data = user.try_to_vec();
    let mut actions: Vec<Action> = Vec::new();
    actions.push(Action::Write { account: 1, data: admin_data });
    actions.push(Action::Write { account: 2, data: user_data });
    assert(actions_view(actions@) =~= spec_manage_governance_points(
        program_id@,
        accts,
        address_view(admin_addr),
        amount,
        instruction,
    )->Ok_0);
    Ok(actions)
}

// ---------------------------------------------------------------------------------------
// Calls into the vault program
// ---------------------------------------------------------------------------------------

pub open spec fn meta(pubkey: Seq<u8>, is_signer: bool, is_writable: bool) -> MetaModel {
    MetaModel { pubkey, is_signer, is_writable }
}

/// The vault's create instruction data: the tag, the calling program's address, the bump.
pub open spec fn create_vault_data(variant_instr: u8, id: Seq<u8>, vault_bump: u8) -> Seq<u8> {
    seq![variant_instr] + id + seq![vault_bump]
}

/// The vault's deposit or withdraw instruction data: the tag, the amount, the calling
/// program's address.
pub open spec fn vault_amount_data(variant_instr: u8, id: Seq<u8>, amount: u64) -> Seq<u8> {
    seq![variant_instr] + u64_bytes(amount) + id
}

/// The call that creates the vault. Accounts: the payer, the administrator record, the
/// vault, the vault program, the system program.
pub open spec fn spec_create_vault_call(
    variant_instr: u8,
    id: Seq<u8>,
    vault_bump: u8,
    accounts: Seq<AccountModel>,
) -> ActionModel {
    ActionModel::Invoke {
        program_id: accounts[3].key,
        metas: seq![
            meta(accounts[0].key, true, true),
            meta(accounts[1].key, false, true),
            meta(accounts[2].key, false, true),
            meta(accounts[4].key, false, false),
        ],
        data: create_vault_data(variant_instr, id, vault_bump),
        accounts: seq![0usize, 1, 2, 4],
        seeds: signer_seeds(seq![vault_seed()], vault_bump),
    }
}

/// The call that deposits into or withdraws from the vault. Accounts: the payer, the
/// member's or administrator's record, the vault, the vault program.
pub open spec fn spec_vault_amount_call(
    variant_instr: u8,
    id: Seq<u8>,
    amount: u64,
    vault_bump: u8,
    accounts: Seq<AccountModel>,
) -> ActionModel {
    ActionModel::Invoke {
        program_id: accounts[3].key,
        metas: seq![
            meta(accounts[0].key, true, true),
            meta(accounts[1].key, false, true),
            meta(accounts[2].key, false, true),
        ],
        data: vault_amount_data(variant_instr, id, amount),
        accounts: seq![0usize, 1, 2],
        seeds: signer_seeds(seq![vault_seed()], vault_bump),
    }
}

fn vault_seeds(vault_bump: u8) -> (r: Vec<Vec<u8>>)
    ensures
        bytes_seqs(r@) == signer_seeds(seq![vault_seed()], vault_bump),
{
    with_bump(&seeds1(vault_seed_vec()), vault_bump)
}

/// Builds the call that creates the vault, signed for the vault's address.
fn send_create_vault_transaction(
    variant_instr: u8,
    id_pubkey: &Pubkey,
    vault_bump: u8,
    accounts: &[AccountView],
) -> (r: Action)
    requires
        accounts@.len() >= 5,
    ensures
        r@ == spec_create_vault_call(
            variant_instr,
            id_pubkey@,
            vault_bump,
            accounts_view(accounts@),
        ),
{
    let ghost accts = accounts_view(accounts@);
    assert(accts[0] == accounts@[0]@ && accts[1] == accounts@[1]@ && accts[2] == accounts@[2]@
        && accts[3] == accounts@[3]@ && accts[4] == accounts@[4]@);
    let mut ix_data: Vec<u8> = Vec::new();
    write_u8(&mut ix_data, variant_instr);
    write_key(&mut ix_data, id_pubkey);
    write_u8(&mut ix_data, vault_bump);
    assert(ix_data@ =~= create_vault_data(variant_instr, id_pubkey@, vault_bump));
    let mut metas: Vec<AccountMeta> = Vec::new();
    metas.push(AccountMeta { pubkey: accounts[0].key, is_signer: true, is_writable: true });
    metas.push(AccountMeta { pubkey: accounts[1].key, is_signer: false, is_writable: true });
    metas.push(AccountMeta { pubkey: accounts[2].key, is_signer: false, is_writable: true });
    metas.push(AccountMeta { pubkey: accounts[4].key, is_signer: false, is_writable: false });
    let mut infos: Vec<usize> = Vec::new();
    infos.push(0);
    infos.push(1);
    infos.push(2);
    infos.push(4);
    let r = Action::Invoke {
        program_id: accounts[3].key,
        metas,
        data: ix_data,
        accounts: infos,
        seeds: vault_seeds(vault_bump),
    };
    assert(metas_view(metas@) =~= seq![
        meta(accts[0].key, true, true),
        meta(accts[1].key, false, true),
        meta(accts[2].key, false, true),
        meta(accts[4].key, false, false),
    ]);
    assert(infos@ =~= seq![0usize, 1, 2, 4]);
    r
}

/// Builds the call that deposits into or withdraws from the vault, signed for the vault's
/// address.
fn send_instr_to_vault_transaction(
    variant_instr: u8,
    id_pubkey: &Pubkey,
    amount: u64,
    vault_bump: u8,
    accounts: &[AccountView],
) -> (r: Action)
    requires
        accounts@.len() >= 4,
    ensures
        r@ == spec_vault_amount_call(
            variant_instr,
            id_pubkey@,
            amount,
            vault_bump,
            accounts_view(accounts@),
        ),
{
    let ghost accts = accounts_view(accounts@);
    assert(accts[0] == accounts@[0]@ && accts[1] == accounts@[1]@ && accts[2] == accounts@[2]@
        && accts[3] == accounts@[3]@);
    let mut ix_data: Vec<u8> = Vec::new();
    write_u8(&mut ix_data, variant_instr);
    write_u64(&mut ix_data, amount);
    write_key(&mut ix_data, id_pubkey);
    assert(ix_data@ =~= vault_amount_data(variant_instr, id_pubkey@, amount));
    let mut metas: Vec<AccountMeta> = Vec::new();
    metas.push(AccountMeta { pubkey: accounts[0].key, is_signer: true, is_writable: true });
    metas.push(AccountMeta { pubkey: accounts[1].key, is_signer: false, is_writable: true });
    metas.push(AccountMeta { pubkey: accounts[2].key, is_signer: false, is_writable: true });
    let mut infos: Vec<usize> = Vec::new();
    infos.push(0);
    infos.push(1);
    infos.push(2);
    let r = Action::Invoke {
        program_id: accounts[3].key,
        metas,
        data: ix_data,
        accounts: infos,
        seeds: vault_seeds(vault_bump),
    };
    assert(metas_view(metas@) =~= seq![
        meta(accts[0].key, true, true),
        meta(accts[1].key, false, true),
        meta(accts[2].key, false, true),
    ]);
    assert(infos@ =~= seq![0usize, 1, 2]);
    r
}

// ---------------------------------------------------------------------------------------
// execute_instruction
// ---------------------------------------------------------------------------------------

/// The record address that a vault action checks: a member's record for a deposit, the
/// administrator's record otherwise.
pub open spec fn record_address(program_id: Seq<u8>, accounts: Seq<AccountModel>, variant_instr: u8) -> Option<
    (Seq<u8>, u8),
> {
    if variant_instr == 1 {
        user_address(program_id, accounts[0].key)
    } else {
        admin_address(program_id)
    }
}

/// The current instruction's index in the transaction, from the instructions sysvar.
pub open spec fn current_index(ix_data: Seq<u8>) -> u16 {
    u16_le(ix_data, ix_data.len() - 2)
}

/// Whether the instruction before the current one reads out of the instructions sysvar
/// (true when there is none before it).
pub open spec fn previous_instruction_loads(ix_data: Seq<u8>) -> bool {
    ix_data.len() >= 2 && current_index(ix_data) > 0 ==> instruction_at_loads(
        (current_index(ix_data) - 1) as usize,
        ix_data,
    )
}

/// The record checks of a vault action; gives the writes that they make.
pub open spec fn spec_execute_record(
    accounts: Seq<AccountModel>,
    record_addr: Option<(Seq<u8>, u8)>,
    variant_instr: u8,
) -> Result<Seq<ActionModel>, Failure> {
    if variant_instr == 0 || variant_instr == 2 {
        match spec_admin_signed(accounts, record_addr) {
            Err(f) => Err(f),
            Ok(admin) => Ok(seq![ActionModel::Write { account: 1, data: encode_admin(admin) }]),
        }
    } else if variant_instr == 1 {
        match record_addr {
            None => Err(Failure::NoProgramAddress),
            Some((addr, _)) => if accounts[1].key != addr {
                fail(ProgramError::InvalidArgument)
            } else {
                Ok(Seq::empty())
            },
        }
    } else {
        fail(ProgramError::InvalidInstructionData)
    }
}

pub open spec fn spec_execute_instruction(
    program_id: Seq<u8>,
    accounts: Seq<AccountModel>,
    record_addr: Option<(Seq<u8>, u8)>,
    previous_loads: bool,
    variant_instr: u8,
    amount: u64,
    vault_bump: u8,
) -> Result<Seq<ActionModel>, Failure> {
    if accounts.len() < 6 {
        fail(ProgramError::NotEnoughAccountKeys)
    } else if accounts[1].owner != program_id {
        fail(ProgramError::IllegalOwner)
    } else if !accounts[0].is_signer {
        fail(ProgramError::MissingRequiredSignature)
    } else if accounts[1].lamports == 0 {
        fail(ProgramError::InvalidArgument)
    } else {
        match spec_execute_record(accounts, record_addr, variant_instr) {
            Err(f) => Err(f),
            Ok(writes) => if accounts[3].key != vault_program_key()@ || accounts[5].key
                != instructions_sysvar_key()@ {
                fail(ProgramError::InvalidArgument)
            } else if accounts[5].data.len() < 2 {
                Err(Failure::ShortInstructionsSysvar)
            } else if current_index(accounts[5].data) > 0 && !previous_loads {
                fail(ProgramError::InvalidInstructionData)
            } else {
                let call = if variant_instr == 0 {
                    spec_create_vault_call(variant_instr, program_id, vault_bump, accounts)
                } else {
                    spec_vault_amount_call(variant_instr, program_id, amount, vault_bump, accounts)
                };
                Ok(writes.push(call))
            },
        }
    }
}

/// Calls the vault program on the DAO's behalf: 0 creates the vault and 2 withdraws from it
/// (the administrator only), 1 deposits into it (a member, from their record). Accounts:
/// the payer (signer), the member's or administrator's record (owned by this program,
/// funded), the vault, the vault program, the system program, the instructions sysvar.
pub fn execute_instruction(
    program_id: &Pubkey,
    accounts: &[AccountView],
    variant_instr: u8,
    amount: u64,
    vault_bump: u8,
) -> (r: Result<Vec<Action>, Failure>)
    ensures
        outcome(r) == spec_execute_instruction(
            program_id@,
            accounts_view(accounts@),
            record_address(program_id@, accounts_view(accounts@), variant_instr),
            previous_instruction_loads(accounts_view(accounts@)[5].data),
            variant_instr,
            amount,
            vault_bump,
        ),
{
    if accounts.len() < 6 {
        return Err(Failure::Error(ProgramError::NotEnoughAccountKeys));
    }
    let ghost accts = accounts_view(accounts@);
    assert(accts[0] == accounts@[0]@ && accts[5] == accounts@[5]@);
    let record_addr = if variant_instr == 1 {
        find_user_address(program_id, &accounts[0].key)
    } else {
        find_admin_address(program_id)
    };
    let ix_data = accounts[5].data.as_slice();
    let previous_loads = if ix_data.len() >= 2 {
        let current = load_current_index(ix_data);
        if current > 0 {
            load_instruction_ok((current - 1) as usize, ix_data)
        } else {
            true
        }
    } else {
        true
    };
    execute_instruction_at(
        program_id,
        accounts,
        record_addr,
        previous_loads,
        variant_instr,
        amount,
        vault_bump,
    )
}

/// `execute_instruction`, given what the search for the record's address found and whether
/// the instruction before the current one reads out of the instructions sysvar.
pub fn execute_instruction_at(
    program_id: &Pubkey,
    accounts: &[AccountView],
    record_addr: Option<(Pubkey, u8)>,
    previous_loads: bool,
    variant_instr: u8,
    amount: u64,
    vault_bump: u8,
) -> (r: Result<Vec<Action>, Failure>)
    ensures
        outcome(r) == spec_execute_instruction(
            program_id@,
            accounts_view(accounts@),
            address_view(record_addr),
            previous_loads,
            variant_instr,
            amount,
            vault_bump,
        ),
{
    if accounts.len() < 6 {
        return Err(Failure::Error(ProgramError::NotEnoughAccountKeys));
    }
    let user_payer = &accounts[0];
    let user_account_dao = &accounts[1];
    let vault_program = &accounts[3];
    let ix_sysvar = &accounts[5];
    let ghost accts = accounts_view(accounts@);
    assert(accts[0] == user_payer@ && accts[1] == user_account_dao@ && accts[3]
        == vault_program@ && accts[5] == ix_sysvar@);
    if !user_account_dao.owner.same(program_id) {
        return Err(Failure::Error(ProgramError::IllegalOwner));
    }
    if !user_payer.is_signer {
        return Err(Failure::Error(ProgramError::MissingRequiredSignature));
    }
    if user_account_dao.lamports == 0 {
        return Err(Failure::Error(ProgramError::InvalidArgument));
    }
    let mut actions: Vec<Action> = Vec::new();
    if variant_instr == 0 || variant_instr == 2 {
        let admin = admin_signed(accounts, record_addr)?;
        actions.push(Action::Write { account: 1, data: admin.try_to_vec() });
        assert(actions_view(actions@) =~= seq![
            ActionModel::Write { account: 1, data: encode_admin(admin@) },
        ]);
    } else if variant_instr == 1 {
        let (user_pda, _user_bump) = match record_addr {
            Some(a) => a,
            None => return Err(Failure::NoProgramAddress),
        };
        if !user_account_dao.key.same(&user_pda) {
            return Err(Failure::Error(ProgramError::InvalidArgument));
        }
        assert(actions_view(actions@) =~= Seq::<ActionModel>::empty());
    } else {
        return Err(Failure::Error(ProgramError::InvalidInstructionData));
    }
    let ghost writes = actions_view(actions@);
    assert(spec_execute_record(accts, address_view(record_addr), variant_instr) == Ok::<
        Seq<ActionModel>,
        Failure,
    >(writes));
    if !vault_program.key.same(&vault_program_id()) || !ix_sysvar.key.same(
        &instructions_sysvar_id(),
    ) {
        return Err(Failure::Error(ProgramError::InvalidArgument));
    }
    if ix_sysvar.data.len() < 2 {
        return Err(Failure::ShortInstructionsSysvar);
    }
    let current = load_current_index(ix_sysvar.data.as_slice());
    if current > 0 && !previous_loads {
        return Err(Failure::Error(ProgramError::InvalidInstructionData));
    }
    let id_pubkey = *program_id;
    let call = if variant_instr == 0 {
        send_create_vault_transaction(variant_instr, &id_pubkey, vault_bump, accounts)
    } else {
        send_instr_to_vault_transaction(variant_instr, &id_pubkey, amount, vault_bump, accounts)
    };
    actions.push(call);
    assert(actions_view(actions@) =~= writes.push(call@));
    Ok(actions)
}

// ---------------------------------------------------------------------------------------
// make_decision
// ---------------------------------------------------------------------------------------

pub open spec fn spec_make_decision(
    program_id: Seq<u8>,
    accounts: Seq<AccountModel>,
    admin_addr: Option<(Seq<u8>, u8)>,
) -> Result<Seq<ActionModel>, Failure> {
    if accounts.len() < 4 {
        fail(ProgramError::NotEnoughAccountKeys)
    } else if accounts[1].owner != program_id || accounts[2].owner != program_id {
        fail(ProgramError::IllegalOwner)
    } else if !accounts[0].is_signer {
        fail(ProgramError::MissingRequiredSignature)
    } else {
        match spec_admin_signed(accounts, admin_addr) {
            Err(f) => Err(f),
            Ok(admin) => match decode_proposal(accounts[2].data) {
                Err(e) => fail(ProgramError::BorshIoError(e)),
                Ok(proposal) => match spec_clock(accounts[3]) {
                    Err(f) => Err(f),
                    Ok(now) => if now < proposal.end_time {
                        fail(ProgramError::Custom(0))
                    } else {
                        Ok(
                            seq![
                                ActionModel::Write { account: 1, data: encode_admin(admin) },
                                ActionModel::Write {
                                    account: 2,
                                    data: proposal_bytes(ProposalModel { executed: true, ..proposal }),
                                },
                            ],
                        )
                    },
                },
            },
        }
    }
}

/// Closes a proposal whose voting time is over, marking it executed; only the administrator
/// may. Accounts: the administrator (signer), the administrator record and the proposal
/// (both owned by this program), the clock sysvar.
pub fn make_decision(program_id: &Pubkey, accounts: &[AccountView]) -> (r: Result<
    Vec<Action>,
    Failure,
>)
    ensures
        outcome(r) == spec_make_decision(
            program_id@,
            accounts_view(accounts@),
            admin_address(program_id@),
        ),
{
    let admin_addr = find_admin_address(program_id);
    make_decision_at(program_id, accounts, admin_addr)
}

/// `make_decision`, given what the search for the administrator record's address found.
pub fn make_decision_at(
    program_id: &Pubkey,
    accounts: &[AccountView],
    admin_addr: Option<(Pubkey, u8)>,
) -> (r: Result<Vec<Action>, Failure>)
    ensures
        outcome(r) == spec_make_decision(
            program_id@,
            accounts_view(accounts@),
            address_view(admin_addr),
        ),
{
    if accounts.len() < 4 {
        return Err(Failure::Error(ProgramError::NotEnoughAccountKeys));
    }
    let admin_payer = &accounts[0];
    let admin_account_dao = &accounts[1];
    let proposal_account = &accounts[2];
    let clock_sysvar = &accounts[3];
    let ghost accts = accounts_view(accounts@);
    assert(accts[0] == admin_payer@ && accts[1] == admin_account_dao@ && accts[2]
        == proposal_account@ && accts[3] == clock_sysvar@);
    if !admin_account_dao.owner.same(program_id) || !proposal_account.owner.same(program_id) {
        return Err(Failure::Error(ProgramError::IllegalOwner));
    }
    if !admin_payer.is_signer {
        return Err(Failure::Error(ProgramError::MissingRequiredSignature));
    }
    let admin = admin_signed(accounts, admin_addr)?;
    let admin_data = admin.try_to_vec();
    let mut proposal = match Proposal::try_from_slice(proposal_account.data.as_slice()) {
        Ok(p) => p,
        Err(e) => return Err(Failure::Error(ProgramError::BorshIoError(e))),
    };
    let current_time = read_clock(clock_sysvar)?;
    if current_time < proposal.end_time {
        return Err(Failure::Error(ProgramError::from(MyError::TimeLimit)));
    }
    proposal.executed = true;
    proof {
        assert(proposal_account.data@.len() == proposal_account.data.len());
        lemma_proposal_encode_decode(proposal_account.data@);
    }
    let proposal_data = match proposal.try_to_vec() {
        Ok(d) => d,
        Err(e) => return Err(Failure::Error(ProgramError::BorshIoError(e))),
    };
    let mut actions: Vec<Action> = Vec::new();
    actions.push(Action::Write { account: 1, data: admin_data });
    actions.push(Action::Write { account: 2, data: proposal_data });
    assert(actions_view(actions@) =~= spec_make_decision(
        program_id@,
        accts,
        address_view(admin_addr),
    )->Ok_0);
    Ok(actions)
}

// ---------------------------------------------------------------------------------------
// The entry
// ---------------------------------------------------------------------------------------

pub open spec fn spec_process_instruction(
    program_id: Seq<u8>,
    accounts: Seq<AccountModel>,
    instruction_data: Seq<u8>,
) -> Result<Seq<ActionModel>, Failure> {
    match spec_unpack(instruction_data) {
        Err(e) => fail(e),
        Ok(InstructionModel::CreateAdmin) => spec_create_admin(
            program_id,
            accounts,
            admin_address(program_id),
        ),
        Ok(InstructionModel::UpdateAdmin { new_admin }) => spec_update_admin(
            program_id,
            accounts,
            admin_address(program_id),
            new_admin,
        ),
        Ok(InstructionModel::CreateAccount { .. }) => spec_create_account(
            program_id,
            accounts,
            user_address(program_id, accounts[0].key),
        ),
        Ok(InstructionModel::OpenProposal { title, description }) => spec_open_proposal(
            program_id,
            accounts,
            proposal_address(program_id, title),
            title,
            description,
        ),
        Ok(InstructionModel::Vote { vote_answer }) => spec_vote_process(
            program_id,
            accounts,
            vote_address(program_id, accounts[1].key, accounts[2].key),
            vote_answer,
        ),
        Ok(InstructionModel::ManagePoints { amount, instruction }) => spec_manage_governance_points(
            program_id,
            accounts,
            admin_address(program_id),
            amount,
            instruction,
        ),
        Ok(InstructionModel::ExecuteIntrs { variant_instr, amount, vault_bump }) =>
            spec_execute_instruction(
            program_id,
            accounts,
            record_address(program_id, accounts, variant_instr),
            previous_instruction_loads(accounts[5].data),
            variant_instr,
            amount,
            vault_bump,
        ),
        Ok(InstructionModel::MakeDecision) => spec_make_decision(
            program_id,
            accounts,
            admin_address(program_id),
        ),
    }
}

/// The program's entry: reads the instruction and runs it. A member-registration
/// instruction's point amount is read but not used.
pub fn process_instruction(program_id: &Pubkey, accounts: &[AccountView], instruction_data: &[u8]) -> (r:
    Result<Vec<Action>, Failure>)
    ensures
        outcome(r) == spec_process_instruction(
            program_id@,
            accounts_view(accounts@),
            instruction_data@,
        ),
{
    let instruction = match InstructionFormat::unpack(instruction_data) {
        Ok(i) => i,
        Err(e) => return Err(Failure::Error(e)),
    };
    match instruction {
        InstructionFormat::CreateAdmin {  } => create_admin(program_id, accounts),
        InstructionFormat::UpdateAdmin { new_admin } => update_admin(
            program_id,
            accounts,
            new_admin,
        ),
        InstructionFormat::CreateAccount { .. } => create_account(program_id, accounts),
        InstructionFormat::OpenProposal { title, description } => open_proposal(
            program_id,
            accounts,
            title,
            description,
        ),
        InstructionFormat::Vote { vote_answer } => vote_process(program_id, accounts, vote_answer),
        InstructionFormat::ManagePoints { amount, instruction } => manage_governance_points(
            program_id,
            accounts,
            amount,
            instruction,
        ),
        InstructionFormat::ExecuteIntrs { variant_instr, amount, vault_bump } =>
            execute_instruction(program_id, accounts, variant_instr, amount, vault_bump),
        InstructionFormat::MakeDecision {  } => make_decision(program_id, accounts),
    }
}

} // verus!
