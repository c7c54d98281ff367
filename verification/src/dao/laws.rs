//! What holds of the voting program across its instructions, and of what it sends the
//! vault program.
use super::instructions::{spec_unpack, InstructionModel};
use super::processor::{
    admin_address, counted, create_vault_data, spec_admin_signed, spec_clock,
    spec_create_account, spec_create_admin, spec_execute_instruction, spec_make_decision,
    spec_open_proposal, spec_update_admin,
    spec_manage_governance_points, spec_process_instruction, spec_vote_process,
    vault_amount_data,
};
use super::state::{
    decode_admin, decode_proposal, decode_user, decode_vote_record, encode_admin, encode_user,
    lemma_admin_encode_decode, lemma_proposal_bytes_len, lemma_proposal_decode_encode, lemma_proposal_encode_decode,
    lemma_user_decode_encode, lemma_user_encode_decode, lemma_vote_record_decode_encode,
    proposal_bytes, AdminModel, ProposalModel, UserModel, VoteRecordModel,
};
use crate::account::{
    apply_action, apply_writes, lemma_apply_two, writes_owned, AccountModel, ActionModel,
};
use crate::codec::{lemma_take_u64, u64_bytes};
use crate::error::{BorshError, Failure};
use crate::codec::i64_le;
use crate::key::{clock_sysvar_key, vault_program_key};
use vstd::wrapping::u64_specs::wrapping_add;
use crate::vault::instructions::{spec_unpack as vault_unpack, InstructionModel as VaultInstruction};
use vstd::prelude::*;

verus! {

// ---------------------------------------------------------------------------------------
// What the vault reads of the DAO's calls
// ---------------------------------------------------------------------------------------

/// The vault reads the DAO's create data as a create on behalf of `id` with this bump.
pub proof fn lemma_vault_reads_create(id: Seq<u8>, vault_bump: u8)
    requires
        id.len() == 32,
    ensures
        vault_unpack(create_vault_data(0, id, vault_bump)) == Ok::<
            VaultInstruction,
            crate::error::ProgramError,
        >(VaultInstruction::CreateVault { program_caller_id: id, vault_bump }),
{
    let data = create_vault_data(0, id, vault_bump);
    let rest = data.subrange(1, data.len() as int);
    assert(rest =~= id + seq![vault_bump]);
    assert(rest.subrange(0, 32) =~= id);
}

/// The vault reads the DAO's deposit or withdraw data as that amount on behalf of `id`.
pub proof fn lemma_vault_reads_amount(variant_instr: u8, id: Seq<u8>, amount: u64)
    requires
        id.len() == 32,
        variant_instr == 1 || variant_instr == 2,
    ensures
        vault_unpack(vault_amount_data(variant_instr, id, amount)) == Ok::<
            VaultInstruction,
            crate::error::ProgramError,
        >(
            if variant_instr == 1 {
                VaultInstruction::IncreaseAmount { amount, program_caller_id: id }
            } else {
                VaultInstruction::WithdrawAmount { amount, program_caller_id: id }
            },
        ),
{
    let data = vault_amount_data(variant_instr, id, amount);
    let rest = data.subrange(1, data.len() as int);
    assert(rest =~= u64_bytes(amount) + id);
    assert(rest.subrange(0, 8) =~= u64_bytes(amount));
    lemma_take_u64(rest, 0, amount);
    assert(rest.subrange(8, 40) =~= id);
}

/// The vault action that a DAO instruction asks for.
pub open spec fn intended_vault_action(variant_instr: u8, id: Seq<u8>, amount: u64, vault_bump: u8) -> VaultInstruction {
    if variant_instr == 0 {
        VaultInstruction::CreateVault { program_caller_id: id, vault_bump }
    } else if variant_instr == 1 {
        VaultInstruction::IncreaseAmount { amount, program_caller_id: id }
    } else {
        VaultInstruction::WithdrawAmount { amount, program_caller_id: id }
    }
}

/// What the DAO sends the vault program is what it means: the call goes to the vault
/// program, and the vault reads its data as the create, deposit or withdrawal that the DAO
/// instruction names, on the DAO's behalf.
pub proof fn law_vault_reads_what_dao_sends(
    program_id: Seq<u8>,
    accounts: Seq<AccountModel>,
    record_addr: Option<(Seq<u8>, u8)>,
    previous_loads: bool,
    variant_instr: u8,
    amount: u64,
    vault_bump: u8,
)
    requires
        program_id.len() == 32,
        spec_execute_instruction(
            program_id,
            accounts,
            record_addr,
            previous_loads,
            variant_instr,
            amount,
            vault_bump,
        ) is Ok,
    ensures
        ({
            let actions = spec_execute_instruction(
                program_id,
                accounts,
                record_addr,
                previous_loads,
                variant_instr,
                amount,
                vault_bump,
            )->Ok_0;
            &&& actions.len() > 0
            &&& actions.last() matches ActionModel::Invoke { program_id: callee, data, .. }
                && callee == vault_program_key()@ && vault_unpack(data) == Ok::<
                VaultInstruction,
                crate::error::ProgramError,
            >(intended_vault_action(variant_instr, program_id, amount, vault_bump))
        }),
{
    if variant_instr == 0 {
        lemma_vault_reads_create(program_id, vault_bump);
    } else {
        lemma_vault_reads_amount(variant_instr, program_id, amount);
    }
}

// ---------------------------------------------------------------------------------------
// Votes and decisions
// ---------------------------------------------------------------------------------------

/// A vote adds the member's points to the tally it chooses (wrapping past `u64::MAX`) and
/// changes nothing else of the proposal; it records the vote with that weight, in a new account at the address of this
/// member's vote on this proposal (so a member votes once per proposal); the member's
/// record is written back unchanged; and it happens only while the proposal is open.
pub proof fn law_vote_counts_once(
    program_id: Seq<u8>,
    accounts: Seq<AccountModel>,
    vote_addr: Option<(Seq<u8>, u8)>,
    vote_answer: bool,
)
    requires
        spec_vote_process(program_id, accounts, vote_addr, vote_answer) is Ok,
        accounts[2].key.len() == 32,
        accounts[2].data.len() <= usize::MAX,
    ensures
        ({
            let actions = spec_vote_process(program_id, accounts, vote_addr, vote_answer)->Ok_0;
            let proposal = decode_proposal(accounts[2].data)->Ok_0;
            let user = decode_user(accounts[1].data)->Ok_0;
            &&& decode_proposal(accounts[2].data) is Ok
            &&& decode_user(accounts[1].data) is Ok
            &&& accounts[3].lamports == 0
            &&& vote_addr matches Some((addr, _)) && accounts[3].key == addr
            &&& spec_clock(accounts[5]) matches Ok(now) && now <= proposal.end_time
            &&& actions[1] matches ActionModel::Write { account, data } && account == 3
                && decode_vote_record(data) == Ok::<VoteRecordModel, BorshError>(
                VoteRecordModel {
                    proposal_id: accounts[2].key,
                    vote_amount: user.amount_governance_points,
                },
            )
            &&& actions[2] matches ActionModel::Write { account, data } && account == 2
                && decode_proposal(data) == Ok::<ProposalModel, BorshError>(
                ProposalModel {
                    yes_votes: if vote_answer {
                        wrapping_add(proposal.yes_votes, user.amount_governance_points)
                    } else {
                        proposal.yes_votes
                    },
                    no_votes: if vote_answer {
                        proposal.no_votes
                    } else {
                        wrapping_add(proposal.no_votes, user.amount_governance_points)
                    },
                    ..proposal
                },
            )
            &&& actions[3] matches ActionModel::Write { account, data } && account == 1 && data
                == accounts[1].data
        }),
{
    let proposal = decode_proposal(accounts[2].data)->Ok_0;
    let user = decode_user(accounts[1].data)->Ok_0;
    lemma_proposal_encode_decode(accounts[2].data);
    lemma_user_encode_decode(accounts[1].data);
    let p2 = counted(proposal, vote_answer, user.amount_governance_points);
    lemma_proposal_bytes_len(p2);
    lemma_proposal_bytes_len(proposal);
    lemma_proposal_decode_encode(p2);
    lemma_vote_record_decode_encode(
        VoteRecordModel { proposal_id: accounts[2].key, vote_amount: user.amount_governance_points },
    );
}

/// Closing a proposal happens only once its voting time is over, by the administrator, and
/// only marks it executed: every other field stays as it was.
pub proof fn law_decision_after_voting(
    program_id: Seq<u8>,
    accounts: Seq<AccountModel>,
    admin_addr: Option<(Seq<u8>, u8)>,
)
    requires
        spec_make_decision(program_id, accounts, admin_addr) is Ok,
        accounts[2].data.len() <= usize::MAX,
    ensures
        ({
            let actions = spec_make_decision(program_id, accounts, admin_addr)->Ok_0;
            let proposal = decode_proposal(accounts[2].data)->Ok_0;
            &&& decode_proposal(accounts[2].data) is Ok
            &&& spec_clock(accounts[3]) matches Ok(now) && now >= proposal.end_time
            &&& spec_admin_signed(accounts, admin_addr) is Ok
            &&& actions[0] matches ActionModel::Write { account, data } && account == 1 && data
                == accounts[1].data
            &&& actions[1] matches ActionModel::Write { account, data } && account == 2
                && decode_proposal(data) == Ok::<ProposalModel, BorshError>(
                ProposalModel { executed: true, ..proposal },
            )
        }),
{
    let proposal = decode_proposal(accounts[2].data)->Ok_0;
    lemma_proposal_encode_decode(accounts[2].data);
    lemma_admin_encode_decode(accounts[1].data);
    let p2 = ProposalModel { executed: true, ..proposal };
    lemma_proposal_bytes_len(p2);
    lemma_proposal_bytes_len(proposal);
    lemma_proposal_decode_encode(p2);
}

// ---------------------------------------------------------------------------------------
// Governance points
// ---------------------------------------------------------------------------------------

/// A new member's record is made only by its signing member, at the member's record
/// address, unfunded before; it starts with 10 governance points, whatever the instruction
/// asked.
pub proof fn law_new_member_points(
    program_id: Seq<u8>,
    accounts: Seq<AccountModel>,
    user_addr: Option<(Seq<u8>, u8)>,
)
    requires
        spec_create_account(program_id, accounts, user_addr) is Ok,
        accounts[0].key.len() == 32,
    ensures
        ({
            let actions = spec_create_account(program_id, accounts, user_addr)->Ok_0;
            &&& accounts[0].is_signer
            &&& accounts[1].lamports == 0
            &&& user_addr matches Some((addr, _)) && accounts[1].key == addr
            &&& actions[0] matches ActionModel::CreateAccount { account, owner, .. } && account == 1
                && owner == program_id
            &&& actions[1] matches ActionModel::Write { account, data } && account == 1
                && decode_user(data) == Ok::<UserModel, BorshError>(
                UserModel { user_id: accounts[0].key, amount_governance_points: 10 },
            )
        }),
{
    lemma_user_decode_encode(
        UserModel { user_id: accounts[0].key, amount_governance_points: 10 },
    );
}

/// Removing the points just added gives the member's record back, when adding did not wrap
/// around; the administrator record is written back unchanged both times.
pub proof fn law_remove_undoes_add(
    program_id: Seq<u8>,
    accounts: Seq<AccountModel>,
    admin_addr: Option<(Seq<u8>, u8)>,
    amount: u64,
)
    requires
        spec_manage_governance_points(program_id, accounts, admin_addr, amount, true) is Ok,
        decode_user(accounts[2].data)->Ok_0.amount_governance_points + amount <= u64::MAX,
    ensures
        ({
            let after = apply_writes(
                accounts,
                spec_manage_governance_points(program_id, accounts, admin_addr, amount, true)->Ok_0,
            );
            let back = spec_manage_governance_points(program_id, after, admin_addr, amount, false);
            &&& back is Ok
            &&& apply_writes(after, back->Ok_0) == accounts
        }),
{
    let admin = decode_admin(accounts[1].data)->Ok_0;
    let user = decode_user(accounts[2].data)->Ok_0;
    lemma_admin_encode_decode(accounts[1].data);
    lemma_user_encode_decode(accounts[2].data);
    let user2 = UserModel {
        amount_governance_points: (user.amount_governance_points + amount) as u64,
        ..user
    };
    let w1 = ActionModel::Write { account: 1, data: encode_admin(admin) };
    let w2 = ActionModel::Write { account: 2, data: encode_user(user2) };
    lemma_apply_two(accounts, w1, w2);
    let mid = apply_action(accounts, w1);
    assert(mid[1].data =~= accounts[1].data);
    assert(mid =~= accounts);
    let after = apply_action(mid, w2);
    assert(after[2].data =~= encode_user(user2));
    assert(after[1] == accounts[1]);
    assert(decode_user(accounts[2].data) is Ok);
    assert(user.user_id.len() == 32);
    lemma_user_decode_encode(user2);
    let v1 = ActionModel::Write { account: 1, data: encode_admin(admin) };
    let v2 = ActionModel::Write { account: 2, data: encode_user(user) };
    assert(spec_manage_governance_points(program_id, after, admin_addr, amount, false) == Ok::<
        Seq<ActionModel>,
        Failure,
    >(seq![v1, v2]));
    lemma_apply_two(after, v1, v2);
    let mid2 = apply_action(after, v1);
    assert(mid2[1].data =~= after[1].data);
    assert(mid2 =~= after);
    assert(apply_action(mid2, v2) =~= accounts);
}

// ---------------------------------------------------------------------------------------
// Across instructions
// ---------------------------------------------------------------------------------------

/// The administrator's checks: the signer is the administrator that the record at the
/// administrator address names.
pub open spec fn admin_signs(program_id: Seq<u8>, accounts: Seq<AccountModel>) -> bool {
    &&& accounts[0].is_signer
    &&& admin_address(program_id) matches Some((addr, _)) && accounts[1].key == addr
    &&& decode_admin(accounts[1].data) matches Ok(admin) && admin.admin_id == accounts[0].key
}

/// Every instruction needs the first account's signature and writes only to accounts that
/// the program owns or creates; handing over the administrator role, managing points,
/// closing a proposal, and creating or withdrawing from the vault need the administrator's.
#[verifier::spinoff_prover]
#[verifier::rlimit(50)]
pub proof fn law_signed_owned_and_administered(
    program_id: Seq<u8>,
    accounts: Seq<AccountModel>,
    instruction_data: Seq<u8>,
)
    requires
        spec_process_instruction(program_id, accounts, instruction_data) is Ok,
    ensures
        ({
            let actions = spec_process_instruction(program_id, accounts, instruction_data)->Ok_0;
            &&& accounts[0].is_signer
            &&& writes_owned(program_id, accounts, actions)
            &&& match spec_unpack(instruction_data)->Ok_0 {
                InstructionModel::UpdateAdmin { .. } => admin_signs(program_id, accounts),
                InstructionModel::ManagePoints { .. } => admin_signs(program_id, accounts),
                InstructionModel::MakeDecision => admin_signs(program_id, accounts),
                InstructionModel::ExecuteIntrs { variant_instr, .. } => variant_instr != 1
                    ==> admin_signs(program_id, accounts),
                _ => true,
            }
        }),
{
    let actions = spec_process_instruction(program_id, accounts, instruction_data)->Ok_0;
    match spec_unpack(instruction_data)->Ok_0 {
        InstructionModel::CreateAdmin => {
            assert(actions[0] matches ActionModel::CreateAccount { .. });
        },
        InstructionModel::CreateAccount { .. } => {
            assert(actions[0] matches ActionModel::CreateAccount { .. });
        },
        InstructionModel::OpenProposal { .. } => {
            assert(actions[0] matches ActionModel::CreateAccount { .. });
        },
        InstructionModel::Vote { .. } => {
            assert(actions[0] matches ActionModel::CreateAccount { .. });
        },
        _ => {},
    }
}

} // verus!

verus! {

// ---------------------------------------------------------------------------------------
// When the administrator's and the voters' instructions succeed
// ---------------------------------------------------------------------------------------

/// The administrator's checks, on the accounts: the signer is the administrator named by
/// the program's record at the administrator address.
pub open spec fn administrator_signs(
    program_id: Seq<u8>,
    accounts: Seq<AccountModel>,
    admin_addr: Option<(Seq<u8>, u8)>,
) -> bool {
    &&& accounts[0].is_signer
    &&& accounts[1].owner == program_id
    &&& admin_addr matches Some((addr, _)) && accounts[1].key == addr
    &&& decode_admin(accounts[1].data) matches Ok(admin) && admin.admin_id == accounts[0].key
}

/// Whether an account is the clock sysvar holding a timestamp.
pub open spec fn is_clock(clock: AccountModel) -> bool {
    clock.key == clock_sysvar_key()@ && clock.data.len() >= 40
}

/// The clock's `unix_timestamp`.
pub open spec fn clock_now(clock: AccountModel) -> i64 {
    i64_le(clock.data, 32)
}

/// Closing a proposal, once the administrator's checks pass on a proposal owned by the
/// program: it is refused with the time-limit error exactly while the clock is before the
/// proposal's end time; from the end time on (the end second included, and any time after)
/// it succeeds, writing the administrator record back as it was and the proposal with only
/// `executed` set.
pub proof fn law_decision_once_voting_ended(
    program_id: Seq<u8>,
    accounts: Seq<AccountModel>,
    admin_addr: Option<(Seq<u8>, u8)>,
)
    requires
        accounts.len() >= 4,
        accounts[2].owner == program_id,
        administrator_signs(program_id, accounts, admin_addr),
        decode_proposal(accounts[2].data) is Ok,
        accounts[2].data.len() <= usize::MAX,
        is_clock(accounts[3]),
    ensures
        ({
            let proposal = decode_proposal(accounts[2].data)->Ok_0;
            let r = spec_make_decision(program_id, accounts, admin_addr);
            &&& clock_now(accounts[3]) < proposal.end_time ==> r == Err::<Seq<ActionModel>, Failure>(
                Failure::Error(crate::error::ProgramError::Custom(0)),
            )
            &&& clock_now(accounts[3]) >= proposal.end_time ==> {
                &&& r is Ok
                &&& r->Ok_0.len() == 2
                &&& r->Ok_0[0] == ActionModel::Write { account: 1, data: accounts[1].data }
                &&& r->Ok_0[1] matches ActionModel::Write { account, data } && account == 2
                    && decode_proposal(data) == Ok::<ProposalModel, BorshError>(
                    ProposalModel { executed: true, ..proposal },
                )
            }
        }),
{
    let proposal = decode_proposal(accounts[2].data)->Ok_0;
    lemma_proposal_encode_decode(accounts[2].data);
    lemma_admin_encode_decode(accounts[1].data);
    let p2 = ProposalModel { executed: true, ..proposal };
    lemma_proposal_bytes_len(p2);
    lemma_proposal_bytes_len(proposal);
    lemma_proposal_decode_encode(p2);
}

/// Managing a member's points, once the administrator's checks pass on a member record
/// owned by the program: adding always succeeds, with the points plus the amount (wrapping
/// past `u64::MAX`); removing succeeds with the points minus the amount when the member
/// holds at least the amount, and fails with the arithmetic error otherwise. The
/// administrator record is written back as it was, and the member's address stays.
pub proof fn law_points_add_always_remove_if_held(
    program_id: Seq<u8>,
    accounts: Seq<AccountModel>,
    admin_addr: Option<(Seq<u8>, u8)>,
    amount: u64,
    instruction: bool,
)
    requires
        accounts.len() >= 3,
        accounts[2].owner == program_id,
        administrator_signs(program_id, accounts, admin_addr),
        decode_user(accounts[2].data) is Ok,
    ensures
        ({
            let user = decode_user(accounts[2].data)->Ok_0;
            let points = user.amount_governance_points;
            let r = spec_manage_governance_points(program_id, accounts, admin_addr, amount, instruction);
            &&& !instruction && points < amount ==> r == Err::<Seq<ActionModel>, Failure>(
                Failure::Error(crate::error::ProgramError::Custom(1)),
            )
            &&& (instruction || amount <= points) ==> {
                &&& r is Ok
                &&& r->Ok_0.len() == 2
                &&& r->Ok_0[0] == ActionModel::Write { account: 1, data: accounts[1].data }
                &&& r->Ok_0[1] matches ActionModel::Write { account, data } && account == 2
                    && decode_user(data) == Ok::<UserModel, BorshError>(
                    UserModel {
                        user_id: user.user_id,
                        amount_governance_points: if instruction {
                            wrapping_add(points, amount)
                        } else {
                            (points - amount) as u64
                        },
                    },
                )
            }
        }),
{
    let user = decode_user(accounts[2].data)->Ok_0;
    lemma_admin_encode_decode(accounts[1].data);
    lemma_user_encode_decode(accounts[2].data);
    let points = user.amount_governance_points;
    if instruction || amount <= points {
        let new_points = if instruction {
            wrapping_add(points, amount)
        } else {
            (points - amount) as u64
        };
        lemma_user_decode_encode(UserModel { amount_governance_points: new_points, ..user });
    }
}

/// Voting, once the accounts pass the checks (the member's record and the proposal owned
/// by the program, the signer, an unfunded vote record at the vote address, both records
/// readable, the clock): it is refused with the time-limit error exactly when the clock is
/// past the proposal's end time, and otherwise succeeds, adding the member's points to the
/// chosen tally.
pub proof fn law_vote_while_open(
    program_id: Seq<u8>,
    accounts: Seq<AccountModel>,
    vote_addr: Option<(Seq<u8>, u8)>,
    vote_answer: bool,
)
    requires
        accounts.len() >= 6,
        accounts[1].owner == program_id,
        accounts[2].owner == program_id,
        accounts[0].is_signer,
        accounts[3].lamports == 0,
        vote_addr matches Some((addr, _)) && accounts[3].key == addr,
        decode_proposal(accounts[2].data) is Ok,
        decode_user(accounts[1].data) is Ok,
        accounts[2].key.len() == 32,
        accounts[2].data.len() <= usize::MAX,
        is_clock(accounts[5]),
    ensures
        ({
            let proposal = decode_proposal(accounts[2].data)->Ok_0;
            let user = decode_user(accounts[1].data)->Ok_0;
            let r = spec_vote_process(program_id, accounts, vote_addr, vote_answer);
            &&& clock_now(accounts[5]) > proposal.end_time ==> r == Err::<Seq<ActionModel>, Failure>(
                Failure::Error(crate::error::ProgramError::Custom(0)),
            )
            &&& clock_now(accounts[5]) <= proposal.end_time ==> {
                &&& r is Ok
                &&& r->Ok_0.len() == 4
                &&& r->Ok_0[2] matches ActionModel::Write { account, data } && account == 2
                    && decode_proposal(data) is Ok && decode_proposal(data)->Ok_0.yes_votes == (if vote_answer {
                    wrapping_add(proposal.yes_votes, user.amount_governance_points)
                } else {
                    proposal.yes_votes
                }) && decode_proposal(data)->Ok_0.no_votes == (if vote_answer {
                    proposal.no_votes
                } else {
                    wrapping_add(proposal.no_votes, user.amount_governance_points)
                })
            }
        }),
{
    if clock_now(accounts[5]) <= decode_proposal(accounts[2].data)->Ok_0.end_time {
        law_vote_counts_once(program_id, accounts, vote_addr, vote_answer);
    }
}

} // verus!

verus! {

// ---------------------------------------------------------------------------------------
// What the administrator record and a new proposal hold
// ---------------------------------------------------------------------------------------

/// Creating the administrator record (unfunded before) makes the signer the administrator,
/// stamped with the clock's time, at the administrator address, for this program.
pub proof fn law_create_admin_records_signer(
    program_id: Seq<u8>,
    accounts: Seq<AccountModel>,
    admin_addr: Option<(Seq<u8>, u8)>,
)
    requires
        spec_create_admin(program_id, accounts, admin_addr) is Ok,
    ensures
        ({
            let actions = spec_create_admin(program_id, accounts, admin_addr)->Ok_0;
            &&& accounts[0].is_signer
            &&& is_clock(accounts[3])
            &&& accounts[1].lamports == 0
            &&& admin_addr matches Some((addr, _)) && accounts[1].key == addr
            &&& actions.len() == 2
            &&& actions[0] matches ActionModel::CreateAccount { account, owner, .. } && account == 1
                && owner == program_id
            &&& actions[1] == ActionModel::Write {
                account: 1,
                data: accounts[0].key + crate::codec::i64_bytes(clock_now(accounts[3])),
            }
        }),
{
}

/// Handing over the administrator role, once the current administrator's checks pass and
/// the clock is given, always succeeds and writes the record naming the new administrator,
/// stamped with the clock's time.
pub proof fn law_update_admin_hands_over(
    program_id: Seq<u8>,
    accounts: Seq<AccountModel>,
    admin_addr: Option<(Seq<u8>, u8)>,
    new_admin: Seq<u8>,
)
    requires
        accounts.len() >= 3,
        administrator_signs(program_id, accounts, admin_addr),
        is_clock(accounts[2]),
    ensures
        spec_update_admin(program_id, accounts, admin_addr, new_admin) == Ok::<
            Seq<ActionModel>,
            Failure,
        >(
            seq![
                ActionModel::Write {
                    account: 1,
                    data: new_admin + crate::codec::i64_bytes(clock_now(accounts[2])),
                },
            ],
        ),
{
}

/// A new proposal is opened by a signer with a member record owned by the program, at the
/// proposal's address, unfunded before; it is made by that member record, holds the given
/// title and description, no votes, is not executed, and is open from the clock's time for
/// an hour (3600 seconds, the end wrapping around past `i64::MAX`).
pub proof fn law_new_proposal_open_for_an_hour(
    program_id: Seq<u8>,
    accounts: Seq<AccountModel>,
    proposal_addr: Option<(Seq<u8>, u8)>,
    title: Seq<char>,
    description: Seq<char>,
)
    requires
        spec_open_proposal(program_id, accounts, proposal_addr, title, description) is Ok,
    ensures
        ({
            let actions = spec_open_proposal(program_id, accounts, proposal_addr, title, description)->Ok_0;
            let now = clock_now(accounts[4]);
            &&& is_clock(accounts[4])
            &&& accounts[0].is_signer
            &&& accounts[1].owner == program_id
            &&& accounts[2].lamports == 0
            &&& proposal_addr matches Some((addr, _)) && accounts[2].key == addr
            &&& actions.len() == 2
            &&& actions[0] matches ActionModel::CreateAccount { account, owner, .. } && account == 2
                && owner == program_id
            &&& actions[1] == ActionModel::Write {
                account: 2,
                data: proposal_bytes(
                    ProposalModel {
                        user_id: accounts[1].key,
                        title,
                        description,
                        yes_votes: 0,
                        no_votes: 0,
                        executed: false,
                        start_time: now,
                        end_time: if now + 3600 > i64::MAX {
                            (now + 3600 - 0x1_0000_0000_0000_0000) as i64
                        } else {
                            (now + 3600) as i64
                        },
                    },
                ),
            }
        }),
{
}

} // verus!
