use dao_programs::account::{AccountMeta, AccountView, Action};
use dao_programs::dao::instructions::InstructionFormat;
use dao_programs::dao::processor::{
    create_account, create_admin, execute_instruction, execute_instruction_at, make_decision,
    manage_governance_points, open_proposal, process_instruction, update_admin, vote_process,
};
use dao_programs::dao::state::{Admin_Account, Proposal, User_Account, Vote_Record};
use dao_programs::dao::{action_as_str, vault_program_id, MyError};
use dao_programs::error::{BorshError, Failure, ProgramError};
use dao_programs::key::{clock_sysvar_id, instructions_sysvar_id, system_program_id, Pubkey};
use dao_programs::vault;
use solana_program::pubkey::Pubkey as SolanaPubkey;
use std::str::FromStr;
use solana_program::sysvar::instructions::{
    construct_instructions_data, store_current_index, BorrowedAccountMeta, BorrowedInstruction,
};

fn key(b: u8) -> Pubkey {
    Pubkey::new_from_array([b; 32])
}

fn program() -> Pubkey {
    key(7)
}

fn solana(k: &Pubkey) -> SolanaPubkey {
    SolanaPubkey::new_from_array(k.to_bytes())
}

fn pda(seeds: &[&[u8]]) -> (Pubkey, u8) {
    let (k, b) = SolanaPubkey::find_program_address(seeds, &solana(&program()));
    (Pubkey::new_from_array(k.to_bytes()), b)
}

fn admin_pda() -> (Pubkey, u8) {
    pda(&[b"admin"])
}

fn user_pda(user: &Pubkey) -> (Pubkey, u8) {
    pda(&[b"userAccount", &user.to_bytes()])
}

fn account(k: Pubkey, is_signer: bool, lamports: u64, data: Vec<u8>) -> AccountView {
    AccountView { key: k, owner: program(), is_signer, lamports, data }
}

fn clock_account(now: i64) -> AccountView {
    let mut data = Vec::new();
    data.extend_from_slice(&11u64.to_le_bytes());
    data.extend_from_slice(&(-5i64).to_le_bytes());
    data.extend_from_slice(&3u64.to_le_bytes());
    data.extend_from_slice(&4u64.to_le_bytes());
    data.extend_from_slice(&now.to_le_bytes());
    AccountView { key: clock_sysvar_id(), owner: key(0), is_signer: false, lamports: 1, data }
}

fn admin_bytes(admin: &Pubkey, last_update: i64) -> Vec<u8> {
    Admin_Account { admin_id: *admin, last_update }.try_to_vec()
}

fn user_bytes(user: &Pubkey, points: u64) -> Vec<u8> {
    User_Account { user_id: *user, amount_governance_points: points }.try_to_vec()
}

fn proposal(end_time: i64, yes: u64, no: u64) -> Proposal {
    Proposal {
        user_id: key(2),
        title: "budget".to_string(),
        description: "spend it".to_string(),
        yes_votes: yes,
        no_votes: no,
        executed: false,
        start_time: end_time - 3600,
        end_time,
    }
}

fn written(actions: &[Action], i: usize) -> (usize, Vec<u8>) {
    match &actions[i] {
        Action::Write { account, data } => (*account, data.clone()),
        other => panic!("expected a write, got {:?}", other),
    }
}

fn err(e: ProgramError) -> Failure {
    Failure::Error(e)
}

fn ix_sysvar(current: u16, instructions: usize) -> AccountView {
    let program = SolanaPubkey::new_from_array([5; 32]);
    let k = SolanaPubkey::new_from_array([6; 32]);
    let data = [1u8, 2, 3];
    let ixs: Vec<BorrowedInstruction> = (0..instructions)
        .map(|_| BorrowedInstruction {
            program_id: &program,
            accounts: vec![BorrowedAccountMeta { pubkey: &k, is_signer: false, is_writable: true }],
            data: &data,
        })
        .collect();
    let mut bytes = construct_instructions_data(&ixs);
    store_current_index(&mut bytes, current);
    AccountView { key: instructions_sysvar_id(), owner: key(0), is_signer: false, lamports: 1, data: bytes }
}

fn execute_accounts(record: AccountView, ix: AccountView) -> Vec<AccountView> {
    vec![
        account(key(1), true, 100, vec![]),
        record,
        account(key(3), false, 0, vec![]),
        AccountView { key: vault_program_id(), owner: key(0), is_signer: false, lamports: 1, data: vec![] },
        AccountView { key: system_program_id(), owner: key(0), is_signer: false, lamports: 1, data: vec![] },
        ix,
    ]
}

#[test]
fn vault_program_id_is_the_named_address() {
    let parsed = SolanaPubkey::from_str("6dVLkpmd5BvVQF7oXpipnQFtKwba2uQkMMwzHnaqf8Gr").unwrap();
    assert_eq!(vault_program_id().to_bytes(), parsed.to_bytes());
}

#[test]
fn action_names() {
    assert_eq!(action_as_str(0), "Create");
    assert_eq!(action_as_str(1), "Deposit");
    assert_eq!(action_as_str(2), "Withdraw");
    assert_eq!(action_as_str(3), "Unknown");
    assert_eq!(action_as_str(255), "Unknown");
}

#[test]
fn my_error_codes() {
    assert_eq!(ProgramError::from(MyError::TimeLimit), ProgramError::Custom(0));
    assert_eq!(ProgramError::from(MyError::ArithmeticError), ProgramError::Custom(1));
}

#[test]
fn dao_unpack_all_kinds() {
    assert!(matches!(InstructionFormat::unpack(&[0, 9]).unwrap(), InstructionFormat::CreateAdmin {}));
    let mut d = vec![1u8];
    d.extend_from_slice(&[3u8; 32]);
    match InstructionFormat::unpack(&d).unwrap() {
        InstructionFormat::UpdateAdmin { new_admin } => assert_eq!(new_admin.to_bytes(), [3u8; 32]),
        other => panic!("unexpected {:?}", other),
    }
    let mut d = vec![2u8];
    d.extend_from_slice(&50u64.to_le_bytes());
    assert!(matches!(
        InstructionFormat::unpack(&d).unwrap(),
        InstructionFormat::CreateAccount { amount_governance_points: 50 }
    ));
    let mut d = vec![3u8];
    d.extend_from_slice(&borsh::BorshSerialize::try_to_vec(&("title".to_string(), "déjà".to_string())).unwrap());
    match InstructionFormat::unpack(&d).unwrap() {
        InstructionFormat::OpenProposal { title, description } => {
            assert_eq!(title, "title");
            assert_eq!(description, "déjà");
        }
        other => panic!("unexpected {:?}", other),
    }
    assert!(matches!(InstructionFormat::unpack(&[4, 1]).unwrap(), InstructionFormat::Vote { vote_answer: true }));
    let mut d = vec![5u8];
    d.extend_from_slice(&8u64.to_le_bytes());
    d.push(0);
    assert!(matches!(
        InstructionFormat::unpack(&d).unwrap(),
        InstructionFormat::ManagePoints { amount: 8, instruction: false }
    ));
    let mut d = vec![6u8, 2];
    d.extend_from_slice(&9u64.to_le_bytes());
    d.push(250);
    assert!(matches!(
        InstructionFormat::unpack(&d).unwrap(),
        InstructionFormat::ExecuteIntrs { variant_instr: 2, amount: 9, vault_bump: 250 }
    ));
    assert!(matches!(InstructionFormat::unpack(&[7]).unwrap(), InstructionFormat::MakeDecision {}));
}

#[test]
fn dao_unpack_errors() {
    assert_eq!(InstructionFormat::unpack(&[]).unwrap_err(), ProgramError::InvalidInstructionData);
    assert_eq!(InstructionFormat::unpack(&[8]).unwrap_err(), ProgramError::InvalidInstructionData);
    assert_eq!(
        InstructionFormat::unpack(&[4, 2]).unwrap_err(),
        ProgramError::BorshIoError(BorshError::InvalidBool(2))
    );
    assert_eq!(
        InstructionFormat::unpack(&[3, 2, 0, 0, 0, 0xc3, 0x28, 0, 0, 0, 0]).unwrap_err(),
        ProgramError::BorshIoError(BorshError::InvalidUtf8)
    );
    assert_eq!(
        InstructionFormat::unpack(&[3, 9, 0, 0, 0, 1]).unwrap_err(),
        ProgramError::BorshIoError(BorshError::UnexpectedLength)
    );
    assert_eq!(
        InstructionFormat::unpack(&[4, 1, 0]).unwrap_err(),
        ProgramError::BorshIoError(BorshError::NotAllBytesRead)
    );
}

/// Each payload-carrying kind: the tag and the borsh encoding of its fields.
fn encoded_payloads() -> Vec<(u8, Vec<u8>)> {
    vec![
        (1, borsh::BorshSerialize::try_to_vec(&solana(&key(3))).unwrap()),
        (2, borsh::BorshSerialize::try_to_vec(&77u64).unwrap()),
        (3, borsh::BorshSerialize::try_to_vec(&("roads".to_string(), "ñandú".to_string())).unwrap()),
        (4, borsh::BorshSerialize::try_to_vec(&false).unwrap()),
        (5, borsh::BorshSerialize::try_to_vec(&(u64::MAX, true)).unwrap()),
        (6, borsh::BorshSerialize::try_to_vec(&(1u8, 300u64, 254u8)).unwrap()),
    ]
}

#[test]
fn dao_unpack_round_trip_extended_and_truncated() {
    for (tag, payload) in encoded_payloads() {
        let mut exact = vec![tag];
        exact.extend_from_slice(&payload);
        let read = InstructionFormat::unpack(&exact).unwrap();
        match (tag, read) {
            (1, InstructionFormat::UpdateAdmin { new_admin }) => assert_eq!(new_admin.to_bytes(), [3u8; 32]),
            (2, InstructionFormat::CreateAccount { amount_governance_points }) => {
                assert_eq!(amount_governance_points, 77)
            }
            (3, InstructionFormat::OpenProposal { title, description }) => {
                assert_eq!(title, "roads");
                assert_eq!(description, "ñandú");
            }
            (4, InstructionFormat::Vote { vote_answer }) => assert!(!vote_answer),
            (5, InstructionFormat::ManagePoints { amount, instruction }) => {
                assert_eq!(amount, u64::MAX);
                assert!(instruction);
            }
            (6, InstructionFormat::ExecuteIntrs { variant_instr, amount, vault_bump }) => {
                assert_eq!((variant_instr, amount, vault_bump), (1, 300, 254));
            }
            (t, other) => panic!("tag {} read as {:?}", t, other),
        }
        let mut extended = exact.clone();
        extended.push(0);
        assert_eq!(
            InstructionFormat::unpack(&extended).unwrap_err(),
            ProgramError::BorshIoError(BorshError::NotAllBytesRead)
        );
        for n in 1..exact.len() {
            assert_eq!(
                InstructionFormat::unpack(&exact[..n]).unwrap_err(),
                ProgramError::BorshIoError(BorshError::UnexpectedLength),
                "tag {} cut to {} bytes",
                tag,
                n
            );
        }
    }
    assert!(matches!(InstructionFormat::unpack(&[7, 1, 2]).unwrap(), InstructionFormat::MakeDecision {}));
}

#[test]
fn record_layouts_match_borsh() {
    let a = Admin_Account { admin_id: key(4), last_update: -77 };
    assert_eq!(
        a.try_to_vec(),
        borsh::BorshSerialize::try_to_vec(&(solana(&key(4)), -77i64)).unwrap()
    );
    let u = User_Account { user_id: key(5), amount_governance_points: 10 };
    assert_eq!(u.try_to_vec(), borsh::BorshSerialize::try_to_vec(&(solana(&key(5)), 10u64)).unwrap());
    let v = Vote_Record { proposal_id: key(6), vote_amount: 3 };
    assert_eq!(v.try_to_vec(), borsh::BorshSerialize::try_to_vec(&(solana(&key(6)), 3u64)).unwrap());
    let p = proposal(5000, 1, 2);
    let expected = borsh::BorshSerialize::try_to_vec(&(
        solana(&p.user_id),
        p.title.clone(),
        p.description.clone(),
        p.yes_votes,
        p.no_votes,
        p.executed,
        p.start_time,
        p.end_time,
    ))
    .unwrap();
    assert_eq!(p.try_to_vec().unwrap(), expected);
    let back = Proposal::try_from_slice(&expected).unwrap();
    assert_eq!(back.title, "budget");
    assert_eq!(back.end_time, 5000);
    assert_eq!(Admin_Account::try_from_slice(&a.try_to_vec()).unwrap().last_update, -77);
}

#[test]
fn create_admin_records_signer_and_clock_time() {
    let (admin_key, bump) = admin_pda();
    let accounts = vec![
        account(key(1), true, 100, vec![]),
        account(admin_key, false, 0, vec![]),
        account(system_program_id(), false, 1, vec![]),
        clock_account(1_700_000_000),
    ];
    let actions = create_admin(&program(), &accounts).unwrap();
    match &actions[0] {
        Action::CreateAccount { account, space, seeds, .. } => {
            assert_eq!((*account, *space), (1, 40));
            assert_eq!(seeds, &vec![b"admin".to_vec(), vec![bump]]);
        }
        other => panic!("unexpected {:?}", other),
    }
    assert_eq!(written(&actions, 1), (1, admin_bytes(&key(1), 1_700_000_000)));
}

#[test]
fn create_admin_checks() {
    let (admin_key, _) = admin_pda();
    let mut accounts = vec![
        account(key(1), true, 100, vec![]),
        account(admin_key, false, 0, vec![]),
        account(system_program_id(), false, 1, vec![]),
        clock_account(1),
    ];
    accounts[3].data.truncate(39);
    assert_eq!(create_admin(&program(), &accounts).unwrap_err(), err(ProgramError::InvalidArgument));
    accounts[3] = clock_account(1);
    accounts[3].key = key(9);
    assert_eq!(create_admin(&program(), &accounts).unwrap_err(), err(ProgramError::InvalidArgument));
    accounts[1].key = key(8);
    assert_eq!(create_admin(&program(), &accounts).unwrap_err(), err(ProgramError::InvalidArgument));
    accounts[1].lamports = 1;
    assert_eq!(
        create_admin(&program(), &accounts).unwrap_err(),
        err(ProgramError::AccountAlreadyInitialized)
    );
}

#[test]
fn update_admin_only_by_admin() {
    let (admin_key, _) = admin_pda();
    let mut accounts = vec![
        account(key(1), true, 100, vec![]),
        account(admin_key, false, 10, admin_bytes(&key(1), 5)),
        clock_account(99),
    ];
    let actions = update_admin(&program(), &accounts, key(4)).unwrap();
    assert_eq!(written(&actions, 0), (1, admin_bytes(&key(4), 99)));
    accounts[1].data = admin_bytes(&key(2), 5);
    assert_eq!(
        update_admin(&program(), &accounts, key(4)).unwrap_err(),
        err(ProgramError::InvalidArgument)
    );
    accounts[1].owner = key(8);
    assert_eq!(
        update_admin(&program(), &accounts, key(4)).unwrap_err(),
        err(ProgramError::IllegalOwner)
    );
}

#[test]
fn create_account_grants_ten_points() {
    let (user_key, bump) = user_pda(&key(1));
    let accounts = vec![
        account(key(1), true, 100, vec![]),
        account(user_key, false, 0, vec![]),
        account(system_program_id(), false, 1, vec![]),
    ];
    let actions = create_account(&program(), &accounts).unwrap();
    match &actions[0] {
        Action::CreateAccount { account, space, seeds, .. } => {
            assert_eq!((*account, *space), (1, 40));
            assert_eq!(seeds, &vec![b"userAccount".to_vec(), key(1).to_bytes().to_vec(), vec![bump]]);
        }
        other => panic!("unexpected {:?}", other),
    }
    assert_eq!(written(&actions, 1), (1, user_bytes(&key(1), 10)));
    // The amount in the instruction is read and not used.
    let mut data = vec![2u8];
    data.extend_from_slice(&1000u64.to_le_bytes());
    let via_entry = process_instruction(&program(), &accounts, &data).unwrap();
    assert_eq!(written(&via_entry, 1), (1, user_bytes(&key(1), 10)));
}

#[test]
fn open_proposal_for_an_hour() {
    let title = "budget".to_string();
    let (proposal_key, bump) = pda(&[b"proposal", title.as_bytes()]);
    let accounts = vec![
        account(key(1), true, 100, vec![]),
        account(key(2), false, 10, user_bytes(&key(1), 10)),
        account(proposal_key, false, 0, vec![]),
        account(system_program_id(), false, 1, vec![]),
        clock_account(1000),
    ];
    let actions = open_proposal(&program(), &accounts, title.clone(), "spend it".to_string()).unwrap();
    let expected = proposal(4600, 0, 0).try_to_vec().unwrap();
    match &actions[0] {
        Action::CreateAccount { account, space, seeds, .. } => {
            assert_eq!((*account, *space as usize), (2, expected.len()));
            assert_eq!(seeds, &vec![b"proposal".to_vec(), b"budget".to_vec(), vec![bump]]);
        }
        other => panic!("unexpected {:?}", other),
    }
    assert_eq!(written(&actions, 1), (2, expected));
}

#[test]
fn open_proposal_with_a_long_title_finds_no_address() {
    let title = "x".repeat(33);
    let accounts = vec![
        account(key(1), true, 100, vec![]),
        account(key(2), false, 10, vec![]),
        account(key(3), false, 0, vec![]),
        account(system_program_id(), false, 1, vec![]),
        clock_account(1000),
    ];
    assert_eq!(
        open_proposal(&program(), &accounts, title, String::new()).unwrap_err(),
        Failure::NoProgramAddress
    );
}

fn vote_accounts(now: i64, end: i64, points: u64) -> Vec<AccountView> {
    let user_record = key(2);
    let proposal_key = key(3);
    let (vote_key, _) = pda(&[b"vote", &user_record.to_bytes(), &proposal_key.to_bytes()]);
    vec![
        account(key(1), true, 100, vec![]),
        account(user_record, false, 10, user_bytes(&key(1), points)),
        account(proposal_key, false, 10, proposal(end, 4, 6).try_to_vec().unwrap()),
        account(vote_key, false, 0, vec![]),
        account(system_program_id(), false, 1, vec![]),
        clock_account(now),
    ]
}

#[test]
fn vote_adds_points_to_one_tally() {
    let accounts = vote_accounts(100, 200, 7);
    let yes = vote_process(&program(), &accounts, true).unwrap();
    assert_eq!(yes.len(), 4);
    assert_eq!(written(&yes, 1), (3, Vote_Record { proposal_id: key(3), vote_amount: 7 }.try_to_vec()));
    assert_eq!(written(&yes, 2), (2, proposal(200, 11, 6).try_to_vec().unwrap()));
    assert_eq!(written(&yes, 3), (1, accounts[1].data.clone()));
    let no = vote_process(&program(), &accounts, false).unwrap();
    assert_eq!(written(&no, 2), (2, proposal(200, 4, 13).try_to_vec().unwrap()));
}

#[test]
fn vote_closed_and_repeated() {
    let accounts = vote_accounts(201, 200, 7);
    assert_eq!(vote_process(&program(), &accounts, true).unwrap_err(), err(ProgramError::Custom(0)));
    let mut accounts = vote_accounts(100, 200, 7);
    accounts[3].lamports = 1;
    assert_eq!(
        vote_process(&program(), &accounts, true).unwrap_err(),
        err(ProgramError::AccountAlreadyInitialized)
    );
}

#[test]
fn manage_points_add_and_remove() {
    let (admin_key, _) = admin_pda();
    let mut accounts = vec![
        account(key(1), true, 100, vec![]),
        account(admin_key, false, 10, admin_bytes(&key(1), 5)),
        account(key(2), false, 10, user_bytes(&key(9), 10)),
    ];
    let add = manage_governance_points(&program(), &accounts, 5, true).unwrap();
    assert_eq!(written(&add, 0), (1, accounts[1].data.clone()));
    assert_eq!(written(&add, 1), (2, user_bytes(&key(9), 15)));
    accounts[2].data = written(&add, 1).1;
    let remove = manage_governance_points(&program(), &accounts, 5, false).unwrap();
    assert_eq!(written(&remove, 1), (2, user_bytes(&key(9), 10)));
    assert_eq!(
        manage_governance_points(&program(), &accounts, 16, false).unwrap_err(),
        err(ProgramError::Custom(1))
    );
    accounts[0].key = key(4);
    assert_eq!(
        manage_governance_points(&program(), &accounts, 1, true).unwrap_err(),
        err(ProgramError::InvalidArgument)
    );
}

#[test]
fn make_decision_after_end() {
    let (admin_key, _) = admin_pda();
    let mut accounts = vec![
        account(key(1), true, 100, vec![]),
        account(admin_key, false, 10, admin_bytes(&key(1), 5)),
        account(key(3), false, 10, proposal(200, 4, 6).try_to_vec().unwrap()),
        clock_account(200),
    ];
    let actions = make_decision(&program(), &accounts).unwrap();
    let mut done = proposal(200, 4, 6);
    done.executed = true;
    assert_eq!(written(&actions, 1), (2, done.try_to_vec().unwrap()));
    accounts[3] = clock_account(199);
    assert_eq!(make_decision(&program(), &accounts).unwrap_err(), err(ProgramError::Custom(0)));
}

#[test]
fn execute_create_vault_calls_vault_program() {
    let (admin_key, _) = admin_pda();
    let record = account(admin_key, false, 10, admin_bytes(&key(1), 5));
    let accounts = execute_accounts(record, ix_sysvar(0, 1));
    let actions = execute_instruction(&program(), &accounts, 0, 0, 251).unwrap();
    assert_eq!(written(&actions, 0), (1, admin_bytes(&key(1), 5)));
    match &actions[1] {
        Action::Invoke { program_id, metas, data, accounts: infos, seeds } => {
            assert_eq!(program_id.to_bytes(), vault_program_id().to_bytes());
            assert_eq!(metas.len(), 4);
            let m: &AccountMeta = &metas[3];
            assert!(!m.is_signer && !m.is_writable);
            assert!(metas[0].is_signer && metas[0].is_writable);
            assert_eq!(infos, &vec![0, 1, 2, 4]);
            assert_eq!(seeds, &vec![b"vault".to_vec(), vec![251]]);
            match vault::instructions::InstructionFormat::unpack(data).unwrap() {
                vault::instructions::InstructionFormat::CreateVault { program_caller_id, vault_bump } => {
                    assert_eq!(program_caller_id.to_bytes(), program().to_bytes());
                    assert_eq!(vault_bump, 251);
                }
                other => panic!("unexpected {:?}", other),
            }
        }
        other => panic!("unexpected {:?}", other),
    }
}

#[test]
fn execute_needs_the_previous_instruction_to_load() {
    let (user_key, _) = user_pda(&key(1));
    let base = ix_sysvar(1, 2).data;
    let start = u16::from_le_bytes([base[2], base[3]]) as usize;
    let accounts_end = start + 2 + 33;
    let len_at = accounts_end + 32;
    // The first instruction's data length set to reach exactly the end of the bytes, then one
    // byte past it.
    for (extra, loads) in [(0usize, true), (1usize, false)] {
        let mut bytes = base.clone();
        let data_len = (bytes.len() - (accounts_end + 34) + extra) as u16;
        bytes[len_at..len_at + 2].copy_from_slice(&data_len.to_le_bytes());
        #[allow(deprecated)]
        let loaded = solana_program::sysvar::instructions::load_instruction_at(0, &bytes).is_ok();
        assert_eq!(loaded, loads);
        let ix = AccountView { key: instructions_sysvar_id(), owner: key(0), is_signer: false, lamports: 1, data: bytes };
        let accounts = execute_accounts(account(user_key, false, 10, vec![]), ix);
        let r = execute_instruction(&program(), &accounts, 1, 300, 251);
        if loads {
            assert_eq!(r.unwrap().len(), 1);
        } else {
            assert_eq!(r.unwrap_err(), err(ProgramError::InvalidInstructionData));
        }
    }
}

#[test]
fn execute_deposit_by_member() {
    let (user_key, _) = user_pda(&key(1));
    let record = account(user_key, false, 10, vec![]);
    let accounts = execute_accounts(record, ix_sysvar(1, 2));
    let actions = execute_instruction(&program(), &accounts, 1, 300, 251).unwrap();
    assert_eq!(actions.len(), 1);
    match &actions[0] {
        Action::Invoke { data, accounts: infos, .. } => {
            assert_eq!(infos, &vec![0, 1, 2]);
            assert!(matches!(
                vault::instructions::InstructionFormat::unpack(data).unwrap(),
                vault::instructions::InstructionFormat::IncreaseAmount { amount: 300, .. }
            ));
        }
        other => panic!("unexpected {:?}", other),
    }
}

#[test]
fn execute_checks() {
    let (admin_key, _) = admin_pda();
    let record = account(admin_key, false, 10, admin_bytes(&key(1), 5));
    let accounts = execute_accounts(record, ix_sysvar(0, 1));
    assert_eq!(
        execute_instruction(&program(), &accounts, 3, 0, 1).unwrap_err(),
        err(ProgramError::InvalidInstructionData)
    );
    let mut bad = execute_accounts(account(admin_key, false, 10, admin_bytes(&key(1), 5)), ix_sysvar(0, 1));
    bad[3].key = key(8);
    assert_eq!(
        execute_instruction(&program(), &bad, 2, 0, 1).unwrap_err(),
        err(ProgramError::InvalidArgument)
    );
    let mut short = execute_accounts(account(admin_key, false, 10, admin_bytes(&key(1), 5)), ix_sysvar(0, 1));
    short[5].data = vec![0];
    assert_eq!(
        execute_instruction(&program(), &short, 2, 0, 1).unwrap_err(),
        Failure::ShortInstructionsSysvar
    );
    // The index names an instruction that the sysvar does not hold.
    let missing = execute_accounts(account(admin_key, false, 10, admin_bytes(&key(1), 5)), ix_sysvar(3, 1));
    assert_eq!(
        execute_instruction(&program(), &missing, 2, 0, 1).unwrap_err(),
        err(ProgramError::InvalidInstructionData)
    );
    let mut unfunded = execute_accounts(account(admin_key, false, 0, admin_bytes(&key(1), 5)), ix_sysvar(0, 1));
    unfunded[1].lamports = 0;
    assert_eq!(
        execute_instruction(&program(), &unfunded, 2, 0, 1).unwrap_err(),
        err(ProgramError::InvalidArgument)
    );
    let ok = execute_accounts(account(admin_key, false, 10, admin_bytes(&key(1), 5)), ix_sysvar(0, 1));
    assert_eq!(
        execute_instruction_at(&program(), &ok, None, true, 2, 0, 1).unwrap_err(),
        Failure::NoProgramAddress
    );
}
