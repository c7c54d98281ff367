use dao_programs::account::{AccountView, Action};
use dao_programs::error::{BorshError, Failure, ProgramError};
use dao_programs::key::Pubkey;
use dao_programs::vault::instructions::InstructionFormat;
use dao_programs::vault::{
    deposit_amount, initialize_community_vault, log_message, process_instruction,
    withdraw_amount, Community_Vault, MyError,
};

fn key(b: u8) -> Pubkey {
    Pubkey::new_from_array([b; 32])
}

fn account(k: Pubkey, owner: Pubkey, is_signer: bool, lamports: u64, data: Vec<u8>) -> AccountView {
    AccountView { key: k, owner, is_signer, lamports, data }
}

fn program() -> Pubkey {
    key(7)
}

fn caller() -> Pubkey {
    key(9)
}

fn vault_data(amount: u64) -> Vec<u8> {
    amount.to_le_bytes().to_vec()
}

fn amount_accounts(balance: u64, signer: bool) -> Vec<AccountView> {
    vec![
        account(key(1), key(0), signer, 100, vec![]),
        account(key(2), caller(), false, 50, vec![1, 2, 3]),
        account(key(3), program(), false, 10, vault_data(balance)),
    ]
}

fn written(actions: &[Action], i: usize) -> (usize, Vec<u8>) {
    match &actions[i] {
        Action::Write { account, data } => (*account, data.clone()),
        other => panic!("expected a write, got {:?}", other),
    }
}

fn err(e: ProgramError) -> Failure {
    Failure::Error(e)
}

#[test]
fn unpack_create_vault() {
    let mut data = vec![0u8];
    data.extend_from_slice(&[9u8; 32]);
    data.push(254);
    match InstructionFormat::unpack(&data).unwrap() {
        InstructionFormat::CreateVault { program_caller_id, vault_bump } => {
            assert_eq!(program_caller_id.to_bytes(), [9u8; 32]);
            assert_eq!(vault_bump, 254);
        }
        other => panic!("unexpected {:?}", other),
    }
}

#[test]
fn unpack_amounts() {
    let mut data = vec![1u8];
    data.extend_from_slice(&500u64.to_le_bytes());
    data.extend_from_slice(&[4u8; 32]);
    match InstructionFormat::unpack(&data).unwrap() {
        InstructionFormat::IncreaseAmount { amount, program_caller_id } => {
            assert_eq!(amount, 500);
            assert_eq!(program_caller_id.to_bytes(), [4u8; 32]);
        }
        other => panic!("unexpected {:?}", other),
    }
    data[0] = 2;
    assert!(matches!(
        InstructionFormat::unpack(&data).unwrap(),
        InstructionFormat::WithdrawAmount { amount: 500, .. }
    ));
}

#[test]
fn unpack_log_action() {
    let mut data = vec![3u8];
    data.extend_from_slice("approved ✓".as_bytes());
    match InstructionFormat::unpack(&data).unwrap() {
        InstructionFormat::LogAction { message } => assert_eq!(message, "approved ✓"),
        other => panic!("unexpected {:?}", other),
    }
}

#[test]
fn vault_unpack_errors() {
    assert_eq!(
        InstructionFormat::unpack(&[]).unwrap_err(),
        ProgramError::InvalidInstructionData
    );
    assert_eq!(
        InstructionFormat::unpack(&[4]).unwrap_err(),
        ProgramError::InvalidInstructionData
    );
    // Not UTF-8.
    assert_eq!(
        InstructionFormat::unpack(&[3, 0xff, 0xfe]).unwrap_err(),
        ProgramError::InvalidInstructionData
    );
    // The create payload is one byte short.
    let mut short = vec![0u8];
    short.extend_from_slice(&[1u8; 32]);
    assert_eq!(
        InstructionFormat::unpack(&short).unwrap_err(),
        ProgramError::BorshIoError(BorshError::UnexpectedLength)
    );
    // One byte too many.
    let mut long = vec![1u8];
    long.extend_from_slice(&[0u8; 41]);
    assert_eq!(
        InstructionFormat::unpack(&long).unwrap_err(),
        ProgramError::BorshIoError(BorshError::NotAllBytesRead)
    );
}

#[test]
fn create_vault_plans_account_and_zero_balance() {
    let accounts = vec![
        account(key(1), key(0), true, 100, vec![]),
        account(key(2), caller(), false, 50, vec![]),
        account(key(3), key(0), false, 0, vec![]),
        account(Pubkey::new_from_array([0u8; 32]), key(0), false, 1, vec![]),
    ];
    let actions = initialize_community_vault(&program(), &accounts, &caller(), 253).unwrap();
    assert_eq!(actions.len(), 2);
    match &actions[0] {
        Action::CreateAccount { payer, account, system_program, space, owner, seeds } => {
            assert_eq!((*payer, *account, *system_program, *space), (0, 2, 3, 8));
            assert_eq!(owner.to_bytes(), program().to_bytes());
            assert_eq!(seeds, &vec![b"vault".to_vec(), vec![253]]);
        }
        other => panic!("unexpected {:?}", other),
    }
    assert_eq!(written(&actions, 1), (2, vec![0u8; 8]));
}

#[test]
fn create_vault_checks() {
    let mut accounts = vec![
        account(key(1), key(0), true, 100, vec![]),
        account(key(2), caller(), false, 50, vec![]),
        account(key(3), key(0), false, 0, vec![]),
        account(key(5), key(0), false, 1, vec![]),
    ];
    // The fourth account is not the system program.
    assert_eq!(
        initialize_community_vault(&program(), &accounts, &caller(), 1).unwrap_err(),
        err(ProgramError::IllegalOwner)
    );
    accounts[3].key = Pubkey::new_from_array([0u8; 32]);
    accounts[0].is_signer = false;
    assert_eq!(
        initialize_community_vault(&program(), &accounts, &caller(), 1).unwrap_err(),
        err(ProgramError::MissingRequiredSignature)
    );
    assert_eq!(
        initialize_community_vault(&program(), &accounts[..3], &caller(), 1).unwrap_err(),
        err(ProgramError::NotEnoughAccountKeys)
    );
}

#[test]
fn deposit_adds_to_balance() {
    let actions = deposit_amount(&program(), &amount_accounts(40, true), 2, &caller()).unwrap();
    assert_eq!(actions.len(), 1);
    assert_eq!(written(&actions, 0), (2, vault_data(42)));
}

#[test]
fn deposit_overflow_is_arithmetic_error() {
    assert_eq!(
        deposit_amount(&program(), &amount_accounts(u64::MAX, true), 1, &caller()).unwrap_err(),
        err(ProgramError::Custom(1))
    );
    assert_eq!(ProgramError::from(MyError::ArithmeticError), ProgramError::Custom(1));
}

#[test]
fn vault_deposit_checks() {
    let mut accounts = amount_accounts(1, true);
    accounts[1].lamports = 0;
    assert_eq!(
        deposit_amount(&program(), &accounts, 1, &caller()).unwrap_err(),
        err(ProgramError::InvalidArgument)
    );
    let accounts = amount_accounts(1, false);
    assert_eq!(
        deposit_amount(&program(), &accounts, 1, &caller()).unwrap_err(),
        err(ProgramError::MissingRequiredSignature)
    );
    let mut accounts = amount_accounts(1, true);
    accounts[2].owner = key(8);
    assert_eq!(
        deposit_amount(&program(), &accounts, 1, &caller()).unwrap_err(),
        err(ProgramError::IllegalOwner)
    );
    let mut accounts = amount_accounts(1, true);
    accounts[2].data = vec![1, 2, 3];
    assert_eq!(
        deposit_amount(&program(), &accounts, 1, &caller()).unwrap_err(),
        err(ProgramError::BorshIoError(BorshError::UnexpectedLength))
    );
}

#[test]
fn withdraw_takes_from_balance() {
    let actions = withdraw_amount(&program(), &amount_accounts(40, true), 15, &caller()).unwrap();
    assert_eq!(written(&actions, 0), (2, vault_data(25)));
    let all = withdraw_amount(&program(), &amount_accounts(40, true), 40, &caller()).unwrap();
    assert_eq!(written(&all, 0), (2, vault_data(0)));
}

#[test]
fn withdraw_more_than_balance_is_insufficient_funds() {
    assert_eq!(
        withdraw_amount(&program(), &amount_accounts(40, true), 41, &caller()).unwrap_err(),
        err(ProgramError::InsufficientFunds)
    );
}

#[test]
fn vault_withdraw_undoes_deposit() {
    let mut accounts = amount_accounts(1234, true);
    let before = accounts[2].data.clone();
    let dep = deposit_amount(&program(), &accounts, 66, &caller()).unwrap();
    accounts[2].data = written(&dep, 0).1;
    let wd = withdraw_amount(&program(), &accounts, 66, &caller()).unwrap();
    assert_eq!(written(&wd, 0).1, before);
}

#[test]
fn log_message_changes_nothing() {
    assert!(log_message(&program(), &[], "ok".to_string()).unwrap().is_empty());
}

#[test]
fn vault_process_instruction_dispatches() {
    let mut data = vec![1u8];
    data.extend_from_slice(&5u64.to_le_bytes());
    data.extend_from_slice(&caller().to_bytes());
    let actions = process_instruction(&program(), &amount_accounts(10, true), &data).unwrap();
    assert_eq!(written(&actions, 0), (2, vault_data(15)));
    let mut log = vec![3u8];
    log.extend_from_slice(b"hello");
    assert!(process_instruction(&program(), &[], &log).unwrap().is_empty());
    assert_eq!(
        process_instruction(&program(), &[], &[9]).unwrap_err(),
        err(ProgramError::InvalidInstructionData)
    );
}

#[test]
fn vault_layout_matches_borsh() {
    let v = Community_Vault { amount: 0x0102_0304_0506_0708 };
    assert_eq!(v.try_to_vec(), borsh::BorshSerialize::try_to_vec(&v.amount).unwrap());
    assert_eq!(Community_Vault::try_from_slice(&v.try_to_vec()).unwrap(), v);
    assert_eq!(
        Community_Vault::try_from_slice(&[0u8; 9]).unwrap_err(),
        BorshError::NotAllBytesRead
    );
}
