use dao_programs::account::{AccountView, Action};
use dao_programs::error::{BorshError, Failure, ProgramError};
use dao_programs::key::Pubkey;
use dao_programs::wallet::instructions::InstructionFormat;
use dao_programs::wallet::{
    deposit_amount, deposit_amount_at, initialize_wallet_account, initialize_wallet_account_at,
    process_instruction, transfer_amount, transfer_amount_at, withdraw_amount, Wallet,
};
use solana_program::pubkey::Pubkey as SolanaPubkey;

fn key(b: u8) -> Pubkey {
    Pubkey::new_from_array([b; 32])
}

fn program() -> Pubkey {
    key(7)
}

fn wallet_pda(user: &Pubkey) -> (Pubkey, u8) {
    let (k, b) = SolanaPubkey::find_program_address(
        &[b"wallet", &user.to_bytes()],
        &SolanaPubkey::new_from_array(program().to_bytes()),
    );
    (Pubkey::new_from_array(k.to_bytes()), b)
}

fn account(k: Pubkey, is_signer: bool, lamports: u64, data: Vec<u8>) -> AccountView {
    AccountView { key: k, owner: program(), is_signer, lamports, data }
}

fn wallet_bytes(amount: u64, initialized: bool) -> Vec<u8> {
    let mut v = amount.to_le_bytes().to_vec();
    v.push(initialized as u8);
    v
}

fn own_accounts(balance: u64) -> Vec<AccountView> {
    let user = key(1);
    vec![
        account(user, true, 100, vec![]),
        account(wallet_pda(&user).0, false, 10, wallet_bytes(balance, true)),
    ]
}

fn transfer_accounts(src: u64, dest: u64) -> Vec<AccountView> {
    let user = key(1);
    let other = key(2);
    vec![
        account(user, true, 100, vec![]),
        account(wallet_pda(&user).0, false, 10, wallet_bytes(src, true)),
        account(other, false, 100, vec![]),
        account(wallet_pda(&other).0, false, 10, wallet_bytes(dest, true)),
    ]
}

fn written(actions: &[Action], i: usize) -> (usize, Vec<u8>) {
    match &actions[i] {
        Action::Write { account, data } => (*account, data.clone()),
        other => panic!("expected a write, got {:?}", other),
    }
}

fn err(e: ProgramError) -> Failure {
    Failure::Error(e)
}

fn balance(data: &[u8]) -> u64 {
    Wallet::try_from_slice(data).unwrap().amount
}

#[test]
fn wallet_unpack_all_kinds() {
    assert_eq!(InstructionFormat::unpack(&[0, 1, 2]).unwrap(), InstructionFormat::CreateAccount {});
    let mut data = vec![1u8];
    data.extend_from_slice(&77u64.to_le_bytes());
    assert_eq!(
        InstructionFormat::unpack(&data).unwrap(),
        InstructionFormat::IncreaseAmount { amount: 77 }
    );
    data[0] = 2;
    assert_eq!(
        InstructionFormat::unpack(&data).unwrap(),
        InstructionFormat::WithdrawAmount { amount: 77 }
    );
    data[0] = 3;
    assert_eq!(
        InstructionFormat::unpack(&data).unwrap(),
        InstructionFormat::TransferAmount { amount: 77 }
    );
    assert_eq!(
        InstructionFormat::unpack(&[4]).unwrap_err(),
        ProgramError::InvalidInstructionData
    );
    assert_eq!(
        InstructionFormat::unpack(&[1, 0, 0]).unwrap_err(),
        ProgramError::BorshIoError(BorshError::UnexpectedLength)
    );
}

#[test]
fn initialize_creates_zero_wallet() {
    let user = key(1);
    let (pda, bump) = wallet_pda(&user);
    let accounts = vec![
        account(user, true, 100, vec![]),
        account(pda, false, 0, vec![]),
        account(Pubkey::new_from_array([0; 32]), false, 1, vec![]),
    ];
    let actions = initialize_wallet_account(&program(), &accounts).unwrap();
    match &actions[0] {
        Action::CreateAccount { payer, account, system_program, space, seeds, .. } => {
            assert_eq!((*payer, *account, *system_program, *space), (0, 1, 2, 9));
            assert_eq!(seeds, &vec![b"wallet".to_vec(), user.to_bytes().to_vec(), vec![bump]]);
        }
        other => panic!("unexpected {:?}", other),
    }
    assert_eq!(written(&actions, 1), (1, wallet_bytes(0, true)));
}

#[test]
fn initialize_checks() {
    let user = key(1);
    let (pda, _) = wallet_pda(&user);
    let mut accounts = vec![
        account(user, true, 100, vec![]),
        account(key(3), false, 0, vec![]),
        account(Pubkey::new_from_array([0; 32]), false, 1, vec![]),
    ];
    assert_eq!(
        initialize_wallet_account(&program(), &accounts).unwrap_err(),
        err(ProgramError::InvalidAccountData)
    );
    accounts[1].key = pda;
    accounts[1].lamports = 5;
    assert_eq!(
        initialize_wallet_account(&program(), &accounts).unwrap_err(),
        err(ProgramError::AccountAlreadyInitialized)
    );
    accounts[0].is_signer = false;
    assert_eq!(
        initialize_wallet_account(&program(), &accounts).unwrap_err(),
        err(ProgramError::MissingRequiredSignature)
    );
    assert_eq!(
        initialize_wallet_account(&program(), &accounts[..2]).unwrap_err(),
        err(ProgramError::NotEnoughAccountKeys)
    );
}

#[test]
fn no_program_address_aborts() {
    let accounts = own_accounts(5);
    assert_eq!(
        deposit_amount_at(&program(), &accounts, None, 1).unwrap_err(),
        Failure::NoProgramAddress
    );
    let mut accounts = vec![
        account(key(1), true, 100, vec![]),
        account(key(3), false, 0, vec![]),
        account(key(0), false, 1, vec![]),
    ];
    accounts[1].key = key(3);
    assert_eq!(
        initialize_wallet_account_at(&program(), &accounts, None).unwrap_err(),
        Failure::NoProgramAddress
    );
}

#[test]
fn deposit_and_withdraw() {
    let actions = deposit_amount(&program(), &own_accounts(10), 5).unwrap();
    assert_eq!(written(&actions, 0), (1, wallet_bytes(15, true)));
    let actions = withdraw_amount(&program(), &own_accounts(10), 4).unwrap();
    assert_eq!(written(&actions, 0), (1, wallet_bytes(6, true)));
}

#[test]
fn deposit_wraps_and_withdraw_underflows() {
    let actions = deposit_amount(&program(), &own_accounts(u64::MAX), 2).unwrap();
    assert_eq!(balance(&written(&actions, 0).1), 1);
    // Nothing checks the balance: withdrawing more than it holds wraps around.
    let actions = withdraw_amount(&program(), &own_accounts(3), 5).unwrap();
    assert_eq!(balance(&written(&actions, 0).1), u64::MAX - 1);
}

#[test]
fn wallet_withdraw_undoes_deposit() {
    let mut accounts = own_accounts(99);
    let before = accounts[1].data.clone();
    let dep = deposit_amount(&program(), &accounts, u64::MAX).unwrap();
    accounts[1].data = written(&dep, 0).1;
    let wd = withdraw_amount(&program(), &accounts, u64::MAX).unwrap();
    assert_eq!(written(&wd, 0).1, before);
}

#[test]
fn wallet_deposit_checks() {
    let mut accounts = own_accounts(1);
    accounts[1].data = wallet_bytes(1, false);
    assert_eq!(
        deposit_amount(&program(), &accounts, 1).unwrap_err(),
        err(ProgramError::InvalidAccountData)
    );
    accounts[1].data = vec![0, 0, 0, 0, 0, 0, 0, 0, 2];
    assert_eq!(
        deposit_amount(&program(), &accounts, 1).unwrap_err(),
        err(ProgramError::BorshIoError(BorshError::InvalidBool(2)))
    );
    accounts[1].key = key(5);
    assert_eq!(
        deposit_amount(&program(), &accounts, 1).unwrap_err(),
        err(ProgramError::InvalidAccountData)
    );
}

#[test]
fn transfer_moves_amount_and_keeps_total() {
    let actions = transfer_amount(&program(), &transfer_accounts(30, 12), 10).unwrap();
    let (i, src) = written(&actions, 0);
    let (j, dest) = written(&actions, 1);
    assert_eq!((i, j), (1, 3));
    assert_eq!((balance(&src), balance(&dest)), (20, 22));
    let actions = transfer_amount(&program(), &transfer_accounts(3, u64::MAX - 1), 5).unwrap();
    let s = balance(&written(&actions, 0).1);
    let d = balance(&written(&actions, 1).1);
    assert_eq!(s.wrapping_add(d), 3u64.wrapping_add(u64::MAX - 1));
}

#[test]
fn transfer_checks() {
    let mut accounts = transfer_accounts(1, 1);
    accounts[3].data = wallet_bytes(1, false);
    assert_eq!(
        transfer_amount(&program(), &accounts, 1).unwrap_err(),
        err(ProgramError::InvalidAccountData)
    );
    let mut accounts = transfer_accounts(1, 1);
    accounts[3].key = key(9);
    assert_eq!(
        transfer_amount(&program(), &accounts, 1).unwrap_err(),
        err(ProgramError::InvalidAccountData)
    );
    let accounts = transfer_accounts(1, 1);
    assert_eq!(
        transfer_amount_at(&program(), &accounts, Some(wallet_pda(&key(1))), None, 1).unwrap_err(),
        Failure::NoProgramAddress
    );
}

#[test]
fn wallet_process_instruction_dispatches() {
    let mut data = vec![3u8];
    data.extend_from_slice(&1u64.to_le_bytes());
    let actions = process_instruction(&program(), &transfer_accounts(5, 5), &data).unwrap();
    assert_eq!(actions.len(), 2);
    assert_eq!(
        process_instruction(&program(), &own_accounts(1), &[]).unwrap_err(),
        err(ProgramError::InvalidInstructionData)
    );
}

#[test]
fn wallet_layout_matches_borsh() {
    let w = Wallet { amount: 0xdead_beef, initialized: true };
    assert_eq!(w.try_to_vec(), borsh::BorshSerialize::try_to_vec(&(w.amount, w.initialized)).unwrap());
    assert_eq!(Wallet::try_from_slice(&w.try_to_vec()).unwrap(), w);
}
