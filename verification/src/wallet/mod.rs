//! The wallet program: each user has one wallet, at the program address derived from
//! `b"wallet"` and the user's address, holding a balance.
pub mod instructions;
pub mod laws;

use crate::account::{
    accounts_view, actions_view, fail, outcome, seeds2, signer_seeds, wallet_seed,
    wallet_seed_vec, with_bump, AccountModel, AccountView, Action, ActionModel,
};
use crate::codec::{
    at_end, bool_byte, check_end, lemma_take_u64, lemma_u64_le_bytes, read_bool, read_u64,
    take_bool, take_u64, u64_bytes, write_bool, write_u64,
};
use crate::error::{BorshError, Failure, ProgramError};
use crate::key::Pubkey;
use crate::runtime::{address_view, find_program_address, program_address};
use instructions::{spec_unpack, InstructionFormat};
use vstd::prelude::*;
use vstd::wrapping::u64_specs::{wrapping_add, wrapping_sub};

verus! {

/// The wallet program's own error codes.
#[derive(Clone, Copy, Debug, PartialEq, Eq, Structural)]
pub enum MyError {
    ArithmeticError,
}

impl From<MyError> for ProgramError {
    fn from(e: MyError) -> (r: ProgramError) {
        match e {
            MyError::ArithmeticError => ProgramError::Custom(1),
        }
    }
}

impl vstd::std_specs::convert::FromSpecImpl<MyError> for ProgramError {
    open spec fn obeys_from_spec() -> bool {
        true
    }

    open spec fn from_spec(e: MyError) -> ProgramError {
        match e {
            MyError::ArithmeticError => ProgramError::Custom(1),
        }
    }
}

/// A wallet's state: its balance, and whether it was created.
#[derive(Clone, Copy, Debug, PartialEq, Eq, Structural)]
pub struct Wallet {
    pub amount: u64,
    pub initialized: bool,
}

pub open spec fn encode_wallet(w: Wallet) -> Seq<u8> {
    u64_bytes(w.amount).push(bool_byte(w.initialized))
}

pub open spec fn decode_wallet(s: Seq<u8>) -> Result<Wallet, BorshError> {
    match take_u64(s, 0) {
        Err(e) => Err(e),
        Ok((amount, p)) => match take_bool(s, p) {
            Err(e) => Err(e),
            Ok((initialized, q)) => match at_end(s, q) {
                Err(e) => Err(e),
                Ok(_) => Ok(Wallet { amount, initialized }),
            },
        },
    }
}

impl Wallet {
    pub fn try_to_vec(&self) -> (r: Vec<u8>)
        ensures
            r@ == encode_wallet(*self),
    {
        let mut out: Vec<u8> = Vec::new();
        write_u64(&mut out, self.amount);
        write_bool(&mut out, self.initialized);
        assert(out@ =~= encode_wallet(*self));
        out
    }

    pub fn try_from_slice(s: &[u8]) -> (r: Result<Wallet, BorshError>)
        ensures
            r == decode_wallet(s@),
    {
        let (amount, p) = read_u64(s, 0)?;
        let (initialized, q) = read_bool(s, p)?;
        check_end(s, q)?;
        Ok(Wallet { amount, initialized })
    }
}

/// Decoding gives back what was encoded.
pub proof fn lemma_wallet_decode_encode(w: Wallet)
    ensures
        decode_wallet(encode_wallet(w)) == Ok::<Wallet, BorshError>(w),
{
    let s = encode_wallet(w);
    assert(s.subrange(0, 8) =~= u64_bytes(w.amount));
    lemma_take_u64(s, 0, w.amount);
}

/// Encoding what was decoded gives back the bytes.
pub proof fn lemma_wallet_encode_decode(s: Seq<u8>)
    requires
        decode_wallet(s) is Ok,
    ensures
        encode_wallet(decode_wallet(s)->Ok_0) == s,
{
    lemma_u64_le_bytes(s, 0);
    assert(encode_wallet(decode_wallet(s)->Ok_0) =~= s);
}

/// The wallet address of a user, with its bump seed.
pub open spec fn wallet_address(program_id: Seq<u8>, user: Seq<u8>) -> Option<(Seq<u8>, u8)> {
    program_address(seq![wallet_seed(), user], program_id)
}

pub open spec fn spec_initialize_wallet_account(
    program_id: Seq<u8>,
    accounts: Seq<AccountModel>,
    wallet_addr: Option<(Seq<u8>, u8)>,
) -> Result<Seq<ActionModel>, Failure> {
    if accounts.len() < 3 {
        fail(ProgramError::NotEnoughAccountKeys)
    } else if !accounts[0].is_signer {
        fail(ProgramError::MissingRequiredSignature)
    } else {
        match wallet_addr {
            None => Err(Failure::NoProgramAddress),
            Some((addr, bump)) => if accounts[1].key != addr {
                fail(ProgramError::InvalidAccountData)
            } else if accounts[1].lamports > 0 {
                fail(ProgramError::AccountAlreadyInitialized)
            } else {
                let data = encode_wallet(Wallet { amount: 0, initialized: true });
                Ok(
                    seq![
                        ActionModel::CreateAccount {
                            payer: 0,
                            account: 1,
                            system_program: 2,
                            space: data.len() as u64,
                            owner: program_id,
                            seeds: signer_seeds(seq![wallet_seed(), accounts[0].key], bump),
                        },
                        ActionModel::Write { account: 1, data },
                    ],
                )
            },
        }
    }
}

/// The checks shared by deposit and withdraw; gives the wallet read from the second account.
pub open spec fn spec_own_wallet(
    accounts: Seq<AccountModel>,
    wallet_addr: Option<(Seq<u8>, u8)>,
) -> Result<Wallet, Failure> {
    if accounts.len() < 2 {
        Err(Failure::Error(ProgramError::NotEnoughAccountKeys))
    } else if !accounts[0].is_signer {
        Err(Failure::Error(ProgramError::MissingRequiredSignature))
    } else {
        match wallet_addr {
            None => Err(Failure::NoProgramAddress),
            Some((addr, _)) => if accounts[1].key != addr {
                Err(Failure::Error(ProgramError::InvalidAccountData))
            } else {
                match decode_wallet(accounts[1].data) {
                    Err(e) => Err(Failure::Error(ProgramError::BorshIoError(e))),
                    Ok(w) => if !w.initialized {
                        Err(Failure::Error(ProgramError::InvalidAccountData))
                    } else {
                        Ok(w)
                    },
                }
            },
        }
    }
}

pub open spec fn spec_deposit_amount(
    program_id: Seq<u8>,
    accounts: Seq<AccountModel>,
    wallet_addr: Option<(Seq<u8>, u8)>,
    amount: u64,
) -> Result<Seq<ActionModel>, Failure> {
    match spec_own_wallet(accounts, wallet_addr) {
        Err(f) => Err(f),
        Ok(w) => Ok(
            seq![
                ActionModel::Write {
                    account: 1,
                    data: encode_wallet(
                        Wallet { amount: wrapping_add(w.amount, amount), initialized: w.initialized },
                    ),
                },
            ],
        ),
    }
}

pub open spec fn spec_withdraw_amount(
    program_id: Seq<u8>,
    accounts: Seq<AccountModel>,
    wallet_addr: Option<(Seq<u8>, u8)>,
    amount: u64,
) -> Result<Seq<ActionModel>, Failure> {
    match spec_own_wallet(accounts, wallet_addr) {
        Err(f) => Err(f),
        Ok(w) => Ok(
            seq![
                ActionModel::Write {
                    account: 1,
                    data: encode_wallet(
                        Wallet { amount: wrapping_sub(w.amount, amount), initialized: w.initialized },
                    ),
                },
            ],
        ),
    }
}

pub open spec fn spec_transfer_amount(
    program_id: Seq<u8>,
    accounts: Seq<AccountModel>,
    src_addr: Option<(Seq<u8>, u8)>,
    dest_addr: Option<(Seq<u8>, u8)>,
    amount: u64,
) -> Result<Seq<ActionModel>, Failure> {
    if accounts.len() < 4 {
        fail(ProgramError::NotEnoughAccountKeys)
    } else if !accounts[0].is_signer {
        fail(ProgramError::MissingRequiredSignature)
    } else {
        match (src_addr, dest_addr) {
            (Some((src_key, _)), Some((dest_key, _))) => if accounts[1].key != src_key
                || accounts[3].key != dest_key {
                fail(ProgramError::InvalidAccountData)
            } else {
                spec_transfer_balances(accounts, amount)
            },
            _ => Err(Failure::NoProgramAddress),
        }
    }
}

/// The transfer once the wallet addresses match: read both wallets, move the amount.
pub open spec fn spec_transfer_balances(accounts: Seq<AccountModel>, amount: u64) -> Result<
    Seq<ActionModel>,
    Failure,
> {
    match decode_wallet(accounts[1].data) {
        Err(e) => fail(ProgramError::BorshIoError(e)),
        Ok(src) => match decode_wallet(accounts[3].data) {
            Err(e) => fail(ProgramError::BorshIoError(e)),
            Ok(dest) => if !src.initialized || !dest.initialized {
                fail(ProgramError::InvalidAccountData)
            } else {
                Ok(
                    seq![
                        ActionModel::Write {
                            account: 1,
                            data: encode_wallet(
                                Wallet {
                                    amount: wrapping_sub(src.amount, amount),
                                    initialized: src.initialized,
                                },
                            ),
                        },
                        ActionModel::Write {
                            account: 3,
                            data: encode_wallet(
                                Wallet {
                                    amount: wrapping_add(dest.amount, amount),
                                    initialized: dest.initialized,
                                },
                            ),
                        },
                    ],
                )
            },
        },
    }
}

pub open spec fn spec_process_instruction(
    program_id: Seq<u8>,
    accounts: Seq<AccountModel>,
    instruction_data: Seq<u8>,
) -> Result<Seq<ActionModel>, Failure> {
    let own = wallet_address(program_id, accounts[0].key);
    match spec_unpack(instruction_data) {
        Err(e) => fail(e),
        Ok(InstructionFormat::CreateAccount {  }) => spec_initialize_wallet_account(
            program_id,
            accounts,
            own,
        ),
        Ok(InstructionFormat::IncreaseAmount { amount }) => spec_deposit_amount(
            program_id,
            accounts,
            own,
            amount,
        ),
        Ok(InstructionFormat::WithdrawAmount { amount }) => spec_withdraw_amount(
            program_id,
            accounts,
            own,
            amount,
        ),
        Ok(InstructionFormat::TransferAmount { amount }) => spec_transfer_amount(
            program_id,
            accounts,
            own,
            wallet_address(program_id, accounts[2].key),
            amount,
        ),
    }
}

/// The program's entry: reads the instruction and runs it.
pub fn process_instruction(program_id: &Pubkey, accounts: &[AccountView], instruction_data: &[u8]) -> (r:
    Result<Vec<Action>, Failure>)
    ensures
        outcome(r) == spec_process_instruction(
            program_id@,
            accounts_view(accounts@),
            instruction_data@,
        ),
{
    let instruction = match InstructionFormat::unpack(instruction_data) {
        Ok(i) => i,
        Err(e) => return Err(Failure::Error(e)),
    };
    match instruction {
        InstructionFormat::CreateAccount {  } => initialize_wallet_account(program_id, accounts),
        InstructionFormat::IncreaseAmount { amount } => deposit_amount(program_id, accounts, amount),
        InstructionFormat::WithdrawAmount { amount } => withdraw_amount(program_id, accounts, amount),
        InstructionFormat::TransferAmount { amount } => transfer_amount(program_id, accounts, amount),
    }
}

/// Finds the wallet address of the user at `accounts[i]`.
fn find_wallet_address(program_id: &Pubkey, accounts: &[AccountView], i: usize) -> (r: Option<
    (Pubkey, u8),
>)
    requires
        i < accounts@.len(),
    ensures
        address_view(r) == wallet_address(program_id@, accounts_view(accounts@)[i as int].key),
{
    let seeds = seeds2(wallet_seed_vec(), accounts[i].key.to_vec());
    find_program_address(&seeds, program_id)
}

/// Creates the signer's wallet with a zero balance. Accounts: the user (signer), the
/// wallet, the system program.
pub fn initialize_wallet_account(program_id: &Pubkey, accounts: &[AccountView]) -> (r: Result<
    Vec<Action>,
    Failure,
>)
    ensures
        outcome(r) == spec_initialize_wallet_account(
            program_id@,
            accounts_view(accounts@),
            wallet_address(program_id@, accounts_view(accounts@)[0].key),
        ),
{
    if accounts.len() < 3 {
        return Err(Failure::Error(ProgramError::NotEnoughAccountKeys));
    }
    let wallet_addr = find_wallet_address(program_id, accounts, 0);
    initialize_wallet_account_at(program_id, accounts, wallet_addr)
}

/// `initialize_wallet_account`, given the address that the search for the wallet address
/// found (`None`: none).
pub fn initialize_wallet_account_at(
    program_id: &Pubkey,
    accounts: &[AccountView],
    wallet_addr: Option<(Pubkey, u8)>,
) -> (r: Result<Vec<Action>, Failure>)
    ensures
        outcome(r) == spec_initialize_wallet_account(
            program_id@,
            accounts_view(accounts@),
            address_view(wallet_addr),
        ),
{
    if accounts.len() < 3 {
        return Err(Failure::Error(ProgramError::NotEnoughAccountKeys));
    }
    let user_account = &accounts[0];
    let wallet_account = &accounts[1];
    let ghost accts = accounts_view(accounts@);
    assert(accts[0] == user_account@ && accts[1] == wallet_account@);
    if !user_account.is_signer {
        return Err(Failure::Error(ProgramError::MissingRequiredSignature));
    }
    let (wallet_pda, wallet_bump) = match wallet_addr {
        Some(a) => a,
        None => return Err(Failure::NoProgramAddress),
    };
    if !wallet_account.key.same(&wallet_pda) {
        return Err(Failure::Error(ProgramError::InvalidAccountData));
    }
    if wallet_account.lamports > 0 {
        return Err(Failure::Error(ProgramError::AccountAlreadyInitialized));
    }
    let wallet = Wallet { amount: 0, initialized: true };
    let data = wallet.try_to_vec();
    let wallet_len = data.len() as u64;
    let seeds = with_bump(&seeds2(wallet_seed_vec(), user_account.key.to_vec()), wallet_bump);
    let mut actions: Vec<Action> = Vec::new();
    actions.push(
        Action::CreateAccount {
            payer: 0,
            account: 1,
            system_program: 2,
            space: wallet_len,
            owner: *program_id,
            seeds,
        },
    );
    actions.push(Action::Write { account: 1, data });
    assert(actions_view(actions@) =~= spec_initialize_wallet_account(
        program_id@,
        accts,
        address_view(wallet_addr),
    )->Ok_0);
    Ok(actions)
}

/// Reads the signer's wallet from `accounts[1]` after the checks that deposit and withdraw
/// share.
fn own_wallet(accounts: &[AccountView], wallet_addr: Option<(Pubkey, u8)>) -> (r: Result<
    Wallet,
    Failure,
>)
    ensures
        r == spec_own_wallet(accounts_view(accounts@), address_view(wallet_addr)),
{
    if accounts.len() < 2 {
        return Err(Failure::Error(ProgramError::NotEnoughAccountKeys));
    }
    let user_account = &accounts[0];
    let wallet_account = &accounts[1];
    let ghost accts = accounts_view(accounts@);
    assert(accts[0] == user_account@ && accts[1] == wallet_account@);
    if !user_account.is_signer {
        return Err(Failure::Error(ProgramError::MissingRequiredSignature));
    }
    let (wallet_pda, _wallet_bump) = match wallet_addr {
        Some(a) => a,
        None => return Err(Failure::NoProgramAddress),
    };
    if !wallet_account.key.same(&wallet_pda) {
        return Err(Failure::Error(ProgramError::InvalidAccountData));
    }
    let wallet = match Wallet::try_from_slice(wallet_account.data.as_slice()) {
        Ok(w) => w,
        Err(e) => return Err(Failure::Error(ProgramError::BorshIoError(e))),
    };
    if !wallet.initialized {
        return Err(Failure::Error(ProgramError::InvalidAccountData));
    }
    Ok(wallet)
}

/// Adds `amount` to the signer's wallet; the balance wraps around past `u64::MAX`.
/// Accounts: the user (signer), the wallet.
pub fn deposit_amount(program_id: &Pubkey, accounts: &[AccountView], amount: u64) -> (r: Result<
    Vec<Action>,
    Failure,
>)
    ensures
        outcome(r) == spec_deposit_amount(
            program_id@,
            accounts_view(accounts@),
            wallet_address(program_id@, accounts_view(accounts@)[0].key),
            amount,
        ),
{
    if accounts.len() < 2 {
        return Err(Failure::Error(ProgramError::NotEnoughAccountKeys));
    }
    let wallet_addr = find_wallet_address(program_id, accounts, 0);
    deposit_amount_at(program_id, accounts, wallet_addr, amount)
}

/// `deposit_amount`, given the address that the search for the wallet address found.
pub fn deposit_amount_at(
    program_id: &Pubkey,
    accounts: &[AccountView],
    wallet_addr: Option<(Pubkey, u8)>,
    amount: u64,
) -> (r: Result<Vec<Action>, Failure>)
    ensures
        outcome(r) == spec_deposit_amount(
            program_id@,
            accounts_view(accounts@),
            address_view(wallet_addr),
            amount,
        ),
{
    let mut wallet = own_wallet(accounts, wallet_addr)?;
    wallet.amount = wallet.amount.wrapping_add(amount);
    let data = wallet.try_to_vec();
    let mut actions: Vec<Action> = Vec::new();
    actions.push(Action::Write { account: 1, data });
    assert(actions_view(actions@) =~= spec_deposit_amount(
        program_id@,
        accounts_view(accounts@),
        address_view(wallet_addr),
        amount,
    )->Ok_0);
    Ok(actions)
}

/// Takes `amount` from the signer's wallet; the balance wraps around below zero, as
/// nothing checks it against the amount. Accounts: the user (signer), the wallet.
pub fn withdraw_amount(program_id: &Pubkey, accounts: &[AccountView], amount: u64) -> (r: Result<
    Vec<Action>,
    Failure,
>)
    ensures
        outcome(r) == spec_withdraw_amount(
            program_id@,
            accounts_view(accounts@),
            wallet_address(program_id@, accounts_view(accounts@)[0].key),
            amount,
        ),
{
    if accounts.len() < 2 {
        return Err(Failure::Error(ProgramError::NotEnoughAccountKeys));
    }
    let wallet_addr = find_wallet_address(program_id, accounts, 0);
    withdraw_amount_at(program_id, accounts, wallet_addr, amount)
}

/// `withdraw_amount`, given the address that the search for the wallet address found.
pub fn withdraw_amount_at(
    program_id: &Pubkey,
    accounts: &[AccountView],
    wallet_addr: Option<(Pubkey, u8)>,
    amount: u64,
) -> (r: Result<Vec<Action>, Failure>)
    ensures
        outcome(r) == spec_withdraw_amount(
            program_id@,
            accounts_view(accounts@),
            address_view(wallet_addr),
            amount,
        ),
{
    let mut wallet = own_wallet(accounts, wallet_addr)?;
    wallet.amount = wallet.amount.wrapping_sub(amount);
    let data = wallet.try_to_vec();
    let mut actions: Vec<Action> = Vec::new();
    actions.push(Action::Write { account: 1, data });
    assert(actions_view(actions@) =~= spec_withdraw_amount(
        program_id@,
        accounts_view(accounts@),
        address_view(wallet_addr),
        amount,
    )->Ok_0);
    Ok(actions)
}

/// Moves `amount` from the signer's wallet to another user's wallet; both balances wrap
/// around. Accounts: the user (signer), the user's wallet, the other user, the other
/// user's wallet.
pub fn transfer_amount(program_id: &Pubkey, accounts: &[AccountView], amount: u64) -> (r: Result<
    Vec<Action>,
    Failure,
>)
    ensures
        outcome(r) == spec_transfer_amount(
            program_id@,
            accounts_view(accounts@),
            wallet_address(program_id@, accounts_view(accounts@)[0].key),
            wallet_address(program_id@, accounts_view(accounts@)[2].key),
            amount,
        ),
{
    if accounts.len() < 4 {
        return Err(Failure::Error(ProgramError::NotEnoughAccountKeys));
    }
    let src_addr = find_wallet_address(program_id, accounts, 0);
    let dest_addr = find_wallet_address(program_id, accounts, 2);
    transfer_amount_at(program_id, accounts, src_addr, dest_addr, amount)
}

/// `transfer_amount`, given the addresses that the searches for the two wallet addresses
/// found.
pub fn transfer_amount_at(
    program_id: &Pubkey,
    accounts: &[AccountView],
    src_addr: Option<(Pubkey, u8)>,
    dest_addr: Option<(Pubkey, u8)>,
    amount: u64,
) -> (r: Result<Vec<Action>, Failure>)
    ensures
        outcome(r) == spec_transfer_amount(
            program_id@,
            accounts_view(accounts@),
            address_view(src_addr),
            address_view(dest_addr),
            amount,
        ),
{
    if accounts.len() < 4 {
        return Err(Failure::Error(ProgramError::NotEnoughAccountKeys));
    }
    let user_account = &accounts[0];
    let src_wallet_account = &accounts[1];
    let dest_wallet_account = &accounts[3];
    let ghost accts = accounts_view(accounts@);
    assert(accts[0] == user_account@ && accts[1] == src_wallet_account@ && accts[3]
        == dest_wallet_account@);
    if !user_account.is_signer {
        return Err(Failure::Error(ProgramError::MissingRequiredSignature));
    }
    let (src_wallet_pda, _src_bump) = match src_addr {
        Some(a) => a,
        None => return Err(Failure::NoProgramAddress),
    };
    let (dest_wallet_pda, _dest_bump) = match dest_addr {
        Some(a) => a,
        None => return Err(Failure::NoProgramAddress),
    };
    if !src_wallet_account.key.same(&src_wallet_pda) || !dest_wallet_account.key.same(
        &dest_wallet_pda,
    ) {
        return Err(Failure::Error(ProgramError::InvalidAccountData));
    }
    let mut src_wallet = match Wallet::try_from_slice(src_wallet_account.data.as_slice()) {
        Ok(w) => w,
        Err(e) => return Err(Failure::Error(ProgramError::BorshIoError(e))),
    };
    let mut dest_wallet = match Wallet::try_from_slice(dest_wallet_account.data.as_slice()) {
        Ok(w) => w,
        Err(e) => return Err(Failure::Error(ProgramError::BorshIoError(e))),
    };
    if !src_wallet.initialized {
        return Err(Failure::Error(ProgramError::InvalidAccountData));
    }
    if !dest_wallet.initialized {
        return Err(Failure::Error(ProgramError::InvalidAccountData));
    }
    dest_wallet.amount = dest_wallet.amount.wrapping_add(amount);
    src_wallet.amount = src_wallet.amount.wrapping_sub(amount);
    let src_data = src_wallet.try_to_vec();
    let dest_data = dest_wallet.try_to_vec();
    let mut actions: Vec<Action> = Vec::new();
    actions.push(Action::Write { account: 1, data: src_data });
    actions.push(Action::Write { account: 3, data: dest_data });
    assert(actions_view(actions@) =~= spec_transfer_amount(
        program_id@,
        accts,
        address_view(src_addr),
        address_view(dest_addr),
        amount,
    )->Ok_0);
    Ok(actions)
}

} // verus!
