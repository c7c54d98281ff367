//! The community vault program: the DAO creates a vault through it, and deposits into and
//! withdraws from the vault's balance.
pub mod instructions;
pub mod laws;

use crate::account::{
    accounts_view, actions_view, fail, outcome, seeds1, signer_seeds, vault_seed, vault_seed_vec,
    with_bump, AccountModel, AccountView, Action, ActionModel,
};
use crate::codec::{
    at_end, check_end, lemma_take_u64, lemma_u64_le_bytes, read_u64, take_u64, u64_bytes,
    write_u64,
};
use crate::error::{BorshError, Failure, ProgramError};
use crate::key::{system_program_id, system_program_key, Pubkey};
use instructions::{spec_unpack, InstructionFormat, InstructionModel};
use vstd::prelude::*;

verus! {

/// The vault program's own error codes.
#[derive(Clone, Copy, Debug, PartialEq, Eq, Structural)]
pub enum MyError {
    ArithmeticError,
}

impl From<MyError> for ProgramError {
    fn from(e: MyError) -> (r: ProgramError) {
        match e {
            MyError::ArithmeticError => ProgramError::Custom(1),
        }
    }
}

impl vstd::std_specs::convert::FromSpecImpl<MyError> for ProgramError {
    open spec fn obeys_from_spec() -> bool {
        true
    }

    open spec fn from_spec(e: MyError) -> ProgramError {
        match e {
            MyError::ArithmeticError => ProgramError::Custom(1),
        }
    }
}

/// The vault's state: its balance.
#[derive(Clone, Copy, Debug, PartialEq, Eq, Structural)]
pub struct Community_Vault {
    pub amount: u64,
}

/// The administrator record layout that the vault program declares (it reads none).
#[derive(Clone, Copy, Debug)]
pub struct Admin_Account {
    pub admin_id: Pubkey,
    pub last_update: i64,
}

pub open spec fn encode_vault(v: Community_Vault) -> Seq<u8> {
    u64_bytes(v.amount)
}

pub open spec fn decode_vault(s: Seq<u8>) -> Result<Community_Vault, BorshError> {
    match take_u64(s, 0) {
        Err(e) => Err(e),
        Ok((a, p)) => match at_end(s, p) {
            Err(e) => Err(e),
            Ok(_) => Ok(Community_Vault { amount: a }),
        },
    }
}

impl Community_Vault {
    pub fn try_to_vec(&self) -> (r: Vec<u8>)
        ensures
            r@ == encode_vault(*self),
    {
        let mut out: Vec<u8> = Vec::new();
        write_u64(&mut out, self.amount);
        assert(out@ =~= encode_vault(*self));
        out
    }

    pub fn try_from_slice(s: &[u8]) -> (r: Result<Community_Vault, BorshError>)
        ensures
            r == decode_vault(s@),
    {
        let (amount, p) = read_u64(s, 0)?;
        check_end(s, p)?;
        Ok(Community_Vault { amount })
    }
}

/// Decoding gives back what was encoded.
pub proof fn lemma_vault_decode_encode(v: Community_Vault)
    ensures
        decode_vault(encode_vault(v)) == Ok::<Community_Vault, BorshError>(v),
{
    let s = encode_vault(v);
    assert(s.subrange(0, 8) =~= u64_bytes(v.amount));
    lemma_take_u64(s, 0, v.amount);
}

/// Encoding what was decoded gives back the bytes.
pub proof fn lemma_vault_encode_decode(s: Seq<u8>)
    requires
        decode_vault(s) is Ok,
    ensures
        encode_vault(decode_vault(s)->Ok_0) == s,
{
    lemma_u64_le_bytes(s, 0);
    assert(s.subrange(0, 8) =~= s);
}

pub open spec fn spec_initialize_community_vault(
    program_id: Seq<u8>,
    accounts: Seq<AccountModel>,
    program_caller_id: Seq<u8>,
    vault_bump: u8,
) -> Result<Seq<ActionModel>, Failure> {
    if accounts.len() < 4 {
        fail(ProgramError::NotEnoughAccountKeys)
    } else if accounts[3].key != system_program_key()@ || accounts[1].owner != program_caller_id {
        fail(ProgramError::IllegalOwner)
    } else if !accounts[0].is_signer {
        fail(ProgramError::MissingRequiredSignature)
    } else {
        let data = encode_vault(Community_Vault { amount: 0 });
        Ok(
            seq![
                ActionModel::CreateAccount {
                    payer: 0,
                    account: 2,
                    system_program: 3,
                    space: data.len() as u64,
                    owner: program_id,
                    seeds: signer_seeds(seq![vault_seed()], vault_bump),
                },
                ActionModel::Write { account: 2, data },
            ],
        )
    }
}

pub open spec fn spec_deposit_amount(
    program_id: Seq<u8>,
    accounts: Seq<AccountModel>,
    amount: u64,
    program_caller_id: Seq<u8>,
) -> Result<Seq<ActionModel>, Failure> {
    if accounts.len() < 3 {
        fail(ProgramError::NotEnoughAccountKeys)
    } else if accounts[1].owner != program_caller_id || accounts[2].owner != program_id {
        fail(ProgramError::IllegalOwner)
    } else if !accounts[0].is_signer {
        fail(ProgramError::MissingRequiredSignature)
    } else if accounts[1].lamports == 0 {
        fail(ProgramError::InvalidArgument)
    } else {
        match decode_vault(accounts[2].data) {
            Err(e) => fail(ProgramError::BorshIoError(e)),
            Ok(vault) => if vault.amount + amount > u64::MAX {
                fail(ProgramError::Custom(1))
            } else {
                Ok(
                    seq![
                        ActionModel::Write {
                            account: 2,
                            data: encode_vault(
                                Community_Vault { amount: (vault.amount + amount) as u64 },
                            ),
                        },
                    ],
                )
            },
        }
    }
}

pub open spec fn spec_withdraw_amount(
    program_id: Seq<u8>,
    accounts: Seq<AccountModel>,
    amount: u64,
    program_caller_id: Seq<u8>,
) -> Result<Seq<ActionModel>, Failure> {
    if accounts.len() < 3 {
        fail(ProgramError::NotEnoughAccountKeys)
    } else if accounts[1].owner != program_caller_id || accounts[2].owner != program_id {
        fail(ProgramError::IllegalOwner)
    } else if !accounts[0].is_signer {
        fail(ProgramError::MissingRequiredSignature)
    } else {
        match decode_vault(accounts[2].data) {
            Err(e) => fail(ProgramError::BorshIoError(e)),
            Ok(vault) => if vault.amount < amount {
                fail(ProgramError::InsufficientFunds)
            } else {
                Ok(
                    seq![
                        ActionModel::Write {
                            account: 2,
                            data: encode_vault(
                                Community_Vault { amount: (vault.amount - amount) as u64 },
                            ),
                        },
                    ],
                )
            },
        }
    }
}

pub open spec fn spec_process_instruction(
    program_id: Seq<u8>,
    accounts: Seq<AccountModel>,
    instruction_data: Seq<u8>,
) -> Result<Seq<ActionModel>, Failure> {
    match spec_unpack(instruction_data) {
        Err(e) => fail(e),
        Ok(InstructionModel::CreateVault { program_caller_id, vault_bump }) =>
            spec_initialize_community_vault(program_id, accounts, program_caller_id, vault_bump),
        Ok(InstructionModel::IncreaseAmount { amount, program_caller_id }) => spec_deposit_amount(
            program_id,
            accounts,
            amount,
            program_caller_id,
        ),
        Ok(InstructionModel::WithdrawAmount { amount, program_caller_id }) => spec_withdraw_amount(
            program_id,
            accounts,
            amount,
            program_caller_id,
        ),
        Ok(InstructionModel::LogAction { .. }) => Ok(Seq::empty()),
    }
}

/// The program's entry: reads the instruction and runs it.
pub fn process_instruction(program_id: &Pubkey, accounts: &[AccountView], instruction_data: &[u8]) -> (r:
    Result<Vec<Action>, Failure>)
    ensures
        outcome(r) == spec_process_instruction(
            program_id@,
            accounts_view(accounts@),
            instruction_data@,
        ),
{
    let instruction = match InstructionFormat::unpack(instruction_data) {
        Ok(i) => i,
        Err(e) => return Err(Failure::Error(e)),
    };
    match instruction {
        InstructionFormat::CreateVault { program_caller_id, vault_bump } =>
            initialize_community_vault(program_id, accounts, &program_caller_id, vault_bump),
        InstructionFormat::IncreaseAmount { amount, program_caller_id } => deposit_amount(
            program_id,
            accounts,
            amount,
            &program_caller_id,
        ),
        InstructionFormat::WithdrawAmount { amount, program_caller_id } => withdraw_amount(
            program_id,
            accounts,
            amount,
            &program_caller_id,
        ),
        InstructionFormat::LogAction { message } => log_message(program_id, accounts, message),
    }
}

/// Creates the vault account, with a zero balance. Accounts: the paying administrator, the
/// administrator record (owned by the calling program), the vault, the system program.
pub fn initialize_community_vault(
    program_id: &Pubkey,
    accounts: &[AccountView],
    program_caller_id: &Pubkey,
    vault_bump: u8,
) -> (r: Result<Vec<Action>, Failure>)
    ensures
        outcome(r) == spec_initialize_community_vault(
            program_id@,
            accounts_view(accounts@),
            program_caller_id@,
            vault_bump,
        ),
{
    if accounts.len() < 4 {
        return Err(Failure::Error(ProgramError::NotEnoughAccountKeys));
    }
    let admin_payer = &accounts[0];
    let admin_account = &accounts[1];
    let system_program = &accounts[3];
    let ghost accts = accounts_view(accounts@);
    assert(accts[0] == admin_payer@ && accts[1] == admin_account@ && accts[3] == system_program@);
    if !system_program.key.same(&system_program_id()) || !admin_account.owner.same(
        program_caller_id,
    ) {
        return Err(Failure::Error(ProgramError::IllegalOwner));
    }
    if !admin_payer.is_signer {
        return Err(Failure::Error(ProgramError::MissingRequiredSignature));
    }
    let vault = Community_Vault { amount: 0 };
    let data = vault.try_to_vec();
    let vault_len = data.len() as u64;
    let seeds = with_bump(&seeds1(vault_seed_vec()), vault_bump);
    let mut actions: Vec<Action> = Vec::new();
    actions.push(
        Action::CreateAccount {
            payer: 0,
            account: 2,
            system_program: 3,
            space: vault_len,
            owner: *program_id,
            seeds,
        },
    );
    actions.push(Action::Write { account: 2, data });
    assert(actions_view(actions@) =~= spec_initialize_community_vault(
        program_id@,
        accts,
        program_caller_id@,
        vault_bump,
    )->Ok_0);
    Ok(actions)
}

/// Adds `amount` to the vault's balance, failing on overflow. Accounts: the paying user,
/// the user's record (owned by the calling program, funded), the vault (owned by this
/// program).
pub fn deposit_amount(
    program_id: &Pubkey,
    accounts: &[AccountView],
    amount: u64,
    program_caller_id: &Pubkey,
) -> (r: Result<Vec<Action>, Failure>)
    ensures
        outcome(r) == spec_deposit_amount(
            program_id@,
            accounts_view(accounts@),
            amount,
            program_caller_id@,
        ),
{
    if accounts.len() < 3 {
        return Err(Failure::Error(ProgramError::NotEnoughAccountKeys));
    }
    let user_payer = &accounts[0];
    let user_account = &accounts[1];
    let vault_account = &accounts[2];
    let ghost accts = accounts_view(accounts@);
    assert(accts[0] == user_payer@ && accts[1] == user_account@ && accts[2] == vault_account@);
    if !user_account.owner.same(program_caller_id) || !vault_account.owner.same(program_id) {
        return Err(Failure::Error(ProgramError::IllegalOwner));
    }
    if !user_payer.is_signer {
        return Err(Failure::Error(ProgramError::MissingRequiredSignature));
    }
    if user_account.lamports == 0 {
        return Err(Failure::Error(ProgramError::InvalidArgument));
    }
    let mut vault = match Community_Vault::try_from_slice(vault_account.data.as_slice()) {
        Ok(v) => v,
        Err(e) => return Err(Failure::Error(ProgramError::BorshIoError(e))),
    };
    vault.amount = match vault.amount.checked_add(amount) {
        Some(a) => a,
        None => return Err(Failure::Error(ProgramError::from(MyError::ArithmeticError))),
    };
    let data = vault.try_to_vec();
    let mut actions: Vec<Action> = Vec::new();
    actions.push(Action::Write { account: 2, data });
    assert(actions_view(actions@) =~= spec_deposit_amount(
        program_id@,
        accts,
        amount,
        program_caller_id@,
    )->Ok_0);
    Ok(actions)
}

/// Takes `amount` from the vault's balance, failing when the balance is smaller. Accounts:
/// the paying administrator, the administrator record (owned by the calling program), the
/// vault (owned by this program).
pub fn withdraw_amount(
    program_id: &Pubkey,
    accounts: &[AccountView],
    amount: u64,
    program_caller_id: &Pubkey,
) -> (r: Result<Vec<Action>, Failure>)
    ensures
        outcome(r) == spec_withdraw_amount(
            program_id@,
            accounts_view(accounts@),
            amount,
            program_caller_id@,
        ),
{
    if accounts.len() < 3 {
        return Err(Failure::Error(ProgramError::NotEnoughAccountKeys));
    }
    let admin_payer = &accounts[0];
    let admin_account = &accounts[1];
    let vault_account = &accounts[2];
    let ghost accts = accounts_view(accounts@);
    assert(accts[0] == admin_payer@ && accts[1] == admin_account@ && accts[2] == vault_account@);
    if !admin_account.owner.same(program_caller_id) || !vault_account.owner.same(program_id) {
        return Err(Failure::Error(ProgramError::IllegalOwner));
    }
    if !admin_payer.is_signer {
        return Err(Failure::Error(ProgramError::MissingRequiredSignature));
    }
    let mut vault = match Community_Vault::try_from_slice(vault_account.data.as_slice()) {
        Ok(v) => v,
        Err(e) => return Err(Failure::Error(ProgramError::BorshIoError(e))),
    };
    if vault.amount < amount {
        return Err(Failure::Error(ProgramError::InsufficientFunds));
    }
    vault.amount = match vault.amount.checked_sub(amount) {
        Some(a) => a,
        None => return Err(Failure::Error(ProgramError::from(MyError::ArithmeticError))),
    };
    let data = vault.try_to_vec();
    let mut actions: Vec<Action> = Vec::new();
    actions.push(Action::Write { account: 2, data });
    assert(actions_view(actions@) =~= spec_withdraw_amount(
        program_id@,
        accts,
        amount,
        program_caller_id@,
    )->Ok_0);
    Ok(actions)
}

/// Confirms an action approved by the vault authority; it changes nothing.
pub fn log_message(program_id: &Pubkey, accounts: &[AccountView], message: String) -> (r: Result<
    Vec<Action>,
    Failure,
>)
    ensures
        outcome(r) == Ok::<Seq<ActionModel>, Failure>(Seq::empty()),
{
    let actions: Vec<Action> = Vec::new();
    assert(actions_view(actions@) =~= Seq::<ActionModel>::empty());
    Ok(actions)
}

} // verus!
