//! What holds of the vault program across its instructions.
use super::instructions::{spec_unpack, InstructionModel};
use super::{
    decode_vault, encode_vault, lemma_vault_decode_encode, lemma_vault_encode_decode,
    spec_deposit_amount, spec_initialize_community_vault, spec_process_instruction,
    spec_withdraw_amount, Community_Vault,
};
use crate::account::{
    apply_action, apply_writes, lemma_apply_one, writes_owned, AccountModel, ActionModel,
};
use crate::error::{BorshError, Failure, ProgramError};
use vstd::prelude::*;

verus! {

/// A withdrawal of the amount just deposited gives the vault back its balance: its data is
/// what it was before the deposit.
pub proof fn law_withdraw_undoes_deposit(
    program_id: Seq<u8>,
    accounts: Seq<AccountModel>,
    amount: u64,
    program_caller_id: Seq<u8>,
)
    requires
        spec_deposit_amount(program_id, accounts, amount, program_caller_id) is Ok,
    ensures
        ({
            let after = apply_writes(
                accounts,
                spec_deposit_amount(program_id, accounts, amount, program_caller_id)->Ok_0,
            );
            let back = spec_withdraw_amount(program_id, after, amount, program_caller_id);
            &&& back is Ok
            &&& apply_writes(after, back->Ok_0) == accounts
        }),
{
    let old = decode_vault(accounts[2].data)->Ok_0;
    lemma_vault_encode_decode(accounts[2].data);
    let new = Community_Vault { amount: (old.amount + amount) as u64 };
    let w = ActionModel::Write { account: 2, data: encode_vault(new) };
    lemma_apply_one(accounts, w);
    let after = apply_action(accounts, w);
    assert(after[2].data =~= encode_vault(new));
    lemma_vault_decode_encode(new);
    let w2 = ActionModel::Write { account: 2, data: encode_vault(old) };
    assert(spec_withdraw_amount(program_id, after, amount, program_caller_id) == Ok::<
        Seq<ActionModel>,
        crate::error::Failure,
    >(seq![w2]));
    lemma_apply_one(after, w2);
    assert(apply_action(after, w2) =~= accounts);
}

/// A withdrawal takes exactly the amount, from a balance that holds it; it never overdraws.
pub proof fn law_withdraw_exact(
    program_id: Seq<u8>,
    accounts: Seq<AccountModel>,
    amount: u64,
    program_caller_id: Seq<u8>,
)
    requires
        spec_withdraw_amount(program_id, accounts, amount, program_caller_id) is Ok,
    ensures
        ({
            let before = decode_vault(accounts[2].data);
            let after = apply_writes(
                accounts,
                spec_withdraw_amount(program_id, accounts, amount, program_caller_id)->Ok_0,
            );
            &&& before is Ok
            &&& amount <= before->Ok_0.amount
            &&& decode_vault(after[2].data) == Ok::<Community_Vault, BorshError>(
                Community_Vault { amount: (before->Ok_0.amount - amount) as u64 },
            )
        }),
{
    let old = decode_vault(accounts[2].data)->Ok_0;
    lemma_vault_encode_decode(accounts[2].data);
    let new = Community_Vault { amount: (old.amount - amount) as u64 };
    let w = ActionModel::Write { account: 2, data: encode_vault(new) };
    lemma_apply_one(accounts, w);
    assert(apply_action(accounts, w)[2].data =~= encode_vault(new));
    lemma_vault_decode_encode(new);
}

/// A deposit adds exactly the amount to the balance.
pub proof fn law_deposit_exact(
    program_id: Seq<u8>,
    accounts: Seq<AccountModel>,
    amount: u64,
    program_caller_id: Seq<u8>,
)
    requires
        spec_deposit_amount(program_id, accounts, amount, program_caller_id) is Ok,
    ensures
        ({
            let before = decode_vault(accounts[2].data);
            let after = apply_writes(
                accounts,
                spec_deposit_amount(program_id, accounts, amount, program_caller_id)->Ok_0,
            );
            &&& before is Ok
            &&& before->Ok_0.amount + amount <= u64::MAX
            &&& decode_vault(after[2].data) == Ok::<Community_Vault, BorshError>(
                Community_Vault { amount: (before->Ok_0.amount + amount) as u64 },
            )
        }),
{
    let old = decode_vault(accounts[2].data)->Ok_0;
    lemma_vault_encode_decode(accounts[2].data);
    let new = Community_Vault { amount: (old.amount + amount) as u64 };
    let w = ActionModel::Write { account: 2, data: encode_vault(new) };
    lemma_apply_one(accounts, w);
    assert(apply_action(accounts, w)[2].data =~= encode_vault(new));
    lemma_vault_decode_encode(new);
}

/// A new vault is created, on the signature of the administrator whose record the calling
/// program owns, through the system program, for this program, eight bytes long, with a
/// zero balance.
pub proof fn law_new_vault_is_empty(
    program_id: Seq<u8>,
    accounts: Seq<AccountModel>,
    program_caller_id: Seq<u8>,
    vault_bump: u8,
)
    requires
        spec_initialize_community_vault(program_id, accounts, program_caller_id, vault_bump) is Ok,
    ensures
        ({
            let actions = spec_initialize_community_vault(
                program_id,
                accounts,
                program_caller_id,
                vault_bump,
            )->Ok_0;
            &&& accounts[0].is_signer
            &&& accounts[1].owner == program_caller_id
            &&& accounts[3].key == crate::key::system_program_key()@
            &&& actions[0] matches ActionModel::CreateAccount { account, space, owner, .. } && account
                == 2 && space == 8 && owner == program_id
            &&& actions[1] matches ActionModel::Write { account, data } && account == 2
                && decode_vault(data) == Ok::<Community_Vault, BorshError>(
                Community_Vault { amount: 0 },
            )
        }),
{
    lemma_vault_decode_encode(Community_Vault { amount: 0 });
}

/// No instruction changes anything without the first account's signature, and every write
/// goes to an account that the program owns or creates.
pub proof fn law_signed_and_owned(
    program_id: Seq<u8>,
    accounts: Seq<AccountModel>,
    instruction_data: Seq<u8>,
)
    requires
        spec_process_instruction(program_id, accounts, instruction_data) is Ok,
    ensures
        ({
            let actions = spec_process_instruction(program_id, accounts, instruction_data)->Ok_0;
            &&& actions.len() > 0 ==> accounts[0].is_signer
            &&& writes_owned(program_id, accounts, actions)
        }),
{
    let actions = spec_process_instruction(program_id, accounts, instruction_data)->Ok_0;
    match spec_unpack(instruction_data)->Ok_0 {
        InstructionModel::CreateVault { .. } => {
            assert(actions[0] matches ActionModel::CreateAccount { .. });
        },
        _ => {},
    }
}

} // verus!

verus! {

/// Whether the checks of a deposit or withdrawal pass: enough accounts, the record owned
/// by the calling program, the vault owned by this program, the payer signing.
pub open spec fn amount_checks(
    program_id: Seq<u8>,
    accounts: Seq<AccountModel>,
    program_caller_id: Seq<u8>,
) -> bool {
    &&& accounts.len() >= 3
    &&& accounts[1].owner == program_caller_id
    &&& accounts[2].owner == program_id
    &&& accounts[0].is_signer
}

/// Once the checks pass on a funded record and a readable vault, a deposit fails only on
/// overflow: it succeeds whenever the balance plus the amount fits a `u64`, whatever the
/// balance, writing that sum as the new balance; otherwise it is the arithmetic error.
pub proof fn law_deposit_fails_only_on_overflow(
    program_id: Seq<u8>,
    accounts: Seq<AccountModel>,
    amount: u64,
    program_caller_id: Seq<u8>,
)
    requires
        amount_checks(program_id, accounts, program_caller_id),
        accounts[1].lamports > 0,
        decode_vault(accounts[2].data) is Ok,
    ensures
        ({
            let balance = decode_vault(accounts[2].data)->Ok_0.amount;
            let r = spec_deposit_amount(program_id, accounts, amount, program_caller_id);
            &&& balance + amount > u64::MAX ==> r == Err::<Seq<ActionModel>, Failure>(
                Failure::Error(ProgramError::Custom(1)),
            )
            &&& balance + amount <= u64::MAX ==> {
                &&& r is Ok
                &&& r->Ok_0.len() == 1
                &&& r->Ok_0[0] matches ActionModel::Write { account, data } && account == 2
                    && decode_vault(data) == Ok::<Community_Vault, BorshError>(
                    Community_Vault { amount: (balance + amount) as u64 },
                )
            }
        }),
{
    lemma_vault_decode_encode(
        Community_Vault { amount: (decode_vault(accounts[2].data)->Ok_0.amount + amount) as u64 },
    );
}

/// Once the checks pass on a readable vault, a withdrawal fails on the amount exactly when
/// the balance is smaller (insufficient funds), and otherwise writes the balance minus the
/// amount.
pub proof fn law_withdraw_fails_only_when_short(
    program_id: Seq<u8>,
    accounts: Seq<AccountModel>,
    amount: u64,
    program_caller_id: Seq<u8>,
)
    requires
        amount_checks(program_id, accounts, program_caller_id),
        decode_vault(accounts[2].data) is Ok,
    ensures
        ({
            let balance = decode_vault(accounts[2].data)->Ok_0.amount;
            let r = spec_withdraw_amount(program_id, accounts, amount, program_caller_id);
            &&& balance < amount ==> r == Err::<Seq<ActionModel>, Failure>(
                Failure::Error(ProgramError::InsufficientFunds),
            )
            &&& amount <= balance ==> {
                &&& r is Ok
                &&& r->Ok_0.len() == 1
                &&& r->Ok_0[0] matches ActionModel::Write { account, data } && account == 2
                    && decode_vault(data) == Ok::<Community_Vault, BorshError>(
                    Community_Vault { amount: (balance - amount) as u64 },
                )
            }
        }),
{
    lemma_vault_decode_encode(
        Community_Vault { amount: (decode_vault(accounts[2].data)->Ok_0.amount - amount) as u64 },
    );
}

} // verus!
