//! What holds of the wallet program across its instructions.
use super::instructions::{spec_unpack, InstructionFormat};
use super::{
    decode_wallet, encode_wallet, lemma_wallet_decode_encode, lemma_wallet_encode_decode,
    spec_deposit_amount, spec_initialize_wallet_account, spec_process_instruction,
    spec_transfer_amount, spec_withdraw_amount, wallet_address, Wallet,
};
use crate::account::{
    apply_action, apply_writes, lemma_apply_one, lemma_apply_two, AccountModel, ActionModel,
};
use crate::error::{BorshError, Failure};
use vstd::prelude::*;
use vstd::wrapping::u64_specs::{wrapping_add, wrapping_sub};

verus! {

/// A withdrawal of the amount just deposited gives the wallet back its data.
pub proof fn law_withdraw_undoes_deposit(
    program_id: Seq<u8>,
    accounts: Seq<AccountModel>,
    wallet_addr: Option<(Seq<u8>, u8)>,
    amount: u64,
)
    requires
        spec_deposit_amount(program_id, accounts, wallet_addr, amount) is Ok,
    ensures
        ({
            let after = apply_writes(
                accounts,
                spec_deposit_amount(program_id, accounts, wallet_addr, amount)->Ok_0,
            );
            let back = spec_withdraw_amount(program_id, after, wallet_addr, amount);
            &&& back is Ok
            &&& apply_writes(after, back->Ok_0) == accounts
        }),
{
    let old = decode_wallet(accounts[1].data)->Ok_0;
    lemma_wallet_encode_decode(accounts[1].data);
    let new = Wallet { amount: wrapping_add(old.amount, amount), initialized: old.initialized };
    let w = ActionModel::Write { account: 1, data: encode_wallet(new) };
    lemma_apply_one(accounts, w);
    let after = apply_action(accounts, w);
    assert(after[1].data =~= encode_wallet(new));
    lemma_wallet_decode_encode(new);
    assert(wrapping_sub(wrapping_add(old.amount, amount), amount) == old.amount);
    let w2 = ActionModel::Write { account: 1, data: encode_wallet(old) };
    assert(spec_withdraw_amount(program_id, after, wallet_addr, amount) == Ok::<
        Seq<ActionModel>,
        Failure,
    >(seq![w2]));
    lemma_apply_one(after, w2);
    assert(apply_action(after, w2) =~= accounts);
}

/// A transfer between two different wallets keeps the sum of their balances (modulo 2^64,
/// as both balances wrap around). (With one wallet passed as both, the second write
/// replaces the first and the wallet gains the amount.)
pub proof fn law_transfer_keeps_total(
    program_id: Seq<u8>,
    accounts: Seq<AccountModel>,
    src_addr: Option<(Seq<u8>, u8)>,
    dest_addr: Option<(Seq<u8>, u8)>,
    amount: u64,
)
    requires
        spec_transfer_amount(program_id, accounts, src_addr, dest_addr, amount) is Ok,
        accounts[1].key != accounts[3].key,
    ensures
        ({
            let after = apply_writes(
                accounts,
                spec_transfer_amount(program_id, accounts, src_addr, dest_addr, amount)->Ok_0,
            );
            let src = decode_wallet(accounts[1].data)->Ok_0;
            let dest = decode_wallet(accounts[3].data)->Ok_0;
            let src2 = decode_wallet(after[1].data)->Ok_0;
            let dest2 = decode_wallet(after[3].data)->Ok_0;
            &&& decode_wallet(accounts[1].data) is Ok
            &&& decode_wallet(accounts[3].data) is Ok
            &&& decode_wallet(after[1].data) is Ok
            &&& decode_wallet(after[3].data) is Ok
            &&& src2.amount == wrapping_sub(src.amount, amount)
            &&& dest2.amount == wrapping_add(dest.amount, amount)
            &&& (src2.amount + dest2.amount) % 0x1_0000_0000_0000_0000 == (src.amount
                + dest.amount) % 0x1_0000_0000_0000_0000
        }),
{
    let src = decode_wallet(accounts[1].data)->Ok_0;
    let dest = decode_wallet(accounts[3].data)->Ok_0;
    lemma_wallet_encode_decode(accounts[1].data);
    lemma_wallet_encode_decode(accounts[3].data);
    let s2 = Wallet { amount: wrapping_sub(src.amount, amount), initialized: src.initialized };
    let d2 = Wallet { amount: wrapping_add(dest.amount, amount), initialized: dest.initialized };
    let w1 = ActionModel::Write { account: 1, data: encode_wallet(s2) };
    let w3 = ActionModel::Write { account: 3, data: encode_wallet(d2) };
    lemma_apply_two(accounts, w1, w3);
    let mid = apply_action(accounts, w1);
    assert(mid[1].data =~= encode_wallet(s2));
    assert(mid[3] == accounts[3]);
    let after = apply_action(mid, w3);
    assert(after[3].data =~= encode_wallet(d2));
    assert(after[1] == mid[1]);
    lemma_wallet_decode_encode(s2);
    lemma_wallet_decode_encode(d2);
}

/// A new wallet is created, unfunded before, for this program at the signer's wallet
/// address, nine bytes long, initialized with a zero balance.
pub proof fn law_new_wallet_is_empty(
    program_id: Seq<u8>,
    accounts: Seq<AccountModel>,
    wallet_addr: Option<(Seq<u8>, u8)>,
)
    requires
        spec_initialize_wallet_account(program_id, accounts, wallet_addr) is Ok,
    ensures
        ({
            let actions = spec_initialize_wallet_account(program_id, accounts, wallet_addr)->Ok_0;
            &&& wallet_addr matches Some((addr, _)) && accounts[1].key == addr
            &&& accounts[0].is_signer
            &&& accounts[1].lamports == 0
            &&& actions[0] matches ActionModel::CreateAccount { account, space, owner, .. } && account
                == 1 && space == 9 && owner == program_id
            &&& actions[1] matches ActionModel::Write { account, data } && account == 1
                && decode_wallet(data) == Ok::<Wallet, BorshError>(
                Wallet { amount: 0, initialized: true },
            )
        }),
{
    lemma_wallet_decode_encode(Wallet { amount: 0, initialized: true });
}

/// Whether every write goes to a wallet at the wallet address of the user it belongs to:
/// the second account for the signer, the fourth for the other user.
pub open spec fn writes_to_own_wallets(
    program_id: Seq<u8>,
    accounts: Seq<AccountModel>,
    actions: Seq<ActionModel>,
) -> bool {
    forall|j: int|
        0 <= j < actions.len() ==> match #[trigger] actions[j] {
            ActionModel::Write { account, .. } => (account == 1 && (wallet_address(
                program_id,
                accounts[0].key,
            ) matches Some((addr, _)) && accounts[1].key == addr)) || (account == 3
                && (wallet_address(program_id, accounts[2].key) matches Some((addr, _))
                && accounts[3].key == addr)),
            _ => true,
        }
}

/// Every instruction needs the first account's signature, and writes only to wallets at
/// their users' wallet addresses.
pub proof fn law_signed_and_own_wallets(
    program_id: Seq<u8>,
    accounts: Seq<AccountModel>,
    instruction_data: Seq<u8>,
)
    requires
        spec_process_instruction(program_id, accounts, instruction_data) is Ok,
    ensures
        ({
            let actions = spec_process_instruction(program_id, accounts, instruction_data)->Ok_0;
            &&& accounts[0].is_signer
            &&& writes_to_own_wallets(program_id, accounts, actions)
        }),
{
}

} // verus!

verus! {

/// Whether an account holds a created wallet: it reads as a wallet marked initialized.
pub open spec fn holds_wallet(account: AccountModel) -> bool {
    decode_wallet(account.data) matches Ok(w) && w.initialized
}

/// Whether `account` is at the wallet address that the search found.
pub open spec fn at_address(account: AccountModel, addr: Option<(Seq<u8>, u8)>) -> bool {
    addr matches Some((k, _)) && account.key == k
}

/// A transfer between wallets that pass the checks (the signer's wallet and the other
/// user's wallet at their addresses, both created) succeeds for every amount, whatever the
/// two balances: the signer's balance goes down by the amount and the other's up by it,
/// both wrapping around.
pub proof fn law_transfer_always_succeeds(
    program_id: Seq<u8>,
    accounts: Seq<AccountModel>,
    src_addr: Option<(Seq<u8>, u8)>,
    dest_addr: Option<(Seq<u8>, u8)>,
    amount: u64,
)
    requires
        accounts.len() >= 4,
        accounts[0].is_signer,
        at_address(accounts[1], src_addr),
        at_address(accounts[3], dest_addr),
        holds_wallet(accounts[1]),
        holds_wallet(accounts[3]),
    ensures
        ({
            let src = decode_wallet(accounts[1].data)->Ok_0;
            let dest = decode_wallet(accounts[3].data)->Ok_0;
            let r = spec_transfer_amount(program_id, accounts, src_addr, dest_addr, amount);
            &&& r is Ok
            &&& r->Ok_0.len() == 2
            &&& r->Ok_0[0] matches ActionModel::Write { account, data } && account == 1
                && decode_wallet(data) == Ok::<Wallet, BorshError>(
                Wallet { amount: wrapping_sub(src.amount, amount), initialized: true },
            )
            &&& r->Ok_0[1] matches ActionModel::Write { account, data } && account == 3
                && decode_wallet(data) == Ok::<Wallet, BorshError>(
                Wallet { amount: wrapping_add(dest.amount, amount), initialized: true },
            )
        }),
{
    let src = decode_wallet(accounts[1].data)->Ok_0;
    let dest = decode_wallet(accounts[3].data)->Ok_0;
    lemma_wallet_decode_encode(Wallet { amount: wrapping_sub(src.amount, amount), initialized: true });
    lemma_wallet_decode_encode(Wallet { amount: wrapping_add(dest.amount, amount), initialized: true });
}

/// A deposit into, or a withdrawal from, the signer's created wallet at its address
/// succeeds for every amount, whatever the balance: the balance goes up or down by the
/// amount, wrapping around.
pub proof fn law_deposit_and_withdraw_always_succeed(
    program_id: Seq<u8>,
    accounts: Seq<AccountModel>,
    wallet_addr: Option<(Seq<u8>, u8)>,
    amount: u64,
)
    requires
        accounts.len() >= 2,
        accounts[0].is_signer,
        at_address(accounts[1], wallet_addr),
        holds_wallet(accounts[1]),
    ensures
        ({
            let w = decode_wallet(accounts[1].data)->Ok_0;
            let d = spec_deposit_amount(program_id, accounts, wallet_addr, amount);
            let v = spec_withdraw_amount(program_id, accounts, wallet_addr, amount);
            &&& d is Ok
            &&& d->Ok_0.len() == 1
            &&& d->Ok_0[0] matches ActionModel::Write { account, data } && account == 1
                && decode_wallet(data) == Ok::<Wallet, BorshError>(
                Wallet { amount: wrapping_add(w.amount, amount), initialized: true },
            )
            &&& v is Ok
            &&& v->Ok_0.len() == 1
            &&& v->Ok_0[0] matches ActionModel::Write { account, data } && account == 1
                && decode_wallet(data) == Ok::<Wallet, BorshError>(
                Wallet { amount: wrapping_sub(w.amount, amount), initialized: true },
            )
        }),
{
    let w = decode_wallet(accounts[1].data)->Ok_0;
    lemma_wallet_decode_encode(Wallet { amount: wrapping_add(w.amount, amount), initialized: true });
    lemma_wallet_decode_encode(Wallet { amount: wrapping_sub(w.amount, amount), initialized: true });
}

} // verus!
