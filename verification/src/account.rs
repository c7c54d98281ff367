//! What a program sees of its accounts, and the effects it asks the runtime to carry out.
use crate::error::{Failure, ProgramError};
use crate::key::Pubkey;
use vstd::prelude::*;

verus! {

/// One account passed to an instruction, as the program reads it.
#[derive(Debug)]
pub struct AccountView {
    pub key: Pubkey,
    pub owner: Pubkey,
    pub is_signer: bool,
    pub lamports: u64,
    pub data: Vec<u8>,
}

pub struct AccountModel {
    pub key: Seq<u8>,
    pub owner: Seq<u8>,
    pub is_signer: bool,
    pub lamports: u64,
    pub data: Seq<u8>,
}

impl View for AccountView {
    type V = AccountModel;

    open spec fn view(&self) -> AccountModel {
        AccountModel {
            key: self.key@,
            owner: self.owner@,
            is_signer: self.is_signer,
            lamports: self.lamports,
            data: self.data@,
        }
    }
}

pub open spec fn accounts_view(accounts: Seq<AccountView>) -> Seq<AccountModel> {
    accounts.map_values(|a: AccountView| a@)
}

/// An account passed on to a called program: its address and its flags.
#[derive(Clone, Copy, Debug)]
pub struct AccountMeta {
    pub pubkey: Pubkey,
    pub is_signer: bool,
    pub is_writable: bool,
}

pub struct MetaModel {
    pub pubkey: Seq<u8>,
    pub is_signer: bool,
    pub is_writable: bool,
}

impl View for AccountMeta {
    type V = MetaModel;

    open spec fn view(&self) -> MetaModel {
        MetaModel { pubkey: self.pubkey@, is_signer: self.is_signer, is_writable: self.is_writable }
    }
}

/// An effect of an instruction. Accounts are named by their index in the instruction's
/// account list.
#[derive(Debug)]
pub enum Action {
    /// A system-program `create_account` from `payer` to `account`, with `space` bytes of
    /// data, owned by `owner`, funded for rent exemption, signed for the program address
    /// derived from `seeds`.
    CreateAccount {
        payer: usize,
        account: usize,
        system_program: usize,
        space: u64,
        owner: Pubkey,
        seeds: Vec<Vec<u8>>,
    },
    /// A call of program `program_id` with these account metas and data, passing the
    /// listed accounts, signed for the program address derived from `seeds`.
    Invoke {
        program_id: Pubkey,
        metas: Vec<AccountMeta>,
        data: Vec<u8>,
        accounts: Vec<usize>,
        seeds: Vec<Vec<u8>>,
    },
    /// The bytes written at the start of the account's data.
    Write { account: usize, data: Vec<u8> },
}

pub enum ActionModel {
    CreateAccount {
        payer: usize,
        account: usize,
        system_program: usize,
        space: u64,
        owner: Seq<u8>,
        seeds: Seq<Seq<u8>>,
    },
    Invoke {
        program_id: Seq<u8>,
        metas: Seq<MetaModel>,
        data: Seq<u8>,
        accounts: Seq<usize>,
        seeds: Seq<Seq<u8>>,
    },
    Write { account: usize, data: Seq<u8> },
}

pub open spec fn bytes_seqs(v: Seq<Vec<u8>>) -> Seq<Seq<u8>> {
    v.map_values(|b: Vec<u8>| b@)
}

pub open spec fn metas_view(v: Seq<AccountMeta>) -> Seq<MetaModel> {
    v.map_values(|m: AccountMeta| m@)
}

impl View for Action {
    type V = ActionModel;

    open spec fn view(&self) -> ActionModel {
        match self {
            Action::CreateAccount { payer, account, system_program, space, owner, seeds } =>
                ActionModel::CreateAccount {
                payer: *payer,
                account: *account,
                system_program: *system_program,
                space: *space,
                owner: owner@,
                seeds: bytes_seqs(seeds@),
            },
            Action::Invoke { program_id, metas, data, accounts, seeds } => ActionModel::Invoke {
                program_id: program_id@,
                metas: metas_view(metas@),
                data: data@,
                accounts: accounts@,
                seeds: bytes_seqs(seeds@),
            },
            Action::Write { account, data } => ActionModel::Write { account: *account, data: data@ },
        }
    }
}

pub open spec fn actions_view(v: Seq<Action>) -> Seq<ActionModel> {
    v.map_values(|a: Action| a@)
}

/// What an instruction's result is, in terms of models.
pub open spec fn outcome(r: Result<Vec<Action>, Failure>) -> Result<Seq<ActionModel>, Failure> {
    match r {
        Ok(v) => Ok(actions_view(v@)),
        Err(f) => Err(f),
    }
}

pub open spec fn fail(e: ProgramError) -> Result<Seq<ActionModel>, Failure> {
    Err(Failure::Error(e))
}

/// The accounts after one effect, as far as their data goes: a write puts its bytes at the
/// start of the account's data. (A write longer than the data makes the runtime fail the
/// instruction; it is left out here. Account creations and calls are not data writes of
/// this program and leave the list unchanged. Each entry stands for its own account: where
/// the runtime is given one account twice, both entries share its data, which this does
/// not follow.)
pub open spec fn apply_action(accounts: Seq<AccountModel>, action: ActionModel) -> Seq<AccountModel> {
    match action {
        ActionModel::Write { account, data } => if account < accounts.len() && data.len()
            <= accounts[account as int].data.len() {
            let old = accounts[account as int];
            accounts.update(
                account as int,
                AccountModel { data: data + old.data.subrange(data.len() as int, old.data.len() as int), ..old },
            )
        } else {
            accounts
        },
        _ => accounts,
    }
}

/// The accounts after the writes among these effects, in order.
pub open spec fn apply_writes(accounts: Seq<AccountModel>, actions: Seq<ActionModel>) -> Seq<
    AccountModel,
>
    decreases actions.len(),
{
    if actions.len() == 0 {
        accounts
    } else {
        apply_writes(apply_action(accounts, actions[0]), actions.drop_first())
    }
}

/// The seeds of a program address together with its bump seed.
pub open spec fn signer_seeds(seeds: Seq<Seq<u8>>, bump: u8) -> Seq<Seq<u8>> {
    seeds.push(seq![bump])
}

/// Copies a list of seeds and appends the bump seed.
pub fn with_bump(seeds: &Vec<Vec<u8>>, bump: u8) -> (r: Vec<Vec<u8>>)
    ensures
        bytes_seqs(r@) == signer_seeds(bytes_seqs(seeds@), bump),
{
    let mut r: Vec<Vec<u8>> = Vec::new();
    let mut i: usize = 0;
    while i < seeds.len()
        invariant
            i <= seeds@.len(),
            r@.len() == i,
            forall|k: int| 0 <= k < i ==> #[trigger] r@[k]@ == seeds@[k]@,
        decreases seeds@.len() - i,
    {
        let mut copy: Vec<u8> = Vec::new();
        let src = &seeds[i];
        let mut j: usize = 0;
        while j < src.len()
            invariant
                j <= src@.len(),
                copy@ == src@.subrange(0, j as int),
            decreases src@.len() - j,
        {
            copy.push(src[j]);
            j = j + 1;
            assert(copy@ =~= src@.subrange(0, j as int));
        }
        assert(src@.subrange(0, src@.len() as int) =~= src@);
        r.push(copy);
        i = i + 1;
    }
    let mut b: Vec<u8> = Vec::new();
    b.push(bump);
    r.push(b);
    assert(b@ =~= seq![bump]);
    assert forall|k: int| 0 <= k < r@.len() implies #[trigger] bytes_seqs(r@)[k] == signer_seeds(
        bytes_seqs(seeds@),
        bump,
    )[k] by {
        if k < seeds@.len() {
            assert(r@[k]@ == seeds@[k]@);
        }
    }
    assert(bytes_seqs(r@) =~= signer_seeds(bytes_seqs(seeds@), bump));
    r
}

/// A one-seed list.
pub fn seeds1(a: Vec<u8>) -> (r: Vec<Vec<u8>>)
    ensures
        bytes_seqs(r@) == seq![a@],
{
    let mut r: Vec<Vec<u8>> = Vec::new();
    r.push(a);
    assert(bytes_seqs(r@) =~= seq![a@]);
    r
}

/// A two-seed list.
pub fn seeds2(a: Vec<u8>, b: Vec<u8>) -> (r: Vec<Vec<u8>>)
    ensures
        bytes_seqs(r@) == seq![a@, b@],
{
    let mut r: Vec<Vec<u8>> = Vec::new();
    r.push(a);
    r.push(b);
    assert(bytes_seqs(r@) =~= seq![a@, b@]);
    r
}

/// A three-seed list.
pub fn seeds3(a: Vec<u8>, b: Vec<u8>, c: Vec<u8>) -> (r: Vec<Vec<u8>>)
    ensures
        bytes_seqs(r@) == seq![a@, b@, c@],
{
    let mut r: Vec<Vec<u8>> = Vec::new();
    r.push(a);
    r.push(b);
    r.push(c);
    assert(bytes_seqs(r@) =~= seq![a@, b@, c@]);
    r
}

/// `b"admin"`
pub open spec fn admin_seed() -> Seq<u8> {
    seq![97u8, 100, 109, 105, 110]
}

/// `b"userAccount"`
pub open spec fn user_account_seed() -> Seq<u8> {
    seq![117u8, 115, 101, 114, 65, 99, 99, 111, 117, 110, 116]
}

/// `b"proposal"`
pub open spec fn proposal_seed() -> Seq<u8> {
    seq![112u8, 114, 111, 112, 111, 115, 97, 108]
}

/// `b"vote"`
pub open spec fn vote_seed() -> Seq<u8> {
    seq![118u8, 111, 116, 101]
}

/// `b"vault"`
pub open spec fn vault_seed() -> Seq<u8> {
    seq![118u8, 97, 117, 108, 116]
}

/// `b"wallet"`
pub open spec fn wallet_seed() -> Seq<u8> {
    seq![119u8, 97, 108, 108, 101, 116]
}

pub fn admin_seed_vec() -> (r: Vec<u8>)
    ensures
        r@ == admin_seed(),
{
    let r = vec![97u8, 100, 109, 105, 110];
    assert(r@ =~= admin_seed());
    r
}

pub fn user_account_seed_vec() -> (r: Vec<u8>)
    ensures
        r@ == user_account_seed(),
{
    let r = vec![117u8, 115, 101, 114, 65, 99, 99, 111, 117, 110, 116];
    assert(r@ =~= user_account_seed());
    r
}

pub fn proposal_seed_vec() -> (r: Vec<u8>)
    ensures
        r@ == proposal_seed(),
{
    let r = vec![112u8, 114, 111, 112, 111, 115, 97, 108];
    assert(r@ =~= proposal_seed());
    r
}

pub fn vote_seed_vec() -> (r: Vec<u8>)
    ensures
        r@ == vote_seed(),
{
    let r = vec![118u8, 111, 116, 101];
    assert(r@ =~= vote_seed());
    r
}

pub fn vault_seed_vec() -> (r: Vec<u8>)
    ensures
        r@ == vault_seed(),
{
    let r = vec![118u8, 97, 117, 108, 116];
    assert(r@ =~= vault_seed());
    r
}

pub fn wallet_seed_vec() -> (r: Vec<u8>)
    ensures
        r@ == wallet_seed(),
{
    let r = vec![119u8, 97, 108, 108, 101, 116];
    assert(r@ =~= wallet_seed());
    r
}

} // verus!

verus! {

/// Applying one effect as a list.
pub proof fn lemma_apply_one(accounts: Seq<AccountModel>, a: ActionModel)
    ensures
        apply_writes(accounts, seq![a]) == apply_action(accounts, a),
{
    assert(seq![a].drop_first() =~= Seq::<ActionModel>::empty());
    reveal_with_fuel(apply_writes, 2);
}

/// Applying two effects as a list.
pub proof fn lemma_apply_two(accounts: Seq<AccountModel>, a: ActionModel, b: ActionModel)
    ensures
        apply_writes(accounts, seq![a, b]) == apply_action(apply_action(accounts, a), b),
{
    assert(seq![a, b].drop_first() =~= seq![b]);
    lemma_apply_one(apply_action(accounts, a), b);
}

/// Whether the effects write only to accounts that the program owns, or that they create
/// for the program.
pub open spec fn writes_owned(
    program_id: Seq<u8>,
    accounts: Seq<AccountModel>,
    actions: Seq<ActionModel>,
) -> bool {
    forall|j: int|
        0 <= j < actions.len() ==> match #[trigger] actions[j] {
            ActionModel::Write { account, .. } => (account < accounts.len()
                && accounts[account as int].owner == program_id) || exists|c: int|
                0 <= c < j && (#[trigger] actions[c] matches ActionModel::CreateAccount {
                    account: created,
                    owner,
                    ..
                } && created == account && owner == program_id),
            _ => true,
        }
}

} // verus!
