# dao_programs

Verified logic of three Solana programs:

- `vault`: a community vault that is created, deposited into and withdrawn from on behalf
  of a calling program;
- `dao`: a voting program (administrator, members with governance points, proposals,
  votes, decisions) that drives the vault through cross-program calls;
- `wallet`: one wallet per user, with deposits, withdrawals and transfers.

Each instruction handler is a function from the program id, the accounts it is given
(`AccountView`) and the instruction data to either a `Failure` or the list of effects
(`Action`: account creation, a call into another program, a write of account data) that
the runtime carries out in order. Its contract states the result exactly, over spec
models of the accounts and effects. The account layouts are written and read as bytes in
`codec.rs` and each program's state module, with round-trip lemmas.

Layout:

- `src/key.rs`, `src/error.rs`, `src/account.rs`: addresses, errors, accounts and effects;
- `src/codec.rs`: little-endian integers, booleans, keys and strings as bytes;
- `src/runtime.rs`: the trusted calls into `solana-program` and std (program address
  search, clock sysvar, instructions sysvar, UTF-8 decoding);
- `src/vault`, `src/dao`, `src/wallet`: each program's instructions, handlers and laws
  (`laws.rs`: properties across instructions, proved);
- `tests/`: tests on concrete values, including checks of the byte layouts against borsh;
- `app/lib.rs`: the runtime side, which turns Solana `AccountInfo`s into `AccountView`s,
  runs a handler and performs its effects (rent, system-program `create_account`,
  `invoke_signed`, data writes).
