//! Verified models of three Solana programs: a community vault, a voting DAO that
//! drives the vault through cross-program calls, and a per-user wallet.
//!
//! Each program is a function from the instruction's accounts and data to either a
//! failure or the list of effects (account creations, cross-program calls, account
//! data writes) that the runtime layer carries out in order.
#![allow(non_camel_case_types)]

pub mod key;
pub mod error;
pub mod codec;
pub mod runtime;
pub mod account;
pub mod vault;
pub mod wallet;
pub mod dao;
