//! Token-bound accounts.
//!
//! An account is bound to one token. Its address is derived from the
//! registry's address and five parameters, by the `CREATE2` formula over a
//! fixed creation code, so that anyone can compute it without asking the
//! ledger. The registry creates accounts, once each. An account has an
//! owner, a lock, and a set of executors with permission.
//!
//! - `primitives`: addresses, 256-bit integers, big-endian encoding
//! - `keccak`: the hash
//! - `deriver`: creation code and address derivation
//! - `erc6551registry`, `ierc6551registry`: the registry and its interface
//! - `creation`: what holds of account creation as a whole
//! - `erc6551account`: the account
//! - `error`: the failures

pub mod creation;
pub mod deriver;
pub mod erc6551account;
pub mod erc6551registry;
pub mod error;
pub mod ierc6551registry;
pub mod keccak;
pub mod primitives;
