//! Plain pictures of what an operation is handed: the accounts it may read
//! and the time at which it runs.

use vstd::prelude::*;
use crate::address::Address;

verus! {

/// A token-holding account as an operation sees it.
#[derive(Clone, Copy, Debug, PartialEq, Eq)]
pub struct TokenAccount {
    /// Where the account lives.
    pub key: Address,
    /// Who may move tokens out of it.
    pub owner: Address,
    /// How many base units it holds.
    pub amount: u64,
}

/// The time an operation runs at, supplied afresh for each one.
#[derive(Clone, Copy, Debug, PartialEq, Eq)]
pub struct Clock {
    /// Seconds since the Unix epoch.
    pub unix_timestamp: i64,
}

/// A record together with the address it is kept under.
#[derive(Clone, Debug, PartialEq, Eq)]
pub struct Account<T> {
    /// Where the record lives.
    pub key: Address,
    /// What is kept there.
    pub data: T,
}

} // verus!
