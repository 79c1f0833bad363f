//! Verified core of a two-tier token exchange: one premium reserve anchors
//! any number of normal reserves, and each pair trades at a fixed 1:1 rate
//! once both sides have gone live.
//!
//! The library decides; it moves no tokens itself. An operation is handed
//! plain pictures of the accounts it works on and answers with the
//! transfers to be carried out, or with the reason it was refused.
//!
//! - [`address`], [`account`], [`transfer`], [`error`]: the values passed
//!   around.
//! - [`reserve`]: the two reserve records, and taking them in hand and
//!   writing them back.
//! - [`admin`]: creating reserves and withdrawing from their vaults.
//! - [`swap`]: the swap engine.
//! - [`instruction`]: the six operations as a caller reaches them.
//! - [`ledger`]: a book of balances held in memory, on which the transfers
//!   can be carried out all-or-nothing.
//! - [`util`]: small carriers.

pub mod account;
pub mod address;
pub mod admin;
pub mod error;
pub mod instruction;
pub mod ledger;
pub mod reserve;
pub mod swap;
pub mod transfer;
pub mod util;
