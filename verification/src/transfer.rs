//! What an operation asks the keeper of balances to do.

use vstd::prelude::*;
use crate::address::Address;

verus! {

/// Who vouches for a transfer.
#[derive(Clone, Copy, Debug, PartialEq, Eq)]
pub enum Authority {
    /// A wallet that signed the request itself.
    Signer(Address),
    /// A reserve record acting as custodian of its own vault; no outside
    /// signature is involved.
    Custodian(Address),
}

impl Authority {
    /// The identity that stands behind the transfer.
    pub open spec fn spec_key(self) -> Address {
        match self {
            Authority::Signer(k) => k,
            Authority::Custodian(k) => k,
        }
    }

    /// The identity that stands behind the transfer.
    pub fn key(&self) -> (k: Address)
        ensures
            k == self.spec_key(),
    {
        match self {
            Authority::Signer(k) => *k,
            Authority::Custodian(k) => *k,
        }
    }

    /// Whether a reserve record, not a wallet, vouches for the transfer.
    pub fn is_custodian(&self) -> (c: bool)
        ensures
            c == (*self is Custodian),
    {
        match self {
            Authority::Signer(_) => false,
            Authority::Custodian(_) => true,
        }
    }
}

/// One movement of tokens: `amount` base units leave `from` and arrive at
/// `to`, vouched for by `authority`.
#[derive(Clone, Copy, Debug, PartialEq, Eq)]
pub struct Transfer {
    pub from: Address,
    pub to: Address,
    pub authority: Authority,
    pub amount: u64,
}

/// The two movements of one swap, to be carried out together or not at all.
#[derive(Clone, Copy, Debug, PartialEq, Eq)]
pub struct SwapTransfers {
    /// The caller pays in: from the caller's source account to the vault of
    /// the reserve that receives.
    pub inbound: Transfer,
    /// The reserve pays out: from the vault of the reserve that pays to the
    /// caller's destination account.
    pub outbound: Transfer,
}

} // verus!
