//! The ways an operation on a reserve pair can be refused.

use vstd::prelude::*;

verus! {

/// Why an operation was refused. Every refusal is final for the operation
/// that met it: nothing is retried and nothing it asked for is kept.
#[derive(Clone, Copy, Debug, PartialEq, Eq, Structural)]
pub enum SwapError {
    /// A normal reserve was to trade the very token type of its parent.
    MintCollision,
    /// The caller is not the owner recorded on the premium reserve.
    AuthorityMismatch,
    /// The normal reserve presented does not belong to the premium reserve
    /// presented with it.
    RelationshipMismatch,
    /// A vault handed in is not the one recorded on its reserve.
    AccountMismatch,
    /// One side of the pair has not passed its activation time.
    NotLive,
    /// The vault that pays out holds less than the amount asked for.
    InsufficientBalance,
    /// A transfer was turned down where the balances are kept.
    TransferFailure,
}

impl SwapError {
    /// The text that names each refusal.
    pub open spec fn spec_message(self) -> Seq<char> {
        match self {
            SwapError::MintCollision => "premium mint can't be the same as normal mint"@,
            SwapError::AuthorityMismatch => "authorities do not match"@,
            SwapError::RelationshipMismatch => "reserves are not related"@,
            SwapError::AccountMismatch => "invalid token account"@,
            SwapError::NotLive => "reserve not live yet"@,
            SwapError::InsufficientBalance => "token amount too low to swap"@,
            SwapError::TransferFailure => "token transfer failed"@,
        }
    }

    /// The text shown to a caller for this refusal.
    pub fn message(&self) -> (text: &'static str)
        ensures
            text@ == self.spec_message(),
    {
        match self {
            SwapError::MintCollision => "premium mint can't be the same as normal mint",
            SwapError::AuthorityMismatch => "authorities do not match",
            SwapError::RelationshipMismatch => "reserves are not related",
            SwapError::AccountMismatch => "invalid token account",
            SwapError::NotLive => "reserve not live yet",
            SwapError::InsufficientBalance => "token amount too low to swap",
            SwapError::TransferFailure => "token transfer failed",
        }
    }
}

/// Different refusals never share a text, so the text alone tells a caller
/// which condition failed.
pub proof fn lemma_messages_distinct(a: SwapError, b: SwapError)
    requires
        a != b,
    ensures
        a.spec_message() != b.spec_message(),
{
    reveal_strlit("premium mint can't be the same as normal mint");
    reveal_strlit("authorities do not match");
    reveal_strlit("reserves are not related");
    reveal_strlit("invalid token account");
    reveal_strlit("reserve not live yet");
    reveal_strlit("token amount too low to swap");
    reveal_strlit("token transfer failed");
    if a.spec_message().len() == b.spec_message().len() {
        assert(a.spec_message()[0] != b.spec_message()[0]);
    }
}

} // verus!
