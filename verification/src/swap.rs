//! The swap engine: decides whether a pair may trade and, if so, which two
//! transfers make up the trade. A swap changes no record.

use vstd::prelude::*;
use crate::account::{Clock, TokenAccount};
use crate::address::Address;
use crate::error::SwapError;
use crate::reserve::{LoadedNormalMintReserve, LoadedPremiumMintReserve};
use crate::transfer::{Authority, SwapTransfers, Transfer};

verus! {

/// Whether the two records form a pair: the normal reserve names the
/// premium reserve as its parent.
pub open spec fn related(
    premium: LoadedPremiumMintReserve,
    normal: LoadedNormalMintReserve,
) -> bool {
    normal.premium_mint_reserve_acc == premium.key
}

/// Whether a reserve with the given activation time trades at time `now`.
/// The activation time itself is still too early.
pub open spec fn live(go_live: i64, now: i64) -> bool {
    go_live < now
}

/// What stands in the way of a swap on this pair, whichever way it goes and
/// before any balance is looked at. The checks come in a fixed order and
/// the first that fails is the one reported: that the records are a pair,
/// that both vaults are the recorded ones, that both sides are live.
pub open spec fn pair_refusal(
    premium: LoadedPremiumMintReserve,
    normal: LoadedNormalMintReserve,
    premium_account: Address,
    normal_token_account: Address,
    now: i64,
) -> Option<SwapError> {
    if !related(premium, normal) {
        Some(SwapError::RelationshipMismatch)
    } else if premium.premium_account != premium_account || normal.normal_token_account
        != normal_token_account {
        Some(SwapError::AccountMismatch)
    } else if !live(premium.go_live_timestamp, now) || !live(normal.go_live_ts, now) {
        Some(SwapError::NotLive)
    } else {
        None
    }
}

/// The two transfers of a swap: the caller pays `amount` into the vault
/// `receiving` under its own signature, and the reserve `custodian` pays
/// `amount` out of its vault `paying`.
pub open spec fn swap_legs(
    source_authority: Address,
    source: Address,
    receiving: Address,
    paying: Address,
    custodian: Address,
    destination: Address,
    amount: u64,
) -> SwapTransfers {
    SwapTransfers {
        inbound: Transfer {
            from: source,
            to: receiving,
            authority: Authority::Signer(source_authority),
            amount,
        },
        outbound: Transfer {
            from: paying,
            to: destination,
            authority: Authority::Custodian(custodian),
            amount,
        },
    }
}

/// What a swap of premium tokens for normal tokens comes to. The caller's
/// premium tokens go into the premium vault; the normal vault pays out, so
/// it is the normal vault that must hold the amount.
pub open spec fn premium_for_normal(
    source_authority: Address,
    premium: LoadedPremiumMintReserve,
    normal: LoadedNormalMintReserve,
    normal_token_account: TokenAccount,
    premium_account: TokenAccount,
    source: TokenAccount,
    destination: TokenAccount,
    now: i64,
    amount: u64,
) -> Result<SwapTransfers, SwapError> {
    match pair_refusal(premium, normal, premium_account.key, normal_token_account.key, now) {
        Some(e) => Err(e),
        None => if normal_token_account.amount < amount {
            Err(SwapError::InsufficientBalance)
        } else {
            Ok(
                swap_legs(
                    source_authority,
                    source.key,
                    premium_account.key,
                    normal_token_account.key,
                    normal.key,
                    destination.key,
                    amount,
                ),
            )
        },
    }
}

/// What a swap of normal tokens for premium tokens comes to: the mirror
/// image. The caller's normal tokens go into the normal vault; the premium
/// vault pays out and must hold the amount.
pub open spec fn normal_for_premium(
    source_authority: Address,
    premium: LoadedPremiumMintReserve,
    normal: LoadedNormalMintReserve,
    normal_token_account: TokenAccount,
    premium_account: TokenAccount,
    source: TokenAccount,
    destination: TokenAccount,
    now: i64,
    amount: u64,
) -> Result<SwapTransfers, SwapError> {
    match pair_refusal(premium, normal, premium_account.key, normal_token_account.key, now) {
        Some(e) => Err(e),
        None => if premium_account.amount < amount {
            Err(SwapError::InsufficientBalance)
        } else {
            Ok(
                swap_legs(
                    source_authority,
                    source.key,
                    normal_token_account.key,
                    premium_account.key,
                    premium.key,
                    destination.key,
                    amount,
                ),
            )
        },
    }
}

/// Runs the checks that both directions share, in their order.
fn check_pair(
    premium_mint_reserve_acc: &LoadedPremiumMintReserve,
    normal_mint_reserve_acc: &LoadedNormalMintReserve,
    normal_token_account: &TokenAccount,
    premium_account: &TokenAccount,
    clock: &Clock,
) -> (refusal: Option<SwapError>)
    ensures
        refusal == pair_refusal(
            *premium_mint_reserve_acc,
            *normal_mint_reserve_acc,
            premium_account.key,
            normal_token_account.key,
            clock.unix_timestamp,
        ),
{
    if normal_mint_reserve_acc.premium_mint_reserve_acc != premium_mint_reserve_acc.key {
        return Some(SwapError::RelationshipMismatch);
    }
    if premium_mint_reserve_acc.premium_account != premium_account.key {
        return Some(SwapError::AccountMismatch);
    }
    if normal_mint_reserve_acc.normal_token_account != normal_token_account.key {
        return Some(SwapError::AccountMismatch);
    }
    if !(premium_mint_reserve_acc.go_live_timestamp < clock.unix_timestamp) {
        return Some(SwapError::NotLive);
    }
    if !(normal_mint_reserve_acc.go_live_ts < clock.unix_timestamp) {
        return Some(SwapError::NotLive);
    }
    None
}

/// Decides a swap of premium tokens for normal tokens. On success the two
/// transfers are handed back for the keeper of balances to carry out as
/// one; on refusal nothing is asked of it.
pub fn swap_premium_tokens_for_normal_tokens_handler(
    source_authority: Address,
    premium_mint_reserve_acc: &LoadedPremiumMintReserve,
    normal_mint_reserve_acc: &LoadedNormalMintReserve,
    normal_token_account: &TokenAccount,
    premium_account: &TokenAccount,
    source: &TokenAccount,
    destination: &TokenAccount,
    clock: &Clock,
    amount: u64,
) -> (r: Result<SwapTransfers, SwapError>)
    ensures
        r == premium_for_normal(
            source_authority,
            *premium_mint_reserve_acc,
            *normal_mint_reserve_acc,
            *normal_token_account,
            *premium_account,
            *source,
            *destination,
            clock.unix_timestamp,
            amount,
        ),
{
    match check_pair(
        premium_mint_reserve_acc,
        normal_mint_reserve_acc,
        normal_token_account,
        premium_account,
        clock,
    ) {
        Some(e) => {
            return Err(e);
        },
        None => {},
    }

    let normal_amount = normal_token_account.amount;

    if !(normal_amount >= amount) {
        return Err(SwapError::InsufficientBalance);
    }

    let inbound = Transfer {
        from: source.key,
        to: premium_account.key,
        authority: Authority::Signer(source_authority),
        amount,
    };

    let outbound = Transfer {
        from: normal_token_account.key,
        to: destination.key,
        authority: Authority::Custodian(normal_mint_reserve_acc.key),
        amount,
    };

    Ok(SwapTransfers { inbound, outbound })
}

/// Decides a swap of normal tokens for premium tokens. On success the two
/// transfers are handed back for the keeper of balances to carry out as
/// one; on refusal nothing is asked of it.
pub fn swap_normal_tokens_for_premium_tokens_handler(
    source_authority: Address,
    premium_mint_reserve_acc: &LoadedPremiumMintReserve,
    normal_mint_reserve_acc: &LoadedNormalMintReserve,
    normal_token_account: &TokenAccount,
    premium_account: &TokenAccount,
    source: &TokenAccount,
    destination: &TokenAccount,
    clock: &Clock,
    amount: u64,
) -> (r: Result<SwapTransfers, SwapError>)
    ensures
        r == normal_for_premium(
            source_authority,
            *premium_mint_reserve_acc,
            *normal_mint_reserve_acc,
            *normal_token_account,
            *premium_account,
            *source,
            *destination,
            clock.unix_timestamp,
            amount,
        ),
{
    match check_pair(
        premium_mint_reserve_acc,
        normal_mint_reserve_acc,
        normal_token_account,
        premium_account,
        clock,
    ) {
        Some(e) => {
            return Err(e);
        },
        None => {},
    }

    let premium_amount = premium_account.amount;

    if !(premium_amount >= amount) {
        return Err(SwapError::InsufficientBalance);
    }

    let inbound = Transfer {
        from: source.key,
        to: normal_token_account.key,
        authority: Authority::Signer(source_authority),
        amount,
    };

    let outbound = Transfer {
        from: premium_account.key,
        to: destination.key,
        authority: Authority::Custodian(premium_mint_reserve_acc.key),
        amount,
    };

    Ok(SwapTransfers { inbound, outbound })
}

/// Before either side's activation time no swap goes through, whatever
/// else holds of the pair, and so no transfer is asked for.
pub proof fn lemma_swap_waits_for_go_live(
    source_authority: Address,
    premium: LoadedPremiumMintReserve,
    normal: LoadedNormalMintReserve,
    normal_token_account: TokenAccount,
    premium_account: TokenAccount,
    source: TokenAccount,
    destination: TokenAccount,
    now: i64,
    amount: u64,
)
    requires
        now < premium.go_live_timestamp || now < normal.go_live_ts,
    ensures
        premium_for_normal(
            source_authority,
            premium,
            normal,
            normal_token_account,
            premium_account,
            source,
            destination,
            now,
            amount,
        ) is Err,
        normal_for_premium(
            source_authority,
            premium,
            normal,
            normal_token_account,
            premium_account,
            source,
            destination,
            now,
            amount,
        ) is Err,
{
}

/// A normal reserve that does not name the premium reserve as its parent
/// cannot be swapped against it: the swap is refused as unrelated, before
/// anything else is looked at and with no transfer asked for.
pub proof fn lemma_swap_needs_related_pair(
    source_authority: Address,
    premium: LoadedPremiumMintReserve,
    normal: LoadedNormalMintReserve,
    normal_token_account: TokenAccount,
    premium_account: TokenAccount,
    source: TokenAccount,
    destination: TokenAccount,
    now: i64,
    amount: u64,
)
    requires
        normal.premium_mint_reserve_acc != premium.key,
    ensures
        premium_for_normal(
            source_authority,
            premium,
            normal,
            normal_token_account,
            premium_account,
            source,
            destination,
            now,
            amount,
        ) == Err::<SwapTransfers, SwapError>(SwapError::RelationshipMismatch),
        normal_for_premium(
            source_authority,
            premium,
            normal,
            normal_token_account,
            premium_account,
            source,
            destination,
            now,
            amount,
        ) == Err::<SwapTransfers, SwapError>(SwapError::RelationshipMismatch),
{
}

} // verus!
