//! Reserve administration: setting up the two kinds of reserve, and the
//! owner's withdrawals from their vaults.

use vstd::prelude::*;
use crate::account::{Clock, TokenAccount};
use crate::address::Address;
use crate::error::SwapError;
use crate::reserve::{LoadedNormalMintReserve, LoadedPremiumMintReserve};
use crate::swap::related;
use crate::transfer::{Authority, Transfer};
use crate::util::Empty;

verus! {

/// The activation time a new reserve gets: the one asked for, unless that
/// lies before the moment of creation, in which case it is that moment. A
/// reserve cannot be dated back.
pub open spec fn activation(requested: i64, now: i64) -> i64 {
    if requested < now {
        now
    } else {
        requested
    }
}

/// What a new premium reserve holds once it is set up at address `key`.
pub open spec fn new_premium_reserve(
    key: Address,
    auth: Address,
    premium_mint: Address,
    premium_account: Address,
    go_live_timestamp: i64,
    now: i64,
    normal_mints: u32,
    seed_string: String,
    bump: u8,
    token_bump: u8,
) -> LoadedPremiumMintReserve {
    LoadedPremiumMintReserve {
        key,
        premium_mint,
        premium_account,
        go_live_timestamp: activation(go_live_timestamp, now),
        initialization_timestamp: now,
        normal_mints,
        authority: auth,
        seed_string,
        bump,
        token_bump,
    }
}

/// What stands in the way of adding a normal reserve for `normal_mint`
/// under the given premium reserve, asked for by `auth`. A token type
/// cannot be paired with itself, and only the owner of the premium reserve
/// may add to it; the mints are looked at first.
pub open spec fn normal_creation_refusal(
    premium: LoadedPremiumMintReserve,
    auth: Address,
    normal_mint: Address,
) -> Option<SwapError> {
    if premium.premium_mint == normal_mint {
        Some(SwapError::MintCollision)
    } else if premium.authority != auth {
        Some(SwapError::AuthorityMismatch)
    } else {
        None
    }
}

/// What a new normal reserve holds once it is set up at address `key`
/// under the premium reserve at `parent`.
pub open spec fn new_normal_reserve(
    key: Address,
    parent: Address,
    normal_mint: Address,
    normal_token_account: Address,
    go_live_ts: i64,
    initialization_ts: i64,
    now: i64,
    bump: u8,
    token_bump: u8,
) -> LoadedNormalMintReserve {
    LoadedNormalMintReserve {
        key,
        premium_mint_reserve_acc: parent,
        normal_mint,
        normal_token_account,
        go_live_ts: activation(go_live_ts, now),
        initialization_ts,
        bump,
        token_bump,
    }
}

/// What a withdrawal from the premium vault comes to. Only the owner may
/// withdraw, and only from the vault the reserve records; no balance is
/// looked at.
pub open spec fn premium_withdrawal(
    authority: Address,
    premium: LoadedPremiumMintReserve,
    premium_account: TokenAccount,
    destination: TokenAccount,
    amount: u64,
) -> Result<Transfer, SwapError> {
    if premium.authority != authority {
        Err(SwapError::AuthorityMismatch)
    } else if premium.premium_account != premium_account.key {
        Err(SwapError::AccountMismatch)
    } else {
        Ok(
            Transfer {
                from: premium_account.key,
                to: destination.key,
                authority: Authority::Custodian(premium.key),
                amount,
            },
        )
    }
}

/// What a withdrawal from a normal vault comes to. Only the owner of the
/// parent may withdraw, only from the vault the normal reserve records,
/// and only where the two records are a pair; the first of these that
/// fails is reported. No balance is looked at.
pub open spec fn normal_withdrawal(
    authority: Address,
    premium: LoadedPremiumMintReserve,
    normal: LoadedNormalMintReserve,
    normal_token_account: TokenAccount,
    destination: TokenAccount,
    amount: u64,
) -> Result<Transfer, SwapError> {
    if premium.authority != authority {
        Err(SwapError::AuthorityMismatch)
    } else if normal.normal_token_account != normal_token_account.key {
        Err(SwapError::AccountMismatch)
    } else if !related(premium, normal) {
        Err(SwapError::RelationshipMismatch)
    } else {
        Ok(
            Transfer {
                from: normal_token_account.key,
                to: destination.key,
                authority: Authority::Custodian(normal.key),
                amount,
            },
        )
    }
}

/// Sets up a normal reserve under a premium reserve. Refused, with the
/// record left as it was, where the mint is the parent's own or the caller
/// is not the parent's owner. Both accounts must come with the bump their
/// address was derived with.
pub fn create_normal_mint_reserve_handler(
    auth: Address,
    normal_token_account: &Empty<TokenAccount>,
    normal_mint_reserve_acc: &mut Empty<LoadedNormalMintReserve>,
    premium_mint_reserve_acc: &LoadedPremiumMintReserve,
    normal_mint: Address,
    go_live_ts: i64,
    initialization_ts: i64,
    clock: &Clock,
) -> (r: Result<(), SwapError>)
    requires
        old(normal_mint_reserve_acc).bump is Some,
        normal_token_account.bump is Some,
    ensures
        normal_mint == premium_mint_reserve_acc.premium_mint ==> r == Err::<(), SwapError>(
            SwapError::MintCollision,
        ) && *final(normal_mint_reserve_acc) == *old(normal_mint_reserve_acc),
        match normal_creation_refusal(*premium_mint_reserve_acc, auth, normal_mint) {
            Some(e) => r == Err::<(), SwapError>(e)
                && *final(normal_mint_reserve_acc) == *old(normal_mint_reserve_acc),
            None => r is Ok
                && final(normal_mint_reserve_acc).bump == old(normal_mint_reserve_acc).bump
                && final(normal_mint_reserve_acc).account == new_normal_reserve(
                old(normal_mint_reserve_acc).account.key,
                premium_mint_reserve_acc.key,
                normal_mint,
                normal_token_account.account.key,
                go_live_ts,
                initialization_ts,
                clock.unix_timestamp,
                old(normal_mint_reserve_acc).bump->0,
                normal_token_account.bump->0,
            ),
        },
{
    let bump = normal_mint_reserve_acc.bump.unwrap();
    let token_bump = normal_token_account.bump.unwrap();

    if !(premium_mint_reserve_acc.premium_mint != normal_mint) {
        return Err(SwapError::MintCollision);
    }

    if !(premium_mint_reserve_acc.authority == auth) {
        return Err(SwapError::AuthorityMismatch);
    }

    normal_mint_reserve_acc.account.premium_mint_reserve_acc = premium_mint_reserve_acc.key;
    normal_mint_reserve_acc.account.normal_mint = normal_mint;
    normal_mint_reserve_acc.account.normal_token_account = normal_token_account.account.key;
    normal_mint_reserve_acc.account.initialization_ts = initialization_ts;
    normal_mint_reserve_acc.account.bump = bump;
    normal_mint_reserve_acc.account.token_bump = token_bump;

    if go_live_ts < clock.unix_timestamp {
        normal_mint_reserve_acc.account.go_live_ts = clock.unix_timestamp;
    } else {
        normal_mint_reserve_acc.account.go_live_ts = go_live_ts;
    }
    Ok(())
}

/// Sets up a premium reserve owned by `auth`. Nothing can stand in its
/// way. Both accounts must come with the bump their address was derived
/// with.
pub fn create_premium_mint_reserve_handler(
    auth: Address,
    premium_mint_reserve_acc: &mut Empty<LoadedPremiumMintReserve>,
    premium_mint: Address,
    premium_account: &Empty<TokenAccount>,
    go_live_timestamp: i64,
    clock: &Clock,
    normal_mints: u32,
    seed_string: String,
)
    requires
        old(premium_mint_reserve_acc).bump is Some,
        premium_account.bump is Some,
    ensures
        final(premium_mint_reserve_acc).bump == old(premium_mint_reserve_acc).bump,
        final(premium_mint_reserve_acc).account == new_premium_reserve(
            old(premium_mint_reserve_acc).account.key,
            auth,
            premium_mint,
            premium_account.account.key,
            go_live_timestamp,
            clock.unix_timestamp,
            normal_mints,
            seed_string,
            old(premium_mint_reserve_acc).bump->0,
            premium_account.bump->0,
        ),
{
    let bump = premium_mint_reserve_acc.bump.unwrap();
    let token_bump = premium_account.bump.unwrap();

    premium_mint_reserve_acc.account.premium_mint = premium_mint;
    premium_mint_reserve_acc.account.premium_account = premium_account.account.key;
    premium_mint_reserve_acc.account.initialization_timestamp = clock.unix_timestamp;
    premium_mint_reserve_acc.account.authority = auth;
    premium_mint_reserve_acc.account.seed_string = seed_string;
    premium_mint_reserve_acc.account.bump = bump;
    premium_mint_reserve_acc.account.token_bump = token_bump;
    premium_mint_reserve_acc.account.normal_mints = normal_mints;

    if go_live_timestamp < clock.unix_timestamp {
        premium_mint_reserve_acc.account.go_live_timestamp = clock.unix_timestamp;
    } else {
        premium_mint_reserve_acc.account.go_live_timestamp = go_live_timestamp;
    }
}

/// Decides a withdrawal from the premium vault. On success the one
/// transfer is handed back for the keeper of balances to carry out.
pub fn withdraw_premium_tokens_handler(
    authority: Address,
    premium_mint_reserve_acc: &LoadedPremiumMintReserve,
    premium_account: &TokenAccount,
    destination: &TokenAccount,
    amount: u64,
) -> (r: Result<Transfer, SwapError>)
    ensures
        r == premium_withdrawal(
            authority,
            *premium_mint_reserve_acc,
            *premium_account,
            *destination,
            amount,
        ),
{
    if !(premium_mint_reserve_acc.authority == authority) {
        return Err(SwapError::AuthorityMismatch);
    }

    if !(premium_mint_reserve_acc.premium_account == premium_account.key) {
        return Err(SwapError::AccountMismatch);
    }

    Ok(
        Transfer {
            from: premium_account.key,
            to: destination.key,
            authority: Authority::Custodian(premium_mint_reserve_acc.key),
            amount,
        },
    )
}

/// Decides a withdrawal from a normal vault. On success the one transfer
/// is handed back for the keeper of balances to carry out.
pub fn withdraw_normal_tokens_handler(
    authority: Address,
    premium_mint_reserve_acc: &LoadedPremiumMintReserve,
    normal_mint_reserve_acc: &LoadedNormalMintReserve,
    normal_token_account: &TokenAccount,
    destination: &TokenAccount,
    amount: u64,
) -> (r: Result<Transfer, SwapError>)
    ensures
        r == normal_withdrawal(
            authority,
            *premium_mint_reserve_acc,
            *normal_mint_reserve_acc,
            *normal_token_account,
            *destination,
            amount,
        ),
{
    if !(premium_mint_reserve_acc.authority == authority) {
        return Err(SwapError::AuthorityMismatch);
    }

    if !(normal_mint_reserve_acc.normal_token_account == normal_token_account.key) {
        return Err(SwapError::AccountMismatch);
    }

    if !(normal_mint_reserve_acc.premium_mint_reserve_acc == premium_mint_reserve_acc.key) {
        return Err(SwapError::RelationshipMismatch);
    }

    Ok(
        Transfer {
            from: normal_token_account.key,
            to: destination.key,
            authority: Authority::Custodian(normal_mint_reserve_acc.key),
            amount,
        },
    )
}

/// A reserve never goes live before it was created: asked for an earlier
/// time it gets the moment of creation, asked for that moment or a later
/// time it gets what was asked.
pub proof fn lemma_activation_clamped(requested: i64, now: i64)
    ensures
        requested < now ==> activation(requested, now) == now,
        requested >= now ==> activation(requested, now) == requested,
        activation(requested, now) >= now,
{
}

/// No one but the owner recorded on the premium reserve withdraws, from
/// either vault of a pair.
pub proof fn lemma_withdrawal_only_by_owner(
    authority: Address,
    premium: LoadedPremiumMintReserve,
    normal: LoadedNormalMintReserve,
    premium_account: TokenAccount,
    normal_token_account: TokenAccount,
    destination: TokenAccount,
    amount: u64,
)
    requires
        authority != premium.authority,
    ensures
        premium_withdrawal(authority, premium, premium_account, destination, amount)
            == Err::<Transfer, SwapError>(SwapError::AuthorityMismatch),
        normal_withdrawal(authority, premium, normal, normal_token_account, destination, amount)
            == Err::<Transfer, SwapError>(SwapError::AuthorityMismatch),
{
}

/// The owner withdraws any amount from the premium vault, as long as the
/// vault handed in is the recorded one: the reserve itself vouches for the
/// transfer to the destination.
pub proof fn lemma_owner_withdraws_premium(
    authority: Address,
    premium: LoadedPremiumMintReserve,
    premium_account: TokenAccount,
    destination: TokenAccount,
    amount: u64,
)
    requires
        authority == premium.authority,
        premium_account.key == premium.premium_account,
    ensures
        premium_withdrawal(authority, premium, premium_account, destination, amount) == Ok::<
            Transfer,
            SwapError,
        >(
            Transfer {
                from: premium.premium_account,
                to: destination.key,
                authority: Authority::Custodian(premium.key),
                amount,
            },
        ),
{
}

/// The owner withdraws any amount from a normal vault, as long as the
/// records are a pair and the vault handed in is the recorded one: the
/// normal reserve itself vouches for the transfer to the destination.
pub proof fn lemma_owner_withdraws_normal(
    authority: Address,
    premium: LoadedPremiumMintReserve,
    normal: LoadedNormalMintReserve,
    normal_token_account: TokenAccount,
    destination: TokenAccount,
    amount: u64,
)
    requires
        authority == premium.authority,
        normal_token_account.key == normal.normal_token_account,
        normal.premium_mint_reserve_acc == premium.key,
    ensures
        normal_withdrawal(authority, premium, normal, normal_token_account, destination, amount)
            == Ok::<Transfer, SwapError>(
            Transfer {
                from: normal.normal_token_account,
                to: destination.key,
                authority: Authority::Custodian(normal.key),
                amount,
            },
        ),
{
}

/// A normal reserve that does not name the premium reserve as its parent
/// cannot be withdrawn from through it: no transfer is asked for.
pub proof fn lemma_withdrawal_needs_related_pair(
    authority: Address,
    premium: LoadedPremiumMintReserve,
    normal: LoadedNormalMintReserve,
    normal_token_account: TokenAccount,
    destination: TokenAccount,
    amount: u64,
)
    requires
        normal.premium_mint_reserve_acc != premium.key,
    ensures
        normal_withdrawal(authority, premium, normal, normal_token_account, destination, amount)
            is Err,
{
}

} // verus!
