//! The six operations as a caller reaches them. Each is handed the
//! accounts it works on, takes the reserve records in hand, decides, and
//! writes the records back; what it asks of the keeper of balances is its
//! result. An operation that is refused leaves every account as it was.

use vstd::prelude::*;
use crate::account::{Account, Clock, TokenAccount};
use crate::address::Address;
use crate::admin::{
    create_normal_mint_reserve_handler,
    create_premium_mint_reserve_handler,
    new_normal_reserve,
    new_premium_reserve,
    normal_creation_refusal,
    normal_withdrawal,
    premium_withdrawal,
    withdraw_normal_tokens_handler,
    withdraw_premium_tokens_handler,
};
use crate::error::SwapError;
use crate::reserve::{NormalMintReserve, PremiumMintReserve};
use crate::swap::{
    normal_for_premium,
    premium_for_normal,
    swap_normal_tokens_for_premium_tokens_handler,
    swap_premium_tokens_for_normal_tokens_handler,
};
use crate::transfer::{SwapTransfers, Transfer};
use crate::util::Empty;

verus! {

/// What a swap of premium tokens for normal tokens is handed.
#[derive(Clone, Debug, PartialEq, Eq)]
pub struct SwapPremiumTokensForNormalTokens {
    /// The caller, who signed for the payment out of `source`.
    pub source_authority: Address,
    pub premium_mint_reserve_acc: Account<PremiumMintReserve>,
    pub normal_mint_reserve_acc: Account<NormalMintReserve>,
    /// The vault of the normal reserve.
    pub normal_token_account: TokenAccount,
    /// The vault of the premium reserve.
    pub premium_account: TokenAccount,
    /// The caller's account that pays in.
    pub source: TokenAccount,
    /// The caller's account that is paid out to.
    pub destination: TokenAccount,
    pub clock: Clock,
}

/// What a withdrawal from a normal vault is handed.
#[derive(Clone, Debug, PartialEq, Eq)]
pub struct WithdrawNormalTokens {
    /// The caller, who must be the owner of the premium reserve.
    pub authority: Address,
    pub premium_mint_reserve_acc: Account<PremiumMintReserve>,
    pub normal_mint_reserve_acc: Account<NormalMintReserve>,
    /// The vault of the normal reserve.
    pub normal_token_account: TokenAccount,
    pub destination: TokenAccount,
}

/// What a swap of normal tokens for premium tokens is handed.
#[derive(Clone, Debug, PartialEq, Eq)]
pub struct SwapNormalTokensForPremiumTokens {
    /// The caller, who signed for the payment out of `source`.
    pub source_authority: Address,
    pub premium_mint_reserve_acc: Account<PremiumMintReserve>,
    pub normal_mint_reserve_acc: Account<NormalMintReserve>,
    /// The vault of the normal reserve.
    pub normal_token_account: TokenAccount,
    /// The vault of the premium reserve.
    pub premium_account: TokenAccount,
    /// The caller's account that pays in.
    pub source: TokenAccount,
    /// The caller's account that is paid out to.
    pub destination: TokenAccount,
    pub clock: Clock,
}

/// What a withdrawal from the premium vault is handed.
#[derive(Clone, Debug, PartialEq, Eq)]
pub struct WithdrawPremiumTokens {
    /// The caller, who must be the owner of the premium reserve.
    pub authority: Address,
    pub premium_mint_reserve_acc: Account<PremiumMintReserve>,
    /// The vault of the premium reserve.
    pub premium_account: TokenAccount,
    pub destination: TokenAccount,
}

/// The bumps with which the addresses of a new premium reserve and of its
/// vault were derived.
#[derive(Clone, Copy, Debug, PartialEq, Eq)]
pub struct CreatePremiumMintReserveBumps {
    pub premium_mint_reserve_acc: u8,
    pub premium_account: u8,
}

/// What the creation of a premium reserve is handed: the record and the
/// vault have been allotted and are still to be filled in.
#[derive(Clone, Debug, PartialEq, Eq)]
pub struct CreatePremiumMintReserve {
    /// The caller, who becomes the owner.
    pub payer: Address,
    pub premium_mint_reserve_acc: Account<PremiumMintReserve>,
    pub premium_mint: Address,
    pub premium_account: TokenAccount,
    pub clock: Clock,
    pub bumps: CreatePremiumMintReserveBumps,
}

/// The bumps with which the addresses of a new normal reserve and of its
/// vault were derived.
#[derive(Clone, Copy, Debug, PartialEq, Eq)]
pub struct CreateNormalMintReserveBumps {
    pub normal_token_account: u8,
    pub normal_mint_reserve_acc: u8,
}

/// What the creation of a normal reserve is handed: the record and the
/// vault have been allotted and are still to be filled in.
#[derive(Clone, Debug, PartialEq, Eq)]
pub struct CreateNormalMintReserve {
    /// The caller, who must be the owner of the premium reserve.
    pub payer: Address,
    pub normal_token_account: TokenAccount,
    pub normal_mint_reserve_acc: Account<NormalMintReserve>,
    pub premium_mint_reserve_acc: Account<PremiumMintReserve>,
    pub normal_mint: Address,
    pub clock: Clock,
    pub bumps: CreateNormalMintReserveBumps,
}

/// Swaps premium tokens for normal tokens. The result is what the swap
/// engine decides on the records as they are kept; no account handed in is
/// changed, whether the swap goes through or not.
pub fn swap_premium_tokens_for_normal_tokens(
    accounts: &mut SwapPremiumTokensForNormalTokens,
    amount: u64,
) -> (r: Result<SwapTransfers, SwapError>)
    ensures
        *final(accounts) == *old(accounts),
        r == premium_for_normal(
            old(accounts).source_authority,
            old(accounts).premium_mint_reserve_acc.data.at(
                old(accounts).premium_mint_reserve_acc.key,
            ),
            old(accounts).normal_mint_reserve_acc.data.at(
                old(accounts).normal_mint_reserve_acc.key,
            ),
            old(accounts).normal_token_account,
            old(accounts).premium_account,
            old(accounts).source,
            old(accounts).destination,
            old(accounts).clock.unix_timestamp,
            amount,
        ),
{
    let premium_mint_reserve_acc = PremiumMintReserve::load(&accounts.premium_mint_reserve_acc);
    let normal_mint_reserve_acc = NormalMintReserve::load(&accounts.normal_mint_reserve_acc);

    let legs = match swap_premium_tokens_for_normal_tokens_handler(
        accounts.source_authority,
        &premium_mint_reserve_acc,
        &normal_mint_reserve_acc,
        &accounts.normal_token_account,
        &accounts.premium_account,
        &accounts.source,
        &accounts.destination,
        &accounts.clock,
        amount,
    ) {
        Ok(legs) => legs,
        Err(e) => {
            return Err(e);
        },
    };

    let _ = PremiumMintReserve::store(
        &premium_mint_reserve_acc,
        &mut accounts.premium_mint_reserve_acc,
    );
    let _ = NormalMintReserve::store(
        &normal_mint_reserve_acc,
        &mut accounts.normal_mint_reserve_acc,
    );

    Ok(legs)
}

/// Withdraws from a normal vault. The result is what reserve
/// administration decides on the records as they are kept; no account
/// handed in is changed.
pub fn withdraw_normal_tokens(
    accounts: &mut WithdrawNormalTokens,
    amount: u64,
) -> (r: Result<Transfer, SwapError>)
    ensures
        *final(accounts) == *old(accounts),
        r == normal_withdrawal(
            old(accounts).authority,
            old(accounts).premium_mint_reserve_acc.data.at(
                old(accounts).premium_mint_reserve_acc.key,
            ),
            old(accounts).normal_mint_reserve_acc.data.at(
                old(accounts).normal_mint_reserve_acc.key,
            ),
            old(accounts).normal_token_account,
            old(accounts).destination,
            amount,
        ),
{
    let premium_mint_reserve_acc = PremiumMintReserve::load(&accounts.premium_mint_reserve_acc);
    let normal_mint_reserve_acc = NormalMintReserve::load(&accounts.normal_mint_reserve_acc);

    let transfer = match withdraw_normal_tokens_handler(
        accounts.authority,
        &premium_mint_reserve_acc,
        &normal_mint_reserve_acc,
        &accounts.normal_token_account,
        &accounts.destination,
        amount,
    ) {
        Ok(transfer) => transfer,
        Err(e) => {
            return Err(e);
        },
    };

    let _ = PremiumMintReserve::store(
        &premium_mint_reserve_acc,
        &mut accounts.premium_mint_reserve_acc,
    );
    let _ = NormalMintReserve::store(
        &normal_mint_reserve_acc,
        &mut accounts.normal_mint_reserve_acc,
    );

    Ok(transfer)
}

/// Swaps normal tokens for premium tokens. The result is what the swap
/// engine decides on the records as they are kept; no account handed in is
/// changed, whether the swap goes through or not.
pub fn swap_normal_tokens_for_premium_tokens(
    accounts: &mut SwapNormalTokensForPremiumTokens,
    amount: u64,
) -> (r: Result<SwapTransfers, SwapError>)
    ensures
        *final(accounts) == *old(accounts),
        r == normal_for_premium(
            old(accounts).source_authority,
            old(accounts).premium_mint_reserve_acc.data.at(
                old(accounts).premium_mint_reserve_acc.key,
            ),
            old(accounts).normal_mint_reserve_acc.data.at(
                old(accounts).normal_mint_reserve_acc.key,
            ),
            old(accounts).normal_token_account,
            old(accounts).premium_account,
            old(accounts).source,
            old(accounts).destination,
            old(accounts).clock.unix_timestamp,
            amount,
        ),
{
    let premium_mint_reserve_acc = PremiumMintReserve::load(&accounts.premium_mint_reserve_acc);
    let normal_mint_reserve_acc = NormalMintReserve::load(&accounts.normal_mint_reserve_acc);

    let legs = match swap_normal_tokens_for_premium_tokens_handler(
        accounts.source_authority,
        &premium_mint_reserve_acc,
        &normal_mint_reserve_acc,
        &accounts.normal_token_account,
        &accounts.premium_account,
        &accounts.source,
        &accounts.destination,
        &accounts.clock,
        amount,
    ) {
        Ok(legs) => legs,
        Err(e) => {
            return Err(e);
        },
    };

    let _ = PremiumMintReserve::store(
        &premium_mint_reserve_acc,
        &mut accounts.premium_mint_reserve_acc,
    );
    let _ = NormalMintReserve::store(
        &normal_mint_reserve_acc,
        &mut accounts.normal_mint_reserve_acc,
    );

    Ok(legs)
}

/// Withdraws from the premium vault. The result is what reserve
/// administration decides on the record as it is kept; no account handed
/// in is changed.
pub fn withdraw_premium_tokens(
    accounts: &mut WithdrawPremiumTokens,
    amount: u64,
) -> (r: Result<Transfer, SwapError>)
    ensures
        *final(accounts) == *old(accounts),
        r == premium_withdrawal(
            old(accounts).authority,
            old(accounts).premium_mint_reserve_acc.data.at(
                old(accounts).premium_mint_reserve_acc.key,
            ),
            old(accounts).premium_account,
            old(accounts).destination,
            amount,
        ),
{
    let premium_mint_reserve_acc = PremiumMintReserve::load(&accounts.premium_mint_reserve_acc);

    let transfer = match withdraw_premium_tokens_handler(
        accounts.authority,
        &premium_mint_reserve_acc,
        &accounts.premium_account,
        &accounts.destination,
        amount,
    ) {
        Ok(transfer) => transfer,
        Err(e) => {
            return Err(e);
        },
    };

    let _ = PremiumMintReserve::store(
        &premium_mint_reserve_acc,
        &mut accounts.premium_mint_reserve_acc,
    );

    Ok(transfer)
}

/// Creates a premium reserve owned by the caller: the record handed in is
/// filled in and written back. Nothing else that was handed in changes.
pub fn create_premium_mint_reserve(
    accounts: &mut CreatePremiumMintReserve,
    go_live_timestamp: i64,
    normal_mints: u32,
    seed_string: String,
)
    ensures
        *final(accounts) == (CreatePremiumMintReserve {
            premium_mint_reserve_acc: Account {
                key: old(accounts).premium_mint_reserve_acc.key,
                data: new_premium_reserve(
                    old(accounts).premium_mint_reserve_acc.key,
                    old(accounts).payer,
                    old(accounts).premium_mint,
                    old(accounts).premium_account.key,
                    go_live_timestamp,
                    old(accounts).clock.unix_timestamp,
                    normal_mints,
                    seed_string,
                    old(accounts).bumps.premium_mint_reserve_acc,
                    old(accounts).bumps.premium_account,
                ).record(),
            },
            ..*old(accounts)
        }),
{
    let mut premium_mint_reserve_acc = Empty {
        account: PremiumMintReserve::load(&accounts.premium_mint_reserve_acc),
        bump: Some(accounts.bumps.premium_mint_reserve_acc),
    };
    let premium_account = Empty {
        account: accounts.premium_account,
        bump: Some(accounts.bumps.premium_account),
    };

    create_premium_mint_reserve_handler(
        accounts.payer,
        &mut premium_mint_reserve_acc,
        accounts.premium_mint,
        &premium_account,
        go_live_timestamp,
        &accounts.clock,
        normal_mints,
        seed_string,
    );

    let _ = PremiumMintReserve::store(
        &premium_mint_reserve_acc.account,
        &mut accounts.premium_mint_reserve_acc,
    );
}

/// Creates a normal reserve under a premium reserve: the record handed in
/// is filled in and written back. Where the creation is refused, because
/// the mint is the parent's own or the caller is not the parent's owner,
/// nothing is written: every account is left as it was. Where it goes
/// through, nothing but the new record changes.
pub fn create_normal_mint_reserve(
    accounts: &mut CreateNormalMintReserve,
    go_live_ts: i64,
    initialization_ts: i64,
) -> (r: Result<(), SwapError>)
    ensures
        old(accounts).normal_mint == old(accounts).premium_mint_reserve_acc.data.premium_mint
            ==> r == Err::<(), SwapError>(SwapError::MintCollision)
            && *final(accounts) == *old(accounts),
        match normal_creation_refusal(
            old(accounts).premium_mint_reserve_acc.data.at(
                old(accounts).premium_mint_reserve_acc.key,
            ),
            old(accounts).payer,
            old(accounts).normal_mint,
        ) {
            Some(e) => r == Err::<(), SwapError>(e) && *final(accounts) == *old(accounts),
            None => r is Ok && *final(accounts) == (CreateNormalMintReserve {
                normal_mint_reserve_acc: Account {
                    key: old(accounts).normal_mint_reserve_acc.key,
                    data: new_normal_reserve(
                        old(accounts).normal_mint_reserve_acc.key,
                        old(accounts).premium_mint_reserve_acc.key,
                        old(accounts).normal_mint,
                        old(accounts).normal_token_account.key,
                        go_live_ts,
                        initialization_ts,
                        old(accounts).clock.unix_timestamp,
                        old(accounts).bumps.normal_mint_reserve_acc,
                        old(accounts).bumps.normal_token_account,
                    ).record(),
                },
                ..*old(accounts)
            }),
        },
{
    let normal_token_account = Empty {
        account: accounts.normal_token_account,
        bump: Some(accounts.bumps.normal_token_account),
    };
    let mut normal_mint_reserve_acc = Empty {
        account: NormalMintReserve::load(&accounts.normal_mint_reserve_acc),
        bump: Some(accounts.bumps.normal_mint_reserve_acc),
    };
    let premium_mint_reserve_acc = PremiumMintReserve::load(&accounts.premium_mint_reserve_acc);

    match create_normal_mint_reserve_handler(
        accounts.payer,
        &normal_token_account,
        &mut normal_mint_reserve_acc,
        &premium_mint_reserve_acc,
        accounts.normal_mint,
        go_live_ts,
        initialization_ts,
        &accounts.clock,
    ) {
        Ok(()) => {},
        Err(e) => {
            return Err(e);
        },
    }

    let _ = NormalMintReserve::store(
        &normal_mint_reserve_acc.account,
        &mut accounts.normal_mint_reserve_acc,
    );
    let _ = PremiumMintReserve::store(
        &premium_mint_reserve_acc,
        &mut accounts.premium_mint_reserve_acc,
    );

    Ok(())
}

} // verus!
