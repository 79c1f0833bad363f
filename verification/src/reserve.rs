//! The two kinds of reserve record, as they are kept and as an operation
//! holds them while it runs.

use vstd::prelude::*;
use crate::account::Account;
use crate::address::Address;
use crate::error::SwapError;

verus! {

/// One child of a premium reserve, as it is kept: one side of a swap pair.
#[derive(Clone, Copy, Debug, PartialEq, Eq)]
pub struct NormalMintReserve {
    /// The premium reserve this one belongs to. Set at creation, never
    /// changed.
    pub premium_mint_reserve_acc: Address,
    /// The token type this side trades.
    pub normal_mint: Address,
    /// The vault this reserve is custodian of.
    pub normal_token_account: Address,
    /// Swaps are open once the time has passed this.
    pub go_live_ts: i64,
    /// When the reserve was set up.
    pub initialization_ts: i64,
    pub bump: u8,
    pub token_bump: u8,
}

/// A normal reserve in the hands of an operation: the kept fields and the
/// address they were read from.
#[derive(Clone, Copy, Debug, PartialEq, Eq)]
pub struct LoadedNormalMintReserve {
    /// Where the record is kept; the identity of the reserve.
    pub key: Address,
    pub premium_mint_reserve_acc: Address,
    pub normal_mint: Address,
    pub normal_token_account: Address,
    pub go_live_ts: i64,
    pub initialization_ts: i64,
    pub bump: u8,
    pub token_bump: u8,
}

/// The anchor of an exchange pair, as it is kept.
#[derive(Clone, Debug, PartialEq, Eq)]
pub struct PremiumMintReserve {
    /// The token type this reserve takes in.
    pub premium_mint: Address,
    /// The vault this reserve is custodian of.
    pub premium_account: Address,
    /// Swaps are open once the time has passed this.
    pub go_live_timestamp: i64,
    /// When the reserve was set up.
    pub initialization_timestamp: i64,
    /// How many normal reserves the owner said it would carry. Kept as
    /// stated; nothing counts against it.
    pub normal_mints: u32,
    /// The one identity that may withdraw from the pair's vaults and add
    /// normal reserves.
    pub authority: Address,
    /// The caller's label, from which the record's address was made.
    pub seed_string: String,
    pub bump: u8,
    pub token_bump: u8,
}

/// A premium reserve in the hands of an operation: the kept fields and the
/// address they were read from.
#[derive(Clone, Debug, PartialEq, Eq)]
pub struct LoadedPremiumMintReserve {
    /// Where the record is kept; the identity of the reserve.
    pub key: Address,
    pub premium_mint: Address,
    pub premium_account: Address,
    pub go_live_timestamp: i64,
    pub initialization_timestamp: i64,
    pub normal_mints: u32,
    pub authority: Address,
    pub seed_string: String,
    pub bump: u8,
    pub token_bump: u8,
}

impl LoadedNormalMintReserve {
    /// The fields that are kept, without the address.
    pub open spec fn record(self) -> NormalMintReserve {
        NormalMintReserve {
            premium_mint_reserve_acc: self.premium_mint_reserve_acc,
            normal_mint: self.normal_mint,
            normal_token_account: self.normal_token_account,
            go_live_ts: self.go_live_ts,
            initialization_ts: self.initialization_ts,
            bump: self.bump,
            token_bump: self.token_bump,
        }
    }
}

impl LoadedPremiumMintReserve {
    /// The fields that are kept, without the address.
    pub open spec fn record(self) -> PremiumMintReserve {
        PremiumMintReserve {
            premium_mint: self.premium_mint,
            premium_account: self.premium_account,
            go_live_timestamp: self.go_live_timestamp,
            initialization_timestamp: self.initialization_timestamp,
            normal_mints: self.normal_mints,
            authority: self.authority,
            seed_string: self.seed_string,
            bump: self.bump,
            token_bump: self.token_bump,
        }
    }
}

impl NormalMintReserve {
    /// This record as an operation holds it when it was read from `key`.
    pub open spec fn at(self, key: Address) -> LoadedNormalMintReserve {
        LoadedNormalMintReserve {
            key,
            premium_mint_reserve_acc: self.premium_mint_reserve_acc,
            normal_mint: self.normal_mint,
            normal_token_account: self.normal_token_account,
            go_live_ts: self.go_live_ts,
            initialization_ts: self.initialization_ts,
            bump: self.bump,
            token_bump: self.token_bump,
        }
    }

    /// Takes a kept record in hand: every field as it is kept, under the
    /// address it is kept at.
    pub fn load(account: &Account<NormalMintReserve>) -> (loaded: LoadedNormalMintReserve)
        ensures
            loaded == account.data.at(account.key),
    {
        let premium_mint_reserve_acc = account.data.premium_mint_reserve_acc;
        let normal_mint = account.data.normal_mint;
        let normal_token_account = account.data.normal_token_account;
        let go_live_ts = account.data.go_live_ts;
        let initialization_ts = account.data.initialization_ts;
        let bump = account.data.bump;
        let token_bump = account.data.token_bump;

        LoadedNormalMintReserve {
            key: account.key,
            premium_mint_reserve_acc,
            normal_mint,
            normal_token_account,
            go_live_ts,
            initialization_ts,
            bump,
            token_bump,
        }
    }

    /// Writes the fields in hand back to where they are kept. A record goes
    /// back only to the address it came from: handed any other account, the
    /// call is refused and that account is left as it was.
    pub fn store(
        loaded: &LoadedNormalMintReserve,
        account: &mut Account<NormalMintReserve>,
    ) -> (r: Result<(), SwapError>)
        ensures
            final(account).key == old(account).key,
            loaded.key == old(account).key ==> r is Ok && final(account).data == loaded.record(),
            loaded.key != old(account).key ==> r == Err::<(), SwapError>(SwapError::AccountMismatch)
                && *final(account) == *old(account),
    {
        if loaded.key != account.key {
            return Err(SwapError::AccountMismatch);
        }
        account.data.premium_mint_reserve_acc = loaded.premium_mint_reserve_acc;
        account.data.normal_mint = loaded.normal_mint;
        account.data.normal_token_account = loaded.normal_token_account;
        account.data.go_live_ts = loaded.go_live_ts;
        account.data.initialization_ts = loaded.initialization_ts;
        account.data.bump = loaded.bump;
        account.data.token_bump = loaded.token_bump;
        Ok(())
    }
}

impl PremiumMintReserve {
    /// This record as an operation holds it when it was read from `key`.
    pub open spec fn at(self, key: Address) -> LoadedPremiumMintReserve {
        LoadedPremiumMintReserve {
            key,
            premium_mint: self.premium_mint,
            premium_account: self.premium_account,
            go_live_timestamp: self.go_live_timestamp,
            initialization_timestamp: self.initialization_timestamp,
            normal_mints: self.normal_mints,
            authority: self.authority,
            seed_string: self.seed_string,
            bump: self.bump,
            token_bump: self.token_bump,
        }
    }

    /// Takes a kept record in hand: every field as it is kept, under the
    /// address it is kept at.
    pub fn load(account: &Account<PremiumMintReserve>) -> (loaded: LoadedPremiumMintReserve)
        ensures
            loaded == account.data.at(account.key),
    {
        let premium_mint = account.data.premium_mint;
        let premium_account = account.data.premium_account;
        let go_live_timestamp = account.data.go_live_timestamp;
        let initialization_timestamp = account.data.initialization_timestamp;
        let normal_mints = account.data.normal_mints;
        let authority = account.data.authority;
        let seed_string = account.data.seed_string.clone();
        let bump = account.data.bump;
        let token_bump = account.data.token_bump;

        LoadedPremiumMintReserve {
            key: account.key,
            premium_mint,
            premium_account,
            go_live_timestamp,
            initialization_timestamp,
            normal_mints,
            authority,
            seed_string,
            bump,
            token_bump,
        }
    }

    /// Writes the fields in hand back to where they are kept. A record goes
    /// back only to the address it came from: handed any other account, the
    /// call is refused and that account is left as it was.
    pub fn store(
        loaded: &LoadedPremiumMintReserve,
        account: &mut Account<PremiumMintReserve>,
    ) -> (r: Result<(), SwapError>)
        ensures
            final(account).key == old(account).key,
            loaded.key == old(account).key ==> r is Ok && final(account).data == loaded.record(),
            loaded.key != old(account).key ==> r == Err::<(), SwapError>(SwapError::AccountMismatch)
                && *final(account) == *old(account),
    {
        if loaded.key != account.key {
            return Err(SwapError::AccountMismatch);
        }
        account.data.premium_mint = loaded.premium_mint;
        account.data.premium_account = loaded.premium_account;
        account.data.go_live_timestamp = loaded.go_live_timestamp;
        account.data.initialization_timestamp = loaded.initialization_timestamp;
        account.data.normal_mints = loaded.normal_mints;
        account.data.authority = loaded.authority;
        account.data.seed_string = loaded.seed_string.clone();
        account.data.bump = loaded.bump;
        account.data.token_bump = loaded.token_bump;
        Ok(())
    }
}

/// Reading a record and writing it back changes nothing, and what was
/// written is what is read again.
pub proof fn lemma_load_store_round_trip(
    premium: PremiumMintReserve,
    normal: NormalMintReserve,
    loaded_premium: LoadedPremiumMintReserve,
    loaded_normal: LoadedNormalMintReserve,
    key: Address,
)
    ensures
        premium.at(key).record() == premium,
        normal.at(key).record() == normal,
        loaded_premium.record().at(loaded_premium.key) == loaded_premium,
        loaded_normal.record().at(loaded_normal.key) == loaded_normal,
{
}

} // verus!
