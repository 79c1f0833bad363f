use token_swap::account::{Account, Clock, TokenAccount};
use token_swap::address::Address;
use token_swap::admin::{create_normal_mint_reserve_handler, create_premium_mint_reserve_handler};
use token_swap::error::SwapError;
use token_swap::instruction::{
    create_normal_mint_reserve, create_premium_mint_reserve, CreateNormalMintReserve,
    CreateNormalMintReserveBumps, CreatePremiumMintReserve, CreatePremiumMintReserveBumps,
};
use token_swap::reserve::{
    LoadedNormalMintReserve, LoadedPremiumMintReserve, NormalMintReserve, PremiumMintReserve,
};
use token_swap::util::Empty;

const T0: i64 = 1_700_000_000;

fn addr(b: u8) -> Address {
    Address::new([b; 32])
}

fn blank_premium() -> PremiumMintReserve {
    PremiumMintReserve {
        premium_mint: addr(0),
        premium_account: addr(0),
        go_live_timestamp: 0,
        initialization_timestamp: 0,
        normal_mints: 0,
        authority: addr(0),
        seed_string: String::new(),
        bump: 0,
        token_bump: 0,
    }
}

fn blank_normal() -> NormalMintReserve {
    NormalMintReserve {
        premium_mint_reserve_acc: addr(0),
        normal_mint: addr(0),
        normal_token_account: addr(0),
        go_live_ts: 0,
        initialization_ts: 0,
        bump: 0,
        token_bump: 0,
    }
}

fn premium_context(now: i64) -> CreatePremiumMintReserve {
    CreatePremiumMintReserve {
        payer: addr(1),
        premium_mint_reserve_acc: Account { key: addr(2), data: blank_premium() },
        premium_mint: addr(9),
        premium_account: TokenAccount { key: addr(4), owner: addr(2), amount: 0 },
        clock: Clock { unix_timestamp: now },
        bumps: CreatePremiumMintReserveBumps { premium_mint_reserve_acc: 254, premium_account: 253 },
    }
}

fn live_premium() -> PremiumMintReserve {
    PremiumMintReserve {
        premium_mint: addr(9),
        premium_account: addr(4),
        go_live_timestamp: T0,
        initialization_timestamp: T0,
        normal_mints: 3,
        authority: addr(1),
        seed_string: String::from("alpha"),
        bump: 254,
        token_bump: 253,
    }
}

fn normal_context(now: i64) -> CreateNormalMintReserve {
    CreateNormalMintReserve {
        payer: addr(1),
        normal_token_account: TokenAccount { key: addr(5), owner: addr(3), amount: 0 },
        normal_mint_reserve_acc: Account { key: addr(3), data: blank_normal() },
        premium_mint_reserve_acc: Account { key: addr(2), data: live_premium() },
        normal_mint: addr(10),
        clock: Clock { unix_timestamp: now },
        bumps: CreateNormalMintReserveBumps { normal_token_account: 251, normal_mint_reserve_acc: 252 },
    }
}

#[test]
fn premium_creation_fills_every_field() {
    let mut ctx = premium_context(T0);
    create_premium_mint_reserve(&mut ctx, T0 + 500, 3, String::from("alpha"));
    let expected = PremiumMintReserve {
        premium_mint: addr(9),
        premium_account: addr(4),
        go_live_timestamp: T0 + 500,
        initialization_timestamp: T0,
        normal_mints: 3,
        authority: addr(1),
        seed_string: String::from("alpha"),
        bump: 254,
        token_bump: 253,
    };
    assert_eq!(ctx.premium_mint_reserve_acc.data, expected);
    assert_eq!(ctx.premium_mint_reserve_acc.key, addr(2));
}

#[test]
fn premium_creation_changes_nothing_but_the_record() {
    let mut ctx = premium_context(T0);
    let before = ctx.clone();
    create_premium_mint_reserve(&mut ctx, T0, 1, String::from("x"));
    assert_eq!(ctx.payer, before.payer);
    assert_eq!(ctx.premium_mint, before.premium_mint);
    assert_eq!(ctx.premium_account, before.premium_account);
    assert_eq!(ctx.clock, before.clock);
    assert_eq!(ctx.bumps, before.bumps);
}

#[test]
fn premium_creation_records_the_caller_as_owner() {
    let mut ctx = premium_context(T0);
    ctx.payer = addr(77);
    create_premium_mint_reserve(&mut ctx, T0, 1, String::from("x"));
    assert_eq!(ctx.premium_mint_reserve_acc.data.authority, addr(77));
}

#[test]
fn premium_activation_in_the_past_is_clamped_to_now() {
    let mut ctx = premium_context(T0);
    create_premium_mint_reserve(&mut ctx, T0 - 100, 1, String::from("x"));
    assert_eq!(ctx.premium_mint_reserve_acc.data.go_live_timestamp, T0);
}

#[test]
fn premium_activation_at_now_is_kept() {
    let mut ctx = premium_context(T0);
    create_premium_mint_reserve(&mut ctx, T0, 1, String::from("x"));
    assert_eq!(ctx.premium_mint_reserve_acc.data.go_live_timestamp, T0);
}

#[test]
fn premium_activation_in_the_future_is_kept() {
    let mut ctx = premium_context(T0);
    create_premium_mint_reserve(&mut ctx, T0 + 1, 1, String::from("x"));
    assert_eq!(ctx.premium_mint_reserve_acc.data.go_live_timestamp, T0 + 1);
}

#[test]
fn premium_activation_clamp_at_the_ends_of_the_range() {
    let mut ctx = premium_context(i64::MAX);
    create_premium_mint_reserve(&mut ctx, i64::MIN, 1, String::from("x"));
    assert_eq!(ctx.premium_mint_reserve_acc.data.go_live_timestamp, i64::MAX);
    let mut ctx = premium_context(i64::MIN);
    create_premium_mint_reserve(&mut ctx, i64::MAX, 1, String::from("x"));
    assert_eq!(ctx.premium_mint_reserve_acc.data.go_live_timestamp, i64::MAX);
}

#[test]
fn premium_capacity_is_kept_as_stated() {
    let mut ctx = premium_context(T0);
    create_premium_mint_reserve(&mut ctx, T0, u32::MAX, String::from("x"));
    assert_eq!(ctx.premium_mint_reserve_acc.data.normal_mints, u32::MAX);
}

#[test]
fn premium_handler_sets_the_record_in_hand() {
    let mut slot = Empty {
        account: LoadedPremiumMintReserve {
            key: addr(2),
            premium_mint: addr(0),
            premium_account: addr(0),
            go_live_timestamp: 0,
            initialization_timestamp: 0,
            normal_mints: 0,
            authority: addr(0),
            seed_string: String::new(),
            bump: 0,
            token_bump: 0,
        },
        bump: Some(7),
    };
    let vault = Empty {
        account: TokenAccount { key: addr(4), owner: addr(2), amount: 0 },
        bump: Some(8),
    };
    create_premium_mint_reserve_handler(
        addr(1),
        &mut slot,
        addr(9),
        &vault,
        T0 - 1,
        &Clock { unix_timestamp: T0 },
        5,
        String::from("label"),
    );
    assert_eq!(
        slot.account,
        LoadedPremiumMintReserve {
            key: addr(2),
            premium_mint: addr(9),
            premium_account: addr(4),
            go_live_timestamp: T0,
            initialization_timestamp: T0,
            normal_mints: 5,
            authority: addr(1),
            seed_string: String::from("label"),
            bump: 7,
            token_bump: 8,
        }
    );
    assert_eq!(slot.bump, Some(7));
}

#[test]
fn normal_creation_fills_every_field() {
    let mut ctx = normal_context(T0);
    let r = create_normal_mint_reserve(&mut ctx, T0 + 50, T0 - 3);
    assert_eq!(r, Ok(()));
    let expected = NormalMintReserve {
        premium_mint_reserve_acc: addr(2),
        normal_mint: addr(10),
        normal_token_account: addr(5),
        go_live_ts: T0 + 50,
        initialization_ts: T0 - 3,
        bump: 252,
        token_bump: 251,
    };
    assert_eq!(ctx.normal_mint_reserve_acc.data, expected);
    assert_eq!(ctx.premium_mint_reserve_acc.data, live_premium());
}

#[test]
fn normal_creation_with_the_parents_mint_is_a_collision() {
    let mut ctx = normal_context(T0);
    ctx.normal_mint = addr(9);
    let before = ctx.clone();
    let r = create_normal_mint_reserve(&mut ctx, T0 + 50, T0);
    assert_eq!(r, Err(SwapError::MintCollision));
    assert_eq!(ctx, before);
    assert_eq!(ctx.normal_mint_reserve_acc.data, blank_normal());
}

#[test]
fn normal_creation_by_a_stranger_is_refused() {
    let mut ctx = normal_context(T0);
    ctx.payer = addr(66);
    let before = ctx.clone();
    let r = create_normal_mint_reserve(&mut ctx, T0 + 50, T0);
    assert_eq!(r, Err(SwapError::AuthorityMismatch));
    assert_eq!(ctx, before);
}

#[test]
fn normal_creation_reports_the_collision_before_the_stranger() {
    let mut ctx = normal_context(T0);
    ctx.payer = addr(66);
    ctx.normal_mint = addr(9);
    let r = create_normal_mint_reserve(&mut ctx, T0 + 50, T0);
    assert_eq!(r, Err(SwapError::MintCollision));
}

#[test]
fn normal_activation_in_the_past_is_clamped_to_now() {
    let mut ctx = normal_context(T0);
    let r = create_normal_mint_reserve(&mut ctx, T0 - 1, T0);
    assert_eq!(r, Ok(()));
    assert_eq!(ctx.normal_mint_reserve_acc.data.go_live_ts, T0);
}

#[test]
fn normal_activation_at_or_after_now_is_kept() {
    let mut ctx = normal_context(T0);
    assert_eq!(create_normal_mint_reserve(&mut ctx, T0, T0), Ok(()));
    assert_eq!(ctx.normal_mint_reserve_acc.data.go_live_ts, T0);
    let mut ctx = normal_context(T0);
    assert_eq!(create_normal_mint_reserve(&mut ctx, T0 + 7, T0), Ok(()));
    assert_eq!(ctx.normal_mint_reserve_acc.data.go_live_ts, T0 + 7);
}

#[test]
fn normal_handler_leaves_the_record_alone_when_refused() {
    let blank = LoadedNormalMintReserve {
        key: addr(3),
        premium_mint_reserve_acc: addr(0),
        normal_mint: addr(0),
        normal_token_account: addr(0),
        go_live_ts: 0,
        initialization_ts: 0,
        bump: 0,
        token_bump: 0,
    };
    let mut slot = Empty { account: blank, bump: Some(252) };
    let vault = Empty {
        account: TokenAccount { key: addr(5), owner: addr(3), amount: 0 },
        bump: Some(251),
    };
    let parent = PremiumMintReserve::load(&Account { key: addr(2), data: live_premium() });
    let r = create_normal_mint_reserve_handler(
        addr(1),
        &vault,
        &mut slot,
        &parent,
        addr(9),
        T0,
        T0,
        &Clock { unix_timestamp: T0 },
    );
    assert_eq!(r, Err(SwapError::MintCollision));
    assert_eq!(slot.account, blank);
    let r = create_normal_mint_reserve_handler(
        addr(1),
        &vault,
        &mut slot,
        &parent,
        addr(10),
        T0 - 9,
        T0 - 5,
        &Clock { unix_timestamp: T0 },
    );
    assert_eq!(r, Ok(()));
    assert_eq!(
        slot.account,
        LoadedNormalMintReserve {
            key: addr(3),
            premium_mint_reserve_acc: addr(2),
            normal_mint: addr(10),
            normal_token_account: addr(5),
            go_live_ts: T0,
            initialization_ts: T0 - 5,
            bump: 252,
            token_bump: 251,
        }
    );
}
