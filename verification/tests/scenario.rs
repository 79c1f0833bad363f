use token_swap::account::{Account, Clock, TokenAccount};
use token_swap::address::Address;
use token_swap::error::SwapError;
use token_swap::instruction::{
    create_normal_mint_reserve, create_premium_mint_reserve, swap_normal_tokens_for_premium_tokens,
    swap_premium_tokens_for_normal_tokens, withdraw_normal_tokens, withdraw_premium_tokens,
    CreateNormalMintReserve, CreateNormalMintReserveBumps, CreatePremiumMintReserve,
    CreatePremiumMintReserveBumps, SwapNormalTokensForPremiumTokens,
    SwapPremiumTokensForNormalTokens, WithdrawNormalTokens, WithdrawPremiumTokens,
};
use token_swap::ledger::Ledger;
use token_swap::reserve::{NormalMintReserve, PremiumMintReserve};

const T0: i64 = 1_700_000_000;

const OWNER: u8 = 1;
const PREMIUM: u8 = 2;
const NORMAL: u8 = 3;
const PREMIUM_VAULT: u8 = 4;
const NORMAL_VAULT: u8 = 5;
const SOURCE: u8 = 6;
const DESTINATION: u8 = 7;
const TRADER: u8 = 8;
const M1: u8 = 9;
const M2: u8 = 10;
const OWNER_PURSE: u8 = 11;

fn addr(b: u8) -> Address {
    Address::new([b; 32])
}

fn created_pair() -> (Account<PremiumMintReserve>, Account<NormalMintReserve>) {
    let mut premium = CreatePremiumMintReserve {
        payer: addr(OWNER),
        premium_mint_reserve_acc: Account {
            key: addr(PREMIUM),
            data: PremiumMintReserve {
                premium_mint: addr(0),
                premium_account: addr(0),
                go_live_timestamp: 0,
                initialization_timestamp: 0,
                normal_mints: 0,
                authority: addr(0),
                seed_string: String::new(),
                bump: 0,
                token_bump: 0,
            },
        },
        premium_mint: addr(M1),
        premium_account: TokenAccount { key: addr(PREMIUM_VAULT), owner: addr(PREMIUM), amount: 0 },
        clock: Clock { unix_timestamp: T0 },
        bumps: CreatePremiumMintReserveBumps { premium_mint_reserve_acc: 255, premium_account: 254 },
    };
    create_premium_mint_reserve(&mut premium, T0 - 100, 1, String::from("pair"));
    assert_eq!(premium.premium_mint_reserve_acc.data.go_live_timestamp, T0);

    let mut normal = CreateNormalMintReserve {
        payer: addr(OWNER),
        normal_token_account: TokenAccount { key: addr(NORMAL_VAULT), owner: addr(NORMAL), amount: 0 },
        normal_mint_reserve_acc: Account {
            key: addr(NORMAL),
            data: NormalMintReserve {
                premium_mint_reserve_acc: addr(0),
                normal_mint: addr(0),
                normal_token_account: addr(0),
                go_live_ts: 0,
                initialization_ts: 0,
                bump: 0,
                token_bump: 0,
            },
        },
        premium_mint_reserve_acc: premium.premium_mint_reserve_acc.clone(),
        normal_mint: addr(M2),
        clock: Clock { unix_timestamp: T0 },
        bumps: CreateNormalMintReserveBumps { normal_token_account: 253, normal_mint_reserve_acc: 252 },
    };
    assert_eq!(create_normal_mint_reserve(&mut normal, T0 + 50, T0), Ok(()));
    assert_eq!(normal.normal_mint_reserve_acc.data.go_live_ts, T0 + 50);
    (premium.premium_mint_reserve_acc, normal.normal_mint_reserve_acc)
}

fn funded_book() -> Ledger {
    let mut book = Ledger::new();
    assert!(book.open_account(TokenAccount {
        key: addr(PREMIUM_VAULT),
        owner: addr(PREMIUM),
        amount: 1_000,
    }));
    assert!(book.open_account(TokenAccount {
        key: addr(NORMAL_VAULT),
        owner: addr(NORMAL),
        amount: 2_000,
    }));
    assert!(book.open_account(TokenAccount { key: addr(SOURCE), owner: addr(TRADER), amount: 300 }));
    assert!(book.open_account(TokenAccount {
        key: addr(DESTINATION),
        owner: addr(TRADER),
        amount: 5,
    }));
    assert!(book.open_account(TokenAccount {
        key: addr(OWNER_PURSE),
        owner: addr(OWNER),
        amount: 0,
    }));
    book
}

fn balance(book: &Ledger, key: u8) -> u64 {
    book.account(addr(key)).unwrap().amount
}

fn premium_for_normal_at(
    book: &Ledger,
    pair: &(Account<PremiumMintReserve>, Account<NormalMintReserve>),
    now: i64,
) -> SwapPremiumTokensForNormalTokens {
    SwapPremiumTokensForNormalTokens {
        source_authority: addr(TRADER),
        premium_mint_reserve_acc: pair.0.clone(),
        normal_mint_reserve_acc: pair.1.clone(),
        normal_token_account: book.account(addr(NORMAL_VAULT)).unwrap(),
        premium_account: book.account(addr(PREMIUM_VAULT)).unwrap(),
        source: book.account(addr(SOURCE)).unwrap(),
        destination: book.account(addr(DESTINATION)).unwrap(),
        clock: Clock { unix_timestamp: now },
    }
}

#[test]
fn pair_goes_from_creation_to_a_settled_swap() {
    let pair = created_pair();
    let mut book = funded_book();

    let mut early = premium_for_normal_at(&book, &pair, T0 + 10);
    assert_eq!(swap_premium_tokens_for_normal_tokens(&mut early, 120), Err(SwapError::NotLive));
    assert_eq!(balance(&book, SOURCE), 300);

    let mut late = premium_for_normal_at(&book, &pair, T0 + 60);
    let legs = swap_premium_tokens_for_normal_tokens(&mut late, 120).unwrap();
    assert_eq!(book.settle(&legs), Ok(()));
    assert_eq!(balance(&book, PREMIUM_VAULT), 1_120);
    assert_eq!(balance(&book, SOURCE), 180);
    assert_eq!(balance(&book, NORMAL_VAULT), 1_880);
    assert_eq!(balance(&book, DESTINATION), 125);
    assert_eq!(balance(&book, OWNER_PURSE), 0);
}

#[test]
fn swap_the_other_way_conserves_the_amount_too() {
    let pair = created_pair();
    let mut book = funded_book();
    let mut ctx = SwapNormalTokensForPremiumTokens {
        source_authority: addr(TRADER),
        premium_mint_reserve_acc: pair.0.clone(),
        normal_mint_reserve_acc: pair.1.clone(),
        normal_token_account: book.account(addr(NORMAL_VAULT)).unwrap(),
        premium_account: book.account(addr(PREMIUM_VAULT)).unwrap(),
        source: book.account(addr(SOURCE)).unwrap(),
        destination: book.account(addr(DESTINATION)).unwrap(),
        clock: Clock { unix_timestamp: T0 + 51 },
    };
    let legs = swap_normal_tokens_for_premium_tokens(&mut ctx, 300).unwrap();
    assert_eq!(book.settle(&legs), Ok(()));
    assert_eq!(balance(&book, NORMAL_VAULT), 2_300);
    assert_eq!(balance(&book, SOURCE), 0);
    assert_eq!(balance(&book, PREMIUM_VAULT), 700);
    assert_eq!(balance(&book, DESTINATION), 305);
}

#[test]
fn swap_the_trader_cannot_pay_for_is_turned_down_whole() {
    let pair = created_pair();
    let mut book = funded_book();
    let mut ctx = premium_for_normal_at(&book, &pair, T0 + 60);
    // the normal vault holds 2000, the trader only 300
    let legs = swap_premium_tokens_for_normal_tokens(&mut ctx, 301).unwrap();
    assert_eq!(book.settle(&legs), Err(SwapError::TransferFailure));
    assert_eq!(balance(&book, PREMIUM_VAULT), 1_000);
    assert_eq!(balance(&book, SOURCE), 300);
    assert_eq!(balance(&book, NORMAL_VAULT), 2_000);
    assert_eq!(balance(&book, DESTINATION), 5);
}

#[test]
fn owner_empties_both_vaults() {
    let pair = created_pair();
    let mut book = funded_book();
    let mut ctx = WithdrawPremiumTokens {
        authority: addr(OWNER),
        premium_mint_reserve_acc: pair.0.clone(),
        premium_account: book.account(addr(PREMIUM_VAULT)).unwrap(),
        destination: book.account(addr(OWNER_PURSE)).unwrap(),
    };
    let t = withdraw_premium_tokens(&mut ctx, 1_000).unwrap();
    assert_eq!(book.transfer(&t), Ok(()));
    assert_eq!(balance(&book, PREMIUM_VAULT), 0);
    assert_eq!(balance(&book, OWNER_PURSE), 1_000);

    let mut ctx = WithdrawNormalTokens {
        authority: addr(OWNER),
        premium_mint_reserve_acc: pair.0.clone(),
        normal_mint_reserve_acc: pair.1.clone(),
        normal_token_account: book.account(addr(NORMAL_VAULT)).unwrap(),
        destination: book.account(addr(OWNER_PURSE)).unwrap(),
    };
    let t = withdraw_normal_tokens(&mut ctx, 1_500).unwrap();
    assert_eq!(book.transfer(&t), Ok(()));
    assert_eq!(balance(&book, NORMAL_VAULT), 500);
    assert_eq!(balance(&book, OWNER_PURSE), 2_500);
}

#[test]
fn withdrawal_beyond_the_vault_is_turned_down_by_the_book() {
    let pair = created_pair();
    let mut book = funded_book();
    let mut ctx = WithdrawPremiumTokens {
        authority: addr(OWNER),
        premium_mint_reserve_acc: pair.0.clone(),
        premium_account: book.account(addr(PREMIUM_VAULT)).unwrap(),
        destination: book.account(addr(OWNER_PURSE)).unwrap(),
    };
    let t = withdraw_premium_tokens(&mut ctx, 1_001).unwrap();
    assert_eq!(book.transfer(&t), Err(SwapError::TransferFailure));
    assert_eq!(balance(&book, PREMIUM_VAULT), 1_000);
    assert_eq!(balance(&book, OWNER_PURSE), 0);
}

#[test]
fn trader_cannot_withdraw_from_the_pair() {
    let pair = created_pair();
    let book = funded_book();
    let mut ctx = WithdrawPremiumTokens {
        authority: addr(TRADER),
        premium_mint_reserve_acc: pair.0.clone(),
        premium_account: book.account(addr(PREMIUM_VAULT)).unwrap(),
        destination: book.account(addr(DESTINATION)).unwrap(),
    };
    assert_eq!(withdraw_premium_tokens(&mut ctx, 1), Err(SwapError::AuthorityMismatch));
}
