use std::collections::HashMap;

use anchor_lang::solana_program::pubkey::Pubkey;
use nft_escrow_spl::address::Address;
use nft_escrow_spl::escrow::{
    decide_purchase, BuyCollectible, CancelEscrow, ErrorCode, Escrow, EscrowBook, EscrowStatus,
    Initialize, ListCollectible,
};
use nft_escrow_spl::fee::{fee_split, FEE_BPS};
use nft_escrow_spl::instructions::{buy_collectible, cancel_escrow, initialize, list_collectible};
use nft_escrow_spl::ledger::LedgerOp;

fn addr(n: u8) -> Address {
    Address::new([n; 32])
}

const PROGRAM: u8 = 200;
const OWNER: u8 = 1;
const MINT: u8 = 2;
const CURRENCY: u8 = 3;
const COMPANY: u8 = 4;
const BUYER: u8 = 5;
const OWNER_NFT: u8 = 6;
const BUYER_NFT: u8 = 7;
const BUYER_PAY: u8 = 8;
const SELLER_PAY: u8 = 9;
const OTHER: u8 = 10;

fn bumps(owner: u8, mint: u8) -> (u8, u8) {
    let program = Pubkey::new_from_array([PROGRAM; 32]);
    let (_, lock) = Pubkey::find_program_address(&[b"owner", &[owner; 32], &[mint; 32]], &program);
    let (_, token) = Pubkey::find_program_address(&[b"token", &[owner; 32], &[mint; 32]], &program);
    (lock, token)
}

fn created() -> (EscrowBook, Escrow) {
    let mut book = EscrowBook::new(addr(PROGRAM));
    let ctx = Initialize {
        owner: addr(OWNER),
        nft_mint: addr(MINT),
        currency_token: addr(CURRENCY),
        company_token_address: addr(COMPANY),
    };
    let e = initialize(&mut book, &ctx).unwrap();
    (book, e)
}

fn listed(price: u64) -> (EscrowBook, Escrow) {
    let (mut book, e) = created();
    let ctx = ListCollectible { owner: addr(OWNER), escrow_account: e.address, nft_token_account: addr(OWNER_NFT) };
    list_collectible(&mut book, &ctx, price, addr(COMPANY)).unwrap();
    (book, e)
}

fn purchase(e: &Escrow, seller: u8) -> BuyCollectible {
    BuyCollectible {
        buyer: addr(BUYER),
        escrow_account: e.address,
        seller: addr(seller),
        buyer_nft_token_account: addr(BUYER_NFT),
        buyer_token_account: addr(BUYER_PAY),
        seller_token_account: addr(SELLER_PAY),
    }
}

fn cancel(e: &Escrow, caller: u8) -> CancelEscrow {
    CancelEscrow { owner: addr(caller), escrow_account: e.address, nft_token_account: addr(OWNER_NFT) }
}

/// Token balances by account, for running returned instructions.
struct Balances(HashMap<[u8; 32], u64>);

impl Balances {
    fn amount(&self, a: &Address) -> Option<u64> {
        self.0.get(&a.bytes).copied()
    }

    fn run(&mut self, ops: &[LedgerOp]) {
        for op in ops {
            match op {
                LedgerOp::Transfer { from, to, amount, .. } => {
                    let src = self.0.get_mut(&from.bytes).unwrap();
                    assert!(*src >= *amount);
                    *src -= *amount;
                    *self.0.get_mut(&to.bytes).unwrap() += *amount;
                }
                LedgerOp::CloseAccount { account, .. } => {
                    assert_eq!(self.0.remove(&account.bytes), Some(0));
                }
            }
        }
    }
}

#[test]
fn fee_split_of_thousand() {
    assert_eq!(FEE_BPS, 400);
    let (fee, rest) = fee_split(1000);
    assert_eq!(fee, 40);
    assert_eq!(rest, 960);
    assert_eq!(fee + rest, 1000);
}

#[test]
fn fee_split_of_three_rounds_down() {
    assert_eq!(fee_split(3), (0, 3));
}

#[test]
fn fee_split_edges() {
    assert_eq!(fee_split(0), (0, 0));
    assert_eq!(fee_split(25), (1, 24));
    assert_eq!(fee_split(99), (3, 96));
    let (fee, rest) = fee_split(u64::MAX);
    assert_eq!(fee as u128, (u64::MAX as u128) * 4 / 100);
    assert_eq!(fee as u128 + rest as u128, u64::MAX as u128);
}

#[test]
fn create_derives_addresses_and_starts_empty() {
    let (book, e) = created();
    let program = Pubkey::new_from_array([PROGRAM; 32]);
    let (record, _) = Pubkey::find_program_address(&[b"owner", &[OWNER; 32], &[MINT; 32]], &program);
    let (holding, _) = Pubkey::find_program_address(&[b"token", &[OWNER; 32], &[MINT; 32]], &program);
    assert_eq!(e.address.bytes, record.to_bytes());
    assert_eq!(e.holding.bytes, holding.to_bytes());
    assert_eq!(e.record.price, 0);
    assert_eq!(e.record.owner_address, addr(OWNER));
    assert_eq!(e.record.payment_token_mint, addr(CURRENCY));
    assert_eq!(e.record.company_account_address, addr(COMPANY));
    assert_eq!(e.status, EscrowStatus::Created);
    assert_eq!(book.len(), 1);
    assert_eq!(book.get(&e.address), Some(e));
}

#[test]
fn second_create_for_pair_is_duplicate() {
    let (mut book, _) = created();
    let again = Initialize {
        owner: addr(OWNER),
        nft_mint: addr(MINT),
        currency_token: addr(OTHER),
        company_token_address: addr(OTHER),
    };
    assert_eq!(initialize(&mut book, &again), Err(ErrorCode::DuplicateListing));
    assert_eq!(book.len(), 1);
    let other_mint = Initialize {
        owner: addr(OWNER),
        nft_mint: addr(OTHER),
        currency_token: addr(CURRENCY),
        company_token_address: addr(COMPANY),
    };
    assert!(initialize(&mut book, &other_mint).is_ok());
    assert_eq!(book.len(), 2);
}

#[test]
fn list_deposits_one_unit() {
    let (mut book, e) = created();
    let ctx = ListCollectible { owner: addr(OWNER), escrow_account: e.address, nft_token_account: addr(OWNER_NFT) };
    let ops = list_collectible(&mut book, &ctx, 1000, addr(OTHER)).unwrap();
    assert_eq!(
        ops,
        vec![LedgerOp::Transfer { from: addr(OWNER_NFT), to: e.holding, authority: addr(OWNER), amount: 1, signer: None }]
    );
    let now = book.get(&e.address).unwrap();
    assert_eq!(now.status, EscrowStatus::Listed);
    assert_eq!(now.record.price, 1000);
    assert_eq!(now.record.company_account_address, addr(OTHER));
    assert_eq!(list_collectible(&mut book, &ctx, 5, addr(COMPANY)), Err(ErrorCode::InsufficientBalance));
    assert_eq!(book.get(&e.address).unwrap().record.price, 1000);
}

#[test]
fn list_by_other_is_not_owner() {
    let (mut book, e) = created();
    let ctx = ListCollectible { owner: addr(OTHER), escrow_account: e.address, nft_token_account: addr(OWNER_NFT) };
    assert_eq!(list_collectible(&mut book, &ctx, 10, addr(COMPANY)), Err(ErrorCode::NotOwner));
    assert_eq!(book.get(&e.address).unwrap().status, EscrowStatus::Created);
}

#[test]
fn unknown_record_is_not_found() {
    let (mut book, e) = listed(1000);
    let mut ctx = purchase(&e, OWNER);
    ctx.escrow_account = addr(OTHER);
    let (lock, token) = bumps(OWNER, MINT);
    assert_eq!(buy_collectible(&mut book, &ctx, lock, token), Err(ErrorCode::RecordNotFound));
    let mut c = cancel(&e, OWNER);
    c.escrow_account = addr(OTHER);
    assert_eq!(cancel_escrow(&mut book, &c, lock, token), Err(ErrorCode::RecordNotFound));
}

#[test]
fn purchase_splits_price_and_releases_unit() {
    let (mut book, e) = listed(1000);
    let (lock, token) = bumps(OWNER, MINT);
    let ops = buy_collectible(&mut book, &purchase(&e, OWNER), lock, token).unwrap();
    let seeds = Some(nft_escrow_spl::ledger::SignerSeeds { owner: addr(OWNER), mint: addr(MINT), bump: lock });
    assert_eq!(
        ops,
        vec![
            LedgerOp::Transfer { from: addr(BUYER_PAY), to: addr(COMPANY), authority: addr(BUYER), amount: 40, signer: None },
            LedgerOp::Transfer { from: addr(BUYER_PAY), to: addr(SELLER_PAY), authority: addr(BUYER), amount: 960, signer: None },
            LedgerOp::Transfer { from: e.holding, to: addr(BUYER_NFT), authority: e.address, amount: 1, signer: seeds },
            LedgerOp::CloseAccount { account: e.holding, destination: addr(BUYER), authority: e.address, signer: seeds },
        ]
    );
    assert_eq!(book.get(&e.address).unwrap().status, EscrowStatus::Sold);
}

#[test]
fn purchase_balances_move() {
    let (mut book, e) = listed(1000);
    let (lock, token) = bumps(OWNER, MINT);
    let mut ledger = Balances(HashMap::new());
    for (a, n) in [(BUYER_PAY, 5000u64), (SELLER_PAY, 7), (COMPANY, 3), (BUYER_NFT, 0)] {
        ledger.0.insert([a; 32], n);
    }
    ledger.0.insert(e.holding.bytes, 1);
    let ops = buy_collectible(&mut book, &purchase(&e, OWNER), lock, token).unwrap();
    ledger.run(&ops);
    assert_eq!(ledger.amount(&e.holding), None);
    assert_eq!(ledger.amount(&addr(BUYER_NFT)), Some(1));
    assert_eq!(ledger.amount(&addr(SELLER_PAY)), Some(967));
    assert_eq!(ledger.amount(&addr(COMPANY)), Some(43));
    assert_eq!(ledger.amount(&addr(BUYER_PAY)), Some(4000));
}

#[test]
fn purchase_of_three_pays_no_fee() {
    let (mut book, e) = listed(3);
    let (lock, token) = bumps(OWNER, MINT);
    let ops = buy_collectible(&mut book, &purchase(&e, OWNER), lock, token).unwrap();
    assert!(matches!(ops[0], LedgerOp::Transfer { amount: 0, .. }));
    assert!(matches!(ops[1], LedgerOp::Transfer { amount: 3, .. }));
}

#[test]
fn purchase_with_wrong_seller_is_rejected() {
    let (mut book, e) = listed(1000);
    let (lock, token) = bumps(OWNER, MINT);
    let before = book.get(&e.address);
    assert_eq!(buy_collectible(&mut book, &purchase(&e, OTHER), lock, token), Err(ErrorCode::InvalidSeller));
    assert_eq!(book.get(&e.address), before);
    assert!(buy_collectible(&mut book, &purchase(&e, OWNER), lock, token).is_ok());
}

#[test]
fn purchase_with_wrong_bump_is_authority_mismatch() {
    let (mut book, e) = listed(1000);
    let (lock, token) = bumps(OWNER, MINT);
    let bad_lock = lock.wrapping_sub(1);
    assert_eq!(buy_collectible(&mut book, &purchase(&e, OWNER), bad_lock, token), Err(ErrorCode::AuthorityMismatch));
    let bad_token = token.wrapping_sub(1);
    assert_eq!(buy_collectible(&mut book, &purchase(&e, OWNER), lock, bad_token), Err(ErrorCode::AuthorityMismatch));
    assert_eq!(book.get(&e.address).unwrap().status, EscrowStatus::Listed);
}

#[test]
fn purchase_before_listing_has_nothing_to_release() {
    let (mut book, e) = created();
    let (lock, token) = bumps(OWNER, MINT);
    assert_eq!(buy_collectible(&mut book, &purchase(&e, OWNER), lock, token), Err(ErrorCode::InsufficientBalance));
    assert_eq!(cancel_escrow(&mut book, &cancel(&e, OWNER), lock, token), Err(ErrorCode::InsufficientBalance));
}

#[test]
fn second_purchase_fails_without_change() {
    let (mut book, e) = listed(1000);
    let (lock, token) = bumps(OWNER, MINT);
    assert!(buy_collectible(&mut book, &purchase(&e, OWNER), lock, token).is_ok());
    let after_first = book.get(&e.address);
    assert_eq!(buy_collectible(&mut book, &purchase(&e, OWNER), lock, token), Err(ErrorCode::AlreadyClosed));
    assert_eq!(book.get(&e.address), after_first);
}

#[test]
fn cancel_returns_unit_to_owner() {
    let (mut book, e) = listed(1000);
    let (lock, token) = bumps(OWNER, MINT);
    let mut ledger = Balances(HashMap::new());
    for (a, n) in [(BUYER_PAY, 5000u64), (SELLER_PAY, 7), (COMPANY, 3), (OWNER_NFT, 0)] {
        ledger.0.insert([a; 32], n);
    }
    ledger.0.insert(e.holding.bytes, 1);
    let ops = cancel_escrow(&mut book, &cancel(&e, OWNER), lock, token).unwrap();
    assert_eq!(ops.len(), 2);
    ledger.run(&ops);
    assert_eq!(ledger.amount(&e.holding), None);
    assert_eq!(ledger.amount(&addr(OWNER_NFT)), Some(1));
    assert_eq!(ledger.amount(&addr(BUYER_PAY)), Some(5000));
    assert_eq!(ledger.amount(&addr(SELLER_PAY)), Some(7));
    assert_eq!(ledger.amount(&addr(COMPANY)), Some(3));
    assert_eq!(book.get(&e.address).unwrap().status, EscrowStatus::Cancelled);
}

#[test]
fn cancel_by_other_is_not_owner() {
    let (mut book, e) = listed(1000);
    let (lock, token) = bumps(OWNER, MINT);
    assert_eq!(cancel_escrow(&mut book, &cancel(&e, OTHER), lock, token), Err(ErrorCode::NotOwner));
    assert_eq!(book.get(&e.address).unwrap().status, EscrowStatus::Listed);
}

#[test]
fn purchase_and_cancel_exclude_each_other() {
    let (lock, token) = bumps(OWNER, MINT);
    let (mut book, e) = listed(1000);
    assert!(buy_collectible(&mut book, &purchase(&e, OWNER), lock, token).is_ok());
    assert_eq!(cancel_escrow(&mut book, &cancel(&e, OWNER), lock, token), Err(ErrorCode::AlreadyClosed));

    let (mut book, e) = listed(1000);
    assert!(cancel_escrow(&mut book, &cancel(&e, OWNER), lock, token).is_ok());
    assert_eq!(buy_collectible(&mut book, &purchase(&e, OWNER), lock, token), Err(ErrorCode::AlreadyClosed));
    let ctx = ListCollectible { owner: addr(OWNER), escrow_account: e.address, nft_token_account: addr(OWNER_NFT) };
    assert_eq!(list_collectible(&mut book, &ctx, 10, addr(COMPANY)), Err(ErrorCode::AlreadyClosed));
}

#[test]
fn decision_follows_derivation_results() {
    let (book, e) = listed(1000);
    let e = book.get(&e.address).unwrap();
    let ctx = purchase(&e, OWNER);
    assert_eq!(decide_purchase(&e, &ctx, 9, false, true), Err(ErrorCode::AuthorityMismatch));
    assert_eq!(decide_purchase(&e, &ctx, 9, true, false), Err(ErrorCode::AuthorityMismatch));
    let ops = decide_purchase(&e, &ctx, 9, true, true).unwrap();
    assert_eq!(ops.len(), 4);
    assert_eq!(decide_purchase(&e, &purchase(&e, OTHER), 9, true, true), Err(ErrorCode::InvalidSeller));
}
