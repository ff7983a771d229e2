use crate::derivation::{holding_tag, is_canonical_bump, lemma_canonical_derives, record_tag};
use crate::escrow::{
    at_canonical_addresses, book_wf, buy_outcome, cancel_ops, cancel_outcome, has_pair, index_of, lemma_index_of,
    lemma_update_keeps_wf, purchase_ops, with_status, BuyCollectible, CancelEscrow, ErrorCode,
    Escrow, EscrowStatus, Initialize,
};
use crate::fee::fee_of;
use crate::instructions::{initialize_failure, new_record};
use crate::ledger::{apply_op, apply_ops, LedgerOp, LedgerState};
use vstd::prelude::*;

verus! {

/// The amount that a transfer instruction moves (0 for any other).
pub open spec fn moved(op: LedgerOp) -> nat {
    match op {
        LedgerOp::Transfer { amount, .. } => amount as nat,
        _ => 0,
    }
}

/// A create for a pair that already has a record fails with
/// `DuplicateListing`.
pub proof fn law_duplicate_pair_rejected(program: Seq<u8>, s: Seq<Escrow>, ctx: Initialize)
    requires
        has_pair(s, ctx.owner@, ctx.nft_mint@),
    ensures
        initialize_failure(program, s, ctx) == Some(ErrorCode::DuplicateListing),
{
}

/// After a successful create, a second create for the same pair fails with
/// `DuplicateListing`, whatever its other accounts.
pub proof fn law_second_create_rejected(program: Seq<u8>, s: Seq<Escrow>, first: Initialize, e: Escrow, second: Initialize)
    requires
        e.record == new_record(first),
        second.owner@ == first.owner@,
        second.nft_mint@ == first.nft_mint@,
    ensures
        initialize_failure(program, s.push(e), second) == Some(ErrorCode::DuplicateListing),
{
    let t = s.push(e);
    assert(t[s.len() as int] == e);
}

/// The fee and the seller's share add up to the price, and the fee is
/// `floor(price * 4 / 100)`.
pub proof fn law_fee_split(price: u64)
    ensures
        fee_of(price as nat) + (price - fee_of(price as nat)) == price,
        fee_of(price as nat) == (price as nat * 4) / 100,
        fee_of(price as nat) <= price,
{
    assert((price as nat * 400) / 10000 == (price as nat * 4) / 100) by (nonlinear_arith);
    assert((price as nat * 400) / 10000 <= price) by (nonlinear_arith);
}

/// The two payments of a purchase are the fee, `floor(price * 4 / 100)`, and
/// the rest of the price.
pub proof fn law_purchase_payments(e: Escrow, ctx: BuyCollectible, lock_bump: u8)
    ensures
        moved(purchase_ops(e, ctx, lock_bump)[0]) + moved(purchase_ops(e, ctx, lock_bump)[1]) == e.record.price,
        moved(purchase_ops(e, ctx, lock_bump)[0]) == (e.record.price as nat * 4) / 100,
{
    law_fee_split(e.record.price);
}

/// A purchase whose supplied seller is not the record's owner fails with
/// `InvalidSeller` (and so leaves the book unchanged and moves nothing).
pub proof fn law_wrong_seller_rejected(program: Seq<u8>, s: Seq<Escrow>, ctx: BuyCollectible, lock_bump: u8, token_bump: u8)
    requires
        book_wf(s),
        index_of(s, ctx.escrow_account@) matches Some(i) && ctx.seller@ != s[i].record.owner_address@,
    ensures
        buy_outcome(program, s, ctx, lock_bump, token_bump) == Err::<(Seq<Escrow>, Seq<LedgerOp>), ErrorCode>(
            ErrorCode::InvalidSeller,
        ),
{
}

/// Running the instructions of a successful purchase on a ledger where the
/// accounts involved are distinct: the holding account gave up its one unit
/// and is gone, the buyer gained the unit, the seller the price less the fee,
/// the beneficiary the fee, and the buyer paid the price.
pub proof fn law_purchase_effects(
    program: Seq<u8>,
    s: Seq<Escrow>,
    ctx: BuyCollectible,
    lock_bump: u8,
    token_bump: u8,
    l: LedgerState,
    i: int,
    next: Seq<Escrow>,
    ops: Seq<LedgerOp>,
    after: LedgerState,
)
    requires
        book_wf(s),
        index_of(s, ctx.escrow_account@) == Some(i),
        buy_outcome(program, s, ctx, lock_bump, token_bump) == Ok::<(Seq<Escrow>, Seq<LedgerOp>), ErrorCode>((next, ops)),
        apply_ops(l, ops) == Some(after),
        ({
            let e = s[i];
            let accounts = seq![
                ctx.buyer_token_account@,
                ctx.seller_token_account@,
                e.record.company_account_address@,
                ctx.buyer_nft_token_account@,
                e.holding@,
            ];
            forall|a: int, b: int| 0 <= a < 5 && 0 <= b < 5 && a != b ==> accounts[a] != accounts[b]
        }),
    ensures
        ({
            let e = s[i];
            let fee = fee_of(e.record.price as nat);
            &&& l[e.holding@].amount == 1
            &&& !after.contains_key(e.holding@)
            &&& after[ctx.buyer_nft_token_account@].amount == l[ctx.buyer_nft_token_account@].amount + 1
            &&& after[ctx.seller_token_account@].amount == l[ctx.seller_token_account@].amount + (e.record.price - fee)
            &&& after[e.record.company_account_address@].amount == l[e.record.company_account_address@].amount + fee
            &&& after[ctx.buyer_token_account@].amount + e.record.price == l[ctx.buyer_token_account@].amount
        }),
{
    let e = s[i];
    assert(ops == purchase_ops(e, ctx, lock_bump));
    let accounts = seq![
        ctx.buyer_token_account@,
        ctx.seller_token_account@,
        e.record.company_account_address@,
        ctx.buyer_nft_token_account@,
        e.holding@,
    ];
    assert(accounts[0] != accounts[1] && accounts[0] != accounts[2] && accounts[1] != accounts[2]);
    assert(accounts[3] != accounts[4] && accounts[0] != accounts[4] && accounts[1] != accounts[4]);
    assert(accounts[2] != accounts[4] && accounts[0] != accounts[3] && accounts[1] != accounts[3]);
    assert(accounts[2] != accounts[3]);
    let l1 = apply_op(l, ops[0]).unwrap();
    let l2 = apply_op(l1, ops[1]).unwrap();
    let l3 = apply_op(l2, ops[2]).unwrap();
    let l4 = apply_op(l3, ops[3]).unwrap();
    assert(apply_op(l, ops[0]) is Some);
    assert(apply_ops(l1, ops.drop_first()) == Some(after));
    assert(apply_op(l1, ops.drop_first()[0]) is Some);
    assert(apply_ops(l2, ops.drop_first().drop_first()) == Some(after));
    assert(apply_op(l2, ops[2]) is Some);
    assert(apply_ops(l3, ops.drop_first().drop_first().drop_first()) == Some(after));
    assert(apply_op(l3, ops[3]) is Some);
    assert(apply_ops(l4, ops.drop_first().drop_first().drop_first().drop_first()) == Some(after));
    assert(after == l4);
}

/// Running the instructions of a successful cancellation on a ledger where
/// the owner's receiving account is not the holding account: the holding
/// account gave up its one unit and is gone, the owner gained it, and every
/// other account, payment accounts included, is untouched.
pub proof fn law_cancel_effects(
    program: Seq<u8>,
    s: Seq<Escrow>,
    ctx: CancelEscrow,
    lock_bump: u8,
    token_bump: u8,
    l: LedgerState,
    i: int,
    next: Seq<Escrow>,
    ops: Seq<LedgerOp>,
    after: LedgerState,
)
    requires
        book_wf(s),
        index_of(s, ctx.escrow_account@) == Some(i),
        cancel_outcome(program, s, ctx, lock_bump, token_bump) == Ok::<(Seq<Escrow>, Seq<LedgerOp>), ErrorCode>((next, ops)),
        apply_ops(l, ops) == Some(after),
        ctx.nft_token_account@ != s[i].holding@,
    ensures
        ({
            let e = s[i];
            &&& l[e.holding@].amount == 1
            &&& !after.contains_key(e.holding@)
            &&& after[ctx.nft_token_account@].amount == l[ctx.nft_token_account@].amount + 1
            &&& forall|k: Seq<u8>|
                k != e.holding@ && k != ctx.nft_token_account@ ==> (after.contains_key(k) == l.contains_key(k)
                    && (l.contains_key(k) ==> after[k] == l[k]))
        }),
{
    let e = s[i];
    assert(ops == cancel_ops(e, ctx, lock_bump));
    let l1 = apply_op(l, ops[0]).unwrap();
    let l2 = apply_op(l1, ops[1]).unwrap();
    assert(apply_op(l, ops[0]) is Some);
    assert(apply_ops(l1, ops.drop_first()) == Some(after));
    assert(apply_op(l1, ops.drop_first()[0]) is Some);
    assert(apply_ops(l2, ops.drop_first().drop_first()) == Some(after));
    assert(after == l2);
}

/// Once a purchase of a listing has succeeded, a cancellation of it fails:
/// with `AlreadyClosed` when its caller is the owner, `NotOwner` otherwise.
pub proof fn law_cancel_after_purchase_fails(
    program: Seq<u8>,
    s: Seq<Escrow>,
    buy: BuyCollectible,
    lock_bump: u8,
    token_bump: u8,
    next: Seq<Escrow>,
    ops: Seq<LedgerOp>,
    cancel: CancelEscrow,
    cancel_lock_bump: u8,
    cancel_token_bump: u8,
)
    requires
        book_wf(s),
        buy_outcome(program, s, buy, lock_bump, token_bump) == Ok::<(Seq<Escrow>, Seq<LedgerOp>), ErrorCode>((next, ops)),
        cancel.escrow_account@ == buy.escrow_account@,
    ensures
        cancel_outcome(program, next, cancel, cancel_lock_bump, cancel_token_bump) is Err,
        cancel.owner@ == buy.seller@ ==> cancel_outcome(program, next, cancel, cancel_lock_bump, cancel_token_bump)
            == Err::<(Seq<Escrow>, Seq<LedgerOp>), ErrorCode>(ErrorCode::AlreadyClosed),
{
    let i = index_of(s, buy.escrow_account@)->Some_0;
    lemma_update_keeps_wf(s, i, with_status(s[i], EscrowStatus::Sold));
    lemma_index_of(next, buy.escrow_account@, i);
}

/// Once a cancellation of a listing has succeeded, a purchase of it fails:
/// with `AlreadyClosed` when the supplied seller is the owner,
/// `InvalidSeller` otherwise.
pub proof fn law_purchase_after_cancel_fails(
    program: Seq<u8>,
    s: Seq<Escrow>,
    cancel: CancelEscrow,
    lock_bump: u8,
    token_bump: u8,
    next: Seq<Escrow>,
    ops: Seq<LedgerOp>,
    buy: BuyCollectible,
    buy_lock_bump: u8,
    buy_token_bump: u8,
)
    requires
        book_wf(s),
        cancel_outcome(program, s, cancel, lock_bump, token_bump) == Ok::<(Seq<Escrow>, Seq<LedgerOp>), ErrorCode>((next, ops)),
        buy.escrow_account@ == cancel.escrow_account@,
    ensures
        buy_outcome(program, next, buy, buy_lock_bump, buy_token_bump) is Err,
        buy.seller@ == cancel.owner@ ==> buy_outcome(program, next, buy, buy_lock_bump, buy_token_bump)
            == Err::<(Seq<Escrow>, Seq<LedgerOp>), ErrorCode>(ErrorCode::AlreadyClosed),
{
    let i = index_of(s, cancel.escrow_account@)->Some_0;
    lemma_update_keeps_wf(s, i, with_status(s[i], EscrowStatus::Cancelled));
    lemma_index_of(next, cancel.escrow_account@, i);
}

/// Once a purchase of a listing has succeeded, a second purchase of it fails:
/// with `AlreadyClosed` when the supplied seller is the owner.
pub proof fn law_second_purchase_fails(
    program: Seq<u8>,
    s: Seq<Escrow>,
    first: BuyCollectible,
    lock_bump: u8,
    token_bump: u8,
    next: Seq<Escrow>,
    ops: Seq<LedgerOp>,
    second: BuyCollectible,
    second_lock_bump: u8,
    second_token_bump: u8,
)
    requires
        book_wf(s),
        buy_outcome(program, s, first, lock_bump, token_bump) == Ok::<(Seq<Escrow>, Seq<LedgerOp>), ErrorCode>((next, ops)),
        second.escrow_account@ == first.escrow_account@,
    ensures
        buy_outcome(program, next, second, second_lock_bump, second_token_bump) is Err,
        second.seller@ == first.seller@ ==> buy_outcome(program, next, second, second_lock_bump, second_token_bump)
            == Err::<(Seq<Escrow>, Seq<LedgerOp>), ErrorCode>(ErrorCode::AlreadyClosed),
{
    let i = index_of(s, first.escrow_account@)->Some_0;
    lemma_update_keeps_wf(s, i, with_status(s[i], EscrowStatus::Sold));
    lemma_index_of(next, first.escrow_account@, i);
}

/// A purchase of a listed record, naming its owner as the seller and
/// supplying the canonical bumps, succeeds.
pub proof fn law_listed_purchase_succeeds(program: Seq<u8>, s: Seq<Escrow>, ctx: BuyCollectible, lock_bump: u8, token_bump: u8)
    requires
        book_wf(s),
        at_canonical_addresses(program, s),
        index_of(s, ctx.escrow_account@) matches Some(i) && {
            &&& s[i].status == EscrowStatus::Listed
            &&& ctx.seller@ == s[i].record.owner_address@
            &&& is_canonical_bump(program, record_tag(), ctx.seller@, s[i].record.mint_address@, lock_bump)
            &&& is_canonical_bump(program, holding_tag(), ctx.seller@, s[i].record.mint_address@, token_bump)
        },
    ensures
        buy_outcome(program, s, ctx, lock_bump, token_bump) is Ok,
{
    let i = index_of(s, ctx.escrow_account@)->Some_0;
    let e = s[i];
    lemma_canonical_derives(program, record_tag(), ctx.seller@, e.record.mint_address@, lock_bump, e.address@);
    lemma_canonical_derives(program, holding_tag(), ctx.seller@, e.record.mint_address@, token_bump, e.holding@);
}

/// A cancellation of a listed record by its owner, supplying the canonical
/// bumps, succeeds.
pub proof fn law_listed_cancel_succeeds(program: Seq<u8>, s: Seq<Escrow>, ctx: CancelEscrow, lock_bump: u8, token_bump: u8)
    requires
        book_wf(s),
        at_canonical_addresses(program, s),
        index_of(s, ctx.escrow_account@) matches Some(i) && {
            &&& s[i].status == EscrowStatus::Listed
            &&& ctx.owner@ == s[i].record.owner_address@
            &&& is_canonical_bump(program, record_tag(), ctx.owner@, s[i].record.mint_address@, lock_bump)
            &&& is_canonical_bump(program, holding_tag(), ctx.owner@, s[i].record.mint_address@, token_bump)
        },
    ensures
        cancel_outcome(program, s, ctx, lock_bump, token_bump) is Ok,
{
    let i = index_of(s, ctx.escrow_account@)->Some_0;
    let e = s[i];
    lemma_canonical_derives(program, record_tag(), ctx.owner@, e.record.mint_address@, lock_bump, e.address@);
    lemma_canonical_derives(program, holding_tag(), ctx.owner@, e.record.mint_address@, token_bump, e.holding@);
}

} // verus!
