use crate::address::Address;
use crate::derivation::{
    canonical_address, holding_tag, holding_tag_bytes, lemma_canonical_found, record_tag,
    record_tag_bytes, try_find_program_address, verify_derivation,
};
use crate::escrow::{
    book_wf, buy_outcome, cancel_outcome, decide_cancel, decide_purchase, has_address, has_pair,
    index_of, is_closed, lemma_update_keeps_wf, BuyCollectible, CancelEscrow, ErrorCode, Escrow,
    EscrowBook, EscrowStatus, HolderAccount, Initialize, ListCollectible,
};
use crate::ledger::LedgerOp;
use vstd::prelude::*;

verus! {

/// The record that `create` writes: all fields from the caller, price 0.
pub open spec fn new_record(ctx: Initialize) -> HolderAccount {
    HolderAccount {
        owner_address: ctx.owner,
        mint_address: ctx.nft_mint,
        payment_token_mint: ctx.currency_token,
        company_account_address: ctx.company_token_address,
        price: 0,
    }
}

/// Why `create` fails on the book `s`, or `None` where it succeeds.
pub open spec fn initialize_failure(program: Seq<u8>, s: Seq<Escrow>, ctx: Initialize) -> Option<ErrorCode> {
    if has_pair(s, ctx.owner@, ctx.nft_mint@) {
        Some(ErrorCode::DuplicateListing)
    } else {
        match (
            canonical_address(program, record_tag(), ctx.owner@, ctx.nft_mint@),
            canonical_address(program, holding_tag(), ctx.owner@, ctx.nft_mint@),
        ) {
            (Some(a), Some(h)) => if has_address(s, a) {
                Some(ErrorCode::DuplicateListing)
            } else {
                None
            },
            _ => Some(ErrorCode::AuthorityMismatch),
        }
    }
}

/// The record after listing at `price` with the beneficiary `company`.
pub open spec fn listed(e: Escrow, price: u64, company: Address) -> Escrow {
    Escrow {
        record: HolderAccount { price, company_account_address: company, ..e.record },
        status: EscrowStatus::Listed,
        ..e
    }
}

/// The outcome of a listing on the book `s`.
pub open spec fn list_outcome(s: Seq<Escrow>, ctx: ListCollectible, price: u64, company: Address) -> Result<
    (Seq<Escrow>, Seq<LedgerOp>),
    ErrorCode,
> {
    match index_of(s, ctx.escrow_account@) {
        None => Err(ErrorCode::RecordNotFound),
        Some(i) => if ctx.owner@ != s[i].record.owner_address@ {
            Err(ErrorCode::NotOwner)
        } else if is_closed(s[i].status) {
            Err(ErrorCode::AlreadyClosed)
        } else if s[i].status == EscrowStatus::Listed {
            Err(ErrorCode::InsufficientBalance)
        } else {
            Ok(
                (
                    s.update(i, listed(s[i], price, company)),
                    seq![
                        LedgerOp::Transfer {
                            from: ctx.nft_token_account,
                            to: s[i].holding,
                            authority: ctx.owner,
                            amount: 1,
                            signer: None,
                        },
                    ],
                ),
            )
        },
    }
}

/// Creates the record of `(owner, collectible)` at its derived address,
/// with its holding account, in state `Created`.
pub fn initialize(book: &mut EscrowBook, ctx: &Initialize) -> (r: Result<Escrow, ErrorCode>)
    requires
        old(book).wf(),
    ensures
        final(book).wf(),
        final(book).program() == old(book).program(),
        r is Ok <==> initialize_failure(old(book).program()@, old(book)@, *ctx) is None,
        match r {
            Ok(e) => {
                &&& e.record == new_record(*ctx)
                &&& e.status == EscrowStatus::Created
                &&& canonical_address(old(book).program()@, record_tag(), ctx.owner@, ctx.nft_mint@) == Some(e.address@)
                &&& canonical_address(old(book).program()@, holding_tag(), ctx.owner@, ctx.nft_mint@) == Some(e.holding@)
                &&& final(book)@ == old(book)@.push(e)
            },
            Err(err) => {
                &&& initialize_failure(old(book).program()@, old(book)@, *ctx) == Some(err)
                &&& final(book)@ == old(book)@
            },
        },
{
    if book.contains_pair(&ctx.owner, &ctx.nft_mint) {
        return Err(ErrorCode::DuplicateListing);
    }
    let program = book.program_id();
    let record_seed = record_tag_bytes();
    let holding_seed = holding_tag_bytes();
    let found_record = try_find_program_address(&record_seed, &ctx.owner, &ctx.nft_mint, &program);
    let found_holding = try_find_program_address(&holding_seed, &ctx.owner, &ctx.nft_mint, &program);
    match (found_record, found_holding) {
        (Some((a, ba)), Some((h, bh))) => {
            proof {
                lemma_canonical_found(program@, record_tag(), ctx.owner@, ctx.nft_mint@, ba, a@);
                lemma_canonical_found(program@, holding_tag(), ctx.owner@, ctx.nft_mint@, bh, h@);
            }
            if book.position(&a).is_some() {
                return Err(ErrorCode::DuplicateListing);
            }
            let e = Escrow {
                address: a,
                holding: h,
                record: HolderAccount {
                    owner_address: ctx.owner,
                    mint_address: ctx.nft_mint,
                    payment_token_mint: ctx.currency_token,
                    company_account_address: ctx.company_token_address,
                    price: 0,
                },
                status: EscrowStatus::Created,
            };
            let ghost before = book@;
            book.push(e);
            proof {
                assert(book_wf(book@)) by {
                    assert forall|i: int, j: int|
                        0 <= i < book@.len() && 0 <= j < book@.len() && i != j implies {
                        &&& book@[i].address@ != book@[j].address@
                        &&& !(book@[i].record.owner_address@ == book@[j].record.owner_address@
                            && book@[i].record.mint_address@ == book@[j].record.mint_address@)
                    } by {
                        if i < before.len() && j < before.len() {
                            assert(before[i] == book@[i] && before[j] == book@[j]);
                        } else if i < before.len() {
                            assert(before[i] == book@[i]);
                        } else {
                            assert(before[j] == book@[j]);
                        }
                    }
                }
            }
            Ok(e)
        },
        (None, _) => {
            Err(ErrorCode::AuthorityMismatch)
        },
        (_, None) => {
            Err(ErrorCode::AuthorityMismatch)
        },
    }
}

/// Sets the price and beneficiary of the record at `ctx.escrow_account` and
/// moves the owner's unit into its holding account.
pub fn list_collectible(book: &mut EscrowBook, ctx: &ListCollectible, price: u64, company_account: Address) -> (r: Result<Vec<LedgerOp>, ErrorCode>)
    requires
        old(book).wf(),
    ensures
        final(book).wf(),
        final(book).program() == old(book).program(),
        match list_outcome(old(book)@, *ctx, price, company_account) {
            Ok((next, ops)) => r matches Ok(v) && v@ == ops && final(book)@ == next,
            Err(err) => r == Err::<Vec<LedgerOp>, ErrorCode>(err) && final(book)@ == old(book)@,
        },
{
    let i = match book.position(&ctx.escrow_account) {
        Some(i) => i,
        None => {
            return Err(ErrorCode::RecordNotFound);
        },
    };
    let e = book.at(i);
    if !ctx.owner.same(&e.record.owner_address) {
        return Err(ErrorCode::NotOwner);
    }
    match e.status {
        EscrowStatus::Sold | EscrowStatus::Cancelled => {
            return Err(ErrorCode::AlreadyClosed);
        },
        EscrowStatus::Listed => {
            return Err(ErrorCode::InsufficientBalance);
        },
        EscrowStatus::Created => {},
    }
    let next = Escrow {
        record: HolderAccount { price, company_account_address: company_account, ..e.record },
        status: EscrowStatus::Listed,
        ..e
    };
    proof {
        lemma_update_keeps_wf(book@, i as int, next);
    }
    book.set(i, next);
    let ops: Vec<LedgerOp> = vec![
        LedgerOp::Transfer {
            from: ctx.nft_token_account,
            to: e.holding,
            authority: ctx.owner,
            amount: 1,
            signer: None,
        },
    ];
    proof {
        let ghost expected = list_outcome(old(book)@, *ctx, price, company_account);
        assert(expected matches Ok((_, o)) && ops@ =~= o);
    }
    Ok(ops)
}

/// Settles a purchase: checks the seller and the derived authorities, then
/// returns the payment transfers, the release of the unit to the buyer and
/// the closing of the holding account; the record becomes `Sold`.
pub fn buy_collectible(book: &mut EscrowBook, ctx: &BuyCollectible, lock_account_bump: u8, escrow_token_bump: u8) -> (r: Result<Vec<LedgerOp>, ErrorCode>)
    requires
        old(book).wf(),
    ensures
        final(book).wf(),
        final(book).program() == old(book).program(),
        match buy_outcome(old(book).program()@, old(book)@, *ctx, lock_account_bump, escrow_token_bump) {
            Ok((next, ops)) => r matches Ok(v) && v@ == ops && final(book)@ == next,
            Err(err) => r == Err::<Vec<LedgerOp>, ErrorCode>(err) && final(book)@ == old(book)@,
        },
{
    let i = match book.position(&ctx.escrow_account) {
        Some(i) => i,
        None => {
            return Err(ErrorCode::RecordNotFound);
        },
    };
    let e = book.at(i);
    let program = book.program_id();
    let record_seed = record_tag_bytes();
    let holding_seed = holding_tag_bytes();
    let record_ok = verify_derivation(&record_seed, &ctx.seller, &e.record.mint_address, lock_account_bump, &e.address, &program);
    let holding_ok = verify_derivation(&holding_seed, &ctx.seller, &e.record.mint_address, escrow_token_bump, &e.holding, &program);
    let ops = decide_purchase(&e, ctx, lock_account_bump, record_ok, holding_ok)?;
    let next = Escrow { status: EscrowStatus::Sold, ..e };
    proof {
        lemma_update_keeps_wf(book@, i as int, next);
    }
    book.set(i, next);
    Ok(ops)
}

/// Returns the unit to the owner and closes the holding account; the record
/// becomes `Cancelled`.
pub fn cancel_escrow(book: &mut EscrowBook, ctx: &CancelEscrow, lock_account_bump: u8, escrow_token_bump: u8) -> (r: Result<Vec<LedgerOp>, ErrorCode>)
    requires
        old(book).wf(),
    ensures
        final(book).wf(),
        final(book).program() == old(book).program(),
        match cancel_outcome(old(book).program()@, old(book)@, *ctx, lock_account_bump, escrow_token_bump) {
            Ok((next, ops)) => r matches Ok(v) && v@ == ops && final(book)@ == next,
            Err(err) => r == Err::<Vec<LedgerOp>, ErrorCode>(err) && final(book)@ == old(book)@,
        },
{
    let i = match book.position(&ctx.escrow_account) {
        Some(i) => i,
        None => {
            return Err(ErrorCode::RecordNotFound);
        },
    };
    let e = book.at(i);
    let program = book.program_id();
    let record_seed = record_tag_bytes();
    let holding_seed = holding_tag_bytes();
    let record_ok = verify_derivation(&record_seed, &ctx.owner, &e.record.mint_address, lock_account_bump, &e.address, &program);
    let holding_ok = verify_derivation(&holding_seed, &ctx.owner, &e.record.mint_address, escrow_token_bump, &e.holding, &program);
    let ops = decide_cancel(&e, ctx, lock_account_bump, record_ok, holding_ok)?;
    let next = Escrow { status: EscrowStatus::Cancelled, ..e };
    proof {
        lemma_update_keeps_wf(book@, i as int, next);
    }
    book.set(i, next);
    Ok(ops)
}

} // verus!
