use crate::address::Address;
use crate::derivation::{canonical_address, derives, holding_tag, record_tag};
use crate::fee::{fee_of, fee_split};
use crate::ledger::{LedgerOp, SignerSeeds};
use vstd::prelude::*;

verus! {

/// The persisted escrow record of one listing.
#[derive(Clone, Copy, Debug, PartialEq, Eq)]
pub struct HolderAccount {
    pub owner_address: Address,
    pub mint_address: Address,
    pub payment_token_mint: Address,
    pub company_account_address: Address,
    pub price: u64,
}

/// Where a listing stands: `Created` (holding account empty), `Listed`
/// (holding account has the unit), or one of the two terminal states.
#[derive(Clone, Copy, Debug, PartialEq, Eq, Structural)]
pub enum EscrowStatus {
    Created,
    Listed,
    Sold,
    Cancelled,
}

/// Failures of the escrow operations.
#[derive(Clone, Copy, Debug, PartialEq, Eq, Structural)]
pub enum ErrorCode {
    /// A record already exists for the `(owner, collectible)` pair.
    DuplicateListing,
    /// The supplied seller is not the record's owner.
    InvalidSeller,
    /// The caller is not the record's owner.
    NotOwner,
    /// The unit to move is not where the operation needs it.
    InsufficientBalance,
    /// The supplied bump does not re-derive the controlling authority.
    AuthorityMismatch,
    /// No record lives at the given address.
    RecordNotFound,
    /// The listing has already been sold or cancelled.
    AlreadyClosed,
}

/// One listing: the record, where it lives, its holding account and state.
#[derive(Clone, Copy, Debug, PartialEq, Eq)]
pub struct Escrow {
    /// Address of the record, derived from `(record tag, owner, collectible)`;
    /// it is also the signing authority of the holding account.
    pub address: Address,
    /// Address of the holding account, derived from
    /// `(holding tag, owner, collectible)`.
    pub holding: Address,
    pub record: HolderAccount,
    pub status: EscrowStatus,
}

/// All listings of one program, located by their derived addresses.
#[derive(Clone, Debug)]
pub struct EscrowBook {
    program_id: Address,
    escrows: Vec<Escrow>,
}

/// Accounts of the create operation; `owner` is the authenticated caller.
#[derive(Clone, Copy, Debug)]
pub struct Initialize {
    pub owner: Address,
    pub nft_mint: Address,
    pub currency_token: Address,
    pub company_token_address: Address,
}

/// Accounts of the list operation; `owner` is the authenticated caller and
/// `nft_token_account` holds the unit to deposit.
#[derive(Clone, Copy, Debug)]
pub struct ListCollectible {
    pub owner: Address,
    pub escrow_account: Address,
    pub nft_token_account: Address,
}

/// Accounts of the purchase operation; `buyer` is the authenticated caller.
#[derive(Clone, Copy, Debug)]
pub struct BuyCollectible {
    pub buyer: Address,
    pub escrow_account: Address,
    pub seller: Address,
    pub buyer_nft_token_account: Address,
    pub buyer_token_account: Address,
    pub seller_token_account: Address,
}

/// Accounts of the cancel operation; `owner` is the authenticated caller and
/// `nft_token_account` receives the unit back.
#[derive(Clone, Copy, Debug)]
pub struct CancelEscrow {
    pub owner: Address,
    pub escrow_account: Address,
    pub nft_token_account: Address,
}

pub open spec fn is_closed(s: EscrowStatus) -> bool {
    s == EscrowStatus::Sold || s == EscrowStatus::Cancelled
}

/// Whether some record belongs to the pair `(owner, mint)`.
pub open spec fn has_pair(s: Seq<Escrow>, owner: Seq<u8>, mint: Seq<u8>) -> bool {
    exists|i: int| 0 <= i < s.len() && s[i].record.owner_address@ == owner && s[i].record.mint_address@ == mint
}

/// Whether some record lives at `a`.
pub open spec fn has_address(s: Seq<Escrow>, a: Seq<u8>) -> bool {
    exists|i: int| 0 <= i < s.len() && s[i].address@ == a
}

/// The position of the record that lives at `a`.
pub open spec fn index_of(s: Seq<Escrow>, a: Seq<u8>) -> Option<int> {
    if has_address(s, a) {
        Some(choose|i: int| 0 <= i < s.len() && s[i].address@ == a)
    } else {
        None
    }
}

/// At most one record per `(owner, collectible)` pair and per address.
pub open spec fn book_wf(s: Seq<Escrow>) -> bool {
    forall|i: int, j: int|
        0 <= i < s.len() && 0 <= j < s.len() && i != j ==> {
            &&& s[i].address@ != s[j].address@
            &&& !(s[i].record.owner_address@ == s[j].record.owner_address@
                && s[i].record.mint_address@ == s[j].record.mint_address@)
        }
}

pub proof fn lemma_index_of(s: Seq<Escrow>, a: Seq<u8>, i: int)
    requires
        book_wf(s),
        0 <= i < s.len(),
        s[i].address@ == a,
    ensures
        index_of(s, a) == Some(i),
{
    let j = choose|j: int| 0 <= j < s.len() && s[j].address@ == a;
    assert(0 <= j < s.len() && s[j].address@ == a);
}

/// Every record and holding account lives at the address that the canonical
/// bump gives for its `(owner, collectible)` pair.
pub open spec fn at_canonical_addresses(program: Seq<u8>, s: Seq<Escrow>) -> bool {
    forall|i: int|
        0 <= i < s.len() ==> {
            &&& canonical_address(program, record_tag(), s[i].record.owner_address@, s[i].record.mint_address@)
                == Some(s[i].address@)
            &&& canonical_address(program, holding_tag(), s[i].record.owner_address@, s[i].record.mint_address@)
                == Some(s[i].holding@)
        }
}

/// Replacing a record by one at the same address and of the same pair keeps
/// the book well formed.
pub proof fn lemma_update_keeps_wf(s: Seq<Escrow>, i: int, e: Escrow)
    requires
        book_wf(s),
        0 <= i < s.len(),
        e.address@ == s[i].address@,
        e.record.owner_address@ == s[i].record.owner_address@,
        e.record.mint_address@ == s[i].record.mint_address@,
    ensures
        book_wf(s.update(i, e)),
        forall|program: Seq<u8>|
            at_canonical_addresses(program, s) && e.holding@ == s[i].holding@ ==> at_canonical_addresses(
                program,
                #[trigger] s.update(i, e),
            ),
{
    let t = s.update(i, e);
    assert forall|program: Seq<u8>|
        at_canonical_addresses(program, s) && e.holding@ == s[i].holding@ implies at_canonical_addresses(
        program,
        #[trigger] s.update(i, e),
    ) by {
        assert forall|k: int| 0 <= k < t.len() implies {
            &&& canonical_address(program, record_tag(), t[k].record.owner_address@, t[k].record.mint_address@)
                == Some(t[k].address@)
            &&& canonical_address(program, holding_tag(), t[k].record.owner_address@, t[k].record.mint_address@)
                == Some(t[k].holding@)
        } by {
            if k != i {
                assert(t[k] == s[k]);
            }
        }
    }
    assert forall|a: int, b: int| 0 <= a < t.len() && 0 <= b < t.len() && a != b implies {
        &&& t[a].address@ != t[b].address@
        &&& !(t[a].record.owner_address@ == t[b].record.owner_address@
            && t[a].record.mint_address@ == t[b].record.mint_address@)
    } by {
        assert(s[a].address@ != s[b].address@);
    }
}

pub open spec fn with_status(e: Escrow, status: EscrowStatus) -> Escrow {
    Escrow { status, ..e }
}

impl View for EscrowBook {
    type V = Seq<Escrow>;

    closed spec fn view(&self) -> Seq<Escrow> {
        self.escrows@
    }
}

impl EscrowBook {
    /// The program that owns the book's records.
    pub closed spec fn program(&self) -> Address {
        self.program_id
    }

    pub fn program_id(&self) -> (r: Address)
        ensures
            r == self.program(),
    {
        self.program_id
    }

    pub open spec fn wf(&self) -> bool {
        book_wf(self@) && at_canonical_addresses(self.program()@, self@)
    }

    /// An empty book for the program `program_id`.
    pub fn new(program_id: Address) -> (r: EscrowBook)
        ensures
            r.program() == program_id,
            r@ == Seq::<Escrow>::empty(),
            r.wf(),
    {
        EscrowBook { program_id, escrows: Vec::new() }
    }

    pub fn len(&self) -> (r: usize)
        ensures
            r == self@.len(),
    {
        self.escrows.len()
    }

    /// The record that lives at `address`, if any.
    pub fn get(&self, address: &Address) -> (r: Option<Escrow>)
        requires
            self.wf(),
        ensures
            match index_of(self@, address@) {
                Some(i) => r == Some(self@[i]),
                None => r is None,
            },
    {
        match self.position(address) {
            Some(i) => Some(self.escrows[i]),
            None => None,
        }
    }

    /// The position of the record that lives at `address`.
    pub(crate) fn position(&self, address: &Address) -> (r: Option<usize>)
        requires
            self.wf(),
        ensures
            match r {
                Some(i) => index_of(self@, address@) == Some(i as int) && i < self@.len(),
                None => index_of(self@, address@) is None,
            },
    {
        let mut i: usize = 0;
        while i < self.escrows.len()
            invariant
                0 <= i <= self@.len(),
                self.wf(),
                forall|j: int| 0 <= j < i ==> self@[j].address@ != address@,
            decreases self@.len() - i,
        {
            if self.escrows[i].address.same(address) {
                proof {
                    lemma_index_of(self@, address@, i as int);
                }
                return Some(i);
            }
            i = i + 1;
        }
        None
    }

    /// Whether a record already belongs to `(owner, mint)`.
    pub(crate) fn contains_pair(&self, owner: &Address, mint: &Address) -> (r: bool)
        ensures
            r == has_pair(self@, owner@, mint@),
    {
        let mut i: usize = 0;
        while i < self.escrows.len()
            invariant
                0 <= i <= self@.len(),
                forall|j: int|
                    0 <= j < i ==> !(self@[j].record.owner_address@ == owner@
                        && self@[j].record.mint_address@ == mint@),
            decreases self@.len() - i,
        {
            let e = &self.escrows[i];
            if e.record.owner_address.same(owner) && e.record.mint_address.same(mint) {
                return true;
            }
            i = i + 1;
        }
        false
    }

    pub(crate) fn at(&self, i: usize) -> (r: Escrow)
        requires
            i < self@.len(),
        ensures
            r == self@[i as int],
    {
        self.escrows[i]
    }

    pub(crate) fn push(&mut self, e: Escrow)
        ensures
            final(self)@ == old(self)@.push(e),
            final(self).program() == old(self).program(),
    {
        self.escrows.push(e);
    }

    /// Sets the record at position `i`.
    pub(crate) fn set(&mut self, i: usize, e: Escrow)
        requires
            i < old(self)@.len(),
        ensures
            final(self)@ == old(self)@.update(i as int, e),
            final(self).program() == old(self).program(),
    {
        self.escrows.set(i, e);
    }
}


/// The seeds with which the program signs for the record's authority.
pub open spec fn signer_of(e: Escrow, bump: u8) -> Option<SignerSeeds> {
    Some(SignerSeeds { owner: e.record.owner_address, mint: e.record.mint_address, bump })
}

/// The instructions of a purchase: the fee to the beneficiary, the rest of
/// the price to the seller, the unit to the buyer, then the holding account
/// closed.
pub open spec fn purchase_ops(e: Escrow, ctx: BuyCollectible, lock_bump: u8) -> Seq<LedgerOp> {
    let fee = fee_of(e.record.price as nat);
    seq![
        LedgerOp::Transfer {
            from: ctx.buyer_token_account,
            to: e.record.company_account_address,
            authority: ctx.buyer,
            amount: fee as u64,
            signer: None,
        },
        LedgerOp::Transfer {
            from: ctx.buyer_token_account,
            to: ctx.seller_token_account,
            authority: ctx.buyer,
            amount: (e.record.price - fee) as u64,
            signer: None,
        },
        LedgerOp::Transfer {
            from: e.holding,
            to: ctx.buyer_nft_token_account,
            authority: e.address,
            amount: 1,
            signer: signer_of(e, lock_bump),
        },
        LedgerOp::CloseAccount {
            account: e.holding,
            destination: ctx.buyer,
            authority: e.address,
            signer: signer_of(e, lock_bump),
        },
    ]
}

/// The instructions of a cancellation: the unit back to the owner, then the
/// holding account closed.
pub open spec fn cancel_ops(e: Escrow, ctx: CancelEscrow, lock_bump: u8) -> Seq<LedgerOp> {
    seq![
        LedgerOp::Transfer {
            from: e.holding,
            to: ctx.nft_token_account,
            authority: e.address,
            amount: 1,
            signer: signer_of(e, lock_bump),
        },
        LedgerOp::CloseAccount {
            account: e.holding,
            destination: ctx.owner,
            authority: e.address,
            signer: signer_of(e, lock_bump),
        },
    ]
}

/// Purchase of the listing `e`, given whether the supplied bumps re-derive
/// the record's address (`record_ok`) and the holding account's (`holding_ok`).
pub open spec fn purchase_decision(
    e: Escrow,
    ctx: BuyCollectible,
    lock_bump: u8,
    record_ok: bool,
    holding_ok: bool,
) -> Result<Seq<LedgerOp>, ErrorCode> {
    if ctx.seller@ != e.record.owner_address@ {
        Err(ErrorCode::InvalidSeller)
    } else if is_closed(e.status) {
        Err(ErrorCode::AlreadyClosed)
    } else if !record_ok || !holding_ok {
        Err(ErrorCode::AuthorityMismatch)
    } else if e.status == EscrowStatus::Created {
        Err(ErrorCode::InsufficientBalance)
    } else {
        Ok(purchase_ops(e, ctx, lock_bump))
    }
}

/// Cancellation of the listing `e`, given the two re-derivation results.
pub open spec fn cancel_decision(
    e: Escrow,
    ctx: CancelEscrow,
    lock_bump: u8,
    record_ok: bool,
    holding_ok: bool,
) -> Result<Seq<LedgerOp>, ErrorCode> {
    if ctx.owner@ != e.record.owner_address@ {
        Err(ErrorCode::NotOwner)
    } else if is_closed(e.status) {
        Err(ErrorCode::AlreadyClosed)
    } else if !record_ok || !holding_ok {
        Err(ErrorCode::AuthorityMismatch)
    } else if e.status == EscrowStatus::Created {
        Err(ErrorCode::InsufficientBalance)
    } else {
        Ok(cancel_ops(e, ctx, lock_bump))
    }
}

/// Whether `lock_bump` re-derives the record's address from its owner (as
/// `owner` claims it) and collectible.
pub open spec fn record_derives(program: Seq<u8>, e: Escrow, owner: Address, lock_bump: u8) -> bool {
    derives(program, record_tag(), owner@, e.record.mint_address@, lock_bump, e.address@)
}

/// Whether `token_bump` re-derives the holding account's address.
pub open spec fn holding_derives(program: Seq<u8>, e: Escrow, owner: Address, token_bump: u8) -> bool {
    derives(program, holding_tag(), owner@, e.record.mint_address@, token_bump, e.holding@)
}

/// The outcome of a purchase on the book `s`: the next book and the
/// instructions to run, or the failure.
pub open spec fn buy_outcome(
    program: Seq<u8>,
    s: Seq<Escrow>,
    ctx: BuyCollectible,
    lock_bump: u8,
    token_bump: u8,
) -> Result<(Seq<Escrow>, Seq<LedgerOp>), ErrorCode> {
    match index_of(s, ctx.escrow_account@) {
        None => Err(ErrorCode::RecordNotFound),
        Some(i) => match purchase_decision(
            s[i],
            ctx,
            lock_bump,
            record_derives(program, s[i], ctx.seller, lock_bump),
            holding_derives(program, s[i], ctx.seller, token_bump),
        ) {
            Ok(ops) => Ok((s.update(i, with_status(s[i], EscrowStatus::Sold)), ops)),
            Err(err) => Err(err),
        },
    }
}

/// The outcome of a cancellation on the book `s`.
pub open spec fn cancel_outcome(
    program: Seq<u8>,
    s: Seq<Escrow>,
    ctx: CancelEscrow,
    lock_bump: u8,
    token_bump: u8,
) -> Result<(Seq<Escrow>, Seq<LedgerOp>), ErrorCode> {
    match index_of(s, ctx.escrow_account@) {
        None => Err(ErrorCode::RecordNotFound),
        Some(i) => match cancel_decision(
            s[i],
            ctx,
            lock_bump,
            record_derives(program, s[i], ctx.owner, lock_bump),
            holding_derives(program, s[i], ctx.owner, token_bump),
        ) {
            Ok(ops) => Ok((s.update(i, with_status(s[i], EscrowStatus::Cancelled)), ops)),
            Err(err) => Err(err),
        },
    }
}

fn signer_seeds(e: &Escrow, bump: u8) -> (r: Option<SignerSeeds>)
    ensures
        r == signer_of(*e, bump),
{
    Some(SignerSeeds { owner: e.record.owner_address, mint: e.record.mint_address, bump })
}

fn status_is_closed(s: EscrowStatus) -> (r: bool)
    ensures
        r == is_closed(s),
{
    match s {
        EscrowStatus::Sold | EscrowStatus::Cancelled => true,
        _ => false,
    }
}

/// Decides a purchase of `e` once the two bumps have been re-derived.
pub fn decide_purchase(e: &Escrow, ctx: &BuyCollectible, lock_bump: u8, record_ok: bool, holding_ok: bool) -> (r: Result<Vec<LedgerOp>, ErrorCode>)
    ensures
        match purchase_decision(*e, *ctx, lock_bump, record_ok, holding_ok) {
            Ok(ops) => r matches Ok(v) && v@ == ops,
            Err(err) => r == Err::<Vec<LedgerOp>, ErrorCode>(err),
        },
{
    if !ctx.seller.same(&e.record.owner_address) {
        return Err(ErrorCode::InvalidSeller);
    }
    if status_is_closed(e.status) {
        return Err(ErrorCode::AlreadyClosed);
    }
    if !record_ok || !holding_ok {
        return Err(ErrorCode::AuthorityMismatch);
    }
    if e.status == EscrowStatus::Created {
        return Err(ErrorCode::InsufficientBalance);
    }
    let (fee, rest) = fee_split(e.record.price);
    let seeds = signer_seeds(e, lock_bump);
    let ops: Vec<LedgerOp> = vec![
        LedgerOp::Transfer {
            from: ctx.buyer_token_account,
            to: e.record.company_account_address,
            authority: ctx.buyer,
            amount: fee,
            signer: None,
        },
        LedgerOp::Transfer {
            from: ctx.buyer_token_account,
            to: ctx.seller_token_account,
            authority: ctx.buyer,
            amount: rest,
            signer: None,
        },
        LedgerOp::Transfer {
            from: e.holding,
            to: ctx.buyer_nft_token_account,
            authority: e.address,
            amount: 1,
            signer: seeds,
        },
        LedgerOp::CloseAccount { account: e.holding, destination: ctx.buyer, authority: e.address, signer: seeds },
    ];
    assert(ops@ =~= purchase_ops(*e, *ctx, lock_bump));
    Ok(ops)
}

/// Decides a cancellation of `e` once the two bumps have been re-derived.
pub fn decide_cancel(e: &Escrow, ctx: &CancelEscrow, lock_bump: u8, record_ok: bool, holding_ok: bool) -> (r: Result<Vec<LedgerOp>, ErrorCode>)
    ensures
        match cancel_decision(*e, *ctx, lock_bump, record_ok, holding_ok) {
            Ok(ops) => r matches Ok(v) && v@ == ops,
            Err(err) => r == Err::<Vec<LedgerOp>, ErrorCode>(err),
        },
{
    if !ctx.owner.same(&e.record.owner_address) {
        return Err(ErrorCode::NotOwner);
    }
    if status_is_closed(e.status) {
        return Err(ErrorCode::AlreadyClosed);
    }
    if !record_ok || !holding_ok {
        return Err(ErrorCode::AuthorityMismatch);
    }
    if e.status == EscrowStatus::Created {
        return Err(ErrorCode::InsufficientBalance);
    }
    let seeds = signer_seeds(e, lock_bump);
    let ops: Vec<LedgerOp> = vec![
        LedgerOp::Transfer {
            from: e.holding,
            to: ctx.nft_token_account,
            authority: e.address,
            amount: 1,
            signer: seeds,
        },
        LedgerOp::CloseAccount { account: e.holding, destination: ctx.owner, authority: e.address, signer: seeds },
    ];
    assert(ops@ =~= cancel_ops(*e, *ctx, lock_bump));
    Ok(ops)
}

} // verus!
