use crate::address::Address;
use anchor_lang::solana_program::pubkey::Pubkey;
use vstd::prelude::*;

verus! {

/// The address that the program-address derivation gives for `seeds` under
/// `program_id`, or `None` where the seeds do not yield a valid off-curve
/// address.
pub uninterp spec fn program_address(seeds: Seq<Seq<u8>>, program_id: Seq<u8>) -> Option<Seq<u8>>;

/// Role tag of the escrow record, which is also the signing authority of
/// the holding account.
pub open spec fn record_tag() -> Seq<u8> {
    seq![111u8, 119u8, 110u8, 101u8, 114u8]
}

/// Role tag of the holding account.
pub open spec fn holding_tag() -> Seq<u8> {
    seq![116u8, 111u8, 107u8, 101u8, 110u8]
}

/// The seed tuple `(tag, owner, collectible, bump)`.
pub open spec fn seeds_of(tag: Seq<u8>, owner: Seq<u8>, mint: Seq<u8>, bump: u8) -> Seq<Seq<u8>> {
    seq![tag, owner, mint, seq![bump]]
}

/// Whether `bump` re-derives `expected` from `(tag, owner, mint)`.
pub open spec fn derives(
    program_id: Seq<u8>,
    tag: Seq<u8>,
    owner: Seq<u8>,
    mint: Seq<u8>,
    bump: u8,
    expected: Seq<u8>,
) -> bool {
    program_address(seeds_of(tag, owner, mint, bump), program_id) == Some(expected)
}

/// The canonical bump: the largest in `1..=255` whose derivation succeeds.
pub open spec fn is_canonical_bump(
    program_id: Seq<u8>,
    tag: Seq<u8>,
    owner: Seq<u8>,
    mint: Seq<u8>,
    bump: u8,
) -> bool {
    &&& 1 <= bump
    &&& program_address(seeds_of(tag, owner, mint, bump), program_id) is Some
    &&& forall|b: u8| bump < b ==> program_address(seeds_of(tag, owner, mint, b), program_id) is None
}

/// The address given by the canonical bump of `(tag, owner, mint)`, if any.
pub open spec fn canonical_address(program_id: Seq<u8>, tag: Seq<u8>, owner: Seq<u8>, mint: Seq<u8>) -> Option<Seq<u8>> {
    if exists|b: u8| is_canonical_bump(program_id, tag, owner, mint, b) {
        let b = choose|b: u8| is_canonical_bump(program_id, tag, owner, mint, b);
        program_address(seeds_of(tag, owner, mint, b), program_id)
    } else {
        None
    }
}

/// At most one bump is canonical.
pub proof fn lemma_canonical_unique(program_id: Seq<u8>, tag: Seq<u8>, owner: Seq<u8>, mint: Seq<u8>, b1: u8, b2: u8)
    requires
        is_canonical_bump(program_id, tag, owner, mint, b1),
        is_canonical_bump(program_id, tag, owner, mint, b2),
    ensures
        b1 == b2,
{
}

/// What the search for the canonical bump found, as `canonical_address`
/// states it.
pub proof fn lemma_canonical_found(program_id: Seq<u8>, tag: Seq<u8>, owner: Seq<u8>, mint: Seq<u8>, b: u8, a: Seq<u8>)
    requires
        is_canonical_bump(program_id, tag, owner, mint, b),
        program_address(seeds_of(tag, owner, mint, b), program_id) == Some(a),
    ensures
        canonical_address(program_id, tag, owner, mint) == Some(a),
{
    let c = choose|c: u8| is_canonical_bump(program_id, tag, owner, mint, c);
    lemma_canonical_unique(program_id, tag, owner, mint, b, c);
}

/// The canonical bump re-derives the canonical address.
pub proof fn lemma_canonical_derives(program_id: Seq<u8>, tag: Seq<u8>, owner: Seq<u8>, mint: Seq<u8>, b: u8, a: Seq<u8>)
    requires
        is_canonical_bump(program_id, tag, owner, mint, b),
        canonical_address(program_id, tag, owner, mint) == Some(a),
    ensures
        derives(program_id, tag, owner, mint, b, a),
{
    let c = choose|c: u8| is_canonical_bump(program_id, tag, owner, mint, c);
    lemma_canonical_unique(program_id, tag, owner, mint, b, c);
}

pub fn record_tag_bytes() -> (r: Vec<u8>)
    ensures
        r@ == record_tag(),
{
    let r: Vec<u8> = vec![111u8, 119u8, 110u8, 101u8, 114u8];
    assert(r@ =~= record_tag());
    r
}

pub fn holding_tag_bytes() -> (r: Vec<u8>)
    ensures
        r@ == holding_tag(),
{
    let r: Vec<u8> = vec![116u8, 111u8, 107u8, 101u8, 110u8];
    assert(r@ =~= holding_tag());
    r
}

/// Relies on `Pubkey::create_program_address` (solana-program): hashes the
/// seeds with the program id and returns the address unless it lies on the
/// curve or a seed is longer than 32 bytes.
#[verifier::external_body]
fn create_program_address(tag: &Vec<u8>, owner: &Address, mint: &Address, bump: u8, program_id: &Address) -> (r: Option<Address>)
    requires
        tag@.len() <= 32,
    ensures
        match r {
            Some(a) => program_address(seeds_of(tag@, owner@, mint@, bump), program_id@) == Some(a@),
            None => program_address(seeds_of(tag@, owner@, mint@, bump), program_id@) is None,
        },
{
    let seeds: [&[u8]; 4] = [tag.as_slice(), &owner.bytes, &mint.bytes, &[bump]];
    match Pubkey::create_program_address(&seeds, &Pubkey::new_from_array(program_id.bytes)) {
        Ok(k) => Some(Address { bytes: k.to_bytes() }),
        Err(_) => None,
    }
}

/// Relies on `Pubkey::try_find_program_address` (solana-program): tries the
/// bumps from 255 down to 1 with `create_program_address` and returns the
/// first that succeeds, or `None` where none does.
#[verifier::external_body]
pub(crate) fn try_find_program_address(tag: &Vec<u8>, owner: &Address, mint: &Address, program_id: &Address) -> (r: Option<(Address, u8)>)
    requires
        tag@.len() <= 32,
    ensures
        match r {
            Some((a, b)) => is_canonical_bump(program_id@, tag@, owner@, mint@, b)
                && program_address(seeds_of(tag@, owner@, mint@, b), program_id@) == Some(a@),
            None => forall|b: u8| 1 <= b ==> program_address(seeds_of(tag@, owner@, mint@, b), program_id@) is None,
        },
{
    let seeds: [&[u8]; 3] = [tag.as_slice(), &owner.bytes, &mint.bytes];
    Pubkey::try_find_program_address(&seeds, &Pubkey::new_from_array(program_id.bytes))
        .map(|(k, b)| (Address { bytes: k.to_bytes() }, b))
}

/// Re-derives the address of `(tag, owner, mint, bump)` and compares it with
/// `expected`.
pub fn verify_derivation(tag: &Vec<u8>, owner: &Address, mint: &Address, bump: u8, expected: &Address, program_id: &Address) -> (r: bool)
    requires
        tag@.len() <= 32,
    ensures
        r == derives(program_id@, tag@, owner@, mint@, bump, expected@),
{
    match create_program_address(tag, owner, mint, bump, program_id) {
        Some(a) => a.same(expected),
        None => false,
    }
}

} // verus!
