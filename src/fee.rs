use vstd::prelude::*;

verus! {

/// Marketplace fee in basis points (4%).
pub const FEE_BPS: u64 = 400;

/// Basis points in a whole.
pub const BPS_DENOMINATOR: u64 = 10000;

/// The fee owed on `price`: `floor(price * FEE_BPS / 10000)`.
pub open spec fn fee_of(price: nat) -> nat {
    (price * 400) / 10000
}

/// Splits `price` into the beneficiary's fee and the seller's share; the
/// seller absorbs the rounding remainder.
pub fn fee_split(price: u64) -> (r: (u64, u64))
    ensures
        r.0 == fee_of(price as nat),
        r.0 + r.1 == price,
        r.0 <= r.1,
{
    let wide: u128 = (price as u128) * (FEE_BPS as u128);
    let fee: u128 = wide / (BPS_DENOMINATOR as u128);
    assert(fee <= price) by (nonlinear_arith)
        requires
            wide == (price as u128) * 400,
            fee == wide / 10000,
    ;
    assert(fee * 2 <= price) by (nonlinear_arith)
        requires
            wide == (price as u128) * 400,
            fee == wide / 10000,
    ;
    let fee: u64 = fee as u64;
    (fee, price - fee)
}

} // verus!
