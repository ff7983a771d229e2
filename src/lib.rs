//! Custodial escrow of a one-of-a-kind collectible traded against a fungible
//! payment asset, with a fixed marketplace fee paid to a beneficiary account.

pub mod address;
pub mod derivation;
pub mod fee;
pub mod ledger;
pub mod escrow;
pub mod instructions;
pub mod laws;
