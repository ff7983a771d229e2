use crate::address::Address;
use vstd::prelude::*;

verus! {

/// The seeds `(record tag, owner, collectible, bump)` with which the program
/// signs for its derived authority.
#[derive(Clone, Copy, Debug, PartialEq, Eq)]
pub struct SignerSeeds {
    pub owner: Address,
    pub mint: Address,
    pub bump: u8,
}

/// An instruction to the asset ledger that an escrow operation requires.
#[derive(Clone, Copy, Debug, PartialEq, Eq)]
pub enum LedgerOp {
    /// Move `amount` units from token account `from` to token account `to`,
    /// authorised by `authority` (signed for by the program when `signer`
    /// holds its seeds).
    Transfer { from: Address, to: Address, authority: Address, amount: u64, signer: Option<SignerSeeds> },
    /// Close the empty token account `account`, returning its deposit to
    /// `destination`.
    CloseAccount { account: Address, destination: Address, authority: Address, signer: Option<SignerSeeds> },
}

/// What the ledger knows of one token account.
pub struct TokenAccountState {
    pub mint: Seq<u8>,
    pub owner: Seq<u8>,
    pub amount: nat,
}

/// The ledger's token accounts, by address.
pub type LedgerState = Map<Seq<u8>, TokenAccountState>;

/// The effect of one instruction on the ledger, `None` where it fails.
pub open spec fn apply_op(l: LedgerState, op: LedgerOp) -> Option<LedgerState> {
    match op {
        LedgerOp::Transfer { from, to, authority, amount, signer } => {
            if l.contains_key(from@) && l.contains_key(to@) && l[from@].mint == l[to@].mint
                && l[from@].owner == authority@ && amount <= l[from@].amount
                && l[to@].amount + amount <= u64::MAX {
                if from@ == to@ {
                    Some(l)
                } else {
                    let src = l[from@];
                    let dst = l[to@];
                    Some(
                        l.insert(from@, TokenAccountState { amount: (src.amount - amount) as nat, ..src }).insert(
                            to@,
                            TokenAccountState { amount: (dst.amount + amount) as nat, ..dst },
                        ),
                    )
                }
            } else {
                None
            }
        },
        LedgerOp::CloseAccount { account, destination, authority, signer } => {
            if l.contains_key(account@) && l[account@].amount == 0 && l[account@].owner == authority@
                && account@ != destination@ {
                Some(l.remove(account@))
            } else {
                None
            }
        },
    }
}

/// The effect of a sequence of instructions run as one atomic unit: `None`
/// where any of them fails.
pub open spec fn apply_ops(l: LedgerState, ops: Seq<LedgerOp>) -> Option<LedgerState>
    decreases ops.len(),
{
    if ops.len() == 0 {
        Some(l)
    } else {
        match apply_op(l, ops[0]) {
            Some(next) => apply_ops(next, ops.drop_first()),
            None => None,
        }
    }
}

} // verus!
