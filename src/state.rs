//! The records and holding accounts the instructions act on, and their errors.
use vstd::prelude::*;

use crate::key::Key;

verus! {

/// One staker's position: present while the staker has principal in the pool.
#[derive(Clone, Copy, Debug, PartialEq, Eq)]
pub struct StakeState {
    pub staker: Key,
    /// Principal, positive while the record exists.
    pub amount: u64,
    /// When the stake was opened, in seconds since the epoch.
    pub start_time: i64,
    /// When rewards were last paid out (or the stake was opened).
    pub last_claim_time: i64,
}

impl StakeState {
    pub open spec fn wf(self) -> bool {
        &&& self.amount > 0
        &&& self.start_time <= self.last_claim_time
    }
}

/// A holding account of one value type (`mint`), controlled by `owner`.
#[derive(Clone, Copy, Debug, PartialEq, Eq)]
pub struct HoldingAccount {
    pub key: Key,
    pub mint: Key,
    pub owner: Key,
    pub amount: u64,
}

impl HoldingAccount {
    /// The same account holding `amount` units.
    pub open spec fn with_amount(self, amount: int) -> HoldingAccount {
        HoldingAccount { amount: amount as u64, ..self }
    }
}

#[derive(Clone, Copy, Debug, PartialEq, Eq)]
pub enum CustomError {
    /// The holding account is not of the pool's value type.
    InvalidMint,
    /// The holding account is not controlled by the acting identity.
    InvalidOwner,
    /// Nothing has accrued since the last claim.
    NoRewardsAvailable,
    /// The staker already has an active stake.
    DuplicateStake,
    /// The staker has no active stake.
    NoActiveStake,
    /// A stake must be of at least one unit.
    InvalidAmount,
    /// The account is not the vault derived for this program.
    InvalidVault,
    /// The pool's vault has already been created.
    VaultAlreadyExists,
    /// The paying account holds fewer units than the transfer moves.
    InsufficientFunds,
    /// The receiving account's balance would exceed the largest amount.
    Overflow,
}

} // verus!
