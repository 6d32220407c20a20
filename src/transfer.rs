//! Atomic movement of value between two holding accounts.
use vstd::prelude::*;

use crate::key::Key;
use crate::state::{CustomError, HoldingAccount};

verus! {

/// Why moving `amount` from `from` to `to`, authorized by `authority`, is
/// refused; `None` when it goes through.
pub open spec fn transfer_error(
    from: HoldingAccount,
    to: HoldingAccount,
    authority: Key,
    amount: u64,
) -> Option<CustomError> {
    if from.mint@ != to.mint@ {
        Some(CustomError::InvalidMint)
    } else if from.owner@ != authority@ {
        Some(CustomError::InvalidOwner)
    } else if from.amount < amount {
        Some(CustomError::InsufficientFunds)
    } else if to.amount + amount > u64::MAX {
        Some(CustomError::Overflow)
    } else {
        None
    }
}

/// Moves `amount` units from `from` to `to`, all or nothing.
pub fn transfer(
    from: &mut HoldingAccount,
    to: &mut HoldingAccount,
    authority: &Key,
    amount: u64,
) -> (r: Result<(), CustomError>)
    ensures
        r is Ok <==> transfer_error(*old(from), *old(to), *authority, amount) is None,
        r is Ok ==> *final(from) == old(from).with_amount(old(from).amount - amount)
            && *final(to) == old(to).with_amount(old(to).amount + amount),
        r matches Err(e) ==> transfer_error(*old(from), *old(to), *authority, amount) == Some(e)
            && *final(from) == *old(from) && *final(to) == *old(to),
{
    if !from.mint.same_as(&to.mint) {
        return Err(CustomError::InvalidMint);
    }
    if !from.owner.same_as(authority) {
        return Err(CustomError::InvalidOwner);
    }
    if from.amount < amount {
        return Err(CustomError::InsufficientFunds);
    }
    if to.amount > u64::MAX - amount {
        return Err(CustomError::Overflow);
    }
    from.amount = from.amount - amount;
    to.amount = to.amount + amount;
    Ok(())
}

} // verus!
