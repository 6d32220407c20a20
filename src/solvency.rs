//! Whether the vault still covers every active principal. The vault pays
//! rewards out of the same balance, so claims can leave it short.
use vstd::prelude::*;

use crate::state::{HoldingAccount, StakeState};

verus! {

/// The principal held by `records`, together.
pub open spec fn total_principal(records: Seq<StakeState>) -> int
    decreases records.len(),
{
    if records.len() == 0 {
        0
    } else {
        total_principal(records.drop_last()) + records.last().amount
    }
}

proof fn lemma_total_principal_nonneg(records: Seq<StakeState>)
    ensures
        total_principal(records) >= 0,
    decreases records.len(),
{
    if records.len() > 0 {
        lemma_total_principal_nonneg(records.drop_last());
    }
}

/// Whether `vault` holds at least the principal of every record in `records`;
/// `false` flags an insolvent pool.
pub fn covers_principals(vault: &HoldingAccount, records: &Vec<StakeState>) -> (r: bool)
    ensures
        r == (vault.amount >= total_principal(records@)),
{
    let mut total: u64 = 0;
    let mut i: usize = 0;
    while i < records.len()
        invariant
            i <= records@.len(),
            total == total_principal(records@.take(i as int)),
            total <= vault.amount,
        decreases records@.len() - i,
    {
        assert(records@.take(i as int + 1).drop_last() =~= records@.take(i as int));
        let amount = records[i].amount;
        if amount > vault.amount - total {
            proof {
                lemma_total_principal_nonneg(records@.skip(i as int + 1));
                lemma_total_principal_split(records@, i as int + 1);
            }
            return false;
        }
        total = total + amount;
        i = i + 1;
    }
    assert(records@.take(i as int) =~= records@);
    true
}

/// The total over a sequence is the total over its first `n` records plus
/// the total over the rest.
proof fn lemma_total_principal_split(records: Seq<StakeState>, n: int)
    requires
        0 <= n <= records.len(),
    ensures
        total_principal(records) == total_principal(records.take(n)) + total_principal(records.skip(n)),
    decreases records.len(),
{
    if n < records.len() {
        lemma_total_principal_split(records.drop_last(), n);
        assert(records.drop_last().take(n) =~= records.take(n));
        assert(records.skip(n).drop_last() =~= records.drop_last().skip(n));
        assert(records.skip(n).last() == records.last());
    } else {
        assert(records.take(n) =~= records);
        assert(records.skip(n).len() == 0);
    }
}

} // verus!
