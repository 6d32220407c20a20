//! Properties of the instructions taken together, proved over the same
//! spec functions their contracts use.
use vstd::prelude::*;

use crate::authority::is_vault;
use crate::reward::{SECONDS_PER_DAY, claim_amount, elapsed_days, reward_of};
use crate::staking::{
    ClaimRewards, CreateVault, InitializeStake, Unstake, claim_rewards_error, claimed,
    create_vault_error, initialize_stake_error, staked, unstake_error, unstaked, vault_created,
};
use crate::state::CustomError;

verus! {

/// A successful stake of `amount` records exactly that principal, with the
/// start and last-claim times both at the current time, and moves exactly
/// `amount` from the staker's account into the vault.
pub proof fn stake_records_principal(c: InitializeStake, amount: u64)
    requires
        initialize_stake_error(c, amount) is None,
    ensures
        amount > 0,
        staked(c, amount).stake_state matches Some(s) && s.amount == amount && s.staker == c.user
            && s.start_time == c.now && s.last_claim_time == c.now && s.wf(),
        staked(c, amount).stake_vault.amount == c.stake_vault.amount + amount,
        staked(c, amount).user_token_account.amount == c.user_token_account.amount - amount,
{
}

/// Within a day of the last claim nothing has accrued, so a claim fails (and,
/// by `claim_rewards`'s contract, changes nothing).
pub proof fn claim_within_a_day_fails(c: ClaimRewards)
    requires
        c.stake_state is Some,
        c.now - c.stake_state->0.last_claim_time < SECONDS_PER_DAY,
    ensures
        claim_amount(c.stake_state->0, c.now, c.metrics) == 0,
        claim_rewards_error(c) is Some,
        c.stake_state->0.staker@ == c.user@ && is_vault(c.program_id, c.stake_vault)
            ==> claim_rewards_error(c) == Some(
            CustomError::NoRewardsAvailable,
        ),
{
    let record = c.stake_state->0;
    assert(elapsed_days(record.last_claim_time, c.now) == 0);
    assert(reward_of(record.amount as int, 0, c.metrics) == 0);
}

/// Unstaking pays back exactly the recorded principal and closes the record,
/// so unstaking again fails with `NoActiveStake`.
pub proof fn unstake_pays_principal_once(c: Unstake)
    requires
        unstake_error(c) is None,
    ensures
        unstaked(c).user_token_account.amount == c.user_token_account.amount
            + c.stake_state->0.amount,
        unstaked(c).stake_vault.amount == c.stake_vault.amount - c.stake_state->0.amount,
        unstaked(c).stake_state is None,
        unstake_error(unstaked(c)) == Some(CustomError::NoActiveStake),
{
}

/// A successful claim moves the claim time strictly forward, keeps the
/// record well formed, and takes the reward out of the vault without
/// overdrawing it.
pub proof fn claim_advances_claim_time(c: ClaimRewards)
    requires
        claim_rewards_error(c) is None,
    ensures
        claimed(c).stake_state->0.last_claim_time > c.stake_state->0.last_claim_time,
        c.stake_state->0.wf() ==> claimed(c).stake_state->0.wf(),
        claim_amount(c.stake_state->0, c.now, c.metrics) <= c.stake_vault.amount,
        claimed(c).stake_vault.amount == c.stake_vault.amount - claim_amount(
            c.stake_state->0,
            c.now,
            c.metrics,
        ),
{
    let record = c.stake_state->0;
    if c.now < record.last_claim_time + SECONDS_PER_DAY {
        claim_within_a_day_fails(c);
    }
}

/// The accounts an unstake sees right after a stake by the same staker.
pub open spec fn unstake_after(c: InitializeStake, amount: u64) -> Unstake {
    let s = staked(c, amount);
    Unstake {
        user: s.user,
        user_token_account: s.user_token_account,
        stake_state: s.stake_state,
        stake_vault: s.stake_vault,
        program_id: s.program_id,
    }
}

/// Staking and unstaking at once returns exactly the principal: both holding
/// accounts are back as they were, no reward is paid and the record is gone.
/// The vault is owned by its own derived authority, as `create_vault` makes it.
pub proof fn stake_then_unstake_round_trip(c: InitializeStake, amount: u64)
    requires
        initialize_stake_error(c, amount) is None,
        c.stake_vault.owner == c.stake_vault.key,
    ensures
        unstake_error(unstake_after(c, amount)) is None,
        unstaked(unstake_after(c, amount)).user_token_account == c.user_token_account,
        unstaked(unstake_after(c, amount)).stake_vault == c.stake_vault,
        unstaked(unstake_after(c, amount)).stake_state is None,
{
    let u = unstake_after(c, amount);
    assert(unstaked(u).user_token_account == c.user_token_account);
    assert(unstaked(u).stake_vault == c.stake_vault);
}

/// The vault is created once, empty and at the address derived for the
/// program, so two creations can only ever name the same pool; a second
/// creation is refused (and, by `create_vault`'s contract, changes nothing).
pub proof fn create_vault_once(c: CreateVault, after: CreateVault, other: CreateVault, other_after: CreateVault)
    requires
        create_vault_error(c) is None,
        vault_created(c, after),
        vault_created(other, other_after),
        other.program_id == c.program_id,
    ensures
        after.vault matches Some(v) && v.amount == 0 && v.owner == v.key && v.mint == c.mint,
        create_vault_error(after) == Some(CustomError::VaultAlreadyExists),
        other_after.vault->0.key@ == after.vault->0.key@,
{
}

} // verus!
