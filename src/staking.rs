//! The pool's four instructions, each over the accounts it is handed.
//!
//! Each instruction takes its accounts as one value and either applies all of
//! its effects to them or returns an error and leaves them as they were. The
//! decisions inside them (`check_new_stake`, `active_record`,
//! `claimable_reward`, `open_stake`, `new_vault`) are public too, for a host
//! that moves value by other means.
use vstd::prelude::*;

use crate::authority::{check_vault, is_vault, vault_address, vault_authority};
use crate::key::Key;
use crate::reward::{PerformanceMetrics, claim_amount, claimable_reward};
use crate::state::{CustomError, HoldingAccount, StakeState};
use crate::transfer::{transfer, transfer_error};

verus! {

/// Accounts of a new stake: the staker's holding account pays into the vault.
#[derive(Clone, Copy, Debug, PartialEq, Eq)]
pub struct InitializeStake {
    pub user: Key,
    pub user_token_account: HoldingAccount,
    /// The staker's record, if one exists already.
    pub stake_state: Option<StakeState>,
    pub stake_vault: HoldingAccount,
    /// The pool's value type.
    pub mint: Key,
    /// The clock, in seconds since the epoch.
    pub now: i64,
    /// The program whose derived authority owns the vault.
    pub program_id: Key,
}

/// Accounts of the vault's creation, at the address derived for the program.
#[derive(Clone, Copy, Debug, PartialEq, Eq)]
pub struct CreateVault {
    pub payer: Key,
    pub program_id: Key,
    /// The vault, once it exists.
    pub vault: Option<HoldingAccount>,
    pub mint: Key,
}

/// Accounts of a withdrawal of the principal.
#[derive(Clone, Copy, Debug, PartialEq, Eq)]
pub struct Unstake {
    pub user: Key,
    pub user_token_account: HoldingAccount,
    pub stake_state: Option<StakeState>,
    pub stake_vault: HoldingAccount,
    pub program_id: Key,
}

/// Accounts of a reward claim.
#[derive(Clone, Copy, Debug, PartialEq, Eq)]
pub struct ClaimRewards {
    pub user: Key,
    pub user_token_account: HoldingAccount,
    pub stake_state: Option<StakeState>,
    pub stake_vault: HoldingAccount,
    /// The clock, in seconds since the epoch.
    pub now: i64,
    pub metrics: PerformanceMetrics,
    pub program_id: Key,
}

/// Why `user` cannot open a stake of `amount` from `account`; checked before
/// any value moves.
pub open spec fn stake_request_error(
    user: Key,
    account: HoldingAccount,
    mint: Key,
    existing: Option<StakeState>,
    amount: u64,
) -> Option<CustomError> {
    if existing is Some {
        Some(CustomError::DuplicateStake)
    } else if amount == 0 {
        Some(CustomError::InvalidAmount)
    } else if account.mint@ != mint@ {
        Some(CustomError::InvalidMint)
    } else if account.owner@ != user@ {
        Some(CustomError::InvalidOwner)
    } else {
        None
    }
}

pub open spec fn new_stake(user: Key, amount: u64, now: i64) -> StakeState {
    StakeState { staker: user, amount, start_time: now, last_claim_time: now }
}

pub open spec fn initialize_stake_error(c: InitializeStake, amount: u64) -> Option<CustomError> {
    let request = stake_request_error(c.user, c.user_token_account, c.mint, c.stake_state, amount);
    if c.stake_state is Some {
        Some(CustomError::DuplicateStake)
    } else if !is_vault(c.program_id, c.stake_vault) {
        Some(CustomError::InvalidVault)
    } else if request is Some {
        request
    } else {
        transfer_error(c.user_token_account, c.stake_vault, c.user, amount)
    }
}

/// The accounts after a successful stake of `amount`.
pub open spec fn staked(c: InitializeStake, amount: u64) -> InitializeStake {
    InitializeStake {
        user_token_account: c.user_token_account.with_amount(c.user_token_account.amount - amount),
        stake_vault: c.stake_vault.with_amount(c.stake_vault.amount + amount),
        stake_state: Some(new_stake(c.user, amount, c.now)),
        ..c
    }
}

pub open spec fn create_vault_error(c: CreateVault) -> Option<CustomError> {
    if c.vault is Some {
        Some(CustomError::VaultAlreadyExists)
    } else if vault_address(c.program_id@) is None {
        Some(CustomError::InvalidVault)
    } else {
        None
    }
}

/// An empty vault of `mint`, owned by the derived authority at `address`.
pub open spec fn empty_vault(address: Key, mint: Key) -> HoldingAccount {
    HoldingAccount { key: address, mint, owner: address, amount: 0 }
}

/// `after` is `c` with an empty vault of the pool's value type created at
/// the program's vault address and owned by it.
pub open spec fn vault_created(c: CreateVault, after: CreateVault) -> bool {
    &&& after.vault matches Some(v) && v == empty_vault(v.key, c.mint)
        && vault_address(c.program_id@) == Some(v.key@)
    &&& after == (CreateVault { vault: after.vault, ..c })
}

/// `user` holds an active stake in `record`.
pub open spec fn active_stake(user: Key, record: Option<StakeState>) -> bool {
    record matches Some(s) && s.staker@ == user@
}

pub open spec fn unstake_error(c: Unstake) -> Option<CustomError> {
    if !active_stake(c.user, c.stake_state) {
        Some(CustomError::NoActiveStake)
    } else if !is_vault(c.program_id, c.stake_vault) {
        Some(CustomError::InvalidVault)
    } else {
        transfer_error(c.stake_vault, c.user_token_account, c.stake_vault.key, c.stake_state->0.amount)
    }
}

/// The accounts after the principal went back and the record was closed.
pub open spec fn unstaked(c: Unstake) -> Unstake {
    let amount = c.stake_state->0.amount;
    Unstake {
        stake_vault: c.stake_vault.with_amount(c.stake_vault.amount - amount),
        user_token_account: c.user_token_account.with_amount(c.user_token_account.amount + amount),
        stake_state: None,
        ..c
    }
}

pub open spec fn claim_rewards_error(c: ClaimRewards) -> Option<CustomError> {
    if !active_stake(c.user, c.stake_state) {
        Some(CustomError::NoActiveStake)
    } else if !is_vault(c.program_id, c.stake_vault) {
        Some(CustomError::InvalidVault)
    } else if claim_amount(c.stake_state->0, c.now, c.metrics) == 0 {
        Some(CustomError::NoRewardsAvailable)
    } else {
        transfer_error(
            c.stake_vault,
            c.user_token_account,
            c.stake_vault.key,
            claim_amount(c.stake_state->0, c.now, c.metrics) as u64,
        )
    }
}

/// The accounts after the reward was paid and the claim time reset to now.
pub open spec fn claimed(c: ClaimRewards) -> ClaimRewards {
    let record = c.stake_state->0;
    let reward = claim_amount(record, c.now, c.metrics);
    ClaimRewards {
        stake_vault: c.stake_vault.with_amount(c.stake_vault.amount - reward),
        user_token_account: c.user_token_account.with_amount(c.user_token_account.amount + reward),
        stake_state: Some(StakeState { last_claim_time: c.now, ..record }),
        ..c
    }
}

/// Checks that `user` may open a stake of `amount` paid from `account`.
pub fn check_new_stake(
    user: &Key,
    account: &HoldingAccount,
    mint: &Key,
    existing: &Option<StakeState>,
    amount: u64,
) -> (r: Result<(), CustomError>)
    ensures
        r is Ok <==> stake_request_error(*user, *account, *mint, *existing, amount) is None,
        r matches Err(e) ==> stake_request_error(*user, *account, *mint, *existing, amount) == Some(e),
{
    if existing.is_some() {
        return Err(CustomError::DuplicateStake);
    }
    if amount == 0 {
        return Err(CustomError::InvalidAmount);
    }
    if !account.mint.same_as(mint) {
        return Err(CustomError::InvalidMint);
    }
    if !account.owner.same_as(user) {
        return Err(CustomError::InvalidOwner);
    }
    Ok(())
}

/// The record of a stake of `amount` opened by `user` at `now`.
pub fn open_stake(user: Key, amount: u64, now: i64) -> (r: StakeState)
    ensures
        r == new_stake(user, amount, now),
{
    StakeState { staker: user, amount, start_time: now, last_claim_time: now }
}

/// `user`'s active record, or `NoActiveStake`.
pub fn active_record(user: &Key, record: &Option<StakeState>) -> (r: Result<StakeState, CustomError>)
    ensures
        r is Ok <==> active_stake(*user, *record),
        r matches Ok(s) ==> *record == Some(s),
        r matches Err(e) ==> e == CustomError::NoActiveStake,
{
    match record {
        Some(s) => {
            if s.staker.same_as(user) {
                Ok(*s)
            } else {
                Err(CustomError::NoActiveStake)
            }
        },
        None => Err(CustomError::NoActiveStake),
    }
}

/// A new, empty vault of `mint` under the derived authority `address`.
pub fn new_vault(address: Key, mint: Key) -> (r: HoldingAccount)
    ensures
        r == empty_vault(address, mint),
{
    HoldingAccount { key: address, mint, owner: address, amount: 0 }
}

/// Opens a stake: moves `amount` from the staker's holding account into the
/// vault and records it with both timestamps at the current time.
pub fn initialize_stake(ctx: &mut InitializeStake, amount: u64) -> (r: Result<(), CustomError>)
    ensures
        r is Ok <==> initialize_stake_error(*old(ctx), amount) is None,
        r is Ok ==> *final(ctx) == staked(*old(ctx), amount),
        r matches Err(e) ==> initialize_stake_error(*old(ctx), amount) == Some(e)
            && *final(ctx) == *old(ctx),
{
    if ctx.stake_state.is_some() {
        return Err(CustomError::DuplicateStake);
    }
    match check_vault(&ctx.program_id, &ctx.stake_vault) {
        Ok(()) => {},
        Err(e) => return Err(e),
    }
    match check_new_stake(&ctx.user, &ctx.user_token_account, &ctx.mint, &ctx.stake_state, amount) {
        Ok(()) => {},
        Err(e) => return Err(e),
    }
    let user = ctx.user;
    match transfer(&mut ctx.user_token_account, &mut ctx.stake_vault, &user, amount) {
        Ok(()) => {},
        Err(e) => return Err(e),
    }
    ctx.stake_state = Some(open_stake(user, amount, ctx.now));
    Ok(())
}

/// Creates the pool's vault, once: a retry is refused and changes nothing.
pub fn create_vault(ctx: &mut CreateVault) -> (r: Result<(), CustomError>)
    ensures
        r is Ok <==> create_vault_error(*old(ctx)) is None,
        r is Ok ==> vault_created(*old(ctx), *final(ctx)),
        r matches Err(e) ==> create_vault_error(*old(ctx)) == Some(e) && *final(ctx) == *old(ctx),
{
    if ctx.vault.is_some() {
        return Err(CustomError::VaultAlreadyExists);
    }
    let address = match vault_authority(&ctx.program_id) {
        Some(a) => a,
        None => return Err(CustomError::InvalidVault),
    };
    ctx.vault = Some(new_vault(address, ctx.mint));
    Ok(())
}

/// Returns the whole principal from the vault to the staker, on the vault's
/// own authority, and closes the record.
pub fn unstake(ctx: &mut Unstake) -> (r: Result<(), CustomError>)
    ensures
        r is Ok <==> unstake_error(*old(ctx)) is None,
        r is Ok ==> *final(ctx) == unstaked(*old(ctx)),
        r matches Err(e) ==> unstake_error(*old(ctx)) == Some(e) && *final(ctx) == *old(ctx),
{
    let record = match active_record(&ctx.user, &ctx.stake_state) {
        Ok(s) => s,
        Err(e) => return Err(e),
    };
    match check_vault(&ctx.program_id, &ctx.stake_vault) {
        Ok(()) => {},
        Err(e) => return Err(e),
    }
    let authority = ctx.stake_vault.key;
    match transfer(&mut ctx.stake_vault, &mut ctx.user_token_account, &authority, record.amount) {
        Ok(()) => {},
        Err(e) => return Err(e),
    }
    ctx.stake_state = None;
    Ok(())
}

/// Pays what has accrued since the last claim from the vault to the staker
/// and resets the claim time to now.
pub fn claim_rewards(ctx: &mut ClaimRewards) -> (r: Result<(), CustomError>)
    ensures
        r is Ok <==> claim_rewards_error(*old(ctx)) is None,
        r is Ok ==> *final(ctx) == claimed(*old(ctx)),
        r matches Err(e) ==> claim_rewards_error(*old(ctx)) == Some(e) && *final(ctx) == *old(ctx),
{
    let record = match active_record(&ctx.user, &ctx.stake_state) {
        Ok(s) => s,
        Err(e) => return Err(e),
    };
    match check_vault(&ctx.program_id, &ctx.stake_vault) {
        Ok(()) => {},
        Err(e) => return Err(e),
    }
    let reward = match claimable_reward(&record, ctx.now, &ctx.metrics) {
        Ok(n) => n,
        Err(e) => return Err(e),
    };
    let authority = ctx.stake_vault.key;
    match transfer(&mut ctx.stake_vault, &mut ctx.user_token_account, &authority, reward) {
        Ok(()) => {},
        Err(e) => return Err(e),
    }
    ctx.stake_state = Some(StakeState { last_claim_time: ctx.now, ..record });
    Ok(())
}

} // verus!
