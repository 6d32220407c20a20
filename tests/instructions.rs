use staking::authority::{check_vault, vault_authority};
use staking::key::Key;
use staking::reward::{claimable_reward, compute_reward, PerformanceMetrics};
use staking::staking::{
    active_record, check_new_stake, claim_rewards, create_vault, initialize_stake, new_vault,
    open_stake, unstake, ClaimRewards, CreateVault, InitializeStake, Unstake,
};
use staking::solvency::covers_principals;
use staking::state::{CustomError, HoldingAccount, StakeState};
use staking::transfer::transfer;

const DAY: i64 = 86400;
const START: i64 = 1_700_000_000;

fn program() -> Key {
    Key::new([7u8; 32])
}

fn user() -> Key {
    Key::new([1u8; 32])
}

fn mint() -> Key {
    Key::new([9u8; 32])
}

fn vault(amount: u64) -> HoldingAccount {
    let address = vault_authority(&program()).expect("a vault address exists");
    HoldingAccount { key: address, mint: mint(), owner: address, amount }
}

fn wallet(amount: u64) -> HoldingAccount {
    HoldingAccount { key: Key::new([2u8; 32]), mint: mint(), owner: user(), amount }
}

fn stake_ctx(balance: u64) -> InitializeStake {
    InitializeStake {
        user: user(),
        user_token_account: wallet(balance),
        stake_state: None,
        stake_vault: vault(0),
        mint: mint(),
        now: START,
        program_id: program(),
    }
}

fn record(amount: u64, last: i64) -> StakeState {
    StakeState { staker: user(), amount, start_time: START, last_claim_time: last }
}

fn claim_ctx(amount: u64, vault_balance: u64, now: i64) -> ClaimRewards {
    ClaimRewards {
        user: user(),
        user_token_account: wallet(0),
        stake_state: Some(record(amount, START)),
        stake_vault: vault(vault_balance),
        now,
        metrics: PerformanceMetrics::fixed(),
        program_id: program(),
    }
}

fn unstake_ctx(amount: u64, vault_balance: u64) -> Unstake {
    Unstake {
        user: user(),
        user_token_account: wallet(0),
        stake_state: Some(record(amount, START)),
        stake_vault: vault(vault_balance),
        program_id: program(),
    }
}

#[test]
fn documented_reward_example() {
    let m = PerformanceMetrics::fixed();
    assert_eq!(compute_reward(1_000_000, 1, &m), 249);
}

#[test]
fn reward_multiplies_before_flooring() {
    let m = PerformanceMetrics::fixed();
    // 249.8 a day: three days give 749.4, not 3 * 249.
    assert_eq!(compute_reward(1_000_000, 3, &m), 749);
    assert_eq!(compute_reward(1_000_000, 0, &m), 0);
}

#[test]
fn reward_with_maintenance_lapsed() {
    let m = PerformanceMetrics {
        energy_output_milli_kwh: 5000,
        uptime_centi_percent: 9980,
        maintenance_compliant: false,
    };
    assert_eq!(m.combined_factor(), 19980);
    assert_eq!(compute_reward(1_000_000, 1, &m), 199);
}

#[test]
fn reward_energy_factor_is_capped() {
    let m = PerformanceMetrics {
        energy_output_milli_kwh: 25000,
        uptime_centi_percent: 10000,
        maintenance_compliant: true,
    };
    assert_eq!(m.combined_factor(), 30000);
    assert_eq!(compute_reward(1_000_000, 2, &m), 600);
}

#[test]
fn reward_saturates_at_largest_amount() {
    let m = PerformanceMetrics::fixed();
    assert_eq!(compute_reward(u64::MAX, u64::MAX, &m), u64::MAX);
    assert_eq!(compute_reward(u64::MAX, 1, &m), 4_607_996_669_612_645);
}

#[test]
fn claimable_reward_counts_whole_days() {
    let m = PerformanceMetrics::fixed();
    let r = record(1_000_000, START);
    assert_eq!(claimable_reward(&r, START + DAY + DAY / 2, &m), Ok(249));
    assert_eq!(claimable_reward(&r, START + DAY - 1, &m), Err(CustomError::NoRewardsAvailable));
    assert_eq!(claimable_reward(&r, START - 3 * DAY, &m), Err(CustomError::NoRewardsAvailable));
}

#[test]
fn vault_address_is_derived_from_program() {
    let a = vault_authority(&program()).unwrap();
    let b = vault_authority(&program()).unwrap();
    let c = vault_authority(&Key::new([8u8; 32])).unwrap();
    assert_eq!(a, b);
    assert_ne!(a.bytes, program().bytes);
    assert_ne!(a.bytes, c.bytes);
    assert_eq!(check_vault(&program(), &vault(0)), Ok(()));
    assert_eq!(check_vault(&Key::new([8u8; 32]), &vault(0)), Err(CustomError::InvalidVault));
}

#[test]
fn keys_compare_by_bytes() {
    let mut bytes = [1u8; 32];
    assert!(user().same_as(&Key::new(bytes)));
    bytes[31] = 0;
    assert!(!user().same_as(&Key::new(bytes)));
}

#[test]
fn initialize_stake_records_and_moves_principal() {
    let mut ctx = stake_ctx(5_000);
    assert_eq!(initialize_stake(&mut ctx, 1_200), Ok(()));
    assert_eq!(ctx.user_token_account.amount, 3_800);
    assert_eq!(ctx.stake_vault.amount, 1_200);
    let s = ctx.stake_state.unwrap();
    assert_eq!(s.staker, user());
    assert_eq!(s.amount, 1_200);
    assert_eq!(s.start_time, START);
    assert_eq!(s.last_claim_time, START);
}

#[test]
fn initialize_stake_rejects_duplicate() {
    let mut ctx = stake_ctx(5_000);
    assert_eq!(initialize_stake(&mut ctx, 1_000), Ok(()));
    let before = ctx;
    assert_eq!(initialize_stake(&mut ctx, 1_000), Err(CustomError::DuplicateStake));
    assert_eq!(ctx, before);
}

#[test]
fn initialize_stake_rejects_wrong_mint() {
    let mut ctx = stake_ctx(5_000);
    ctx.user_token_account.mint = Key::new([3u8; 32]);
    let before = ctx;
    assert_eq!(initialize_stake(&mut ctx, 10), Err(CustomError::InvalidMint));
    assert_eq!(ctx, before);
}

#[test]
fn initialize_stake_rejects_wrong_owner() {
    let mut ctx = stake_ctx(5_000);
    ctx.user_token_account.owner = Key::new([4u8; 32]);
    let before = ctx;
    assert_eq!(initialize_stake(&mut ctx, 10), Err(CustomError::InvalidOwner));
    assert_eq!(ctx, before);
}

#[test]
fn initialize_stake_rejects_zero_amount() {
    let mut ctx = stake_ctx(5_000);
    assert_eq!(initialize_stake(&mut ctx, 0), Err(CustomError::InvalidAmount));
    assert!(ctx.stake_state.is_none());
}

#[test]
fn initialize_stake_rejects_foreign_vault() {
    let mut ctx = stake_ctx(5_000);
    ctx.stake_vault.key = Key::new([5u8; 32]);
    let before = ctx;
    assert_eq!(initialize_stake(&mut ctx, 10), Err(CustomError::InvalidVault));
    assert_eq!(ctx, before);
}

#[test]
fn initialize_stake_rejects_short_balance() {
    let mut ctx = stake_ctx(99);
    let before = ctx;
    assert_eq!(initialize_stake(&mut ctx, 100), Err(CustomError::InsufficientFunds));
    assert_eq!(ctx, before);
}

#[test]
fn initialize_stake_rejects_vault_overflow() {
    let mut ctx = stake_ctx(100);
    ctx.stake_vault.amount = u64::MAX - 50;
    let before = ctx;
    assert_eq!(initialize_stake(&mut ctx, 100), Err(CustomError::Overflow));
    assert_eq!(ctx, before);
}

#[test]
fn create_vault_twice_is_refused() {
    let mut ctx = CreateVault { payer: user(), program_id: program(), vault: None, mint: mint() };
    assert_eq!(create_vault(&mut ctx), Ok(()));
    let v = ctx.vault.unwrap();
    assert_eq!(v, vault(0));
    assert_eq!(create_vault(&mut ctx), Err(CustomError::VaultAlreadyExists));
    assert_eq!(ctx.vault, Some(v));
}

#[test]
fn unstake_returns_principal_and_closes_record() {
    let mut ctx = unstake_ctx(1_000, 1_500);
    assert_eq!(unstake(&mut ctx), Ok(()));
    assert_eq!(ctx.user_token_account.amount, 1_000);
    assert_eq!(ctx.stake_vault.amount, 500);
    assert!(ctx.stake_state.is_none());
    let before = ctx;
    assert_eq!(unstake(&mut ctx), Err(CustomError::NoActiveStake));
    assert_eq!(ctx, before);
}

#[test]
fn unstake_of_another_stakers_record_is_refused() {
    let mut ctx = unstake_ctx(1_000, 1_500);
    ctx.user = Key::new([6u8; 32]);
    assert_eq!(unstake(&mut ctx), Err(CustomError::NoActiveStake));
    assert_eq!(ctx.stake_vault.amount, 1_500);
}

#[test]
fn stake_then_unstake_round_trip() {
    let mut s = stake_ctx(10_000);
    assert_eq!(initialize_stake(&mut s, 4_000), Ok(()));
    let mut u = Unstake {
        user: s.user,
        user_token_account: s.user_token_account,
        stake_state: s.stake_state,
        stake_vault: s.stake_vault,
        program_id: s.program_id,
    };
    assert_eq!(unstake(&mut u), Ok(()));
    assert_eq!(u.user_token_account, wallet(10_000));
    assert_eq!(u.stake_vault, vault(0));
    assert!(u.stake_state.is_none());
}

#[test]
fn claim_within_a_day_changes_nothing() {
    let mut ctx = claim_ctx(1_000_000, 2_000_000, START + DAY - 1);
    let before = ctx;
    assert_eq!(claim_rewards(&mut ctx), Err(CustomError::NoRewardsAvailable));
    assert_eq!(ctx, before);
}

#[test]
fn claim_pays_whole_days_and_resets_clock() {
    let mut ctx = claim_ctx(1_000_000, 2_000_000, START + DAY + 500);
    assert_eq!(claim_rewards(&mut ctx), Ok(()));
    assert_eq!(ctx.user_token_account.amount, 249);
    assert_eq!(ctx.stake_vault.amount, 2_000_000 - 249);
    let s = ctx.stake_state.unwrap();
    assert_eq!(s.last_claim_time, START + DAY + 500);
    assert_eq!(s.start_time, START);
    assert_eq!(s.amount, 1_000_000);
}

#[test]
fn successive_claims_advance_claim_time() {
    let mut ctx = claim_ctx(1_000_000, 2_000_000, START + 2 * DAY);
    assert_eq!(claim_rewards(&mut ctx), Ok(()));
    let first = ctx.stake_state.unwrap().last_claim_time;
    assert_eq!(claim_rewards(&mut ctx), Err(CustomError::NoRewardsAvailable));
    ctx.now = START + 3 * DAY;
    assert_eq!(claim_rewards(&mut ctx), Ok(()));
    let second = ctx.stake_state.unwrap().last_claim_time;
    assert!(second > first);
    assert_eq!(ctx.user_token_account.amount, 499 + 249);
}

#[test]
fn claim_of_dust_reward_is_refused() {
    let mut ctx = claim_ctx(1, 100, START + 10 * DAY);
    let before = ctx;
    assert_eq!(claim_rewards(&mut ctx), Err(CustomError::NoRewardsAvailable));
    assert_eq!(ctx, before);
}

#[test]
fn claim_from_underfunded_vault_is_refused() {
    // The vault holds less than the reward: the pool is insolvent and the
    // payout fails rather than overdrawing it.
    let mut ctx = claim_ctx(1_000_000, 100, START + DAY);
    let before = ctx;
    assert_eq!(claim_rewards(&mut ctx), Err(CustomError::InsufficientFunds));
    assert_eq!(ctx, before);
}

#[test]
fn claim_without_stake_is_refused() {
    let mut ctx = claim_ctx(1_000_000, 2_000_000, START + DAY);
    ctx.stake_state = None;
    assert_eq!(claim_rewards(&mut ctx), Err(CustomError::NoActiveStake));
}

#[test]
fn decisions_for_an_outside_host() {
    let m = PerformanceMetrics::fixed();
    assert_eq!(check_new_stake(&user(), &wallet(10), &mint(), &None, 10), Ok(()));
    let s = open_stake(user(), 10, START);
    assert_eq!(s, record(10, START));
    assert_eq!(
        check_new_stake(&user(), &wallet(10), &mint(), &Some(s), 10),
        Err(CustomError::DuplicateStake)
    );
    assert_eq!(active_record(&user(), &Some(s)), Ok(s));
    assert_eq!(active_record(&mint(), &Some(s)), Err(CustomError::NoActiveStake));
    let address = vault_authority(&program()).unwrap();
    assert_eq!(new_vault(address, mint()), vault(0));
    assert_eq!(claimable_reward(&record(2_000_000, START), START + DAY, &m), Ok(499));
}

#[test]
fn transfer_moves_exact_amount() {
    let mut a = wallet(100);
    let mut b = vault(5);
    assert_eq!(transfer(&mut a, &mut b, &user(), 40), Ok(()));
    assert_eq!((a.amount, b.amount), (60, 45));
    assert_eq!(transfer(&mut a, &mut b, &mint(), 1), Err(CustomError::InvalidOwner));
    assert_eq!((a.amount, b.amount), (60, 45));
}

#[test]
fn claim_paid_from_principal_is_flagged_insolvent() {
    // The vault holds exactly the one active principal; the claim is paid out
    // of it, after which the vault no longer covers the principal.
    let mut ctx = claim_ctx(1_000_000, 1_000_000, START + DAY);
    let records = vec![ctx.stake_state.unwrap()];
    assert!(covers_principals(&ctx.stake_vault, &records));
    assert_eq!(claim_rewards(&mut ctx), Ok(()));
    let records = vec![ctx.stake_state.unwrap()];
    assert!(!covers_principals(&ctx.stake_vault, &records));
}

#[test]
fn covers_principals_sums_every_record() {
    let records = vec![record(10, START), record(20, START), record(30, START)];
    assert!(covers_principals(&vault(60), &records));
    assert!(!covers_principals(&vault(59), &records));
    assert!(covers_principals(&vault(0), &Vec::new()));
    let huge = vec![record(u64::MAX, START), record(u64::MAX, START)];
    assert!(!covers_principals(&vault(u64::MAX), &huge));
}
