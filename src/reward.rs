//! The reward engine: fixed-point daily yield from principal, elapsed whole
//! days and performance metrics.
//!
//! Factors are counted in ten-thousandths (`FACTOR_ONE` is a factor of 1.0),
//! and the base rate is one ten-thousandth of the principal per day, so a
//! day's reward is `amount * factor / 10^8` and is floored once, after the
//! multiplication by the number of days.
use vstd::prelude::*;

use crate::state::{CustomError, StakeState};

verus! {

pub const SECONDS_PER_DAY: i64 = 86400;

/// A factor of 1.0, in ten-thousandths.
pub const FACTOR_ONE: u64 = 10000;

/// Divisor that turns `amount * factor * days` into whole units: the base
/// rate (one ten-thousandth) times the factor scale.
pub const REWARD_DIVISOR: u128 = 100000000;

/// Performance inputs of the reward formula.
#[derive(Clone, Copy, Debug, PartialEq, Eq)]
pub struct PerformanceMetrics {
    /// Daily energy output in thousandths of a kWh (5000 is 5 kWh).
    pub energy_output_milli_kwh: u64,
    /// Uptime in hundredths of a percent (9980 is 99.8 %).
    pub uptime_centi_percent: u32,
    /// Whether maintenance is up to date.
    pub maintenance_compliant: bool,
}

/// Energy output over 10 kWh, capped at 1.0.
pub open spec fn energy_factor(m: PerformanceMetrics) -> int {
    if m.energy_output_milli_kwh >= FACTOR_ONE {
        FACTOR_ONE as int
    } else {
        m.energy_output_milli_kwh as int
    }
}

/// Uptime percentage over 100.
pub open spec fn uptime_factor(m: PerformanceMetrics) -> int {
    m.uptime_centi_percent as int
}

/// 1.0 when maintenance is compliant, 0.5 otherwise.
pub open spec fn maintenance_factor(m: PerformanceMetrics) -> int {
    if m.maintenance_compliant {
        FACTOR_ONE as int
    } else {
        (FACTOR_ONE / 2) as int
    }
}

pub open spec fn combined_factor(m: PerformanceMetrics) -> int {
    energy_factor(m) + uptime_factor(m) + maintenance_factor(m)
}

/// The reward for `days` whole days on `amount` of principal, floored to
/// whole units; a total beyond the largest amount saturates.
pub open spec fn reward_of(amount: int, days: int, m: PerformanceMetrics) -> int {
    let exact = amount * combined_factor(m) * days / (REWARD_DIVISOR as int);
    if exact > u64::MAX {
        u64::MAX as int
    } else {
        exact
    }
}

/// Whole days from `last` to `now`; none when the clock has not moved forward.
pub open spec fn elapsed_days(last: i64, now: i64) -> int {
    if now >= last {
        (now - last) / (SECONDS_PER_DAY as int)
    } else {
        0
    }
}

/// What a claim at `now` pays on `record`.
pub open spec fn claim_amount(record: StakeState, now: i64, m: PerformanceMetrics) -> int {
    reward_of(record.amount as int, elapsed_days(record.last_claim_time, now), m)
}

impl PerformanceMetrics {
    /// The metrics the pool currently rewards against: 5 kWh a day, 99.8 %
    /// uptime, maintenance up to date.
    pub fn fixed() -> (r: PerformanceMetrics)
        ensures
            r.energy_output_milli_kwh == 5000,
            r.uptime_centi_percent == 9980,
            r.maintenance_compliant,
    {
        PerformanceMetrics {
            energy_output_milli_kwh: 5000,
            uptime_centi_percent: 9980,
            maintenance_compliant: true,
        }
    }

    /// The sum of the three factors, in ten-thousandths.
    pub fn combined_factor(&self) -> (r: u64)
        ensures
            r == combined_factor(*self),
    {
        let energy: u64 = if self.energy_output_milli_kwh >= FACTOR_ONE {
            FACTOR_ONE
        } else {
            self.energy_output_milli_kwh
        };
        let maintenance: u64 = if self.maintenance_compliant {
            FACTOR_ONE
        } else {
            FACTOR_ONE / 2
        };
        energy + self.uptime_centi_percent as u64 + maintenance
    }
}

proof fn lemma_product_bound(amount: u64, factor: u64)
    requires
        factor < 0x1_0000_0000_0000,
    ensures
        amount as int * factor as int <= u128::MAX,
{
    assert(amount as int * factor as int <= 0xffff_ffff_ffff_ffff * 0x1_0000_0000_0000) by (nonlinear_arith)
        requires
            amount <= 0xffff_ffff_ffff_ffff,
            factor < 0x1_0000_0000_0000,
    ;
}

/// The reward for `days` whole days on `amount` of principal under `metrics`.
pub fn compute_reward(amount: u64, days: u64, metrics: &PerformanceMetrics) -> (r: u64)
    ensures
        r == reward_of(amount as int, days as int, *metrics),
{
    let factor = metrics.combined_factor();
    proof {
        lemma_product_bound(amount, factor);
    }
    let daily: u128 = amount as u128 * factor as u128;
    match daily.checked_mul(days as u128) {
        Some(total) => {
            assert(total == amount as int * combined_factor(*metrics) * days as int) by (nonlinear_arith)
                requires
                    total == daily * days,
                    daily == amount * factor,
                    factor == combined_factor(*metrics),
            ;
            let whole: u128 = total / REWARD_DIVISOR;
            if whole > u64::MAX as u128 {
                u64::MAX
            } else {
                whole as u64
            }
        },
        None => {
            assert(amount as int * combined_factor(*metrics) * days as int > u128::MAX) by (nonlinear_arith)
                requires
                    daily as int * days as int > u128::MAX,
                    daily == amount * factor,
                    factor == combined_factor(*metrics),
            ;
            u64::MAX
        },
    }
}

/// What a claim at `now` would pay on `record`: an error when that is nothing.
pub fn claimable_reward(record: &StakeState, now: i64, metrics: &PerformanceMetrics) -> (r: Result<u64, CustomError>)
    ensures
        r is Ok <==> claim_amount(*record, now, *metrics) > 0,
        r matches Ok(n) ==> n == claim_amount(*record, now, *metrics),
        r matches Err(e) ==> e == CustomError::NoRewardsAvailable,
{
    let elapsed: i128 = now as i128 - record.last_claim_time as i128;
    let days: u64 = if elapsed >= 0 {
        (elapsed as u64) / (SECONDS_PER_DAY as u64)
    } else {
        0
    };
    assert(days == elapsed_days(record.last_claim_time, now));
    if days == 0 {
        assert(claim_amount(*record, now, *metrics) == 0);
        return Err(CustomError::NoRewardsAvailable);
    }
    let reward = compute_reward(record.amount, days, metrics);
    if reward == 0 {
        return Err(CustomError::NoRewardsAvailable);
    }
    Ok(reward)
}

} // verus!
