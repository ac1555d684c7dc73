//! Stake sizing and the daily loss gate.
//!
//! A balance handed in for sizing is in whole currency units. Stakes, the
//! minimum stake and the loss counters are in ten-thousandths of a unit
//! (`STAKE_SCALE`), the scale at which a balance times a fraction in basis
//! points is exact.

use vstd::prelude::*;

verus! {

/// Basis points in a whole.
pub const BPS_SCALE: u64 = 10000;

/// Ten-thousandths of a currency unit in one unit.
pub const STAKE_SCALE: u64 = 10000;

/// The stake fraction used unless configured otherwise: 2% of the balance.
pub const DEFAULT_RISK_FRACTION_BPS: u64 = 200;

/// The smallest stake used unless configured otherwise: one whole unit.
pub const DEFAULT_MIN_STAKE: u64 = 10000;

/// Tracks the day's losses and sizes stakes as a fraction of the balance.
#[derive(Debug, Clone, Copy, PartialEq, Eq, Structural)]
pub struct RiskManager {
    pub daily_loss_limit: u64,
    pub current_loss: u64,
    pub initial_balance: u64,
    /// The stake as a fraction of the balance, in basis points.
    pub risk_fraction_bps: u64,
    pub min_stake: u64,
}

/// What the sizer allows for one bet.
#[derive(Debug, Clone, Copy, PartialEq, Eq, Structural)]
pub struct StakeDecision {
    pub amount: u64,
    pub daily_loss_remaining: u64,
}

/// The stake for `balance` whole units, in ten-thousandths of a unit: the
/// fraction of the balance, exactly, but never under `min_stake`.
pub open spec fn stake_for(balance: u64, fraction_bps: u64, min_stake: u64) -> int {
    let s = balance * fraction_bps;
    if s < min_stake {
        min_stake as int
    } else {
        s
    }
}

/// The loss counter after a cycle that realised `pnl`, kept within `0..=u64::MAX`.
pub open spec fn loss_after(loss: u64, pnl: i64) -> int {
    let v = loss - pnl;
    if v < 0 {
        0
    } else if v > u64::MAX {
        u64::MAX as int
    } else {
        v
    }
}

/// The stake offered for one bet at `balance`, or `None` when none may be placed.
pub open spec fn offered_stake(rm: RiskManager, balance: u64) -> Option<StakeDecision> {
    if rm.current_loss < rm.daily_loss_limit && rm.remaining() >= rm.min_stake {
        let s = stake_for(balance, rm.risk_fraction_bps, rm.min_stake);
        Some(
            StakeDecision {
                amount: (if s <= rm.remaining() {
                    s
                } else {
                    rm.remaining()
                }) as u64,
                daily_loss_remaining: rm.remaining() as u64,
            },
        )
    } else {
        None
    }
}

impl RiskManager {
    /// The fraction is at most the whole balance, and every stake is positive.
    pub open spec fn wf(&self) -> bool {
        &&& self.risk_fraction_bps <= BPS_SCALE
        &&& self.min_stake >= 1
    }

    /// The day's loss budget that is left.
    pub open spec fn remaining(&self) -> int {
        if self.current_loss < self.daily_loss_limit {
            self.daily_loss_limit - self.current_loss
        } else {
            0
        }
    }

    /// A manager with no loss yet and the default fraction and minimum.
    pub fn new(daily_loss_limit: u64, initial_balance: u64) -> (r: Self)
        ensures
            r.wf(),
            r == (RiskManager {
                daily_loss_limit,
                current_loss: 0,
                initial_balance,
                risk_fraction_bps: DEFAULT_RISK_FRACTION_BPS,
                min_stake: DEFAULT_MIN_STAKE,
            }),
    {
        RiskManager {
            daily_loss_limit,
            current_loss: 0,
            initial_balance,
            risk_fraction_bps: DEFAULT_RISK_FRACTION_BPS,
            min_stake: DEFAULT_MIN_STAKE,
        }
    }

    /// The stake for `current_balance` whole units, in ten-thousandths of a
    /// unit: the configured fraction of the balance, never less than the
    /// minimum stake.
    pub fn get_stake_amount(&self, current_balance: u64) -> (r: u128)
        ensures
            r == stake_for(current_balance, self.risk_fraction_bps, self.min_stake),
    {
        assert(current_balance * self.risk_fraction_bps <= u64::MAX * u64::MAX) by (nonlinear_arith);
        let s = current_balance as u128 * self.risk_fraction_bps as u128;
        if s < self.min_stake as u128 {
            self.min_stake as u128
        } else {
            s
        }
    }

    /// Trading is allowed while the day's loss is under its limit.
    pub fn can_trade(&self) -> (r: bool)
        ensures
            r == (self.current_loss < self.daily_loss_limit),
    {
        self.current_loss < self.daily_loss_limit
    }

    /// The stake for one bet: `None` when trading is not allowed or the budget
    /// left is under the minimum stake; otherwise the stake, capped by that budget.
    pub fn stake_decision(&self, current_balance: u64) -> (r: Option<StakeDecision>)
        requires
            self.wf(),
        ensures
            r == offered_stake(*self, current_balance),
            r is Some <==> self.current_loss < self.daily_loss_limit && self.remaining()
                >= self.min_stake,
            r matches Some(d) ==> 1 <= self.min_stake <= d.amount <= d.daily_loss_remaining,
    {
        if !self.can_trade() {
            return None;
        }
        let left = self.daily_loss_limit - self.current_loss;
        if left < self.min_stake {
            return None;
        }
        let stake = self.get_stake_amount(current_balance);
        let amount = if stake <= left as u128 {
            stake as u64
        } else {
            left
        };
        Some(StakeDecision { amount, daily_loss_remaining: left })
    }

    /// Books a cycle's realised profit (positive) or loss (negative) against the
    /// day's loss counter, which stays within `0..=u64::MAX`.
    pub fn record_pnl(&mut self, pnl: i64)
        ensures
            final(self).current_loss == loss_after(old(self).current_loss, pnl),
            final(self).daily_loss_limit == old(self).daily_loss_limit,
            final(self).initial_balance == old(self).initial_balance,
            final(self).risk_fraction_bps == old(self).risk_fraction_bps,
            final(self).min_stake == old(self).min_stake,
    {
        let v = self.current_loss as i128 - pnl as i128;
        self.current_loss = if v < 0 {
            0
        } else if v > u64::MAX as i128 {
            u64::MAX
        } else {
            v as u64
        };
    }
}

} // verus!
