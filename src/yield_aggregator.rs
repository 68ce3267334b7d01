//! Statistics of the yield pool.

use vstd::prelude::*;

use crate::math::trunc_div;
use crate::treasury::types::{percent_of_total, share_percent, MAX_LEDGER_BALANCE};

verus! {

/// How a deposit is split between the insurance fund and yield generation.
#[derive(Clone, Copy, Debug, PartialEq, Eq, Structural)]
pub struct YieldAllocation {
    pub insurance_percentage: u32,
    pub yield_percentage: u32,
}

impl Default for YieldAllocation {
    /// 10% insurance, 90% yield.
    fn default() -> (r: Self)
        ensures
            r.insurance_percentage == 10,
            r.yield_percentage == 90,
    {
        Self { insurance_percentage: 10, yield_percentage: 90 }
    }
}

/// Lifecycle of a deposit.
#[derive(Clone, Copy, Debug, PartialEq, Eq, Structural)]
pub enum DepositStatus {
    Active,
    Withdrawing,
    Withdrawn,
}

/// Totals of the yield pool.
#[derive(Clone, Copy, Debug)]
pub struct PoolStats {
    pub total_deposits: i128,
    pub total_yield_allocation: i128,
    pub total_insurance_allocation: i128,
    pub total_yield_earned: i128,
    pub active_deposits: u64,
    /// Yield earned per yield allocated, in hundredths of a percent.
    pub current_apy: u32,
}

impl PoolStats {
    /// Every total zero.
    pub fn new() -> (r: Self)
        ensures
            r.total_deposits == 0,
            r.total_yield_allocation == 0,
            r.total_insurance_allocation == 0,
            r.total_yield_earned == 0,
            r.active_deposits == 0,
            r.current_apy == 0,
    {
        Self {
            total_deposits: 0,
            total_yield_allocation: 0,
            total_insurance_allocation: 0,
            total_yield_earned: 0,
            active_deposits: 0,
            current_apy: 0,
        }
    }

    /// Adds `yield_amount` to the yield earned.
    pub fn add_yield_earned(&mut self, yield_amount: i128)
        requires
            i128::MIN <= old(self).total_yield_earned + yield_amount <= i128::MAX,
        ensures
            *final(self) == (PoolStats {
                total_yield_earned: (old(self).total_yield_earned + yield_amount) as i128,
                ..*old(self)
            }),
    {
        self.total_yield_earned = self.total_yield_earned + yield_amount;
    }

    /// Sets the rate to the yield earned per yield allocated, in hundredths
    /// of a percent, rounded toward zero; 0 when nothing is allocated.
    pub fn calculate_current_apy(&mut self)
        requires
            old(self).total_yield_allocation != 0 ==> {
                &&& old(self).total_yield_allocation > 0
                &&& 0 <= old(self).total_yield_earned * 10000 <= i128::MAX
                &&& old(self).total_yield_earned * 10000 / (old(self).total_yield_allocation as int)
                    <= u32::MAX
            },
        ensures
            *final(self) == (PoolStats {
                current_apy: if old(self).total_yield_allocation == 0 {
                    0
                } else {
                    trunc_div(
                        old(self).total_yield_earned * 10000,
                        old(self).total_yield_allocation as int,
                    ) as u32
                },
                ..*old(self)
            }),
    {
        if self.total_yield_allocation == 0 {
            self.current_apy = 0;
            return;
        }
        let yield_rate = (self.total_yield_earned * 10000) / self.total_yield_allocation;
        self.current_apy = yield_rate as u32;
    }

    /// Percentage of the deposits allocated to insurance, rounded down; 0
    /// for an empty pool.
    pub fn insurance_fund_percentage(&self) -> (r: u32)
        requires
            self.total_deposits == 0 || 0 <= self.total_insurance_allocation
                <= self.total_deposits <= MAX_LEDGER_BALANCE,
        ensures
            r == share_percent(self.total_insurance_allocation as int, self.total_deposits as int),
    {
        percent_of_total(self.total_insurance_allocation, self.total_deposits)
    }
}

} // verus!
