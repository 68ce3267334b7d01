//! Data of the treasury: transfer records, fund allocation, statistics.

use vstd::prelude::*;

use crate::shared::contains_account;

verus! {

/// Largest total that the ledger holds: a hundredfold of it still fits in an
/// `i128`, so percentage splits never overflow.
pub const MAX_LEDGER_BALANCE: i128 = 1701411834604692317316873037158841057;

/// Where a transfer record stands. `Pending` and `Approved` are the only
/// states that are not terminal.
#[derive(Clone, Copy, Debug, PartialEq, Eq, Structural)]
pub enum TransferStatus {
    Pending,
    Approved,
    Executed,
    Rejected,
    Cancelled,
    Failed,
}

/// Percentages of the treasury assigned to each sub-fund.
#[derive(Clone, Copy, Debug, PartialEq, Eq, Structural)]
pub struct FundAllocation {
    pub insurance_percentage: u32,
    pub operational_percentage: u32,
    pub emergency_percentage: u32,
}

impl FundAllocation {
    /// The three percentages sum to exactly 100.
    pub open spec fn valid(self) -> bool {
        self.insurance_percentage + self.operational_percentage + self.emergency_percentage == 100
    }
}

impl Default for FundAllocation {
    /// 60% insurance, 30% operations, 10% emergency.
    fn default() -> (r: Self)
        ensures
            r.insurance_percentage == 60,
            r.operational_percentage == 30,
            r.emergency_percentage == 10,
    {
        Self { insurance_percentage: 60, operational_percentage: 30, emergency_percentage: 10 }
    }
}

/// Share of `total` that `percentage` percent stands for, rounded down.
pub open spec fn sub_fund(total: int, percentage: int) -> int {
    total * percentage / 100
}

/// Part of `whole` that `part` is, in whole percent rounded down; 0 for an
/// empty whole.
pub open spec fn share_percent(part: int, whole: int) -> int {
    if whole == 0 {
        0
    } else {
        part * 100 / whole
    }
}

/// Ledger totals and transfer counters of the treasury.
#[derive(Clone, Copy, Debug)]
pub struct TreasuryStats {
    pub total_balance: i128,
    pub insurance_fund_balance: i128,
    pub operational_fund_balance: i128,
    pub pending_transfers: u64,
    pub executed_transfers: u64,
    pub total_transferred: i128,
    pub emergency_fund_balance: i128,
}

impl TreasuryStats {
    /// The sub-fund balances are the split of the total by `allocation`.
    pub open spec fn funds_match(self, allocation: FundAllocation) -> bool {
        &&& self.insurance_fund_balance == sub_fund(
            self.total_balance as int,
            allocation.insurance_percentage as int,
        )
        &&& self.operational_fund_balance == sub_fund(
            self.total_balance as int,
            allocation.operational_percentage as int,
        )
        &&& self.emergency_fund_balance == sub_fund(
            self.total_balance as int,
            allocation.emergency_percentage as int,
        )
    }

    /// Every field is zero.
    pub fn new() -> (r: Self)
        ensures
            r.total_balance == 0,
            r.insurance_fund_balance == 0,
            r.operational_fund_balance == 0,
            r.pending_transfers == 0,
            r.executed_transfers == 0,
            r.total_transferred == 0,
            r.emergency_fund_balance == 0,
    {
        Self {
            total_balance: 0,
            insurance_fund_balance: 0,
            operational_fund_balance: 0,
            pending_transfers: 0,
            executed_transfers: 0,
            total_transferred: 0,
            emergency_fund_balance: 0,
        }
    }

    /// Adds `amount` to the total balance.
    pub fn add_funds(&mut self, amount: i128)
        requires
            old(self).total_balance + amount <= i128::MAX,
            old(self).total_balance + amount >= i128::MIN,
        ensures
            *final(self) == (TreasuryStats {
                total_balance: (old(self).total_balance + amount) as i128,
                ..*old(self)
            }),
    {
        self.total_balance = self.total_balance + amount;
    }

    /// Takes `amount` from the total balance, saturating at the bounds of
    /// `i128`.
    pub fn remove_funds(&mut self, amount: i128)
        ensures
            *final(self) == (TreasuryStats {
                total_balance: (if old(self).total_balance - amount > i128::MAX {
                    i128::MAX as int
                } else if old(self).total_balance - amount < i128::MIN {
                    i128::MIN as int
                } else {
                    old(self).total_balance - amount
                }) as i128,
                ..*old(self)
            }),
    {
        self.total_balance = match self.total_balance.checked_sub(amount) {
            Some(v) => v,
            None => if amount > 0 {
                i128::MIN
            } else {
                i128::MAX
            },
        };
    }

    /// Records `amount` as moved out of the treasury.
    pub fn transfer_funds(&mut self, from_account: &str, to_account: &str, amount: i128)
        requires
            old(self).total_transferred + amount <= i128::MAX,
            old(self).total_transferred + amount >= i128::MIN,
        ensures
            *final(self) == (TreasuryStats {
                total_transferred: (old(self).total_transferred + amount) as i128,
                ..*old(self)
            }),
    {
        self.total_transferred = self.total_transferred + amount;
    }

    /// One more pending transfer.
    pub fn increment_pending_transfers(&mut self)
        requires
            old(self).pending_transfers < u64::MAX,
        ensures
            *final(self) == (TreasuryStats {
                pending_transfers: (old(self).pending_transfers + 1) as u64,
                ..*old(self)
            }),
    {
        self.pending_transfers = self.pending_transfers + 1;
    }

    /// One pending transfer fewer, never below zero.
    pub fn decrement_pending_transfers(&mut self)
        ensures
            *final(self) == (TreasuryStats {
                pending_transfers: if old(self).pending_transfers > 0 {
                    (old(self).pending_transfers - 1) as u64
                } else {
                    0
                },
                ..*old(self)
            }),
    {
        if self.pending_transfers > 0 {
            self.pending_transfers = self.pending_transfers - 1;
        }
    }

    /// One more executed transfer.
    pub fn increment_executed_transfers(&mut self)
        requires
            old(self).executed_transfers < u64::MAX,
        ensures
            *final(self) == (TreasuryStats {
                executed_transfers: (old(self).executed_transfers + 1) as u64,
                ..*old(self)
            }),
    {
        self.executed_transfers = self.executed_transfers + 1;
    }

    /// Percentage of the total held by the insurance fund.
    pub fn insurance_fund_percentage(&self) -> (r: u32)
        requires
            self.total_balance == 0 || 0 <= self.insurance_fund_balance <= self.total_balance
                <= MAX_LEDGER_BALANCE,
        ensures
            r == share_percent(self.insurance_fund_balance as int, self.total_balance as int),
    {
        percent_of_total(self.insurance_fund_balance, self.total_balance)
    }

    /// Percentage of the total held by the operational fund.
    pub fn operational_fund_percentage(&self) -> (r: u32)
        requires
            self.total_balance == 0 || 0 <= self.operational_fund_balance <= self.total_balance
                <= MAX_LEDGER_BALANCE,
        ensures
            r == share_percent(self.operational_fund_balance as int, self.total_balance as int),
    {
        percent_of_total(self.operational_fund_balance, self.total_balance)
    }

    /// Percentage of the total held by the emergency fund.
    pub fn emergency_fund_percentage(&self) -> (r: u32)
        requires
            self.total_balance == 0 || 0 <= self.emergency_fund_balance <= self.total_balance
                <= MAX_LEDGER_BALANCE,
        ensures
            r == share_percent(self.emergency_fund_balance as int, self.total_balance as int),
    {
        percent_of_total(self.emergency_fund_balance, self.total_balance)
    }

    /// Recomputes the three sub-fund balances from the total and
    /// `allocation`. Only a snapshot: no funds move.
    pub fn rebalance_funds(&mut self, allocation: &FundAllocation)
        requires
            0 <= old(self).total_balance <= MAX_LEDGER_BALANCE,
            allocation.valid(),
        ensures
            final(self).funds_match(*allocation),
            final(self).total_balance == old(self).total_balance,
            final(self).pending_transfers == old(self).pending_transfers,
            final(self).executed_transfers == old(self).executed_transfers,
            final(self).total_transferred == old(self).total_transferred,
    {
        self.insurance_fund_balance = split_share(self.total_balance, allocation.insurance_percentage);
        self.operational_fund_balance = split_share(
            self.total_balance,
            allocation.operational_percentage,
        );
        self.emergency_fund_balance = split_share(self.total_balance, allocation.emergency_percentage);
    }
}

/// `part` as a whole percentage of `whole`, 0 for an empty whole.
pub(crate) fn percent_of_total(part: i128, whole: i128) -> (r: u32)
    requires
        whole == 0 || 0 <= part <= whole <= MAX_LEDGER_BALANCE,
    ensures
        r == share_percent(part as int, whole as int),
{
    if whole == 0 {
        return 0;
    }
    proof {
        assert(0 <= part * 100 <= whole * 100) by (nonlinear_arith)
            requires
                0 <= part <= whole,
        ;
        assert(part * 100 / (whole as int) <= 100) by (nonlinear_arith)
            requires
                0 <= part <= whole,
                whole > 0,
        ;
        assert(part * 100 / (whole as int) >= 0) by (nonlinear_arith)
            requires
                0 <= part,
                whole > 0,
        ;
    }
    ((part * 100) / whole) as u32
}

/// `percentage` percent of a ledger total, rounded down.
fn split_share(total: i128, percentage: u32) -> (r: i128)
    requires
        0 <= total <= MAX_LEDGER_BALANCE,
        percentage <= 100,
    ensures
        r == sub_fund(total as int, percentage as int),
{
    proof {
        assert(0 <= total * percentage <= MAX_LEDGER_BALANCE * 100) by (nonlinear_arith)
            requires
                0 <= total <= MAX_LEDGER_BALANCE,
                percentage <= 100,
        ;
    }
    (total * percentage as i128) / 100
}

/// What a submitter asks for when opening a transfer.
#[derive(Debug)]
pub struct TransferParams {
    /// Recipient account.
    pub to: u64,
    /// Amount to move; must be positive.
    pub amount: i128,
    /// Short informational label.
    pub reason: String,
    /// Quorum to use instead of the one the policy computes.
    pub required_approvals: Option<u32>,
    /// Emergency transfers skip the ceiling, the cooldown and the shutdown
    /// block, and need fewer approvals.
    pub is_emergency: bool,
}

/// One request to move funds out of the treasury, with the approvals it has
/// collected.
#[derive(Debug)]
pub struct PendingTransfer {
    pub transfer_id: Vec<u8>,
    /// Account that submitted the request.
    pub submitter: u64,
    pub to: u64,
    pub amount: i128,
    pub reason: String,
    /// Number of distinct approvals so far.
    pub approvals: u32,
    /// Quorum, fixed at submission.
    pub required_approvals: u32,
    pub created_at: u64,
    /// Set once, on execution.
    pub executed_at: Option<u64>,
    pub status: TransferStatus,
    /// Accounts that approved, each once.
    pub approvers: Vec<u64>,
    pub is_emergency: bool,
}

impl PendingTransfer {
    /// The approval count is the number of distinct approvers, within the
    /// quorum, and the record asks for a positive amount and quorum.
    pub open spec fn well_formed(&self) -> bool {
        &&& self.approvals == self.approvers@.len()
        &&& self.approvers@.no_duplicates()
        &&& self.approvals <= self.required_approvals
        &&& self.required_approvals >= 1
        &&& self.amount > 0
    }

    /// A fresh record in `Pending` with no approvals, created at `now`.
    pub fn new(
        transfer_id: Vec<u8>,
        params: TransferParams,
        required_approvals: u32,
        submitter: u64,
        now: u64,
    ) -> (r: Self)
        ensures
            r.transfer_id == transfer_id,
            r.submitter == submitter,
            r.to == params.to,
            r.amount == params.amount,
            r.reason == params.reason,
            r.approvals == 0,
            r.required_approvals == required_approvals,
            r.created_at == now,
            r.executed_at is None,
            r.status == TransferStatus::Pending,
            r.approvers@ == Seq::<u64>::empty(),
            r.is_emergency == params.is_emergency,
    {
        Self {
            transfer_id,
            submitter,
            to: params.to,
            amount: params.amount,
            reason: params.reason,
            approvals: 0,
            required_approvals,
            created_at: now,
            executed_at: None,
            status: TransferStatus::Pending,
            approvers: Vec::new(),
            is_emergency: params.is_emergency,
        }
    }

    /// Counts `approver` once; a repeated approval changes nothing.
    pub fn add_approval(&mut self, approver: u64)
        requires
            old(self).approvals == old(self).approvers@.len(),
            old(self).approvals < u32::MAX,
        ensures
            old(self).approvers@.contains(approver) ==> final(self).approvers@ == old(
                self,
            ).approvers@ && final(self).approvals == old(self).approvals,
            !old(self).approvers@.contains(approver) ==> final(self).approvers@ == old(
                self,
            ).approvers@.push(approver) && final(self).approvals == old(self).approvals + 1,
            final(self).approvals == final(self).approvers@.len(),
            final(self).transfer_id == old(self).transfer_id,
            final(self).submitter == old(self).submitter,
            final(self).to == old(self).to,
            final(self).amount == old(self).amount,
            final(self).reason == old(self).reason,
            final(self).required_approvals == old(self).required_approvals,
            final(self).created_at == old(self).created_at,
            final(self).executed_at == old(self).executed_at,
            final(self).status == old(self).status,
            final(self).is_emergency == old(self).is_emergency,
    {
        if !contains_account(&self.approvers, approver) {
            self.approvers.push(approver);
            self.approvals = self.approvals + 1;
        }
    }

    /// Whether the quorum is met.
    pub fn has_sufficient_approvals(&self) -> (r: bool)
        ensures
            r == (self.approvals >= self.required_approvals),
    {
        self.approvals >= self.required_approvals
    }

    /// Whether `approver` has approved already.
    pub fn has_approved(&self, approver: u64) -> (r: bool)
        ensures
            r == self.approvers@.contains(approver),
    {
        contains_account(&self.approvers, approver)
    }

    /// Moves the record to `Approved`.
    pub fn mark_as_approved(&mut self)
        ensures
            *final(self) == (PendingTransfer { status: TransferStatus::Approved, ..*old(self) }),
    {
        self.status = TransferStatus::Approved;
    }

    /// Moves the record to `Executed`, stamped with `now`.
    pub fn mark_as_executed(&mut self, now: u64)
        ensures
            *final(self) == (PendingTransfer {
                status: TransferStatus::Executed,
                executed_at: Some(now),
                ..*old(self)
            }),
    {
        self.status = TransferStatus::Executed;
        self.executed_at = Some(now);
    }

    /// Moves the record to `Rejected`.
    pub fn mark_as_rejected(&mut self)
        ensures
            *final(self) == (PendingTransfer { status: TransferStatus::Rejected, ..*old(self) }),
    {
        self.status = TransferStatus::Rejected;
    }

    /// Moves the record to `Cancelled`.
    pub fn cancel(&mut self)
        ensures
            *final(self) == (PendingTransfer { status: TransferStatus::Cancelled, ..*old(self) }),
    {
        self.status = TransferStatus::Cancelled;
    }

    /// Moves the record to `Failed`.
    pub fn mark_as_failed(&mut self)
        ensures
            *final(self) == (PendingTransfer { status: TransferStatus::Failed, ..*old(self) }),
    {
        self.status = TransferStatus::Failed;
    }

    /// Whether the record still collects approvals.
    pub fn is_pending(&self) -> (r: bool)
        ensures
            r == (self.status == TransferStatus::Pending),
    {
        matches!(self.status, TransferStatus::Pending)
    }

    /// Whether the record is approved and its quorum met.
    pub fn can_be_executed(&self) -> (r: bool)
        ensures
            r == (self.status == TransferStatus::Approved && self.approvals
                >= self.required_approvals),
    {
        matches!(self.status, TransferStatus::Approved) && self.has_sufficient_approvals()
    }

    /// Seconds since the record was created, at time `now`.
    pub fn age(&self, now: u64) -> (r: u64)
        requires
            now >= self.created_at,
        ensures
            r == now - self.created_at,
    {
        now - self.created_at
    }

    /// Whether this is an emergency transfer.
    pub fn is_emergency_transfer(&self) -> (r: bool)
        ensures
            r == self.is_emergency,
    {
        self.is_emergency
    }
}

/// A rebalance never hands out more than the total, and the three rounded-down
/// shares lose at most 2 units between them.
pub proof fn lemma_rebalance_split(total: int, allocation: FundAllocation)
    requires
        total >= 0,
        allocation.valid(),
    ensures
        total - 2 <= sub_fund(total, allocation.insurance_percentage as int) + sub_fund(
            total,
            allocation.operational_percentage as int,
        ) + sub_fund(total, allocation.emergency_percentage as int) <= total,
        0 <= sub_fund(total, allocation.insurance_percentage as int),
        0 <= sub_fund(total, allocation.operational_percentage as int),
        0 <= sub_fund(total, allocation.emergency_percentage as int),
{
    let a = allocation.insurance_percentage as int;
    let b = allocation.operational_percentage as int;
    let c = allocation.emergency_percentage as int;
    let (xa, xb, xc) = (total * a, total * b, total * c);
    assert(xa + xb + xc == total * 100) by (nonlinear_arith)
        requires
            xa == total * a,
            xb == total * b,
            xc == total * c,
            a + b + c == 100,
    ;
    assert(xa >= 0 && xb >= 0 && xc >= 0) by (nonlinear_arith)
        requires
            xa == total * a,
            xb == total * b,
            xc == total * c,
            total >= 0,
            a >= 0,
            b >= 0,
            c >= 0,
    ;
    vstd::arithmetic::div_mod::lemma_fundamental_div_mod(xa, 100);
    vstd::arithmetic::div_mod::lemma_fundamental_div_mod(xb, 100);
    vstd::arithmetic::div_mod::lemma_fundamental_div_mod(xc, 100);
    vstd::arithmetic::div_mod::lemma_mod_bound(xa, 100);
    vstd::arithmetic::div_mod::lemma_mod_bound(xb, 100);
    vstd::arithmetic::div_mod::lemma_mod_bound(xc, 100);
    vstd::arithmetic::div_mod::lemma_div_pos_is_pos(xa, 100);
    vstd::arithmetic::div_mod::lemma_div_pos_is_pos(xb, 100);
    vstd::arithmetic::div_mod::lemma_div_pos_is_pos(xc, 100);
}

} // verus!
