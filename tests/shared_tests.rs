//! Shared types, access control, time and pool statistics.

use insurance_contracts::math::{is_in_range, percentage_of};
use insurance_contracts::shared::{contains_account, AccessControl, ContractError, ReentrancyGuard, Role};
use insurance_contracts::time::{add_days, is_expired};
use insurance_contracts::treasury::types::{
    FundAllocation, PendingTransfer, TransferParams, TransferStatus, TreasuryStats,
};
use insurance_contracts::yield_aggregator::{PoolStats, YieldAllocation};

#[test]
fn access_control_roles() {
    let mut set = vec![5u64, 6];
    assert!(AccessControl::has_role(&set, 5, Role::Admin));
    assert!(!AccessControl::has_role(&set, 7, Role::Admin));
    assert_eq!(AccessControl::require_role(&set, 7, Role::Operator), Err(ContractError::Unauthorized));
    assert_eq!(AccessControl::require_role(&set, 6, Role::Operator), Ok(()));
    AccessControl::grant_role(&mut set, 5, 7, Role::Admin);
    AccessControl::grant_role(&mut set, 5, 7, Role::Admin);
    assert_eq!(set, vec![5, 6, 7]);
    set.push(6);
    AccessControl::revoke_role(&mut set, 5, 6);
    assert_eq!(set, vec![5, 7]);
    assert!(contains_account(&set, 7));
    assert!(!contains_account(&set, 6));
}

#[test]
fn reentrancy_guard_latches() {
    let mut g = ReentrancyGuard::new();
    assert_eq!(g.end_protection(), Err(ContractError::InvalidState));
    assert_eq!(g.start_protection(), Ok(()));
    assert_eq!(g.start_protection(), Err(ContractError::ReentrantCall));
    assert_eq!(g.end_protection(), Ok(()));
    assert!(!g.locked);
}

#[test]
fn time_helpers() {
    assert_eq!(add_days(1000, 2), 1000 + 2 * 86400);
    assert!(is_expired(10, 10));
    assert!(!is_expired(9, 10));
}

#[test]
fn percentage_and_range() {
    assert_eq!(percentage_of(250, 10), 25);
    assert_eq!(percentage_of(199, 50), 99);
    assert_eq!(percentage_of(-199, 50), -99);
    assert!(is_in_range(5, 5, 6));
    assert!(!is_in_range(7, 5, 6));
}

#[test]
fn treasury_stats_counters() {
    let mut s = TreasuryStats::new();
    s.add_funds(300);
    s.remove_funds(100);
    assert_eq!(s.total_balance, 200);
    s.remove_funds(i128::MAX);
    assert_eq!(s.total_balance, 200 - i128::MAX);
    s.remove_funds(i128::MAX);
    assert_eq!(s.total_balance, i128::MIN);
    let mut s = TreasuryStats::new();
    s.increment_pending_transfers();
    s.decrement_pending_transfers();
    s.decrement_pending_transfers();
    assert_eq!(s.pending_transfers, 0);
    s.increment_executed_transfers();
    s.transfer_funds("treasury", "external", 40);
    assert_eq!(s.executed_transfers, 1);
    assert_eq!(s.total_transferred, 40);
    assert_eq!(s.insurance_fund_percentage(), 0);
}

#[test]
fn treasury_stats_rebalance_and_percentages() {
    let mut s = TreasuryStats::new();
    s.add_funds(999);
    s.rebalance_funds(&FundAllocation::default());
    assert_eq!(s.insurance_fund_balance, 599);
    assert_eq!(s.operational_fund_balance, 299);
    assert_eq!(s.emergency_fund_balance, 99);
    assert_eq!(s.insurance_fund_percentage(), 59);
    assert_eq!(s.operational_fund_percentage(), 29);
    assert_eq!(s.emergency_fund_percentage(), 9);
}

#[test]
fn pending_transfer_record_lifecycle() {
    let p = TransferParams {
        to: 9,
        amount: 10,
        reason: String::from("fee"),
        required_approvals: None,
        is_emergency: true,
    };
    let mut rec = PendingTransfer::new(vec![1, 2], p, 2, 4, 100);
    assert!(rec.is_pending());
    assert!(rec.is_emergency_transfer());
    assert_eq!(rec.age(160), 60);
    rec.add_approval(4);
    rec.add_approval(4);
    assert_eq!(rec.approvals, 1);
    assert!(rec.has_approved(4));
    assert!(!rec.has_sufficient_approvals());
    rec.add_approval(5);
    assert!(rec.has_sufficient_approvals());
    assert!(!rec.can_be_executed());
    rec.mark_as_approved();
    assert!(rec.can_be_executed());
    rec.mark_as_executed(170);
    assert_eq!(rec.status, TransferStatus::Executed);
    assert_eq!(rec.executed_at, Some(170));
    rec.mark_as_failed();
    assert_eq!(rec.status, TransferStatus::Failed);
    rec.mark_as_rejected();
    assert_eq!(rec.status, TransferStatus::Rejected);
    rec.cancel();
    assert_eq!(rec.status, TransferStatus::Cancelled);
}

#[test]
fn pool_stats() {
    let mut s = PoolStats::new();
    s.calculate_current_apy();
    assert_eq!(s.current_apy, 0);
    s.total_yield_allocation = 2000;
    s.add_yield_earned(30);
    s.calculate_current_apy();
    assert_eq!(s.current_apy, 150);
    assert_eq!(s.insurance_fund_percentage(), 0);
    s.total_deposits = 400;
    s.total_insurance_allocation = 41;
    assert_eq!(s.insurance_fund_percentage(), 10);
    let a = YieldAllocation::default();
    assert_eq!(a.insurance_percentage + a.yield_percentage, 100);
    assert_eq!(a.insurance_percentage, 10);
}
