//! The transfer state machine, its quorum policy and its ledger.

use insurance_contracts::shared::ContractError;
use insurance_contracts::treasury::contract::{
    check_execution, half_rounded_up, required_approvals, Treasury,
};
use insurance_contracts::treasury::types::{FundAllocation, TransferParams, TransferStatus};

const OWNER: u64 = 1;

fn params(to: u64, amount: i128, is_emergency: bool) -> TransferParams {
    TransferParams {
        to,
        amount,
        reason: String::from("payout"),
        required_approvals: None,
        is_emergency,
    }
}

/// Owner 1, approvers 2, 3 and 4, funded with `funds`.
fn treasury_with(funds: i128) -> Treasury {
    let mut t = Treasury::new(OWNER, vec![2, 3, 4]);
    if funds > 0 {
        t.add_funds(funds).unwrap();
    }
    t
}

#[test]
fn quorum_of_three_executes_on_third_approval() {
    let mut t = treasury_with(1000);
    let id = vec![1u8, 2];
    let r = t.submit_transfer(2, id.clone(), params(9, 50, false), 100);
    assert!(matches!(r, Ok(None)));
    assert_eq!(t.get_pending_transfer(&id).unwrap().required_approvals, 3);

    assert!(matches!(t.approve_transfer(2, &id, 200), Ok(None)));
    assert!(matches!(t.approve_transfer(3, &id, 300), Ok(None)));
    let rec = t.get_pending_transfer(&id).unwrap();
    assert_eq!(rec.status, TransferStatus::Pending);
    assert_eq!(rec.approvals, 2);

    let done = t.approve_transfer(4, &id, 100 + 3600).unwrap().unwrap();
    assert_eq!(done.status, TransferStatus::Executed);
    assert_eq!(done.executed_at, Some(3700));
    assert_eq!(done.approvals, 3);
    assert_eq!(t.get_total_balance(), 950);
    assert!(t.get_pending_transfer(&id).is_none());
    assert!(t.get_all_pending_transfers().is_empty());
    let stats = t.get_stats();
    assert_eq!(stats.executed_transfers, 1);
    assert_eq!(stats.pending_transfers, 0);
    assert_eq!(stats.total_transferred, 50);
}

#[test]
fn amount_above_ceiling_is_invalid_input() {
    let mut t = treasury_with(100000000);
    let r = t.submit_transfer(2, vec![7], params(9, 9999999, false), 0);
    assert_eq!(r.err(), Some(ContractError::InvalidInput));
    assert!(t.get_all_pending_transfers().is_empty());
}

#[test]
fn owner_small_transfer_executes_at_once() {
    let mut t = Treasury::new(OWNER, vec![1, 2, 3]);
    t.add_funds(1000).unwrap();
    let done = t.submit_transfer(OWNER, vec![5], params(9, 100, false), 10).unwrap().unwrap();
    assert_eq!(done.status, TransferStatus::Executed);
    assert_eq!(done.executed_at, Some(10));
    assert_eq!(done.approvers, vec![OWNER]);
    assert_eq!(t.get_total_balance(), 900);
    assert!(t.get_pending_transfer(&vec![5]).is_none());
    assert_eq!(t.get_stats().executed_transfers, 1);
    assert_eq!(t.get_stats().pending_transfers, 0);
}

#[test]
fn owner_small_transfer_without_funds_fails_whole() {
    let mut t = Treasury::new(OWNER, vec![1, 2, 3]);
    let r = t.submit_transfer(OWNER, vec![5], params(9, 100, false), 10);
    assert_eq!(r.err(), Some(ContractError::InsufficientBalance));
    assert!(t.get_all_pending_transfers().is_empty());
    assert_eq!(t.get_stats().executed_transfers, 0);
}

#[test]
fn cancelled_record_cannot_be_approved() {
    let mut t = treasury_with(1000);
    let id = vec![3u8];
    t.submit_transfer(2, id.clone(), params(9, 40, false), 0).unwrap();
    let closed = t.cancel_transfer(2, &id).unwrap();
    assert_eq!(closed.status, TransferStatus::Cancelled);
    assert_eq!(t.approve_transfer(3, &id, 5000).err(), Some(ContractError::InvalidState));
    assert!(t.get_pending_transfer(&id).is_none());
    assert_eq!(t.get_stats().pending_transfers, 0);
}

#[test]
fn second_approval_by_same_account_is_refused() {
    let mut t = treasury_with(1000);
    let id = vec![4u8];
    t.submit_transfer(2, id.clone(), params(9, 40, false), 0).unwrap();
    assert!(matches!(t.approve_transfer(3, &id, 10), Ok(None)));
    assert_eq!(
        t.approve_transfer(3, &id, 20).err(),
        Some(ContractError::TransferAlreadyAuthorized)
    );
    assert_eq!(t.get_pending_transfer(&id).unwrap().approvals, 1);
}

#[test]
fn execution_decision_all_eight_cases() {
    // quorum met, cooldown passed (or emergency), balance sufficient
    for quorum_met in [false, true] {
        for cooled in [false, true] {
            for funded in [false, true] {
                let approvals = if quorum_met { 3 } else { 2 };
                let now = if cooled { 5000 } else { 1000 };
                let balance = if funded { 100 } else { 10 };
                let r = check_execution(approvals, 3, false, 1000, now, 3600, balance, 50);
                let expected = if !quorum_met {
                    Err(ContractError::TransferNotAuthorized)
                } else if !cooled {
                    Err(ContractError::CooldownActive)
                } else if !funded {
                    Err(ContractError::InsufficientBalance)
                } else {
                    Ok(())
                };
                assert_eq!(r, expected);
            }
        }
    }
    // An emergency waives the cooldown.
    assert_eq!(check_execution(3, 3, true, 1000, 1000, 3600, 100, 50), Ok(()));
    // A clock before the creation time has not passed the cooldown.
    assert_eq!(
        check_execution(3, 3, false, 1000, 999, 0, 100, 50),
        Err(ContractError::CooldownActive)
    );
}

#[test]
fn quorum_reached_within_cooldown_rolls_back() {
    let mut t = treasury_with(1000);
    let id = vec![8u8];
    t.submit_transfer(2, id.clone(), params(9, 50, false), 100).unwrap();
    t.approve_transfer(2, &id, 100).unwrap();
    t.approve_transfer(3, &id, 100).unwrap();
    assert_eq!(t.approve_transfer(4, &id, 200).err(), Some(ContractError::CooldownActive));
    let rec = t.get_pending_transfer(&id).unwrap();
    assert_eq!(rec.approvals, 2);
    assert_eq!(rec.status, TransferStatus::Pending);
    assert_eq!(t.get_total_balance(), 1000);
}

#[test]
fn quorum_reached_without_funds_changes_nothing() {
    let mut t = treasury_with(30);
    let id = vec![9u8];
    t.submit_transfer(2, id.clone(), params(9, 50, true), 0).unwrap();
    // emergency quorum of three approvers: ceil(ceil(3 / 2) / 2) = 1
    assert_eq!(t.get_pending_transfer(&id).unwrap().required_approvals, 1);
    assert_eq!(t.approve_transfer(3, &id, 0).err(), Some(ContractError::InsufficientBalance));
    assert_eq!(t.get_total_balance(), 30);
    assert_eq!(t.get_pending_transfer(&id).unwrap().approvals, 0);
    t.add_funds(20).unwrap();
    let done = t.approve_transfer(3, &id, 0).unwrap().unwrap();
    assert_eq!(done.status, TransferStatus::Executed);
    assert_eq!(t.get_total_balance(), 0);
}

#[test]
fn direct_execution_of_pending_record_is_not_authorized() {
    let mut t = treasury_with(1000);
    let id = vec![10u8];
    t.submit_transfer(2, id.clone(), params(9, 50, false), 0).unwrap();
    assert_eq!(
        t.execute_transfer(2, &id, 10000).err(),
        Some(ContractError::TransferNotAuthorized)
    );
    assert_eq!(t.execute_transfer(2, &vec![99], 0).err(), Some(ContractError::InvalidState));
    assert_eq!(t.execute_transfer(77, &id, 0).err(), Some(ContractError::Unauthorized));
}

#[test]
fn quorum_policy_values() {
    assert_eq!(half_rounded_up(0), 0);
    assert_eq!(half_rounded_up(5), 3);
    assert_eq!(half_rounded_up(u32::MAX), 2147483648);
    assert_eq!(required_approvals(3, false, None), 3);
    assert_eq!(required_approvals(5, true, None), 2);
    assert_eq!(required_approvals(4, true, None), 1);
    assert_eq!(required_approvals(5, false, Some(2)), 2);
    assert_eq!(required_approvals(5, true, Some(5)), 3);
}

#[test]
fn explicit_quorum_is_kept() {
    let mut t = treasury_with(1000);
    let mut p = params(9, 50, false);
    p.required_approvals = Some(2);
    t.submit_transfer(3, vec![11], p, 0).unwrap();
    assert_eq!(t.get_pending_transfer(&vec![11]).unwrap().required_approvals, 2);
    let mut zero = params(9, 50, false);
    zero.required_approvals = Some(0);
    assert_eq!(t.submit_transfer(3, vec![12], zero, 0).err(), Some(ContractError::InvalidInput));
}

#[test]
fn submission_errors() {
    let mut t = treasury_with(1000);
    assert_eq!(
        t.submit_transfer(77, vec![1], params(9, 50, false), 0).err(),
        Some(ContractError::Unauthorized)
    );
    assert_eq!(
        t.submit_transfer(2, vec![1], params(9, 0, false), 0).err(),
        Some(ContractError::InvalidInput)
    );
    assert_eq!(
        t.submit_transfer(2, vec![1], params(0, 50, false), 0).err(),
        Some(ContractError::InvalidInput)
    );
    t.submit_transfer(2, vec![1], params(9, 50, false), 0).unwrap();
    assert_eq!(
        t.submit_transfer(3, vec![1], params(9, 60, false), 0).err(),
        Some(ContractError::InvalidInput)
    );
    // An emergency may exceed the ceiling.
    assert!(t.submit_transfer(2, vec![2], params(9, 9999999, true), 0).is_ok());
    assert_eq!(t.get_stats().pending_transfers, 2);
    assert_eq!(t.get_all_pending_transfers(), vec![vec![1u8], vec![2u8]]);
}

#[test]
fn shutdown_blocks_only_regular_submissions() {
    let mut t = treasury_with(1000);
    t.submit_transfer(2, vec![1], params(9, 50, false), 0).unwrap();
    assert_eq!(t.emergency_shutdown(2).err(), Some(ContractError::Unauthorized));
    t.emergency_shutdown(OWNER).unwrap();
    assert!(t.is_emergency_shutdown());
    assert_eq!(
        t.submit_transfer(2, vec![2], params(9, 50, false), 0).err(),
        Some(ContractError::InvalidState)
    );
    assert!(t.submit_transfer(2, vec![3], params(9, 50, true), 0).is_ok());
    // Records already pending may still be approved.
    assert!(matches!(t.approve_transfer(3, &vec![1], 0), Ok(None)));
    t.disable_emergency_shutdown(OWNER).unwrap();
    assert!(!t.is_emergency_shutdown());
    assert!(t.submit_transfer(2, vec![2], params(9, 50, false), 0).is_ok());
}

#[test]
fn reject_and_cancel_rules() {
    let mut t = treasury_with(1000);
    t.submit_transfer(2, vec![1], params(9, 50, false), 0).unwrap();
    assert_eq!(t.reject_transfer(77, &vec![1]).err(), Some(ContractError::Unauthorized));
    assert_eq!(t.reject_transfer(3, &vec![5]).err(), Some(ContractError::InvalidState));
    // Neither the submitter nor the owner.
    assert_eq!(t.cancel_transfer(3, &vec![1]).err(), Some(ContractError::Unauthorized));
    let rejected = t.reject_transfer(3, &vec![1]).unwrap();
    assert_eq!(rejected.status, TransferStatus::Rejected);
    assert_eq!(rejected.executed_at, None);
    assert_eq!(t.reject_transfer(3, &vec![1]).err(), Some(ContractError::InvalidState));
    assert_eq!(t.get_total_balance(), 1000);
}

#[test]
fn owner_may_cancel_others_records() {
    let mut t = Treasury::new(OWNER, vec![1, 2, 3]);
    t.submit_transfer(2, vec![1], params(9, 50, false), 0).unwrap();
    let cancelled = t.cancel_transfer(OWNER, &vec![1]).unwrap();
    assert_eq!(cancelled.status, TransferStatus::Cancelled);
    assert_eq!(t.get_stats().pending_transfers, 0);
}

#[test]
fn add_funds_rebalances_sub_funds() {
    let mut t = treasury_with(0);
    assert_eq!(t.add_funds(0).err(), Some(ContractError::InvalidInput));
    assert_eq!(t.add_funds(-5).err(), Some(ContractError::InvalidInput));
    t.add_funds(1001).unwrap();
    let s = t.get_stats();
    assert_eq!(s.total_balance, 1001);
    assert_eq!(s.insurance_fund_balance, 600);
    assert_eq!(s.operational_fund_balance, 300);
    assert_eq!(s.emergency_fund_balance, 100);
}

#[test]
fn rebalance_loses_at_most_two_units() {
    let mut t = treasury_with(0);
    let alloc = FundAllocation {
        insurance_percentage: 33,
        operational_percentage: 33,
        emergency_percentage: 34,
    };
    t.update_fund_allocation(OWNER, alloc).unwrap();
    for amount in [1i128, 2, 3, 99, 101, 199] {
        t.add_funds(amount).unwrap();
        let s = t.get_stats();
        let sum = s.insurance_fund_balance + s.operational_fund_balance + s.emergency_fund_balance;
        assert!(sum <= s.total_balance);
        assert!(s.total_balance - sum <= 2);
    }
    let s = t.get_stats();
    assert_eq!(s.total_balance, 405);
    assert_eq!(s.insurance_fund_balance, 133);
    assert_eq!(s.operational_fund_balance, 133);
    assert_eq!(s.emergency_fund_balance, 137);
}

#[test]
fn fund_allocation_updates() {
    let mut t = treasury_with(200);
    let bad = FundAllocation {
        insurance_percentage: 50,
        operational_percentage: 30,
        emergency_percentage: 30,
    };
    assert_eq!(t.update_fund_allocation(OWNER, bad).err(), Some(ContractError::InvalidInput));
    let overflow = FundAllocation {
        insurance_percentage: u32::MAX,
        operational_percentage: 1,
        emergency_percentage: 100,
    };
    assert_eq!(t.update_fund_allocation(OWNER, overflow).err(), Some(ContractError::InvalidInput));
    let good = FundAllocation {
        insurance_percentage: 50,
        operational_percentage: 25,
        emergency_percentage: 25,
    };
    assert_eq!(t.update_fund_allocation(2, good).err(), Some(ContractError::Unauthorized));
    t.update_fund_allocation(OWNER, good).unwrap();
    assert_eq!(t.get_fund_allocation(), good);
    let s = t.get_stats();
    assert_eq!(s.insurance_fund_balance, 100);
    assert_eq!(s.operational_fund_balance, 50);
    assert_eq!(s.emergency_fund_balance, 50);
    assert_eq!(s.insurance_fund_percentage(), 50);
}

#[test]
fn configuration_setters_are_owner_only() {
    let mut t = treasury_with(0);
    assert_eq!(t.get_owner(), OWNER);
    assert_eq!(t.get_authorized_admins(), vec![2, 3, 4]);
    assert_eq!(t.get_max_transfer_amount(), 10000);
    assert_eq!(t.get_emergency_cooldown(), 3600);
    assert_eq!(t.update_max_transfer_amount(2, 5).err(), Some(ContractError::Unauthorized));
    assert_eq!(t.update_emergency_cooldown(2, 5).err(), Some(ContractError::Unauthorized));
    t.update_max_transfer_amount(OWNER, 500).unwrap();
    t.update_emergency_cooldown(OWNER, 0).unwrap();
    assert_eq!(t.get_max_transfer_amount(), 500);
    assert_eq!(t.get_emergency_cooldown(), 0);
    assert_eq!(
        t.submit_transfer(2, vec![1], params(9, 501, false), 0).err(),
        Some(ContractError::InvalidInput)
    );
}

#[test]
fn zero_cooldown_lets_quorum_execute_at_once() {
    let mut t = treasury_with(500);
    t.update_emergency_cooldown(OWNER, 0).unwrap();
    let id = vec![1u8];
    let mut p = params(9, 120, false);
    p.required_approvals = Some(1);
    t.submit_transfer(2, id.clone(), p, 50).unwrap();
    let done = t.approve_transfer(2, &id, 50).unwrap().unwrap();
    assert_eq!(done.status, TransferStatus::Executed);
    assert_eq!(done.reason, "payout");
    assert_eq!(t.get_total_balance(), 380);
    assert_eq!(t.get_stats().insurance_fund_balance, 228);
}

#[test]
fn transfer_terms_are_validated() {
    let t = treasury_with(0);
    assert_eq!(t.validate_transfer_params(&params(9, 10000, false)), Ok(()));
    assert_eq!(t.validate_transfer_params(&params(9, 10001, true)), Ok(()));
    assert_eq!(
        t.validate_transfer_params(&params(9, 10001, false)),
        Err(ContractError::InvalidInput)
    );
    assert_eq!(t.validate_transfer_params(&params(9, -1, true)), Err(ContractError::InvalidInput));
    assert_eq!(t.validate_transfer_params(&params(0, 5, false)), Err(ContractError::InvalidInput));
}
