//! Laws of the treasury that span several calls, proved from the contracts
//! of the state machine.

use vstd::prelude::*;

use crate::shared::ContractError;
use crate::treasury::contract::{ceil_half, cooldown_elapsed, quorum, Treasury};
use crate::treasury::types::{lemma_rebalance_split, PendingTransfer, TransferStatus};

verus! {

/// Without an explicit quorum, a regular transfer needs every approver and
/// an emergency transfer half of half of them, rounded up each time; with at
/// least one approver the quorum is at least one.
pub proof fn lemma_default_quorum(approver_count: int, is_emergency: bool)
    requires
        approver_count >= 0,
    ensures
        quorum(approver_count, false, None) == approver_count,
        quorum(approver_count, true, None) == ceil_half(ceil_half(approver_count)),
        approver_count >= 1 ==> quorum(approver_count, is_emergency, None) >= 1,
{
}

/// Approving a record a second time by the same account never counts: while
/// the record is live the call fails with `TransferAlreadyAuthorized` and
/// changes nothing, so the approval count stays as it was.
pub proof fn lemma_repeat_approval_refused(
    t0: Treasury,
    t1: Treasury,
    t2: Treasury,
    admin: u64,
    id: Seq<u8>,
    now1: u64,
    now2: u64,
    r1: Result<Option<PendingTransfer>, ContractError>,
    r2: Result<Option<PendingTransfer>, ContractError>,
)
    requires
        t0.well_formed(),
        t1.well_formed(),
        Treasury::approve_post(t0, t1, admin, id, now1, r1),
        r1 == Ok::<Option<PendingTransfer>, ContractError>(None),
        Treasury::approve_post(t1, t2, admin, id, now2, r2),
    ensures
        r2 == Err::<Option<PendingTransfer>, ContractError>(
            ContractError::TransferAlreadyAuthorized,
        ),
        t2 == t1,
        t2.record(id).approvals == t1.record(id).approvals,
{
    let i = t0.position(id);
    let after = t1.pending_transfers@[i];
    assert(t1.pending_transfers@[i].transfer_id@ == id);
    t1.lemma_position(i);
    assert(t1.has_id(id));
    assert(after.approvers@[after.approvers@.len() - 1] == admin);
    assert(t1.record(id).approvers@.contains(admin));
}

/// An approval that meets the quorum executes the record exactly when the
/// record is an emergency or its cooldown has passed, and the balance covers
/// the amount; an approval short of the quorum never executes it.
pub proof fn lemma_approval_executes_iff(
    pre: Treasury,
    post: Treasury,
    admin: u64,
    id: Seq<u8>,
    now: u64,
    r: Result<Option<PendingTransfer>, ContractError>,
)
    requires
        pre.well_formed(),
        Treasury::approve_post(pre, post, admin, id, now, r),
        pre.authorized_admins@.contains(admin),
        pre.has_id(id),
        !pre.record(id).approvers@.contains(admin),
    ensures
        ({
            let rec = pre.record(id);
            (r matches Ok(Some(done)) && done.status == TransferStatus::Executed) <==> (rec.approvals
                + 1 >= rec.required_approvals && (rec.is_emergency || cooldown_elapsed(
                now as int,
                rec.created_at as int,
                pre.emergency_cooldown as int,
            )) && pre.stats.total_balance >= rec.amount)
        }),
{
}

/// A direct execution succeeds exactly when the record is approved with its
/// quorum met, is an emergency or past its cooldown, and the balance covers
/// the amount.
pub proof fn lemma_execution_succeeds_iff(
    pre: Treasury,
    post: Treasury,
    admin: u64,
    id: Seq<u8>,
    now: u64,
    r: Result<PendingTransfer, ContractError>,
)
    requires
        pre.well_formed(),
        Treasury::execute_post(pre, post, admin, id, now, r),
        pre.authorized_admins@.contains(admin),
        pre.has_id(id),
    ensures
        ({
            let rec = pre.record(id);
            (r matches Ok(done) && done.status == TransferStatus::Executed) <==> (rec.status
                == TransferStatus::Approved && rec.approvals >= rec.required_approvals && (
            rec.is_emergency || cooldown_elapsed(
                now as int,
                rec.created_at as int,
                pre.emergency_cooldown as int,
            )) && pre.stats.total_balance >= rec.amount)
        }),
{
}

/// The balance of a treasury is never negative, and its sub-funds are each
/// non-negative, sum to at most the balance, and lose at most 2 units to
/// rounding.
pub proof fn lemma_ledger_bounds(t: Treasury)
    requires
        t.well_formed(),
    ensures
        t.stats.total_balance >= 0,
        0 <= t.stats.insurance_fund_balance,
        0 <= t.stats.operational_fund_balance,
        0 <= t.stats.emergency_fund_balance,
        t.stats.total_balance - 2 <= t.stats.insurance_fund_balance
            + t.stats.operational_fund_balance + t.stats.emergency_fund_balance
            <= t.stats.total_balance,
{
    lemma_rebalance_split(t.stats.total_balance as int, t.fund_allocation);
}

/// An approval against a balance that cannot cover the record never
/// executes it and leaves the balance as it was; if the approval would meet
/// the quorum, the call changes nothing at all.
pub proof fn lemma_insufficient_balance_approval(
    pre: Treasury,
    post: Treasury,
    admin: u64,
    id: Seq<u8>,
    now: u64,
    r: Result<Option<PendingTransfer>, ContractError>,
)
    requires
        pre.well_formed(),
        Treasury::approve_post(pre, post, admin, id, now, r),
        pre.has_id(id),
        pre.stats.total_balance < pre.record(id).amount,
    ensures
        !(r matches Ok(Some(_))),
        post.stats.total_balance == pre.stats.total_balance,
        pre.record(id).approvals + 1 >= pre.record(id).required_approvals ==> post == pre,
{
}

/// A direct execution against a balance that cannot cover the record fails
/// and changes nothing.
pub proof fn lemma_insufficient_balance_execution(
    pre: Treasury,
    post: Treasury,
    admin: u64,
    id: Seq<u8>,
    now: u64,
    r: Result<PendingTransfer, ContractError>,
)
    requires
        pre.well_formed(),
        Treasury::execute_post(pre, post, admin, id, now, r),
        pre.has_id(id),
        pre.stats.total_balance < pre.record(id).amount,
    ensures
        r is Err,
        post == pre,
{
}

/// Once a record is cancelled it is gone from the index, and approving it
/// fails with `InvalidState`.
pub proof fn lemma_cancelled_cannot_be_approved(
    t0: Treasury,
    t1: Treasury,
    canceller: u64,
    id: Seq<u8>,
    r1: Result<PendingTransfer, ContractError>,
    approver: u64,
    now: u64,
)
    requires
        t0.well_formed(),
        Treasury::close_post(
            t0,
            t1,
            id,
            t0.cancel_error(canceller, id),
            TransferStatus::Cancelled,
            r1,
        ),
        r1 is Ok,
        t1.authorized_admins@.contains(approver),
    ensures
        !t1.has_id(id),
        t1.approve_error(approver, id, now) == Some(ContractError::InvalidState),
{
    let i = t0.position(id);
    t0.lemma_position(i);
    Treasury::lemma_removed(t0, t1, i);
}

} // verus!
