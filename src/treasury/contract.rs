//! The transfer state machine of the treasury.
//!
//! A record is submitted, collects approvals, and is executed in the same
//! call that brings its quorum; it may instead be rejected or cancelled.
//! Every call either commits all of its changes or fails and changes nothing.

use vstd::prelude::*;

use crate::shared::{AccessControl, ContractError, Role};
use crate::treasury::types::{
    FundAllocation, PendingTransfer, TransferParams, TransferStatus, TreasuryStats,
    MAX_LEDGER_BALANCE,
};

verus! {

/// The account number that stands for no account.
pub const NULL_ACCOUNT: u64 = 0;

/// Ceiling above which a non-emergency transfer is refused.
pub const DEFAULT_MAX_TRANSFER_AMOUNT: i128 = 10000;

/// Seconds a non-emergency transfer waits after submission.
pub const DEFAULT_EMERGENCY_COOLDOWN: u64 = 3600;

/// Half of `n`, rounded up.
pub open spec fn ceil_half(n: int) -> int {
    (n + 1) / 2
}

/// Quorum of a new transfer: the explicit value if one is given, else every
/// approver (regular) or half of them rounded up (emergency); an emergency
/// transfer then halves that figure once more, rounding up.
pub open spec fn quorum(approver_count: int, is_emergency: bool, explicit: Option<u32>) -> int {
    let base = match explicit {
        Some(k) => k as int,
        None => if is_emergency {
            ceil_half(approver_count)
        } else {
            approver_count
        },
    };
    if is_emergency {
        ceil_half(base)
    } else {
        base
    }
}

/// Whether the cooldown window has passed at time `now`.
pub open spec fn cooldown_elapsed(now: int, created_at: int, cooldown: int) -> bool {
    now >= created_at + cooldown
}

/// Result of an attempt to execute: the quorum first, then the cooldown
/// (waived for emergencies), then the balance.
pub open spec fn execution_outcome(
    approvals: int,
    required: int,
    is_emergency: bool,
    created_at: int,
    now: int,
    cooldown: int,
    balance: int,
    amount: int,
) -> Result<(), ContractError> {
    if approvals < required {
        Err(ContractError::TransferNotAuthorized)
    } else if !is_emergency && !cooldown_elapsed(now, created_at, cooldown) {
        Err(ContractError::CooldownActive)
    } else if balance < amount {
        Err(ContractError::InsufficientBalance)
    } else {
        Ok(())
    }
}

/// `n` halved, rounded up.
pub fn half_rounded_up(n: u32) -> (r: u32)
    ensures
        r == ceil_half(n as int),
{
    n / 2 + n % 2
}

/// The quorum policy: approvals a new transfer needs when `approver_count`
/// accounts may approve.
pub fn required_approvals(approver_count: u32, is_emergency: bool, explicit: Option<u32>) -> (r:
    u32)
    ensures
        r == quorum(approver_count as int, is_emergency, explicit),
{
    let base = match explicit {
        Some(k) => k,
        None => if is_emergency {
            half_rounded_up(approver_count)
        } else {
            approver_count
        },
    };
    if is_emergency {
        half_rounded_up(base)
    } else {
        base
    }
}

/// Decides an attempt to execute a record with `approvals` of `required`
/// approvals, created at `created_at`, at time `now`, against `balance`.
pub fn check_execution(
    approvals: u32,
    required: u32,
    is_emergency: bool,
    created_at: u64,
    now: u64,
    cooldown: u64,
    balance: i128,
    amount: i128,
) -> (r: Result<(), ContractError>)
    ensures
        r == execution_outcome(
            approvals as int,
            required as int,
            is_emergency,
            created_at as int,
            now as int,
            cooldown as int,
            balance as int,
            amount as int,
        ),
{
    if approvals < required {
        return Err(ContractError::TransferNotAuthorized);
    }
    if !is_emergency && !(now >= created_at && now - created_at >= cooldown) {
        return Err(ContractError::CooldownActive);
    }
    if balance < amount {
        return Err(ContractError::InsufficientBalance);
    }
    Ok(())
}

/// Whether two byte strings are equal.
pub fn bytes_equal(a: &Vec<u8>, b: &Vec<u8>) -> (r: bool)
    ensures
        r == (a@ == b@),
{
    if a.len() != b.len() {
        return false;
    }
    let mut i: usize = 0;
    while i < a.len()
        invariant
            a@.len() == b@.len(),
            0 <= i <= a@.len(),
            forall|j: int| 0 <= j < i ==> a@[j] == b@[j],
        decreases a@.len() - i,
    {
        if a[i] != b[i] {
            return false;
        }
        i = i + 1;
    }
    assert(a@ =~= b@);
    true
}

/// A copy of a byte string.
pub fn copy_bytes(a: &Vec<u8>) -> (r: Vec<u8>)
    ensures
        r@ == a@,
{
    let mut out: Vec<u8> = Vec::new();
    let mut i: usize = 0;
    while i < a.len()
        invariant
            0 <= i <= a@.len(),
            out@ == a@.subrange(0, i as int),
        decreases a@.len() - i,
    {
        out.push(a[i]);
        i = i + 1;
    }
    assert(a@.subrange(0, a@.len() as int) =~= a@);
    out
}

/// A copy of a list of accounts.
pub fn copy_accounts(a: &Vec<u64>) -> (r: Vec<u64>)
    ensures
        r@ == a@,
{
    let mut out: Vec<u64> = Vec::new();
    let mut i: usize = 0;
    while i < a.len()
        invariant
            0 <= i <= a@.len(),
            out@ == a@.subrange(0, i as int),
        decreases a@.len() - i,
    {
        out.push(a[i]);
        i = i + 1;
    }
    assert(a@.subrange(0, a@.len() as int) =~= a@);
    out
}

/// The treasury: the live index of records that still collect approvals,
/// the ledger and its statistics, and the configuration.
pub struct Treasury {
    /// Records in `Pending`, keyed by their unique transfer id.
    pub pending_transfers: Vec<PendingTransfer>,
    pub stats: TreasuryStats,
    pub owner: u64,
    /// The approval set: accounts that may submit, approve, execute, reject
    /// and cancel.
    pub authorized_admins: Vec<u64>,
    pub fund_allocation: FundAllocation,
    /// While set, only emergency transfers may be submitted.
    pub emergency_shutdown: bool,
    /// Ceiling for non-emergency transfers, and for owner transfers that
    /// execute without a quorum.
    pub max_transfer_amount: i128,
    /// Seconds a non-emergency transfer waits before it may execute.
    pub emergency_cooldown: u64,
}

/// The terms of a record, which no transition changes.
pub open spec fn same_terms(a: PendingTransfer, b: PendingTransfer) -> bool {
    &&& a.transfer_id@ == b.transfer_id@
    &&& a.submitter == b.submitter
    &&& a.to == b.to
    &&& a.amount == b.amount
    &&& a.reason@ == b.reason@
    &&& a.required_approvals == b.required_approvals
    &&& a.created_at == b.created_at
    &&& a.is_emergency == b.is_emergency
}

/// `rec` is the record that `submitter` opens under `id` with `params` and
/// quorum `required` at time `now`, before any approval.
pub open spec fn opened_as(
    rec: PendingTransfer,
    id: Seq<u8>,
    submitter: u64,
    params: TransferParams,
    required: int,
    now: u64,
) -> bool {
    &&& rec.transfer_id@ == id
    &&& rec.submitter == submitter
    &&& rec.to == params.to
    &&& rec.amount == params.amount
    &&& rec.reason@ == params.reason@
    &&& rec.required_approvals == required
    &&& rec.created_at == now
    &&& rec.is_emergency == params.is_emergency
}

/// The ledger after `amount` left it: balance debited, one more execution,
/// the amount counted as transferred, sub-funds recomputed.
pub open spec fn settled(
    before: TreasuryStats,
    after: TreasuryStats,
    amount: int,
    allocation: FundAllocation,
) -> bool {
    &&& after.total_balance == before.total_balance - amount
    &&& after.executed_transfers == before.executed_transfers + 1
    &&& after.total_transferred == before.total_transferred + amount
    &&& after.funds_match(allocation)
}

impl Treasury {
    /// The invariant every call keeps.
    pub open spec fn well_formed(&self) -> bool {
        &&& self.fund_allocation.valid()
        &&& 0 <= self.stats.total_balance
        &&& 0 <= self.stats.total_transferred
        &&& self.stats.total_balance + self.stats.total_transferred <= MAX_LEDGER_BALANCE
        &&& self.stats.funds_match(self.fund_allocation)
        &&& self.stats.pending_transfers == self.pending_transfers@.len()
        &&& self.authorized_admins@.len() <= u32::MAX
        &&& self.index_well_formed()
    }

    /// Every live record is a well-formed `Pending` record short of its
    /// quorum, and no two share an id.
    pub open spec fn index_well_formed(&self) -> bool {
        &&& forall|i: int|
            0 <= i < self.pending_transfers@.len() ==> {
                let rec = #[trigger] self.pending_transfers@[i];
                &&& rec.well_formed()
                &&& rec.status == TransferStatus::Pending
                &&& rec.approvals < rec.required_approvals
                &&& rec.executed_at is None
            }
        &&& forall|i: int, j: int|
            0 <= i < self.pending_transfers@.len() && 0 <= j < self.pending_transfers@.len() && i
                != j ==> #[trigger] self.pending_transfers@[i].transfer_id@
                != #[trigger] self.pending_transfers@[j].transfer_id@
    }

    /// Whether a live record has id `id`.
    pub open spec fn has_id(&self, id: Seq<u8>) -> bool {
        exists|i: int|
            0 <= i < self.pending_transfers@.len() && #[trigger] self.pending_transfers@[i].transfer_id@
                == id
    }

    /// Position in the index of the live record with id `id`.
    pub open spec fn position(&self, id: Seq<u8>) -> int {
        choose|i: int|
            0 <= i < self.pending_transfers@.len() && #[trigger] self.pending_transfers@[i].transfer_id@
                == id
    }

    /// The live record with id `id`.
    pub open spec fn record(&self, id: Seq<u8>) -> PendingTransfer {
        self.pending_transfers@[self.position(id)]
    }

    /// Owner, approval set, allocation, shutdown flag, ceiling and cooldown
    /// are those of `other`.
    pub open spec fn same_config(&self, other: &Treasury) -> bool {
        &&& self.owner == other.owner
        &&& self.authorized_admins@ == other.authorized_admins@
        &&& self.fund_allocation == other.fund_allocation
        &&& self.emergency_shutdown == other.emergency_shutdown
        &&& self.max_transfer_amount == other.max_transfer_amount
        &&& self.emergency_cooldown == other.emergency_cooldown
    }

    /// Every record live in both states kept its quorum.
    pub open spec fn quorums_frozen(&self, later: &Treasury) -> bool {
        forall|id: Seq<u8>|
            self.has_id(id) && later.has_id(id) ==> #[trigger] later.record(id).required_approvals
                == self.record(id).required_approvals
    }

    /// A treasury with no records, no funds, the default allocation, a
    /// ceiling of 10000 and a cooldown of an hour.
    pub fn new(owner: u64, initial_admins: Vec<u64>) -> (r: Self)
        requires
            initial_admins@.len() <= u32::MAX,
        ensures
            r.well_formed(),
            r.pending_transfers@.len() == 0,
            r.stats.total_balance == 0,
            r.stats.insurance_fund_balance == 0,
            r.stats.operational_fund_balance == 0,
            r.stats.emergency_fund_balance == 0,
            r.stats.pending_transfers == 0,
            r.stats.executed_transfers == 0,
            r.stats.total_transferred == 0,
            r.owner == owner,
            r.authorized_admins@ == initial_admins@,
            r.fund_allocation == (FundAllocation {
                insurance_percentage: 60,
                operational_percentage: 30,
                emergency_percentage: 10,
            }),
            !r.emergency_shutdown,
            r.max_transfer_amount == DEFAULT_MAX_TRANSFER_AMOUNT,
            r.emergency_cooldown == DEFAULT_EMERGENCY_COOLDOWN,
    {
        Treasury {
            pending_transfers: Vec::new(),
            stats: TreasuryStats::new(),
            owner,
            authorized_admins: initial_admins,
            fund_allocation: FundAllocation::default(),
            emergency_shutdown: false,
            max_transfer_amount: DEFAULT_MAX_TRANSFER_AMOUNT,
            emergency_cooldown: DEFAULT_EMERGENCY_COOLDOWN,
        }
    }

    /// Under the invariant, the record found at `i` is the one `record` names.
    pub proof fn lemma_position(&self, i: int)
        requires
            self.index_well_formed(),
            0 <= i < self.pending_transfers@.len(),
        ensures
            self.has_id(self.pending_transfers@[i].transfer_id@),
            self.position(self.pending_transfers@[i].transfer_id@) == i,
    {
        let id = self.pending_transfers@[i].transfer_id@;
        assert(self.has_id(id));
        let p = self.position(id);
        if p != i {
            assert(self.pending_transfers@[p].transfer_id@ != self.pending_transfers@[i].transfer_id@);
        }
    }

    /// Index of the live record with id `id`, if there is one.
    fn find_transfer(&self, id: &Vec<u8>) -> (r: Option<usize>)
        requires
            self.well_formed(),
        ensures
            r is None <==> !self.has_id(id@),
            r is Some ==> r->0 < self.pending_transfers@.len() && r->0 == self.position(id@),
    {
        let mut i: usize = 0;
        while i < self.pending_transfers.len()
            invariant
                self.well_formed(),
                0 <= i <= self.pending_transfers@.len(),
                forall|j: int| 0 <= j < i ==> #[trigger] self.pending_transfers@[j].transfer_id@ != id@,
            decreases self.pending_transfers@.len() - i,
        {
            if bytes_equal(&self.pending_transfers[i].transfer_id, id) {
                proof {
                    self.lemma_position(i as int);
                }
                return Some(i);
            }
            i = i + 1;
        }
        None
    }

    /// Taking the record at `i` out of the index keeps the index well formed;
    /// its id is then gone, and every other record stays where `record`
    /// finds it.
    pub proof fn lemma_removed(pre: Treasury, post: Treasury, i: int)
        requires
            pre.index_well_formed(),
            0 <= i < pre.pending_transfers@.len(),
            post.pending_transfers@ == pre.pending_transfers@.remove(i),
        ensures
            post.index_well_formed(),
            !post.has_id(pre.pending_transfers@[i].transfer_id@),
            forall|id: Seq<u8>|
                #[trigger] post.has_id(id) ==> pre.has_id(id) && post.record(id) == pre.record(id),
    {
        pre.pending_transfers@.remove_ensures(i);
        let n = pre.pending_transfers@.len() as int;
        let src = |k: int|
            if k < i {
                k
            } else {
                k + 1
            };
        assert forall|k: int| 0 <= k < n - 1 implies post.pending_transfers@[k]
            == pre.pending_transfers@[src(k)] by {}
        assert forall|a: int, b: int|
            0 <= a < post.pending_transfers@.len() && 0 <= b < post.pending_transfers@.len() && a
                != b implies #[trigger] post.pending_transfers@[a].transfer_id@
            != #[trigger] post.pending_transfers@[b].transfer_id@ by {
            assert(post.pending_transfers@[a] == pre.pending_transfers@[src(a)]);
            assert(post.pending_transfers@[b] == pre.pending_transfers@[src(b)]);
        }
        assert forall|a: int| 0 <= a < post.pending_transfers@.len() implies {
            let rec = #[trigger] post.pending_transfers@[a];
            &&& rec.well_formed()
            &&& rec.status == TransferStatus::Pending
            &&& rec.approvals < rec.required_approvals
            &&& rec.executed_at is None
        } by {
            assert(post.pending_transfers@[a] == pre.pending_transfers@[src(a)]);
        }
        if post.has_id(pre.pending_transfers@[i].transfer_id@) {
            let a = post.position(pre.pending_transfers@[i].transfer_id@);
            assert(post.pending_transfers@[a] == pre.pending_transfers@[src(a)]);
        }
        assert forall|id: Seq<u8>| #[trigger] post.has_id(id) implies pre.has_id(id)
            && post.record(id) == pre.record(id) by {
            let a = post.position(id);
            assert(post.pending_transfers@[a] == pre.pending_transfers@[src(a)]);
            pre.lemma_position(src(a));
        }
    }

    /// Replacing the record at `i` by one with the same id and quorum keeps
    /// the ids and positions of the index.
    pub proof fn lemma_replaced(pre: Treasury, post: Treasury, i: int)
        requires
            pre.index_well_formed(),
            0 <= i < pre.pending_transfers@.len(),
            post.pending_transfers@ == pre.pending_transfers@.update(i, post.pending_transfers@[i]),
            post.pending_transfers@[i].transfer_id@ == pre.pending_transfers@[i].transfer_id@,
            ({
                let rec = post.pending_transfers@[i];
                &&& rec.well_formed()
                &&& rec.status == TransferStatus::Pending
                &&& rec.approvals < rec.required_approvals
                &&& rec.executed_at is None
            }),
        ensures
            post.index_well_formed(),
            forall|id: Seq<u8>| #[trigger] post.has_id(id) <==> pre.has_id(id),
            forall|id: Seq<u8>| #[trigger] post.has_id(id) ==> post.position(id) == pre.position(id),
    {
        assert forall|a: int, b: int|
            0 <= a < post.pending_transfers@.len() && 0 <= b < post.pending_transfers@.len() && a
                != b implies #[trigger] post.pending_transfers@[a].transfer_id@
            != #[trigger] post.pending_transfers@[b].transfer_id@ by {
            assert(post.pending_transfers@[a].transfer_id@ == pre.pending_transfers@[a].transfer_id@);
            assert(post.pending_transfers@[b].transfer_id@ == pre.pending_transfers@[b].transfer_id@);
        }
        assert(post.index_well_formed());
        assert forall|id: Seq<u8>| #[trigger] post.has_id(id) <==> pre.has_id(id) by {
            if post.has_id(id) {
                let a = post.position(id);
                assert(pre.pending_transfers@[a].transfer_id@ == id);
            }
            if pre.has_id(id) {
                let a = pre.position(id);
                assert(post.pending_transfers@[a].transfer_id@ == id);
            }
        }
        assert forall|id: Seq<u8>| #[trigger] post.has_id(id) implies post.position(id)
            == pre.position(id) by {
            let a = post.position(id);
            assert(pre.pending_transfers@[a].transfer_id@ == id);
            pre.lemma_position(a);
        }
    }

    /// Result of an attempt to execute `rec` with `approvals` approvals at
    /// time `now`, against this treasury's cooldown and balance.
    pub open spec fn execution_attempt(&self, rec: PendingTransfer, approvals: int, now: u64) -> Result<
        (),
        ContractError,
    > {
        execution_outcome(
            approvals,
            rec.required_approvals as int,
            rec.is_emergency,
            rec.created_at as int,
            now as int,
            self.emergency_cooldown as int,
            self.stats.total_balance as int,
            rec.amount as int,
        )
    }

    /// Why `admin` may not approve record `id` at time `now`, checked in
    /// this order: the approval set, a live record, a first approval, and,
    /// when this approval meets the quorum, the execution it triggers.
    pub open spec fn approve_error(&self, admin: u64, id: Seq<u8>, now: u64) -> Option<
        ContractError,
    > {
        if !self.authorized_admins@.contains(admin) {
            Some(ContractError::Unauthorized)
        } else if !self.has_id(id) {
            Some(ContractError::InvalidState)
        } else if self.record(id).approvers@.contains(admin) {
            Some(ContractError::TransferAlreadyAuthorized)
        } else if self.record(id).approvals + 1 >= self.record(id).required_approvals {
            match self.execution_attempt(self.record(id), self.record(id).approvals + 1, now) {
                Err(e) => Some(e),
                Ok(_) => None,
            }
        } else {
            None
        }
    }

    /// `post` and `r` are what approving record `id` by `admin` at `now`
    /// gives from `pre`.
    pub open spec fn approve_post(
        pre: Treasury,
        post: Treasury,
        admin: u64,
        id: Seq<u8>,
        now: u64,
        r: Result<Option<PendingTransfer>, ContractError>,
    ) -> bool {
        &&& r is Err <==> pre.approve_error(admin, id, now) is Some
        &&& r is Err ==> r == Err::<Option<PendingTransfer>, ContractError>(
            pre.approve_error(admin, id, now)->0,
        ) && post == pre
        &&& r is Ok ==> {
            let i = pre.position(id);
            let before = pre.pending_transfers@[i];
            &&& post.same_config(&pre)
            &&& (r->Ok_0 is Some <==> before.approvals + 1 >= before.required_approvals)
            &&& r->Ok_0 is None ==> {
                let after = post.pending_transfers@[i];
                &&& post.pending_transfers@ == pre.pending_transfers@.update(i, after)
                &&& same_terms(after, before)
                &&& after.approvers@ == before.approvers@.push(admin)
                &&& after.approvals == before.approvals + 1
                &&& after.status == TransferStatus::Pending
                &&& after.executed_at is None
                &&& post.stats == pre.stats
            }
            &&& r matches Ok(Some(rec)) ==> {
                &&& post.pending_transfers@ == pre.pending_transfers@.remove(i)
                &&& same_terms(rec, before)
                &&& rec.approvers@ == before.approvers@.push(admin)
                &&& rec.approvals == before.approvals + 1
                &&& rec.status == TransferStatus::Executed
                &&& rec.executed_at == Some(now)
                &&& settled(pre.stats, post.stats, before.amount as int, pre.fund_allocation)
                &&& post.stats.pending_transfers == pre.stats.pending_transfers - 1
            }
        }
    }

    /// Adds the approval of `admin` to record `id`. When that meets the
    /// quorum the record is executed in the same call (`Ok(Some(record))`);
    /// if the execution fails, so does the whole call.
    pub fn approve_transfer(&mut self, admin: u64, transfer_id: &Vec<u8>, now: u64) -> (r: Result<
        Option<PendingTransfer>,
        ContractError,
    >)
        requires
            old(self).well_formed(),
            old(self).stats.executed_transfers < u64::MAX,
        ensures
            final(self).well_formed(),
            old(self).quorums_frozen(final(self)),
            Self::approve_post(*old(self), *final(self), admin, transfer_id@, now, r),
    {
        let ghost pre = *self;
        if !AccessControl::has_role(&self.authorized_admins, admin, Role::Admin) {
            return Err(ContractError::Unauthorized);
        }
        let i = match self.find_transfer(transfer_id) {
            Some(i) => i,
            None => {
                return Err(ContractError::InvalidState);
            },
        };
        if !self.pending_transfers[i].is_pending() {
            return Err(ContractError::InvalidState);
        }
        if self.pending_transfers[i].has_approved(admin) {
            return Err(ContractError::TransferAlreadyAuthorized);
        }
        let count = self.pending_transfers[i].approvals + 1;
        if count >= self.pending_transfers[i].required_approvals {
            let rec = &self.pending_transfers[i];
            match check_execution(
                count,
                rec.required_approvals,
                rec.is_emergency,
                rec.created_at,
                now,
                self.emergency_cooldown,
                self.stats.total_balance,
                rec.amount,
            ) {
                Err(e) => {
                    return Err(e);
                },
                Ok(()) => {},
            }
            let mut rec = self.pending_transfers.remove(i);
            rec.add_approval(admin);
            rec.mark_as_approved();
            settle(&mut self.stats, rec.amount, &self.fund_allocation);
            self.stats.decrement_pending_transfers();
            rec.mark_as_executed(now);
            proof {
                Self::lemma_removed(pre, *self, i as int);
                assert forall|id: Seq<u8>| pre.has_id(id) && self.has_id(id) implies #[trigger] self.record(id).required_approvals
                    == pre.record(id).required_approvals by {}
            }
            Ok(Some(rec))
        } else {
            let mut rec = self.pending_transfers.remove(i);
            rec.add_approval(admin);
            self.pending_transfers.insert(i, rec);
            proof {
                assert(self.pending_transfers@ =~= pre.pending_transfers@.update(
                    i as int,
                    self.pending_transfers@[i as int],
                ));
                Self::lemma_replaced(pre, *self, i as int);
                assert forall|id: Seq<u8>| pre.has_id(id) && self.has_id(id) implies #[trigger] self.record(id).required_approvals
                    == pre.record(id).required_approvals by {
                    assert(self.position(id) == pre.position(id));
                }
            }
            Ok(None)
        }
    }

    /// Why `admin` may not execute record `id` at time `now`: the approval
    /// set, a live record, an approved record with its quorum met, then the
    /// cooldown and the balance.
    pub open spec fn execute_error(&self, admin: u64, id: Seq<u8>, now: u64) -> Option<
        ContractError,
    > {
        if !self.authorized_admins@.contains(admin) {
            Some(ContractError::Unauthorized)
        } else if !self.has_id(id) {
            Some(ContractError::InvalidState)
        } else if !(self.record(id).status == TransferStatus::Approved && self.record(id).approvals
            >= self.record(id).required_approvals) {
            Some(ContractError::TransferNotAuthorized)
        } else {
            match self.execution_attempt(self.record(id), self.record(id).approvals as int, now) {
                Err(e) => Some(e),
                Ok(_) => None,
            }
        }
    }

    /// `post` and `r` are what executing record `id` by `admin` at `now`
    /// gives from `pre`.
    pub open spec fn execute_post(
        pre: Treasury,
        post: Treasury,
        admin: u64,
        id: Seq<u8>,
        now: u64,
        r: Result<PendingTransfer, ContractError>,
    ) -> bool {
        &&& r is Err <==> pre.execute_error(admin, id, now) is Some
        &&& r is Err ==> r == Err::<PendingTransfer, ContractError>(
            pre.execute_error(admin, id, now)->0,
        ) && post == pre
        &&& r matches Ok(rec) ==> {
            let i = pre.position(id);
            let before = pre.pending_transfers@[i];
            &&& post.same_config(&pre)
            &&& post.pending_transfers@ == pre.pending_transfers@.remove(i)
            &&& same_terms(rec, before)
            &&& rec.approvers@ == before.approvers@
            &&& rec.approvals == before.approvals
            &&& rec.status == TransferStatus::Executed
            &&& rec.executed_at == Some(now)
            &&& settled(pre.stats, post.stats, before.amount as int, pre.fund_allocation)
            &&& post.stats.pending_transfers == pre.stats.pending_transfers - 1
        }
    }

    /// Executes an approved record: debits the ledger, stamps the record and
    /// takes it out of the index. Records in the index are still short of
    /// their quorum (the approval that meets it executes at once), so this
    /// call fails on them with `TransferNotAuthorized`.
    pub fn execute_transfer(&mut self, admin: u64, transfer_id: &Vec<u8>, now: u64) -> (r: Result<
        PendingTransfer,
        ContractError,
    >)
        requires
            old(self).well_formed(),
            old(self).stats.executed_transfers < u64::MAX,
        ensures
            final(self).well_formed(),
            old(self).quorums_frozen(final(self)),
            Self::execute_post(*old(self), *final(self), admin, transfer_id@, now, r),
    {
        let ghost pre = *self;
        if !AccessControl::has_role(&self.authorized_admins, admin, Role::Admin) {
            return Err(ContractError::Unauthorized);
        }
        let i = match self.find_transfer(transfer_id) {
            Some(i) => i,
            None => {
                return Err(ContractError::InvalidState);
            },
        };
        if !self.pending_transfers[i].can_be_executed() {
            return Err(ContractError::TransferNotAuthorized);
        }
        let rec = &self.pending_transfers[i];
        match check_execution(
            rec.approvals,
            rec.required_approvals,
            rec.is_emergency,
            rec.created_at,
            now,
            self.emergency_cooldown,
            self.stats.total_balance,
            rec.amount,
        ) {
            Err(e) => {
                return Err(e);
            },
            Ok(()) => {},
        }
        let mut rec = self.pending_transfers.remove(i);
        settle(&mut self.stats, rec.amount, &self.fund_allocation);
        self.stats.decrement_pending_transfers();
        rec.mark_as_executed(now);
        proof {
            Self::lemma_removed(pre, *self, i as int);
        }
        Ok(rec)
    }

    /// Why `admin` may not reject record `id`.
    pub open spec fn reject_error(&self, admin: u64, id: Seq<u8>) -> Option<ContractError> {
        if !self.authorized_admins@.contains(admin) {
            Some(ContractError::Unauthorized)
        } else if !self.has_id(id) {
            Some(ContractError::InvalidState)
        } else {
            None
        }
    }

    /// Why `admin` may not cancel record `id`: besides what a rejection
    /// asks, only the submitter or the owner may cancel.
    pub open spec fn cancel_error(&self, admin: u64, id: Seq<u8>) -> Option<ContractError> {
        if !self.authorized_admins@.contains(admin) {
            Some(ContractError::Unauthorized)
        } else if !self.has_id(id) {
            Some(ContractError::InvalidState)
        } else if admin != self.record(id).submitter && admin != self.owner {
            Some(ContractError::Unauthorized)
        } else {
            None
        }
    }

    /// `post` and `r` close record `id` from `pre` in state `status`
    /// without moving funds, or fail with `error` and change nothing.
    pub open spec fn close_post(
        pre: Treasury,
        post: Treasury,
        id: Seq<u8>,
        error: Option<ContractError>,
        status: TransferStatus,
        r: Result<PendingTransfer, ContractError>,
    ) -> bool {
        &&& r is Err <==> error is Some
        &&& r is Err ==> r == Err::<PendingTransfer, ContractError>(error->0) && post == pre
        &&& r matches Ok(rec) ==> {
            let i = pre.position(id);
            let before = pre.pending_transfers@[i];
            &&& post.same_config(&pre)
            &&& post.pending_transfers@ == pre.pending_transfers@.remove(i)
            &&& same_terms(rec, before)
            &&& rec.approvers@ == before.approvers@
            &&& rec.approvals == before.approvals
            &&& rec.status == status
            &&& rec.executed_at is None
            &&& post.stats == (TreasuryStats {
                pending_transfers: (pre.stats.pending_transfers - 1) as u64,
                ..pre.stats
            })
        }
    }

    /// Rejects record `id`: it leaves the index as `Rejected`; no funds move.
    pub fn reject_transfer(&mut self, admin: u64, transfer_id: &Vec<u8>) -> (r: Result<
        PendingTransfer,
        ContractError,
    >)
        requires
            old(self).well_formed(),
        ensures
            final(self).well_formed(),
            old(self).quorums_frozen(final(self)),
            Self::close_post(
                *old(self),
                *final(self),
                transfer_id@,
                old(self).reject_error(admin, transfer_id@),
                TransferStatus::Rejected,
                r,
            ),
    {
        let ghost pre = *self;
        if !AccessControl::has_role(&self.authorized_admins, admin, Role::Admin) {
            return Err(ContractError::Unauthorized);
        }
        let i = match self.find_transfer(transfer_id) {
            Some(i) => i,
            None => {
                return Err(ContractError::InvalidState);
            },
        };
        if !self.pending_transfers[i].is_pending() {
            return Err(ContractError::InvalidState);
        }
        let mut rec = self.pending_transfers.remove(i);
        rec.mark_as_rejected();
        self.stats.decrement_pending_transfers();
        proof {
            Self::lemma_removed(pre, *self, i as int);
        }
        Ok(rec)
    }

    /// Cancels record `id`: it leaves the index as `Cancelled`; no funds
    /// move.
    pub fn cancel_transfer(&mut self, admin: u64, transfer_id: &Vec<u8>) -> (r: Result<
        PendingTransfer,
        ContractError,
    >)
        requires
            old(self).well_formed(),
        ensures
            final(self).well_formed(),
            old(self).quorums_frozen(final(self)),
            Self::close_post(
                *old(self),
                *final(self),
                transfer_id@,
                old(self).cancel_error(admin, transfer_id@),
                TransferStatus::Cancelled,
                r,
            ),
    {
        let ghost pre = *self;
        if !AccessControl::has_role(&self.authorized_admins, admin, Role::Admin) {
            return Err(ContractError::Unauthorized);
        }
        let i = match self.find_transfer(transfer_id) {
            Some(i) => i,
            None => {
                return Err(ContractError::InvalidState);
            },
        };
        if !self.pending_transfers[i].is_pending() {
            return Err(ContractError::InvalidState);
        }
        if admin != self.pending_transfers[i].submitter && admin != self.owner {
            return Err(ContractError::Unauthorized);
        }
        let mut rec = self.pending_transfers.remove(i);
        rec.cancel();
        self.stats.decrement_pending_transfers();
        proof {
            Self::lemma_removed(pre, *self, i as int);
        }
        Ok(rec)
    }

    /// Adds `amount` to the treasury and recomputes the sub-funds;
    /// `InvalidInput` unless the amount is positive.
    pub fn add_funds(&mut self, amount: i128) -> (r: Result<(), ContractError>)
        requires
            old(self).well_formed(),
            amount > 0 ==> old(self).stats.total_balance + old(self).stats.total_transferred
                + amount <= MAX_LEDGER_BALANCE,
        ensures
            final(self).well_formed(),
            amount <= 0 ==> r == Err::<(), ContractError>(ContractError::InvalidInput)
                && *final(self) == *old(self),
            amount > 0 ==> r is Ok && final(self).same_config(old(self))
                && final(self).pending_transfers@ == old(self).pending_transfers@
                && final(self).stats.total_balance == old(self).stats.total_balance + amount
                && final(self).stats.pending_transfers == old(self).stats.pending_transfers
                && final(self).stats.executed_transfers == old(self).stats.executed_transfers
                && final(self).stats.total_transferred == old(self).stats.total_transferred,
    {
        if amount <= 0 {
            return Err(ContractError::InvalidInput);
        }
        self.stats.add_funds(amount);
        self.stats.rebalance_funds(&self.fund_allocation);
        Ok(())
    }

    /// Blocks new non-emergency submissions; owner only.
    pub fn emergency_shutdown(&mut self, caller: u64) -> (r: Result<(), ContractError>)
        requires
            old(self).well_formed(),
        ensures
            final(self).well_formed(),
            caller != old(self).owner ==> r == Err::<(), ContractError>(ContractError::Unauthorized)
                && *final(self) == *old(self),
            caller == old(self).owner ==> r is Ok && *final(self) == (Treasury {
                emergency_shutdown: true,
                ..*old(self)
            }),
    {
        if caller != self.owner {
            return Err(ContractError::Unauthorized);
        }
        self.emergency_shutdown = true;
        Ok(())
    }

    /// Lifts the shutdown; owner only.
    pub fn disable_emergency_shutdown(&mut self, caller: u64) -> (r: Result<(), ContractError>)
        requires
            old(self).well_formed(),
        ensures
            final(self).well_formed(),
            caller != old(self).owner ==> r == Err::<(), ContractError>(ContractError::Unauthorized)
                && *final(self) == *old(self),
            caller == old(self).owner ==> r is Ok && *final(self) == (Treasury {
                emergency_shutdown: false,
                ..*old(self)
            }),
    {
        if caller != self.owner {
            return Err(ContractError::Unauthorized);
        }
        self.emergency_shutdown = false;
        Ok(())
    }

    /// Replaces the fund allocation and recomputes the sub-funds; owner
    /// only, and the percentages must sum to 100.
    pub fn update_fund_allocation(&mut self, caller: u64, allocation: FundAllocation) -> (r: Result<
        (),
        ContractError,
    >)
        requires
            old(self).well_formed(),
        ensures
            final(self).well_formed(),
            caller != old(self).owner ==> r == Err::<(), ContractError>(ContractError::Unauthorized)
                && *final(self) == *old(self),
            caller == old(self).owner && !allocation.valid() ==> r == Err::<(), ContractError>(
                ContractError::InvalidInput,
            ) && *final(self) == *old(self),
            caller == old(self).owner && allocation.valid() ==> r is Ok
                && final(self).fund_allocation == allocation
                && final(self).pending_transfers@ == old(self).pending_transfers@
                && final(self).owner == old(self).owner
                && final(self).authorized_admins@ == old(self).authorized_admins@
                && final(self).emergency_shutdown == old(self).emergency_shutdown
                && final(self).max_transfer_amount == old(self).max_transfer_amount
                && final(self).emergency_cooldown == old(self).emergency_cooldown
                && final(self).stats.total_balance == old(self).stats.total_balance
                && final(self).stats.pending_transfers == old(self).stats.pending_transfers
                && final(self).stats.executed_transfers == old(self).stats.executed_transfers
                && final(self).stats.total_transferred == old(self).stats.total_transferred,
    {
        if caller != self.owner {
            return Err(ContractError::Unauthorized);
        }
        let sum: u64 = allocation.insurance_percentage as u64 + allocation.operational_percentage as u64
            + allocation.emergency_percentage as u64;
        if sum != 100 {
            return Err(ContractError::InvalidInput);
        }
        self.fund_allocation = allocation;
        self.stats.rebalance_funds(&allocation);
        Ok(())
    }

    /// Sets the ceiling for non-emergency transfers; owner only.
    pub fn update_max_transfer_amount(&mut self, caller: u64, amount: i128) -> (r: Result<
        (),
        ContractError,
    >)
        requires
            old(self).well_formed(),
        ensures
            final(self).well_formed(),
            caller != old(self).owner ==> r == Err::<(), ContractError>(ContractError::Unauthorized)
                && *final(self) == *old(self),
            caller == old(self).owner ==> r is Ok && *final(self) == (Treasury {
                max_transfer_amount: amount,
                ..*old(self)
            }),
    {
        if caller != self.owner {
            return Err(ContractError::Unauthorized);
        }
        self.max_transfer_amount = amount;
        Ok(())
    }

    /// Sets the cooldown of non-emergency transfers; owner only.
    pub fn update_emergency_cooldown(&mut self, caller: u64, cooldown_seconds: u64) -> (r: Result<
        (),
        ContractError,
    >)
        requires
            old(self).well_formed(),
        ensures
            final(self).well_formed(),
            caller != old(self).owner ==> r == Err::<(), ContractError>(ContractError::Unauthorized)
                && *final(self) == *old(self),
            caller == old(self).owner ==> r is Ok && *final(self) == (Treasury {
                emergency_cooldown: cooldown_seconds,
                ..*old(self)
            }),
    {
        if caller != self.owner {
            return Err(ContractError::Unauthorized);
        }
        self.emergency_cooldown = cooldown_seconds;
        Ok(())
    }

    /// The live record with id `transfer_id`, if any.
    pub fn get_pending_transfer(&self, transfer_id: &Vec<u8>) -> (r: Option<&PendingTransfer>)
        requires
            self.well_formed(),
        ensures
            r is None <==> !self.has_id(transfer_id@),
            r matches Some(rec) ==> *rec == self.record(transfer_id@),
    {
        match self.find_transfer(transfer_id) {
            Some(i) => Some(&self.pending_transfers[i]),
            None => None,
        }
    }

    /// Ids of the live records, in index order.
    pub fn get_all_pending_transfers(&self) -> (r: Vec<Vec<u8>>)
        ensures
            r@.len() == self.pending_transfers@.len(),
            forall|i: int| 0 <= i < r@.len() ==> #[trigger] r@[i]@ == self.pending_transfers@[i].transfer_id@,
    {
        let mut ids: Vec<Vec<u8>> = Vec::new();
        let mut i: usize = 0;
        while i < self.pending_transfers.len()
            invariant
                0 <= i <= self.pending_transfers@.len(),
                ids@.len() == i,
                forall|j: int| 0 <= j < i ==> #[trigger] ids@[j]@ == self.pending_transfers@[j].transfer_id@,
            decreases self.pending_transfers@.len() - i,
        {
            ids.push(copy_bytes(&self.pending_transfers[i].transfer_id));
            i = i + 1;
        }
        ids
    }

    /// The ledger totals and counters.
    pub fn get_stats(&self) -> (r: TreasuryStats)
        ensures
            r == self.stats,
    {
        self.stats
    }

    /// The owner.
    pub fn get_owner(&self) -> (r: u64)
        ensures
            r == self.owner,
    {
        self.owner
    }

    /// The approval set.
    pub fn get_authorized_admins(&self) -> (r: Vec<u64>)
        ensures
            r@ == self.authorized_admins@,
    {
        copy_accounts(&self.authorized_admins)
    }

    /// The fund allocation.
    pub fn get_fund_allocation(&self) -> (r: FundAllocation)
        ensures
            r == self.fund_allocation,
    {
        self.fund_allocation
    }

    /// The ceiling for non-emergency transfers.
    pub fn get_max_transfer_amount(&self) -> (r: i128)
        ensures
            r == self.max_transfer_amount,
    {
        self.max_transfer_amount
    }

    /// The cooldown of non-emergency transfers, in seconds.
    pub fn get_emergency_cooldown(&self) -> (r: u64)
        ensures
            r == self.emergency_cooldown,
    {
        self.emergency_cooldown
    }

    /// Whether the shutdown is on.
    pub fn is_emergency_shutdown(&self) -> (r: bool)
        ensures
            r == self.emergency_shutdown,
    {
        self.emergency_shutdown
    }

    /// The total balance of the treasury.
    pub fn get_total_balance(&self) -> (r: i128)
        ensures
            r == self.stats.total_balance,
    {
        self.stats.total_balance
    }

    /// Checks the terms of a new transfer: a positive amount, within the
    /// ceiling unless it is an emergency, to an actual account.
    pub fn validate_transfer_params(&self, params: &TransferParams) -> (r: Result<(), ContractError>)
        ensures
            r is Ok <==> params.amount > 0 && (params.is_emergency || params.amount
                <= self.max_transfer_amount) && params.to != NULL_ACCOUNT,
            r is Err ==> r == Err::<(), ContractError>(ContractError::InvalidInput),
    {
        if params.amount <= 0 {
            return Err(ContractError::InvalidInput);
        }
        if params.amount > self.max_transfer_amount && !params.is_emergency {
            return Err(ContractError::InvalidInput);
        }
        if params.to == NULL_ACCOUNT {
            return Err(ContractError::InvalidInput);
        }
        Ok(())
    }

    /// Whether a submission by `admin` executes at once: the owner moving no
    /// more than the ceiling needs no quorum and no cooldown.
    pub open spec fn owner_path(&self, admin: u64, params: TransferParams) -> bool {
        admin == self.owner && params.amount <= self.max_transfer_amount
    }

    /// Why `admin` may not submit `params` under `id`, checked in this order.
    pub open spec fn submit_error(&self, admin: u64, id: Seq<u8>, params: TransferParams) -> Option<
        ContractError,
    > {
        if !self.authorized_admins@.contains(admin) {
            Some(ContractError::Unauthorized)
        } else if self.emergency_shutdown && !params.is_emergency {
            Some(ContractError::InvalidState)
        } else if self.has_id(id) {
            Some(ContractError::InvalidInput)
        } else if params.amount <= 0 {
            Some(ContractError::InvalidInput)
        } else if !params.is_emergency && params.amount > self.max_transfer_amount {
            Some(ContractError::InvalidInput)
        } else if params.to == NULL_ACCOUNT {
            Some(ContractError::InvalidInput)
        } else if params.required_approvals == Some(0u32) {
            Some(ContractError::InvalidInput)
        } else if self.owner_path(admin, params) && self.stats.total_balance < params.amount {
            Some(ContractError::InsufficientBalance)
        } else {
            None
        }
    }

    /// Quorum of a transfer submitted now with `params`.
    pub open spec fn quorum_for(&self, params: TransferParams) -> int {
        quorum(self.authorized_admins@.len() as int, params.is_emergency, params.required_approvals)
    }

    /// Submits a transfer. It enters the index in `Pending` with no
    /// approvals (`Ok(None)`), or, when the owner moves no more than the
    /// ceiling, is approved by the owner and executed at once
    /// (`Ok(Some(record))`).
    pub fn submit_transfer(
        &mut self,
        admin: u64,
        transfer_id: Vec<u8>,
        params: TransferParams,
        now: u64,
    ) -> (r: Result<Option<PendingTransfer>, ContractError>)
        requires
            old(self).well_formed(),
            old(self).stats.pending_transfers < u64::MAX,
            old(self).stats.executed_transfers < u64::MAX,
        ensures
            final(self).well_formed(),
            final(self).same_config(old(self)),
            old(self).quorums_frozen(final(self)),
            r is Err <==> old(self).submit_error(admin, transfer_id@, params) is Some,
            r is Err ==> r == Err::<Option<PendingTransfer>, ContractError>(
                old(self).submit_error(admin, transfer_id@, params)->0,
            ) && *final(self) == *old(self),
            r is Ok ==> (r->Ok_0 is Some <==> old(self).owner_path(admin, params)),
            r == Ok::<Option<PendingTransfer>, ContractError>(None) ==> {
                let rec = final(self).pending_transfers@.last();
                &&& final(self).pending_transfers@.len() == old(self).pending_transfers@.len() + 1
                &&& final(self).pending_transfers@.drop_last() == old(self).pending_transfers@
                &&& opened_as(rec, transfer_id@, admin, params, old(self).quorum_for(params), now)
                &&& rec.approvers@ == Seq::<u64>::empty()
                &&& rec.approvals == 0
                &&& rec.status == TransferStatus::Pending
                &&& rec.executed_at is None
                &&& final(self).stats == (TreasuryStats {
                    pending_transfers: (old(self).stats.pending_transfers + 1) as u64,
                    ..old(self).stats
                })
            },
            r matches Ok(Some(rec)) ==> {
                &&& final(self).pending_transfers@ == old(self).pending_transfers@
                &&& opened_as(rec, transfer_id@, admin, params, old(self).quorum_for(params), now)
                &&& rec.approvers@ == seq![admin]
                &&& rec.approvals == 1
                &&& rec.status == TransferStatus::Executed
                &&& rec.executed_at == Some(now)
                &&& settled(
                    old(self).stats,
                    final(self).stats,
                    params.amount as int,
                    old(self).fund_allocation,
                )
                &&& final(self).stats.pending_transfers == old(self).stats.pending_transfers
            },
    {
        let ghost pre = *self;
        if !AccessControl::has_role(&self.authorized_admins, admin, Role::Admin) {
            return Err(ContractError::Unauthorized);
        }
        if self.emergency_shutdown && !params.is_emergency {
            return Err(ContractError::InvalidState);
        }
        if self.find_transfer(&transfer_id).is_some() {
            return Err(ContractError::InvalidInput);
        }
        if self.validate_transfer_params(&params).is_err() {
            return Err(ContractError::InvalidInput);
        }
        match params.required_approvals {
            Some(k) => {
                if k == 0 {
                    return Err(ContractError::InvalidInput);
                }
            },
            None => {},
        }
        let owner_path = admin == self.owner && params.amount <= self.max_transfer_amount;
        if owner_path && self.stats.total_balance < params.amount {
            return Err(ContractError::InsufficientBalance);
        }
        proof {
            assert(self.authorized_admins@.len() >= 1) by {
                let k = self.authorized_admins@.index_of(admin);
                assert(self.authorized_admins@[k] == admin);
            }
        }
        let required = required_approvals(
            self.authorized_admins.len() as u32,
            params.is_emergency,
            params.required_approvals,
        );
        let ghost p = params;
        let mut transfer = PendingTransfer::new(transfer_id, params, required, admin, now);
        if owner_path {
            transfer.add_approval(admin);
            assert(transfer.approvers@ =~= seq![admin]);
            transfer.mark_as_approved();
            let amount = transfer.amount;
            settle(&mut self.stats, amount, &self.fund_allocation);
            transfer.mark_as_executed(now);
            proof {
                assert(self.pending_transfers@ == pre.pending_transfers@);
                assert forall|id: Seq<u8>| pre.has_id(id) && self.has_id(id) implies #[trigger] self.record(id).required_approvals
                    == pre.record(id).required_approvals by {}
            }
            Ok(Some(transfer))
        } else {
            self.pending_transfers.push(transfer);
            self.stats.increment_pending_transfers();
            proof {
                assert(self.pending_transfers@.drop_last() =~= pre.pending_transfers@);
                assert forall|i: int, j: int|
                    0 <= i < self.pending_transfers@.len() && 0 <= j < self.pending_transfers@.len()
                        && i != j implies #[trigger] self.pending_transfers@[i].transfer_id@
                    != #[trigger] self.pending_transfers@[j].transfer_id@ by {
                    let n = pre.pending_transfers@.len() as int;
                    if i == n {
                        assert(pre.pending_transfers@[j] == self.pending_transfers@[j]);
                    } else if j == n {
                        assert(pre.pending_transfers@[i] == self.pending_transfers@[i]);
                    } else {
                        assert(pre.pending_transfers@[i] == self.pending_transfers@[i]);
                        assert(pre.pending_transfers@[j] == self.pending_transfers@[j]);
                    }
                }
                assert(self.well_formed());
                assert forall|id: Seq<u8>| pre.has_id(id) && self.has_id(id) implies #[trigger] self.record(id).required_approvals
                    == pre.record(id).required_approvals by {
                    let q = pre.position(id);
                    pre.lemma_position(q);
                    assert(self.pending_transfers@[q] == pre.pending_transfers@[q]);
                    self.lemma_position(q);
                }
            }
            Ok(None)
        }
    }
}

/// Debits `amount` from the ledger, books one execution and the amount
/// transferred, and recomputes the sub-funds.
fn settle(stats: &mut TreasuryStats, amount: i128, allocation: &FundAllocation)
    requires
        allocation.valid(),
        0 < amount <= old(stats).total_balance,
        0 <= old(stats).total_transferred,
        old(stats).total_balance + old(stats).total_transferred <= MAX_LEDGER_BALANCE,
        old(stats).executed_transfers < u64::MAX,
    ensures
        settled(*old(stats), *final(stats), amount as int, *allocation),
        final(stats).pending_transfers == old(stats).pending_transfers,
        0 <= final(stats).total_balance,
        final(stats).total_balance + final(stats).total_transferred == old(stats).total_balance
            + old(stats).total_transferred,
{
    stats.remove_funds(amount);
    stats.increment_executed_transfers();
    stats.transfer_funds("treasury", "external", amount);
    stats.rebalance_funds(allocation);
}

} // verus!
