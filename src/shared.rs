//! Types and checks shared by the contracts.

use vstd::prelude::*;

verus! {

/// Roles that an account may hold.
#[derive(Clone, Copy, PartialEq, Eq, Structural, PartialOrd, Ord, Debug)]
pub enum Role {
    NoRole,
    Admin,
    Operator,
    ClaimProcessor,
    All,
}

/// Why a call was refused. A refused call changes nothing.
#[derive(Clone, Copy, Debug, PartialEq, Eq, Structural)]
pub enum ContractError {
    /// The caller lacks the role the call needs.
    Unauthorized,
    /// Malformed input: a duplicate id, a non-positive amount, a bad
    /// percentage split, the null account, an amount above the ceiling.
    InvalidInput,
    /// The treasury cannot cover the amount.
    InsufficientBalance,
    PolicyNotFound,
    PolicyAlreadyExists,
    PolicyExpired,
    ClaimAlreadyProcessed,
    InvalidClaimAmount,
    /// A guarded operation was entered while already running.
    ReentrantCall,
    /// The record is not in the state the call needs, or the call is blocked.
    InvalidState,
    /// Execution was attempted before the quorum was met.
    TransferNotAuthorized,
    /// The account has already approved this record.
    TransferAlreadyAuthorized,
    InsufficientApprovals,
    RiskScoreOutOfRange,
    /// Execution was attempted before the cooldown window elapsed.
    CooldownActive,
}

/// Lifecycle of an insurance policy.
#[derive(Clone, Copy, Debug, PartialEq, Eq, Structural)]
pub enum PolicyStatus {
    Active,
    Expired,
    Claimed,
    Cancelled,
}

/// Lifecycle of an insurance claim.
#[derive(Clone, Copy, Debug, PartialEq, Eq, Structural)]
pub enum ClaimStatus {
    Pending,
    Approved,
    Rejected,
    Paid,
}

/// `s` with every occurrence of `x` taken out, the rest in order.
pub open spec fn without(s: Seq<u64>, x: u64) -> Seq<u64>
    decreases s.len(),
{
    if s.len() == 0 {
        s
    } else if s.last() == x {
        without(s.drop_last(), x)
    } else {
        without(s.drop_last(), x).push(s.last())
    }
}

/// Whether `x` occurs in `v`.
pub fn contains_account(v: &Vec<u64>, x: u64) -> (r: bool)
    ensures
        r == v@.contains(x),
{
    let mut i: usize = 0;
    while i < v.len()
        invariant
            0 <= i <= v@.len(),
            forall|j: int| 0 <= j < i ==> v@[j] != x,
        decreases v@.len() - i,
    {
        if v[i] == x {
            return true;
        }
        i = i + 1;
    }
    false
}

/// The authorization check: an account holds a role when it is in the
/// authorized set. Accounts are numbered; the set is a list of numbers.
pub struct AccessControl;

impl AccessControl {
    /// Succeeds when `caller` is in `authorized_roles`, else `Unauthorized`.
    pub fn require_role(authorized_roles: &Vec<u64>, caller: u64, required_role: Role) -> (r: Result<
        (),
        ContractError,
    >)
        ensures
            r is Ok <==> authorized_roles@.contains(caller),
            r is Err ==> r == Err::<(), ContractError>(ContractError::Unauthorized),
    {
        if Self::has_role(authorized_roles, caller, required_role) {
            Ok(())
        } else {
            Err(ContractError::Unauthorized)
        }
    }

    /// Whether `user` is in `authorized_roles`.
    pub fn has_role(authorized_roles: &Vec<u64>, user: u64, role: Role) -> (r: bool)
        ensures
            r == authorized_roles@.contains(user),
    {
        contains_account(authorized_roles, user)
    }

    /// Adds `user` to the set unless it is already there.
    pub fn grant_role(authorized_roles: &mut Vec<u64>, admin: u64, user: u64, role: Role)
        ensures
            old(authorized_roles)@.contains(user) ==> final(authorized_roles)@ == old(
                authorized_roles,
            )@,
            !old(authorized_roles)@.contains(user) ==> final(authorized_roles)@ == old(
                authorized_roles,
            )@.push(user),
    {
        if !contains_account(authorized_roles, user) {
            authorized_roles.push(user);
        }
    }

    /// Takes every occurrence of `user` out of the set, keeping the order of
    /// the others.
    pub fn revoke_role(authorized_roles: &mut Vec<u64>, admin: u64, user: u64)
        ensures
            final(authorized_roles)@ == without(old(authorized_roles)@, user),
            !final(authorized_roles)@.contains(user),
    {
        let mut kept: Vec<u64> = Vec::new();
        let mut i: usize = 0;
        while i < authorized_roles.len()
            invariant
                0 <= i <= authorized_roles@.len(),
                kept@ == without(authorized_roles@.subrange(0, i as int), user),
            decreases authorized_roles@.len() - i,
        {
            let a = authorized_roles[i];
            proof {
                let next = authorized_roles@.subrange(0, i + 1);
                assert(next.drop_last() =~= authorized_roles@.subrange(0, i as int));
            }
            if a != user {
                kept.push(a);
            }
            i = i + 1;
        }
        proof {
            assert(authorized_roles@.subrange(0, i as int) =~= authorized_roles@);
            lemma_without_excludes(authorized_roles@, user);
        }
        *authorized_roles = kept;
    }
}

/// Nothing equal to `x` is left in `without(s, x)`.
pub proof fn lemma_without_excludes(s: Seq<u64>, x: u64)
    ensures
        !without(s, x).contains(x),
    decreases s.len(),
{
    if s.len() > 0 {
        lemma_without_excludes(s.drop_last(), x);
        if s.last() != x {
            let w = without(s.drop_last(), x);
            assert forall|j: int| 0 <= j < w.push(s.last()).len() implies w.push(s.last())[j]
                != x by {
                if j < w.len() {
                    assert(w[j] != x);
                }
            }
        }
    }
}

/// A latch that refuses to be entered twice.
pub struct ReentrancyGuard {
    pub locked: bool,
}

impl ReentrancyGuard {
    /// An open latch.
    pub fn new() -> (r: Self)
        ensures
            !r.locked,
    {
        Self { locked: false }
    }

    /// Closes the latch; `ReentrantCall` if it is already closed.
    pub fn start_protection(&mut self) -> (r: Result<(), ContractError>)
        ensures
            old(self).locked ==> r == Err::<(), ContractError>(ContractError::ReentrantCall)
                && final(self).locked,
            !old(self).locked ==> r is Ok && final(self).locked,
    {
        if self.locked {
            return Err(ContractError::ReentrantCall);
        }
        self.locked = true;
        Ok(())
    }

    /// Opens the latch; `InvalidState` if it is not closed.
    pub fn end_protection(&mut self) -> (r: Result<(), ContractError>)
        ensures
            !old(self).locked ==> r == Err::<(), ContractError>(ContractError::InvalidState)
                && !final(self).locked,
            old(self).locked ==> r is Ok && !final(self).locked,
    {
        if !self.locked {
            return Err(ContractError::InvalidState);
        }
        self.locked = false;
        Ok(())
    }
}

} // verus!
