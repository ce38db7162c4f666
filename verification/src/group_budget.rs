//! A group's budget: one project-scoped account, with at most one
//! reservation in flight per invocation.
//!
//! Instants are milliseconds since the Unix epoch, in UTC.
use crate::budget::{
    law_refund_undoes_reserve, after_reset, availability_fault, released_from, reserved_from, AccountView, BudgetAccount,
    BudgetLimits, BudgetScope, limits_valid,
};
use crate::ids::{ProjectId, ReservationId};
use std::collections::HashMap;
use vstd::prelude::*;

verus! {

#[derive(Debug, Clone, Copy, PartialEq, Eq, Structural)]
pub enum GroupBudgetError {
    DuplicateInvocation,
    BudgetExceeded,
    UnknownReservation,
    InvalidBudget,
}

impl GroupBudgetError {
    /// The human-readable description of the error.
    pub fn message(&self) -> (r: &'static str)
        ensures
            r@ == (match *self {
                GroupBudgetError::DuplicateInvocation => "invocation already has a group budget reservation"@,
                GroupBudgetError::BudgetExceeded => "group budget is exceeded"@,
                GroupBudgetError::UnknownReservation => "group budget reservation is unknown"@,
                GroupBudgetError::InvalidBudget => "group budget configuration is invalid"@,
            }),
    {
        match self {
            GroupBudgetError::DuplicateInvocation => "invocation already has a group budget reservation",
            GroupBudgetError::BudgetExceeded => "group budget is exceeded",
            GroupBudgetError::UnknownReservation => "group budget reservation is unknown",
            GroupBudgetError::InvalidBudget => "group budget configuration is invalid",
        }
    }
}

/// Calls chrono's `Utc::now` and reads the instant back with
/// `timestamp_millis`. Nothing is promised of the reading: it is the
/// machine's clock.
#[verifier::external_body]
pub(crate) fn now_millis() -> (r: i64) {
    chrono::Utc::now().timestamp_millis()
}

/// The budget of one group of agents. Invocations are keyed by their
/// identifier's value.
#[derive(Debug)]
pub struct GroupBudget {
    project_id: ProjectId,
    group_id: u128,
    account: BudgetAccount,
    reservations: HashMap<u128, ReservationId>,
}

/// What a group budget holds.
pub struct GroupBudgetView {
    pub project_id: ProjectId,
    pub group_id: u128,
    pub account: AccountView,
    pub reservations: Map<u128, ReservationId>,
}

/// A group budget opened at `now`: a fresh account scoped to the project
/// and no reservation.
pub open spec fn opened(project_id: ProjectId, group_id: u128, limits: BudgetLimits, now: i64) -> GroupBudgetView {
    GroupBudgetView {
        project_id,
        group_id,
        account: BudgetAccount::new_view(BudgetScope::Project(project_id), limits, now),
        reservations: Map::empty(),
    }
}

/// The account refuses `tokens` and `cost` more: they do not fit, or every
/// parallel slot is taken.
pub open spec fn reserve_refused(a: AccountView, tokens: u64, cost: u64) -> bool {
    availability_fault(a, tokens, cost) is Some || a.active >= a.limits.max_parallel_invocations
}

/// `h` is the group `g` after a reservation for `invocation` at `now`
/// answered with `r`.
pub open spec fn group_reserved(
    g: GroupBudgetView,
    h: GroupBudgetView,
    invocation: u128,
    tokens: u64,
    cost: u64,
    now: i64,
    r: Result<(), GroupBudgetError>,
) -> bool {
    let a = after_reset(g.account, now);
    if g.reservations.contains_key(invocation) {
        r == Err::<(), GroupBudgetError>(GroupBudgetError::DuplicateInvocation) && h == g
    } else if reserve_refused(a, tokens, cost) {
        r == Err::<(), GroupBudgetError>(GroupBudgetError::BudgetExceeded) && h == GroupBudgetView {
            account: a,
            ..g
        }
    } else {
        &&& r is Ok
        &&& h.project_id == g.project_id
        &&& h.group_id == g.group_id
        &&& h.reservations.dom() == g.reservations.dom().insert(invocation)
        &&& h.reservations.remove(invocation) == g.reservations
        &&& reserved_from(a, h.account, tokens, cost, h.reservations[invocation].0, now)
    }
}

/// `h` is the group `g` after releasing the reservation of `invocation` at
/// `now`, charging `tokens` and `cost`; `missing` is the error of an
/// invocation with no reservation, `orphan` that of one whose reservation the
/// account no longer holds.
pub open spec fn group_released(
    g: GroupBudgetView,
    h: GroupBudgetView,
    invocation: u128,
    tokens: u64,
    cost: u64,
    now: i64,
    orphan: GroupBudgetError,
    r: Result<(), GroupBudgetError>,
) -> bool {
    if !g.reservations.contains_key(invocation) {
        r == Err::<(), GroupBudgetError>(GroupBudgetError::UnknownReservation) && h == g
    } else {
        let id = g.reservations[invocation].0;
        &&& h.project_id == g.project_id
        &&& h.group_id == g.group_id
        &&& h.reservations == g.reservations.remove(invocation)
        &&& if g.account.reservations.contains_key(id) {
            r is Ok && released_from(g.account, h.account, id, tokens, cost, now)
        } else {
            r == Err::<(), GroupBudgetError>(orphan) && h.account == g.account
        }
    }
}

impl GroupBudget {
    pub closed spec fn view_of(&self) -> GroupBudgetView {
        GroupBudgetView {
            project_id: self.project_id,
            group_id: self.group_id,
            account: self.account@,
            reservations: self.reservations@,
        }
    }

    /// A group budget opened at `now` with valid limits, scoped to its
    /// project.
    pub fn new_at(project_id: ProjectId, group_id: u128, limits: BudgetLimits, now: i64) -> (r: Result<
        Self,
        GroupBudgetError,
    >)
        ensures
            !limits_valid(limits) ==> r == Err::<Self, GroupBudgetError>(GroupBudgetError::InvalidBudget),
            limits_valid(limits) ==> (r matches Ok(g) && g.view_of() == opened(
                project_id,
                group_id,
                limits,
                now,
            )),
    {
        if limits.validate().is_err() {
            return Err(GroupBudgetError::InvalidBudget);
        }
        Ok(
            GroupBudget {
                project_id,
                group_id,
                account: BudgetAccount::new(BudgetScope::Project(project_id), limits, now),
                reservations: HashMap::new(),
            },
        )
    }

    /// A group budget opened now; see `new_at`.
    pub fn new(project_id: ProjectId, group_id: u128, limits: BudgetLimits) -> (r: Result<
        Self,
        GroupBudgetError,
    >)
        ensures
            !limits_valid(limits) ==> r == Err::<Self, GroupBudgetError>(GroupBudgetError::InvalidBudget),
            limits_valid(limits) ==> (r matches Ok(g) && exists|now: i64|
                g.view_of() == #[trigger] opened(project_id, group_id, limits, now)),
    {
        let now = now_millis();
        GroupBudget::new_at(project_id, group_id, limits, now)
    }

    /// Reserves budget for an invocation at `now`; an invocation holds at
    /// most one reservation.
    pub fn reserve_at(&mut self, invocation_id: u128, tokens: u64, cost: u64, now: i64) -> (r: Result<
        (),
        GroupBudgetError,
    >)
        ensures
            group_reserved(old(self).view_of(), final(self).view_of(), invocation_id, tokens, cost, now, r),
    {
        broadcast use vstd::std_specs::hash::group_hash_axioms;
        if self.reservations.contains_key(&invocation_id) {
            return Err(GroupBudgetError::DuplicateInvocation);
        }
        let reservation = match self.account.reserve(tokens, cost, now) {
            Ok(id) => id,
            Err(_) => {
                return Err(GroupBudgetError::BudgetExceeded);
            },
        };
        self.reservations.insert(invocation_id, reservation);
        proof {
            assert(self.reservations@.remove(invocation_id) =~= old(self).reservations@);
            assert(self.reservations@.dom() =~= old(self).reservations@.dom().insert(invocation_id));
        }
        Ok(())
    }

    /// Reserves budget for an invocation now; see `reserve_at`.
    pub fn reserve(&mut self, invocation_id: u128, tokens: u64, cost: u64) -> (r: Result<
        (),
        GroupBudgetError,
    >)
        ensures
            exists|now: i64|
                group_reserved(
                    old(self).view_of(),
                    final(self).view_of(),
                    invocation_id,
                    tokens,
                    cost,
                    now,
                    r,
                ),
    {
        let now = now_millis();
        self.reserve_at(invocation_id, tokens, cost, now)
    }

    /// Charges an invocation's actual consumption at `now` and releases its
    /// reservation.
    pub fn commit_at(&mut self, invocation_id: u128, actual_tokens: u64, actual_cost: u64, now: i64) -> (r:
        Result<(), GroupBudgetError>)
        ensures
            group_released(
                old(self).view_of(),
                final(self).view_of(),
                invocation_id,
                actual_tokens,
                actual_cost,
                now,
                GroupBudgetError::BudgetExceeded,
                r,
            ),
    {
        broadcast use vstd::std_specs::hash::group_hash_axioms;
        let reservation = match self.reservations.remove(&invocation_id) {
            Some(id) => id,
            None => {
                assert(self.reservations@ =~= old(self).reservations@);
                return Err(GroupBudgetError::UnknownReservation);
            },
        };
        match self.account.commit(reservation, actual_tokens, actual_cost, now) {
            Ok(()) => Ok(()),
            Err(_) => Err(GroupBudgetError::BudgetExceeded),
        }
    }

    /// Charges an invocation's actual consumption now; see `commit_at`.
    pub fn commit(&mut self, invocation_id: u128, actual_tokens: u64, actual_cost: u64) -> (r: Result<
        (),
        GroupBudgetError,
    >)
        ensures
            exists|now: i64|
                group_released(
                    old(self).view_of(),
                    final(self).view_of(),
                    invocation_id,
                    actual_tokens,
                    actual_cost,
                    now,
                    GroupBudgetError::BudgetExceeded,
                    r,
                ),
    {
        let now = now_millis();
        self.commit_at(invocation_id, actual_tokens, actual_cost, now)
    }

    /// Returns an invocation's reservation in full at `now`.
    pub fn refund_at(&mut self, invocation_id: u128, now: i64) -> (r: Result<(), GroupBudgetError>)
        ensures
            group_released(
                old(self).view_of(),
                final(self).view_of(),
                invocation_id,
                0,
                0,
                now,
                GroupBudgetError::UnknownReservation,
                r,
            ),
    {
        broadcast use vstd::std_specs::hash::group_hash_axioms;
        let reservation = match self.reservations.remove(&invocation_id) {
            Some(id) => id,
            None => {
                assert(self.reservations@ =~= old(self).reservations@);
                return Err(GroupBudgetError::UnknownReservation);
            },
        };
        match self.account.refund(reservation, now) {
            Ok(()) => Ok(()),
            Err(_) => Err(GroupBudgetError::UnknownReservation),
        }
    }

    /// Returns an invocation's reservation in full now; see `refund_at`.
    pub fn refund(&mut self, invocation_id: u128) -> (r: Result<(), GroupBudgetError>)
        ensures
            exists|now: i64|
                group_released(
                    old(self).view_of(),
                    final(self).view_of(),
                    invocation_id,
                    0,
                    0,
                    now,
                    GroupBudgetError::UnknownReservation,
                    r,
                ),
    {
        let now = now_millis();
        self.refund_at(invocation_id, now)
    }

    pub fn used_tokens(&self) -> (r: u64)
        ensures
            r == self.view_of().account.used_tokens,
    {
        self.account.used_tokens
    }

    /// The tokens left under the limit, after what is used and reserved.
    pub fn available_tokens(&self) -> (r: u64)
        requires
            self.view_of().account.used_tokens + self.view_of().account.reserved_tokens <= u64::MAX,
        ensures
            r == if self.view_of().account.used_tokens + self.view_of().account.reserved_tokens
                > self.view_of().account.limits.max_tokens {
                0
            } else {
                self.view_of().account.limits.max_tokens - self.view_of().account.used_tokens
                    - self.view_of().account.reserved_tokens
            },
    {
        self.account.limits.max_tokens.saturating_sub(
            self.account.used_tokens + self.account.reserved_tokens,
        )
    }

    pub fn project_id(&self) -> (r: ProjectId)
        ensures
            r == self.view_of().project_id,
    {
        self.project_id
    }

    pub fn group_id(&self) -> (r: u128)
        ensures
            r == self.view_of().group_id,
    {
        self.group_id
    }
}

/// Refunding an invocation's reservation right after making it gives the
/// group back its budget: the same reservations, and the account as the
/// reservation found it. A second reservation for the same invocation is
/// refused and changes nothing.
pub proof fn law_group_refund_undoes_reserve(
    g: GroupBudgetView,
    h: GroupBudgetView,
    k: GroupBudgetView,
    invocation: u128,
    tokens: u64,
    cost: u64,
    now: i64,
    later: i64,
    r: Result<(), GroupBudgetError>,
)
    requires
        group_reserved(g, h, invocation, tokens, cost, now, Ok(())),
        !after_reset(g.account, now).reservations.contains_key(h.reservations[invocation].0),
        group_released(h, k, invocation, 0, 0, later, GroupBudgetError::UnknownReservation, r),
    ensures
        r is Ok,
        k.reservations == g.reservations,
        k.account == (AccountView { updated_at: later, ..after_reset(g.account, now) }),
        group_reserved(h, h, invocation, tokens, cost, now, Err(GroupBudgetError::DuplicateInvocation)),
{
    let a = after_reset(g.account, now);
    let id = h.reservations[invocation].0;
    assert(!g.reservations.contains_key(invocation));
    assert(h.reservations.dom().contains(invocation));
    assert(h.account.reservations.contains_key(id));
    law_refund_undoes_reserve(a, h.account, k.account, id, tokens, cost, now, later);
}

} // verus!
