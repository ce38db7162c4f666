//! Explicit, versioned routing policy of a group's moderator.
use crate::ids::{AgentId, ProjectId};
use std::collections::HashSet;
use vstd::std_specs::iter::IteratorSpec;
use vstd::prelude::*;

verus! {

#[derive(Debug, Clone, Copy, PartialEq, Eq, Structural)]
pub enum ModeratorDecision {
    Route { target: AgentId },
    DenyTargetNotEligible,
    DenyCycleOrDepth,
    DenyBudget,
}

#[derive(Debug, Clone, Copy, PartialEq, Eq, Structural)]
pub enum PolicyRollbackError {
    InvalidSnapshot,
    InvalidLimit,
}

impl PolicyRollbackError {
    /// The human-readable description of the error.
    pub fn message(&self) -> (r: &'static str)
        ensures
            r@ == (match *self {
                PolicyRollbackError::InvalidSnapshot => "policy snapshot is not older than current policy"@,
                PolicyRollbackError::InvalidLimit => "policy participant limit is invalid"@,
            }),
    {
        match self {
            PolicyRollbackError::InvalidSnapshot => "policy snapshot is not older than current policy",
            PolicyRollbackError::InvalidLimit => "policy participant limit is invalid",
        }
    }
}

/// A saved state of a moderator policy. Eligible agents are kept by their
/// identifier values.
#[derive(Debug)]
pub struct ModeratorPolicySnapshot {
    pub version: u64,
    pub max_participants: usize,
    pub eligible: HashSet<u128>,
}

/// The routing policy of one group's moderator.
#[derive(Debug)]
pub struct GroupModeratorPolicy {
    project_id: ProjectId,
    group_id: u128,
    moderator_id: AgentId,
    version: u64,
    max_participants: usize,
    eligible: HashSet<u128>,
}

/// What a moderator policy holds.
pub struct PolicyView {
    pub project_id: ProjectId,
    pub group_id: u128,
    pub moderator_id: AgentId,
    pub version: u64,
    pub max_participants: usize,
    pub eligible: Set<u128>,
}

/// The decision for routing to `target`: only eligible members, only when
/// the cycle, depth and budget checks passed, in that order.
pub open spec fn decision(eligible: Set<u128>, target: AgentId, cycle_pass: bool, depth_pass: bool, budget_pass: bool) -> ModeratorDecision {
    if !eligible.contains(target.0) {
        ModeratorDecision::DenyTargetNotEligible
    } else if !cycle_pass || !depth_pass {
        ModeratorDecision::DenyCycleOrDepth
    } else if !budget_pass {
        ModeratorDecision::DenyBudget
    } else {
        ModeratorDecision::Route { target }
    }
}

/// A copy of a set of member identifiers.
fn copy_members(members: &HashSet<u128>) -> (r: HashSet<u128>)
    ensures
        r@ == members@,
{
    broadcast use vstd::std_specs::hash::group_hash_axioms;
    let mut eligible: HashSet<u128> = HashSet::new();
    proof {
        assert(members.iter().remaining().unref().to_set() == members@);
    }
    for k in it: members.iter()
        invariant
            eligible@ == it.seq().unref().take(it.index() as int).to_set(),
            it.seq().unref().to_set() == members@,
            it.seq().unref().take(it.seq().len() as int) == it.seq().unref(),
    {
        proof {
            assert(it.seq().unref().take(it.index() + 1) =~= it.seq().unref().take(
                it.index() as int,
            ).push(*k));
        }
        eligible.insert(*k);
    }
    eligible
}

impl Clone for ModeratorPolicySnapshot {
    fn clone(&self) -> (r: Self)
        ensures
            r.version == self.version,
            r.max_participants == self.max_participants,
            r.eligible@ == self.eligible@,
    {
        ModeratorPolicySnapshot {
            version: self.version,
            max_participants: self.max_participants,
            eligible: copy_members(&self.eligible),
        }
    }
}

impl Clone for GroupModeratorPolicy {
    fn clone(&self) -> (r: Self)
        ensures
            r.view_of() == self.view_of(),
    {
        proof {
            use_type_invariant(self);
        }
        GroupModeratorPolicy {
            project_id: self.project_id,
            group_id: self.group_id,
            moderator_id: self.moderator_id,
            version: self.version,
            max_participants: self.max_participants,
            eligible: copy_members(&self.eligible),
        }
    }
}

/// What a rollback to a snapshot with the given version, limit and members
/// makes of the policy `v`: nothing when the snapshot is not older than the
/// policy or its limit is zero, else the snapshot's limit and members as a
/// new version.
pub open spec fn restored(v: PolicyView, version: u64, max_participants: usize, eligible: Set<u128>) -> Option<
    PolicyView,
> {
    if version >= v.version || max_participants == 0 {
        None
    } else {
        Some(PolicyView { max_participants, eligible, version: (v.version + 1) as u64, ..v })
    }
}

impl GroupModeratorPolicy {
    #[verifier::type_invariant]
    spec fn limit_is_positive(self) -> bool {
        self.max_participants > 0
    }

    pub closed spec fn view_of(&self) -> PolicyView {
        PolicyView {
            project_id: self.project_id,
            group_id: self.group_id,
            moderator_id: self.moderator_id,
            version: self.version,
            max_participants: self.max_participants,
            eligible: self.eligible@,
        }
    }

    /// A first version of a policy with no eligible member; the participant
    /// limit must be positive.
    pub fn new(project_id: ProjectId, group_id: u128, moderator_id: AgentId, max_participants: usize) -> (r:
        Result<Self, PolicyRollbackError>)
        ensures
            max_participants == 0 ==> r == Err::<Self, PolicyRollbackError>(
                PolicyRollbackError::InvalidLimit,
            ),
            max_participants > 0 ==> (r matches Ok(p) && p.view_of() == (PolicyView {
                project_id,
                group_id,
                moderator_id,
                version: 1,
                max_participants,
                eligible: Set::empty(),
            })),
    {
        if max_participants == 0 {
            return Err(PolicyRollbackError::InvalidLimit);
        }
        Ok(
            GroupModeratorPolicy {
                project_id,
                group_id,
                moderator_id,
                version: 1,
                max_participants,
                eligible: HashSet::new(),
            },
        )
    }

    /// Changes the participant limit; it must stay positive and hold the
    /// current members. Each change is a new version.
    pub fn set_max_participants(&mut self, value: usize) -> (r: Result<(), PolicyRollbackError>)
        requires
            old(self).view_of().version < u64::MAX,
        ensures
            ({
                let v = old(self).view_of();
                if value == 0 || value < v.eligible.len() {
                    r == Err::<(), PolicyRollbackError>(PolicyRollbackError::InvalidLimit)
                        && final(self).view_of() == v
                } else {
                    r is Ok && final(self).view_of() == (PolicyView {
                        max_participants: value,
                        version: (v.version + 1) as u64,
                        ..v
                    })
                }
            }),
    {
        broadcast use vstd::std_specs::hash::group_hash_axioms;
        if value == 0 || value < self.eligible.len() {
            return Err(PolicyRollbackError::InvalidLimit);
        }
        self.max_participants = value;
        self.version = self.version + 1;
        Ok(())
    }

    /// Makes an agent eligible; a new member is refused once the limit is
    /// reached. Each call is a new version.
    pub fn add_eligible_member(&mut self, agent_id: AgentId) -> (r: Result<(), PolicyRollbackError>)
        requires
            old(self).view_of().version < u64::MAX,
        ensures
            ({
                let v = old(self).view_of();
                if v.eligible.len() >= v.max_participants && !v.eligible.contains(agent_id.0) {
                    r == Err::<(), PolicyRollbackError>(PolicyRollbackError::InvalidLimit)
                        && final(self).view_of() == v
                } else {
                    r is Ok && final(self).view_of() == (PolicyView {
                        eligible: v.eligible.insert(agent_id.0),
                        version: (v.version + 1) as u64,
                        ..v
                    })
                }
            }),
    {
        broadcast use vstd::std_specs::hash::group_hash_axioms;
        if self.eligible.len() >= self.max_participants && !self.eligible.contains(&agent_id.0) {
            return Err(PolicyRollbackError::InvalidLimit);
        }
        proof {
            use_type_invariant(&*self);
        }
        let mut members = copy_members(&self.eligible);
        members.insert(agent_id.0);
        self.eligible = members;
        self.version = self.version + 1;
        Ok(())
    }

    /// Routes to an eligible target whose cycle, depth and budget checks
    /// passed.
    pub fn decide(&self, target: AgentId, cycle_pass: bool, depth_pass: bool, budget_pass: bool) -> (r:
        ModeratorDecision)
        ensures
            r == decision(self.view_of().eligible, target, cycle_pass, depth_pass, budget_pass),
    {
        broadcast use vstd::std_specs::hash::group_hash_axioms;
        if !self.eligible.contains(&target.0) {
            return ModeratorDecision::DenyTargetNotEligible;
        }
        if !cycle_pass || !depth_pass {
            return ModeratorDecision::DenyCycleOrDepth;
        }
        if !budget_pass {
            return ModeratorDecision::DenyBudget;
        }
        ModeratorDecision::Route { target }
    }

    /// The current version, limit and eligible members.
    pub fn snapshot(&self) -> (r: ModeratorPolicySnapshot)
        ensures
            r.version == self.view_of().version,
            r.max_participants == self.view_of().max_participants,
            r.eligible@ == self.view_of().eligible,
            r.max_participants > 0,
    {
        proof {
            use_type_invariant(self);
        }
        let eligible = copy_members(&self.eligible);
        ModeratorPolicySnapshot {
            version: self.version,
            max_participants: self.max_participants,
            eligible,
        }
    }

    /// Restores an older snapshot's limit and members as a new version.
    pub fn rollback(&mut self, snapshot: ModeratorPolicySnapshot) -> (r: Result<(), PolicyRollbackError>)
        requires
            old(self).view_of().version < u64::MAX,
        ensures
            match restored(
                old(self).view_of(),
                snapshot.version,
                snapshot.max_participants,
                snapshot.eligible@,
            ) {
                None => r == Err::<(), PolicyRollbackError>(PolicyRollbackError::InvalidSnapshot)
                    && final(self).view_of() == old(self).view_of(),
                Some(w) => r is Ok && final(self).view_of() == w,
            },
    {
        if snapshot.version >= self.version || snapshot.max_participants == 0 {
            return Err(PolicyRollbackError::InvalidSnapshot);
        }
        self.max_participants = snapshot.max_participants;
        self.eligible = snapshot.eligible;
        self.version = self.version + 1;
        Ok(())
    }

    pub fn version(&self) -> (r: u64)
        ensures
            r == self.view_of().version,
    {
        self.version
    }

    pub fn moderator_id(&self) -> (r: AgentId)
        ensures
            r == self.view_of().moderator_id,
    {
        self.moderator_id
    }

    pub fn project_id(&self) -> (r: ProjectId)
        ensures
            r == self.view_of().project_id,
    {
        self.project_id
    }

    pub fn group_id(&self) -> (r: u128)
        ensures
            r == self.view_of().group_id,
    {
        self.group_id
    }
}

/// The moderator only ever routes to an eligible member whose cycle, depth
/// and budget checks all passed.
pub proof fn law_moderator_routes_only_eligible_checked_targets(
    eligible: Set<u128>,
    target: AgentId,
    cycle_pass: bool,
    depth_pass: bool,
    budget_pass: bool,
)
    ensures
        decision(eligible, target, cycle_pass, depth_pass, budget_pass) is Route ==> eligible.contains(
            target.0,
        ) && cycle_pass && depth_pass && budget_pass,
        decision(eligible, target, cycle_pass, depth_pass, budget_pass) matches ModeratorDecision::Route {
            target: t,
        } ==> t == target,
{
}

/// A snapshot taken of the current policy can never be restored; once the
/// policy has changed, restoring it brings back exactly its limit and members,
/// as a newer version than any before.
pub proof fn law_rollback_restores_older_snapshots(v: PolicyView, w: PolicyView)
    requires
        v.max_participants > 0,
        v.version < w.version < u64::MAX,
    ensures
        restored(v, v.version, v.max_participants, v.eligible) is None,
        restored(w, v.version, v.max_participants, v.eligible) matches Some(x) && x.max_participants
            == v.max_participants && x.eligible == v.eligible && x.version > w.version
            && x.project_id == w.project_id && x.group_id == w.group_id && x.moderator_id
            == w.moderator_id,
{
}

} // verus!
