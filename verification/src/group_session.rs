//! Bounded, non-executable session state of a group of agents.
use crate::budget::BudgetLimits;
use crate::group_entity::{group_fault, AgentGroup};
use crate::ids::{is_v4, random_id_value, AgentId, ProjectId, TraceId};
use vstd::prelude::*;

verus! {

pub const GROUP_SESSION_SCHEMA_VERSION: u32 = 1;

/// An agent's membership of a group, in its project.
#[derive(Debug, Clone, Copy, PartialEq, Eq, Structural)]
pub struct AgentGroupMembership {
    pub agent_id: AgentId,
    pub project_id: ProjectId,
}

#[derive(Debug, Clone, Copy, PartialEq, Eq, Structural)]
pub enum AgentGroupSessionStatus {
    Created,
    Active,
    Cancelled,
    Closed,
}

#[derive(Debug, Clone, Copy, PartialEq, Eq, Structural)]
pub enum AgentGroupSessionError {
    InvalidScope,
    Terminal,
    InvalidTransition,
    RoundLimit,
    BudgetLimit,
    RoundNotActive,
    InvalidMembershipSnapshot,
}

pub open spec fn session_error_message(e: AgentGroupSessionError) -> Seq<char> {
    match e {
        AgentGroupSessionError::InvalidScope => "session identity or group scope is invalid"@,
        AgentGroupSessionError::Terminal => "session lifecycle state is terminal"@,
        AgentGroupSessionError::InvalidTransition => "session lifecycle transition is invalid"@,
        AgentGroupSessionError::RoundLimit => "session round limit reached"@,
        AgentGroupSessionError::BudgetLimit => "session budget limit reached"@,
        AgentGroupSessionError::RoundNotActive => "session round is not active"@,
        AgentGroupSessionError::InvalidMembershipSnapshot => "session group membership snapshot is invalid"@,
    }
}

impl AgentGroupSessionError {
    /// The human-readable description of the error.
    pub fn message(&self) -> (r: &'static str)
        ensures
            r@ == session_error_message(*self),
    {
        match self {
            AgentGroupSessionError::InvalidScope => "session identity or group scope is invalid",
            AgentGroupSessionError::Terminal => "session lifecycle state is terminal",
            AgentGroupSessionError::InvalidTransition => "session lifecycle transition is invalid",
            AgentGroupSessionError::RoundLimit => "session round limit reached",
            AgentGroupSessionError::BudgetLimit => "session budget limit reached",
            AgentGroupSessionError::RoundNotActive => "session round is not active",
            AgentGroupSessionError::InvalidMembershipSnapshot => "session group membership snapshot is invalid",
        }
    }
}

/// A session of a group: a snapshot of its memberships and limits, its
/// lifecycle, its rounds and the tokens used. The session and its group are
/// identified by their identifiers' values.
#[derive(Debug, Clone)]
pub struct AgentGroupSession {
    pub schema_version: u32,
    pub id: u128,
    pub project_id: ProjectId,
    pub group_id: u128,
    pub trace_id: TraceId,
    pub memberships: Vec<AgentGroupMembership>,
    pub status: AgentGroupSessionStatus,
    pub max_rounds: u32,
    pub current_round: u32,
    pub max_depth: u16,
    pub budget: BudgetLimits,
    pub used_tokens: u64,
    pub context_refs: Vec<String>,
}

/// The memberships a group's member-project pairs describe, in order.
pub open spec fn memberships_of(pairs: Seq<(AgentId, ProjectId)>) -> Seq<AgentGroupMembership> {
    pairs.map_values(|p: (AgentId, ProjectId)| AgentGroupMembership { agent_id: p.0, project_id: p.1 })
}

/// The status after `start`, or why it is refused.
pub open spec fn start_step(st: AgentGroupSessionStatus) -> Result<AgentGroupSessionStatus, AgentGroupSessionError> {
    if st == AgentGroupSessionStatus::Created {
        Ok(AgentGroupSessionStatus::Active)
    } else {
        Err(AgentGroupSessionError::InvalidTransition)
    }
}

/// The answer and status after `cancel`, or why it is refused.
pub open spec fn cancel_step(st: AgentGroupSessionStatus) -> Result<
    (bool, AgentGroupSessionStatus),
    AgentGroupSessionError,
> {
    if st == AgentGroupSessionStatus::Cancelled {
        Ok((false, st))
    } else if st == AgentGroupSessionStatus::Closed {
        Err(AgentGroupSessionError::Terminal)
    } else {
        Ok((true, AgentGroupSessionStatus::Cancelled))
    }
}

/// The status after `close`, or why it is refused.
pub open spec fn close_step(st: AgentGroupSessionStatus) -> Result<AgentGroupSessionStatus, AgentGroupSessionError> {
    if st == AgentGroupSessionStatus::Closed {
        Ok(st)
    } else if st == AgentGroupSessionStatus::Cancelled {
        Err(AgentGroupSessionError::Terminal)
    } else if st != AgentGroupSessionStatus::Active {
        Err(AgentGroupSessionError::InvalidTransition)
    } else {
        Ok(AgentGroupSessionStatus::Closed)
    }
}

/// Why a new round may not begin, if it may not.
pub open spec fn round_fault(s: AgentGroupSession) -> Option<AgentGroupSessionError> {
    if s.status != AgentGroupSessionStatus::Active {
        Some(AgentGroupSessionError::Terminal)
    } else if s.current_round >= s.max_rounds {
        Some(AgentGroupSessionError::RoundLimit)
    } else if s.used_tokens >= s.budget.max_tokens {
        Some(AgentGroupSessionError::BudgetLimit)
    } else {
        None
    }
}

pub open spec fn with_status(s: AgentGroupSession, status: AgentGroupSessionStatus) -> AgentGroupSession {
    AgentGroupSession { status, ..s }
}

impl AgentGroupSession {
    /// A created session of a valid group: its project, trace, memberships,
    /// limits, budget and shared context, with no round begun and nothing
    /// used.
    pub fn from_group(group: &AgentGroup) -> (r: Result<Self, AgentGroupSessionError>)
        ensures
            group_fault(*group) is Some ==> r == Err::<Self, AgentGroupSessionError>(
                AgentGroupSessionError::InvalidMembershipSnapshot,
            ),
            group_fault(*group) is None ==> (r matches Ok(s) && {
                &&& s.schema_version == GROUP_SESSION_SCHEMA_VERSION
                &&& s.project_id == group.project_id
                &&& s.group_id == group.id
                &&& s.trace_id == group.trace_id
                &&& s.memberships@ == memberships_of(group.member_projects@)
                &&& s.status == AgentGroupSessionStatus::Created
                &&& s.max_rounds == group.max_rounds
                &&& s.current_round == 0
                &&& s.max_depth == group.max_depth
                &&& s.budget == group.budget
                &&& s.used_tokens == 0
                &&& s.context_refs@ == group.context_refs@
                &&& is_v4(s.id)
            }),
    {
        if group.validate().is_err() {
            return Err(AgentGroupSessionError::InvalidMembershipSnapshot);
        }
        let mut memberships: Vec<AgentGroupMembership> = Vec::new();
        let mut i: usize = 0;
        while i < group.member_projects.len()
            invariant
                i <= group.member_projects@.len(),
                memberships@ == memberships_of(group.member_projects@.take(i as int)),
            decreases group.member_projects@.len() - i,
        {
            let (agent_id, project_id) = group.member_projects[i];
            memberships.push(AgentGroupMembership { agent_id, project_id });
            assert(memberships_of(group.member_projects@.take(i + 1)) =~= memberships_of(
                group.member_projects@.take(i as int),
            ).push(AgentGroupMembership { agent_id, project_id }));
            i = i + 1;
        }
        assert(group.member_projects@.take(i as int) =~= group.member_projects@);
        let context_refs = group.context_refs.clone();
        assert(context_refs@ =~= group.context_refs@);
        Ok(
            AgentGroupSession {
                schema_version: GROUP_SESSION_SCHEMA_VERSION,
                id: random_id_value(),
                project_id: group.project_id,
                group_id: group.id,
                trace_id: group.trace_id,
                memberships,
                status: AgentGroupSessionStatus::Created,
                max_rounds: group.max_rounds,
                current_round: 0,
                max_depth: group.max_depth,
                budget: group.budget,
                used_tokens: 0,
                context_refs,
            },
        )
    }

    /// Starts a created session.
    pub fn start(&mut self) -> (r: Result<(), AgentGroupSessionError>)
        ensures
            match start_step(old(self).status) {
                Ok(st) => r is Ok && *final(self) == with_status(*old(self), st),
                Err(e) => r == Err::<(), AgentGroupSessionError>(e) && *final(self) == *old(self),
            },
    {
        if self.status != AgentGroupSessionStatus::Created {
            return Err(AgentGroupSessionError::InvalidTransition);
        }
        self.status = AgentGroupSessionStatus::Active;
        Ok(())
    }

    /// Begins the next round of an active session below its round limit and
    /// budget.
    pub fn begin_round(&mut self) -> (r: Result<(), AgentGroupSessionError>)
        ensures
            match round_fault(*old(self)) {
                Some(e) => r == Err::<(), AgentGroupSessionError>(e) && *final(self) == *old(self),
                None => r is Ok && *final(self) == AgentGroupSession {
                    current_round: (old(self).current_round + 1) as u32,
                    ..*old(self)
                },
            },
    {
        if self.status != AgentGroupSessionStatus::Active {
            return Err(AgentGroupSessionError::Terminal);
        }
        if self.current_round >= self.max_rounds {
            return Err(AgentGroupSessionError::RoundLimit);
        }
        if self.used_tokens >= self.budget.max_tokens {
            return Err(AgentGroupSessionError::BudgetLimit);
        }
        self.current_round = self.current_round + 1;
        Ok(())
    }

    /// Charges the tokens a round used; the charge stays recorded even when
    /// it takes the session past its budget, which is then reported.
    pub fn finish_round(&mut self, tokens: u64) -> (r: Result<(), AgentGroupSessionError>)
        ensures
            old(self).status != AgentGroupSessionStatus::Active || old(self).current_round == 0 ==> r
                == Err::<(), AgentGroupSessionError>(AgentGroupSessionError::RoundNotActive)
                && *final(self) == *old(self),
            old(self).status == AgentGroupSessionStatus::Active && old(self).current_round != 0 ==> {
                let used = if old(self).used_tokens + tokens > u64::MAX {
                    u64::MAX
                } else {
                    (old(self).used_tokens + tokens) as u64
                };
                &&& *final(self) == AgentGroupSession { used_tokens: used, ..*old(self) }
                &&& r == if used > old(self).budget.max_tokens {
                    Err::<(), AgentGroupSessionError>(AgentGroupSessionError::BudgetLimit)
                } else {
                    Ok(())
                }
            },
    {
        if self.status != AgentGroupSessionStatus::Active || self.current_round == 0 {
            return Err(AgentGroupSessionError::RoundNotActive);
        }
        self.used_tokens = self.used_tokens.saturating_add(tokens);
        if self.used_tokens > self.budget.max_tokens {
            return Err(AgentGroupSessionError::BudgetLimit);
        }
        Ok(())
    }

    /// Cancels a session that is not closed; `false` when it already was
    /// cancelled.
    pub fn cancel(&mut self) -> (r: Result<bool, AgentGroupSessionError>)
        ensures
            match cancel_step(old(self).status) {
                Ok((changed, st)) => r == Ok::<bool, AgentGroupSessionError>(changed) && *final(self)
                    == with_status(*old(self), st),
                Err(e) => r == Err::<bool, AgentGroupSessionError>(e) && *final(self) == *old(self),
            },
    {
        if self.status == AgentGroupSessionStatus::Cancelled {
            return Ok(false);
        }
        if self.status == AgentGroupSessionStatus::Closed {
            return Err(AgentGroupSessionError::Terminal);
        }
        self.status = AgentGroupSessionStatus::Cancelled;
        Ok(true)
    }

    /// Closes an active session; closing a closed session changes nothing.
    pub fn close(&mut self) -> (r: Result<(), AgentGroupSessionError>)
        ensures
            match close_step(old(self).status) {
                Ok(st) => r is Ok && *final(self) == with_status(*old(self), st),
                Err(e) => r == Err::<(), AgentGroupSessionError>(e) && *final(self) == *old(self),
            },
    {
        if self.status == AgentGroupSessionStatus::Closed {
            return Ok(());
        }
        if self.status == AgentGroupSessionStatus::Cancelled {
            return Err(AgentGroupSessionError::Terminal);
        }
        if self.status != AgentGroupSessionStatus::Active {
            return Err(AgentGroupSessionError::InvalidTransition);
        }
        self.status = AgentGroupSessionStatus::Closed;
        Ok(())
    }
}

/// A cancelled or closed session stays so: it cannot be started, only a
/// cancelled session can be cancelled again and only a closed one closed
/// again, and neither of them begins a round.
pub proof fn law_terminal_sessions_stay_terminal(s: AgentGroupSession)
    requires
        s.status == AgentGroupSessionStatus::Cancelled || s.status == AgentGroupSessionStatus::Closed,
    ensures
        start_step(s.status) is Err,
        cancel_step(s.status) matches Ok((changed, st)) ==> !changed && st == s.status,
        close_step(s.status) matches Ok(st) ==> st == s.status,
        round_fault(s) == Some(AgentGroupSessionError::Terminal),
{
}

/// A round begins only below the round limit and within budget, so the
/// round count never passes the limit.
pub proof fn law_rounds_stay_within_limit(s: AgentGroupSession)
    requires
        round_fault(s) is None,
    ensures
        s.current_round + 1 <= s.max_rounds,
        s.used_tokens < s.budget.max_tokens,
        s.status == AgentGroupSessionStatus::Active,
{
}

} // verus!
