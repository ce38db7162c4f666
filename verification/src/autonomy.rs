//! Formal autonomy levels and the deterministic policy attached to each.
use crate::error::{permission_error, validation_error, DomainError};
use crate::text::{is_blank, text_len, utf8_len};
use vstd::prelude::*;

verus! {

pub const AUTONOMY_POLICY_SCHEMA_VERSION: u32 = 1;

pub const MAX_CONSECUTIVE_AUTONOMOUS_STEPS_LIMIT: u32 = 1000;

pub const MAX_APPROVER_ID_LEN: usize = 128;

pub const MAX_REASON_LEN: usize = 256;

/// Autonomy levels L0 to L4, from suggestion-only to fully autonomous.
#[derive(Debug, Clone, Copy, PartialEq, Eq, Hash, Structural, PartialOrd, Ord)]
pub enum AutonomyLevel {
    L0None,
    L1Assisted,
    L2SemiAutonomous,
    L3Autonomous,
    L4FullyAutonomous,
}

/// Operations governed by autonomy.
#[derive(Debug, Clone, Copy, PartialEq, Eq, Hash, Structural)]
pub enum AutonomyOperation {
    ReadData,
    ExecuteSafeTool,
    ExecuteStatefulTool,
    SpawnSubAgent,
    CreateWorkflow,
    ModifySkill,
    AccessExternalNetwork,
    ModifySystemConfig,
}

/// Decision for an operation under an autonomy policy.
#[derive(Debug, Clone, Copy, PartialEq, Eq, Structural)]
pub enum AutonomyDecision {
    Allow,
    RequireHumanApproval,
    Deny,
}

/// Explicit authorisation for raising the autonomy level. Instants are
/// milliseconds since the Unix epoch.
#[derive(Debug, Clone)]
pub struct AutonomyTransitionApproval {
    pub approver_id: String,
    pub reason: String,
    pub authorized_at: i64,
    pub expires_at: Option<i64>,
}

/// Autonomy policy of an agent.
#[derive(Debug, Clone, Copy, PartialEq, Eq, Structural)]
pub struct AutonomyPolicy {
    pub schema_version: u32,
    pub level: AutonomyLevel,
    pub allow_subagents: bool,
    pub allow_workflow_creation: bool,
    pub allow_skill_modification: bool,
    pub allow_network_access: bool,
    pub max_consecutive_autonomous_steps: u32,
}

/// Position of a level in the order L0 < L1 < L2 < L3 < L4.
pub open spec fn level_rank(level: AutonomyLevel) -> int {
    match level {
        AutonomyLevel::L0None => 0,
        AutonomyLevel::L1Assisted => 1,
        AutonomyLevel::L2SemiAutonomous => 2,
        AutonomyLevel::L3Autonomous => 3,
        AutonomyLevel::L4FullyAutonomous => 4,
    }
}

impl AutonomyLevel {
    pub fn rank(self) -> (r: u8)
        ensures
            r as int == level_rank(self),
    {
        match self {
            AutonomyLevel::L0None => 0,
            AutonomyLevel::L1Assisted => 1,
            AutonomyLevel::L2SemiAutonomous => 2,
            AutonomyLevel::L3Autonomous => 3,
            AutonomyLevel::L4FullyAutonomous => 4,
        }
    }
}

impl Default for AutonomyLevel {
    fn default() -> (r: Self)
        ensures
            r == AutonomyLevel::L1Assisted,
    {
        AutonomyLevel::L1Assisted
    }
}

pub open spec fn default_policy(level: AutonomyLevel) -> AutonomyPolicy {
    let (sub, wf, skill, net, steps) = match level {
        AutonomyLevel::L0None => (false, false, false, false, 1u32),
        AutonomyLevel::L1Assisted => (false, false, false, false, 10u32),
        AutonomyLevel::L2SemiAutonomous => (true, true, false, false, 50u32),
        AutonomyLevel::L3Autonomous => (true, true, true, true, 200u32),
        AutonomyLevel::L4FullyAutonomous => (true, true, true, true, 1000u32),
    };
    AutonomyPolicy {
        schema_version: AUTONOMY_POLICY_SCHEMA_VERSION,
        level,
        allow_subagents: sub,
        allow_workflow_creation: wf,
        allow_skill_modification: skill,
        allow_network_access: net,
        max_consecutive_autonomous_steps: steps,
    }
}

pub open spec fn steps_in_bounds(p: AutonomyPolicy) -> bool {
    1 <= p.max_consecutive_autonomous_steps <= MAX_CONSECUTIVE_AUTONOMOUS_STEPS_LIMIT
}

/// The flags that a level may enable.
pub open spec fn flags_fit_level(p: AutonomyPolicy) -> bool {
    match p.level {
        AutonomyLevel::L0None => !p.allow_subagents && !p.allow_workflow_creation
            && !p.allow_skill_modification && !p.allow_network_access
            && p.max_consecutive_autonomous_steps <= 1,
        AutonomyLevel::L1Assisted => !p.allow_subagents && !p.allow_workflow_creation
            && !p.allow_skill_modification && !p.allow_network_access,
        AutonomyLevel::L2SemiAutonomous => !p.allow_skill_modification && !p.allow_network_access,
        _ => true,
    }
}

pub open spec fn policy_valid(p: AutonomyPolicy) -> bool {
    &&& p.schema_version == AUTONOMY_POLICY_SCHEMA_VERSION
    &&& steps_in_bounds(p)
    &&& flags_fit_level(p)
}

/// Decision table: reads are free, system changes always need a human, and
/// each gated capability is allowed only when its flag is set.
pub open spec fn decision_for(p: AutonomyPolicy, op: AutonomyOperation) -> AutonomyDecision {
    let r = level_rank(p.level);
    match op {
        AutonomyOperation::ReadData => AutonomyDecision::Allow,
        AutonomyOperation::ExecuteSafeTool => if r == 0 {
            AutonomyDecision::RequireHumanApproval
        } else {
            AutonomyDecision::Allow
        },
        AutonomyOperation::ExecuteStatefulTool => if r <= 1 {
            AutonomyDecision::RequireHumanApproval
        } else {
            AutonomyDecision::Allow
        },
        AutonomyOperation::SpawnSubAgent => gated(p.allow_subagents, r >= 1),
        AutonomyOperation::CreateWorkflow => gated(p.allow_workflow_creation, r >= 1),
        AutonomyOperation::ModifySkill => gated(p.allow_skill_modification, r >= 2),
        AutonomyOperation::AccessExternalNetwork => gated(p.allow_network_access, r >= 2),
        AutonomyOperation::ModifySystemConfig => AutonomyDecision::RequireHumanApproval,
    }
}

pub open spec fn gated(flag: bool, may_ask: bool) -> AutonomyDecision {
    if flag {
        AutonomyDecision::Allow
    } else if may_ask {
        AutonomyDecision::RequireHumanApproval
    } else {
        AutonomyDecision::Deny
    }
}

pub open spec fn approval_text_ok(a: AutonomyTransitionApproval) -> bool {
    &&& !is_blank(a.approver_id@)
    &&& utf8_len(a.approver_id@) <= MAX_APPROVER_ID_LEN
    &&& !is_blank(a.reason@)
    &&& utf8_len(a.reason@) <= MAX_REASON_LEN
}

impl Default for AutonomyPolicy {
    fn default() -> (r: Self)
        ensures
            r == default_policy(AutonomyLevel::L1Assisted),
    {
        AutonomyPolicy::defaults_for_level(AutonomyLevel::L1Assisted)
    }
}

impl AutonomyPolicy {
    pub fn defaults_for_level(level: AutonomyLevel) -> (r: Self)
        ensures
            r == default_policy(level),
            policy_valid(r),
    {
        let (sub, wf, skill, net, steps) = match level {
            AutonomyLevel::L0None => (false, false, false, false, 1u32),
            AutonomyLevel::L1Assisted => (false, false, false, false, 10u32),
            AutonomyLevel::L2SemiAutonomous => (true, true, false, false, 50u32),
            AutonomyLevel::L3Autonomous => (true, true, true, true, 200u32),
            AutonomyLevel::L4FullyAutonomous => (true, true, true, true, 1000u32),
        };
        AutonomyPolicy {
            schema_version: AUTONOMY_POLICY_SCHEMA_VERSION,
            level,
            allow_subagents: sub,
            allow_workflow_creation: wf,
            allow_skill_modification: skill,
            allow_network_access: net,
            max_consecutive_autonomous_steps: steps,
        }
    }

    /// Checks the schema, the step bound and that the level enables no flag
    /// above it. Every failure is a validation error.
    pub fn validate(&self) -> (r: Result<(), DomainError>)
        ensures
            r is Ok <==> policy_valid(*self),
            r matches Err(e) ==> e is Validation,
    {
        if self.schema_version != AUTONOMY_POLICY_SCHEMA_VERSION {
            return Err(validation_error("unsupported autonomy policy schema version"));
        }
        if self.max_consecutive_autonomous_steps == 0
            || self.max_consecutive_autonomous_steps > MAX_CONSECUTIVE_AUTONOMOUS_STEPS_LIMIT {
            return Err(validation_error("max consecutive autonomous steps out of bounds (1..=1000)"));
        }
        match self.level {
            AutonomyLevel::L0None => {
                if self.allow_subagents || self.allow_workflow_creation
                    || self.allow_skill_modification || self.allow_network_access
                    || self.max_consecutive_autonomous_steps > 1 {
                    return Err(validation_error(
                        "L0 policy cannot enable autonomous execution flags or multi-step execution",
                    ));
                }
            },
            AutonomyLevel::L1Assisted => {
                if self.allow_subagents || self.allow_workflow_creation
                    || self.allow_skill_modification || self.allow_network_access {
                    return Err(validation_error("L1 policy cannot enable advanced autonomous flags"));
                }
            },
            AutonomyLevel::L2SemiAutonomous => {
                if self.allow_skill_modification || self.allow_network_access {
                    return Err(validation_error(
                        "L2 policy cannot enable skill modification or network access without escalation",
                    ));
                }
            },
            _ => {},
        }
        Ok(())
    }

    /// The decision for `op` at this policy's level and flags.
    pub fn evaluate(&self, op: AutonomyOperation) -> (r: AutonomyDecision)
        ensures
            r == decision_for(*self, op),
    {
        let rank = self.level.rank();
        match op {
            AutonomyOperation::ReadData => AutonomyDecision::Allow,
            AutonomyOperation::ExecuteSafeTool => if rank == 0 {
                AutonomyDecision::RequireHumanApproval
            } else {
                AutonomyDecision::Allow
            },
            AutonomyOperation::ExecuteStatefulTool => if rank <= 1 {
                AutonomyDecision::RequireHumanApproval
            } else {
                AutonomyDecision::Allow
            },
            AutonomyOperation::SpawnSubAgent => gate(self.allow_subagents, rank >= 1),
            AutonomyOperation::CreateWorkflow => gate(self.allow_workflow_creation, rank >= 1),
            AutonomyOperation::ModifySkill => gate(self.allow_skill_modification, rank >= 2),
            AutonomyOperation::AccessExternalNetwork => gate(self.allow_network_access, rank >= 2),
            AutonomyOperation::ModifySystemConfig => AutonomyDecision::RequireHumanApproval,
        }
    }

    /// Lowering the level (or keeping it) is always allowed. Raising it needs
    /// an approval with a non-blank, bounded approver and reason that has not
    /// expired at `now`.
    pub fn validate_transition(
        &self,
        target_level: AutonomyLevel,
        approval: Option<&AutonomyTransitionApproval>,
        now: i64,
    ) -> (r: Result<(), DomainError>)
        ensures
            level_rank(target_level) <= level_rank(self.level) ==> r is Ok,
            level_rank(target_level) > level_rank(self.level) ==> {
                match approval {
                    None => r matches Err(e) && e is PermissionDenied,
                    Some(a) => if !approval_text_ok(*a) {
                        r matches Err(e) && e is Validation
                    } else if a.expires_at matches Some(x) && x <= now {
                        r matches Err(e) && e is PermissionDenied
                    } else {
                        r is Ok
                    },
                }
            },
    {
        if target_level.rank() <= self.level.rank() {
            return Ok(());
        }
        let approval = match approval {
            None => {
                return Err(permission_error(
                    "autonomy:escalation",
                    "autonomy escalation requires explicit human approval",
                ));
            },
            Some(a) => a,
        };
        if crate::text::blank(approval.approver_id.as_str())
            || text_len(approval.approver_id.as_str()) > MAX_APPROVER_ID_LEN {
            return Err(validation_error("approver_id is empty or exceeds limit"));
        }
        if crate::text::blank(approval.reason.as_str()) || text_len(approval.reason.as_str())
            > MAX_REASON_LEN {
            return Err(validation_error("approval reason is empty or exceeds limit"));
        }
        if let Some(expiry) = approval.expires_at {
            if expiry <= now {
                return Err(permission_error(
                    "autonomy:escalation",
                    "autonomy escalation approval has expired",
                ));
            }
        }
        Ok(())
    }
}

fn gate(flag: bool, may_ask: bool) -> (r: AutonomyDecision)
    ensures
        r == gated(flag, may_ask),
{
    if flag {
        AutonomyDecision::Allow
    } else if may_ask {
        AutonomyDecision::RequireHumanApproval
    } else {
        AutonomyDecision::Deny
    }
}

/// Every level's default policy is valid, and under it no operation outside
/// the level's reach is allowed without a human: system configuration always
/// needs approval and reading is always allowed.
pub proof fn law_defaults_valid_and_bounded(level: AutonomyLevel, op: AutonomyOperation)
    ensures
        policy_valid(default_policy(level)),
        decision_for(default_policy(level), AutonomyOperation::ReadData) == AutonomyDecision::Allow,
        decision_for(default_policy(level), AutonomyOperation::ModifySystemConfig)
            == AutonomyDecision::RequireHumanApproval,
{
}

/// In any valid policy, a level below L2 never lets skills be modified or the
/// network be reached without a human, and L0 never runs a stateful tool alone.
pub proof fn law_valid_policy_respects_level(p: AutonomyPolicy, op: AutonomyOperation)
    requires
        policy_valid(p),
    ensures
        level_rank(p.level) < 2 ==> decision_for(p, AutonomyOperation::ModifySkill)
            != AutonomyDecision::Allow,
        level_rank(p.level) < 2 ==> decision_for(p, AutonomyOperation::AccessExternalNetwork)
            != AutonomyDecision::Allow,
        level_rank(p.level) < 2 ==> decision_for(p, AutonomyOperation::SpawnSubAgent)
            != AutonomyDecision::Allow,
        level_rank(p.level) == 0 ==> decision_for(p, op) == AutonomyDecision::Allow ==> op
            == AutonomyOperation::ReadData,
{
}

/// The decision table, level by level. Reading is always allowed and
/// system changes always need a human. A safe tool needs a human only
/// without autonomy, a stateful one up to assisted. A flagged capability is
/// allowed; unflagged, sub-agents and workflows ask a human from assisted
/// up and are denied without autonomy, while skill changes and network
/// access ask a human from semi-autonomous up and are denied below.
pub proof fn law_decision_table(p: AutonomyPolicy)
    ensures
        decision_for(p, AutonomyOperation::ReadData) == AutonomyDecision::Allow,
        decision_for(p, AutonomyOperation::ModifySystemConfig)
            == AutonomyDecision::RequireHumanApproval,
        decision_for(p, AutonomyOperation::ExecuteSafeTool) == (if p.level
            == AutonomyLevel::L0None {
            AutonomyDecision::RequireHumanApproval
        } else {
            AutonomyDecision::Allow
        }),
        decision_for(p, AutonomyOperation::ExecuteStatefulTool) == (if p.level
            == AutonomyLevel::L0None || p.level == AutonomyLevel::L1Assisted {
            AutonomyDecision::RequireHumanApproval
        } else {
            AutonomyDecision::Allow
        }),
        decision_for(p, AutonomyOperation::SpawnSubAgent) == (if p.allow_subagents {
            AutonomyDecision::Allow
        } else if p.level == AutonomyLevel::L0None {
            AutonomyDecision::Deny
        } else {
            AutonomyDecision::RequireHumanApproval
        }),
        decision_for(p, AutonomyOperation::CreateWorkflow) == (if p.allow_workflow_creation {
            AutonomyDecision::Allow
        } else if p.level == AutonomyLevel::L0None {
            AutonomyDecision::Deny
        } else {
            AutonomyDecision::RequireHumanApproval
        }),
        decision_for(p, AutonomyOperation::ModifySkill) == (if p.allow_skill_modification {
            AutonomyDecision::Allow
        } else if p.level == AutonomyLevel::L0None || p.level == AutonomyLevel::L1Assisted {
            AutonomyDecision::Deny
        } else {
            AutonomyDecision::RequireHumanApproval
        }),
        decision_for(p, AutonomyOperation::AccessExternalNetwork) == (if p.allow_network_access {
            AutonomyDecision::Allow
        } else if p.level == AutonomyLevel::L0None || p.level == AutonomyLevel::L1Assisted {
            AutonomyDecision::Deny
        } else {
            AutonomyDecision::RequireHumanApproval
        }),
{
}

} // verus!
