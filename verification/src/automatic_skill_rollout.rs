//! Bounded eligibility of a skill rollout; active skills and the runtime are
//! never changed here.
use vstd::prelude::*;

verus! {

#[derive(Debug, Clone, PartialEq, Eq)]
pub struct RolloutRequest {
    pub candidate_id: String,
    pub skill_version: String,
    pub project_id: String,
    pub proposal: bool,
    pub evaluation: bool,
    pub regression: bool,
    pub score: bool,
    pub rollback: bool,
    pub all_evidence: bool,
    pub scope_allowed: bool,
}

#[derive(Debug, Clone, Copy, PartialEq, Eq, Structural)]
pub enum RolloutError {
    InvalidIdentity,
}

impl RolloutRequest {
    /// A request carrying which pieces of evidence exist; the identity must
    /// be non-empty.
    #[allow(clippy::too_many_arguments)]
    pub fn new(
        candidate: &str,
        version: &str,
        project: &str,
        proposal: bool,
        evaluation: bool,
        regression: bool,
        score: bool,
        rollback: bool,
    ) -> (r: Result<Self, RolloutError>)
        ensures
            r is Ok <==> candidate@.len() > 0 && version@.len() > 0 && project@.len() > 0,
            r matches Err(e) ==> e == RolloutError::InvalidIdentity,
            r matches Ok(q) ==> {
                &&& q.candidate_id@ == candidate@
                &&& q.skill_version@ == version@
                &&& q.project_id@ == project@
                &&& q.proposal == proposal
                &&& q.evaluation == evaluation
                &&& q.regression == regression
                &&& q.score == score
                &&& q.rollback == rollback
                &&& q.all_evidence
                &&& q.scope_allowed
            },
    {
        if candidate.unicode_len() == 0 || version.unicode_len() == 0 || project.unicode_len() == 0 {
            return Err(RolloutError::InvalidIdentity);
        }
        Ok(
            RolloutRequest {
                candidate_id: candidate.to_string(),
                skill_version: version.to_string(),
                project_id: project.to_string(),
                proposal,
                evaluation,
                regression,
                score,
                rollback,
                all_evidence: true,
                scope_allowed: true,
            },
        )
    }
}

#[derive(Debug, Clone, Copy, PartialEq, Eq, Structural)]
pub enum Health {
    Stable,
    Failed,
    KillSwitch,
}

#[derive(Debug, Clone, Copy, PartialEq, Eq, Structural)]
pub enum RolloutStatus {
    CanaryReady,
    Blocked,
    Stopped,
}

#[derive(Debug, Clone, Copy, PartialEq, Eq, Structural)]
pub enum RolloutScope {
    ProjectCanary,
}

#[derive(Debug, Clone, PartialEq, Eq, Structural)]
pub struct Rollout {
    status: RolloutStatus,
    scope: RolloutScope,
    global: bool,
}

/// Every piece of evidence is present and the scope is allowed.
pub open spec fn evidence_complete(q: RolloutRequest) -> bool {
    q.all_evidence && q.proposal && q.evaluation && q.regression && q.score && q.rollback
        && q.scope_allowed
}

/// The status of a rollout for the request under the current health.
pub open spec fn rollout_status(q: RolloutRequest, health: Health) -> RolloutStatus {
    if !evidence_complete(q) {
        RolloutStatus::Blocked
    } else if health != Health::Stable {
        RolloutStatus::Stopped
    } else {
        RolloutStatus::CanaryReady
    }
}

impl Rollout {
    pub closed spec fn status_of(&self) -> RolloutStatus {
        self.status
    }

    pub closed spec fn scope_of(&self) -> RolloutScope {
        self.scope
    }

    pub closed spec fn global_of(&self) -> bool {
        self.global
    }

    /// A project canary that is ready only with complete evidence and
    /// stable health; never a global activation.
    pub fn evaluate(request: RolloutRequest, health: Health) -> (r: Result<Self, RolloutError>)
        ensures
            r matches Ok(o) && o.status_of() == rollout_status(request, health) && o.scope_of()
                == RolloutScope::ProjectCanary && !o.global_of(),
    {
        if !request.all_evidence || !request.proposal || !request.evaluation || !request.regression
            || !request.score || !request.rollback || !request.scope_allowed {
            return Ok(
                Rollout {
                    status: RolloutStatus::Blocked,
                    scope: RolloutScope::ProjectCanary,
                    global: false,
                },
            );
        }
        match health {
            Health::Failed | Health::KillSwitch => {
                return Ok(
                    Rollout {
                        status: RolloutStatus::Stopped,
                        scope: RolloutScope::ProjectCanary,
                        global: false,
                    },
                );
            },
            Health::Stable => {},
        }
        Ok(
            Rollout {
                status: RolloutStatus::CanaryReady,
                scope: RolloutScope::ProjectCanary,
                global: false,
            },
        )
    }

    pub fn status(&self) -> (r: RolloutStatus)
        ensures
            r == self.status_of(),
    {
        self.status
    }

    pub fn scope(&self) -> (r: RolloutScope)
        ensures
            r == self.scope_of(),
    {
        self.scope
    }

    pub fn global_activation(&self) -> (r: bool)
        ensures
            r == self.global_of(),
    {
        self.global
    }
}

/// A rollout is ready only when every piece of evidence is present and the
/// skill is healthy; missing evidence blocks it whatever the health, and a
/// failure or kill switch stops it.
pub proof fn law_rollout_needs_evidence_and_health(q: RolloutRequest, health: Health)
    ensures
        rollout_status(q, health) == RolloutStatus::CanaryReady <==> evidence_complete(q) && health
            == Health::Stable,
        !evidence_complete(q) ==> rollout_status(q, health) == RolloutStatus::Blocked,
        evidence_complete(q) && health != Health::Stable ==> rollout_status(q, health)
            == RolloutStatus::Stopped,
{
}

} // verus!
