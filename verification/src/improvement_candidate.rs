//! Versioned improvement candidates; evaluating and activating them happens
//! elsewhere.
use crate::text::{bounded_value, is_bounded_value};
use vstd::prelude::*;

verus! {

/// The longest value, in bytes.
pub const MAX_TEXT: usize = 256;

/// The most source observations a candidate may cite.
pub const MAX_OBSERVATIONS: usize = 16;

#[derive(Debug, Clone, Copy, PartialEq, Eq, Structural)]
pub enum TargetKind {
    Skill,
    Workflow,
    AgentConfig,
}

#[derive(Debug, Clone, Copy, PartialEq, Eq, Structural)]
pub enum RiskClass {
    Low,
    Medium,
    High,
}

#[derive(Debug, Clone, Copy, PartialEq, Eq, Structural)]
pub enum CandidateStatus {
    Draft,
    Evaluating,
    Approved,
    Rejected,
    RolledBack,
}

#[derive(Debug, Clone, Copy, PartialEq, Eq, Structural)]
pub enum CandidateError {
    InvalidProvenance,
    BoundsExceeded,
    Unauthorized,
    InvalidTransition,
}

pub open spec fn candidate_message(e: CandidateError) -> Seq<char> {
    match e {
        CandidateError::InvalidProvenance => "candidate provenance is incomplete"@,
        CandidateError::BoundsExceeded => "candidate metadata exceeds bounds"@,
        CandidateError::Unauthorized => "candidate owner or project is unauthorized"@,
        CandidateError::InvalidTransition => "candidate lifecycle transition is invalid"@,
    }
}

impl CandidateError {
    /// The human-readable description of the error.
    pub fn message(&self) -> (r: &'static str)
        ensures
            r@ == candidate_message(*self),
    {
        match self {
            CandidateError::InvalidProvenance => "candidate provenance is incomplete",
            CandidateError::BoundsExceeded => "candidate metadata exceeds bounds",
            CandidateError::Unauthorized => "candidate owner or project is unauthorized",
            CandidateError::InvalidTransition => "candidate lifecycle transition is invalid",
        }
    }
}

/// The lifecycle moves draft to evaluating, evaluating to approved or
/// rejected, and approved to rolled back.
pub open spec fn valid_transition(from: CandidateStatus, to: CandidateStatus) -> bool {
    ||| from == CandidateStatus::Draft && to == CandidateStatus::Evaluating
    ||| from == CandidateStatus::Evaluating && to == CandidateStatus::Approved
    ||| from == CandidateStatus::Evaluating && to == CandidateStatus::Rejected
    ||| from == CandidateStatus::Approved && to == CandidateStatus::RolledBack
}

#[derive(Debug, Clone, PartialEq, Eq)]
pub struct ImprovementCandidate {
    candidate_id: String,
    project_id: String,
    owner_id: String,
    source_observations: Vec<String>,
    policy_snapshot: String,
    target: TargetKind,
    proposal_digest: String,
    version: u32,
    risk: RiskClass,
    status: CandidateStatus,
    authorized: bool,
}

/// What a candidate holds.
pub struct CandidateView {
    pub candidate_id: Seq<char>,
    pub project_id: Seq<char>,
    pub owner_id: Seq<char>,
    pub source_observations: Seq<Seq<char>>,
    pub policy_snapshot: Seq<char>,
    pub target: TargetKind,
    pub proposal_digest: Seq<char>,
    pub version: u32,
    pub risk: RiskClass,
    pub status: CandidateStatus,
    pub authorized: bool,
}

impl View for ImprovementCandidate {
    type V = CandidateView;

    closed spec fn view(&self) -> CandidateView {
        CandidateView {
            candidate_id: self.candidate_id@,
            project_id: self.project_id@,
            owner_id: self.owner_id@,
            source_observations: self.source_observations@.map_values(|s: String| s@),
            policy_snapshot: self.policy_snapshot@,
            target: self.target,
            proposal_digest: self.proposal_digest@,
            version: self.version,
            risk: self.risk,
            status: self.status,
            authorized: self.authorized,
        }
    }
}

pub open spec fn all_bounded(s: Seq<&str>) -> bool {
    forall|i: int| 0 <= i < s.len() ==> #[trigger] bounded_value(s[i]@, MAX_TEXT as nat)
}

/// Why a candidate cannot be created, if it cannot.
pub open spec fn candidate_fault(
    candidate_id: Seq<char>,
    project_id: Seq<char>,
    owner_id: Seq<char>,
    observations: Seq<&str>,
    policy_snapshot: Seq<char>,
    proposal_digest: Seq<char>,
    version: u32,
) -> Option<CandidateError> {
    if version == 0 || observations.len() == 0 || observations.len() > MAX_OBSERVATIONS
        || !bounded_value(candidate_id, MAX_TEXT as nat) || !bounded_value(project_id, MAX_TEXT as nat)
        || !bounded_value(owner_id, MAX_TEXT as nat) || !bounded_value(policy_snapshot, MAX_TEXT as nat)
        || !bounded_value(proposal_digest, MAX_TEXT as nat) || !all_bounded(observations) {
        if observations.len() > MAX_OBSERVATIONS {
            Some(CandidateError::BoundsExceeded)
        } else {
            Some(CandidateError::InvalidProvenance)
        }
    } else {
        None
    }
}

impl ImprovementCandidate {
    /// A draft candidate citing its source observations, not yet
    /// authorized.
    #[allow(clippy::too_many_arguments)]
    pub fn new(
        candidate_id: &str,
        project_id: &str,
        owner_id: &str,
        source_observations: Vec<&str>,
        policy_snapshot: &str,
        target: TargetKind,
        proposal_digest: &str,
        version: u32,
        risk: RiskClass,
    ) -> (r: Result<Self, CandidateError>)
        ensures
            match candidate_fault(
                candidate_id@,
                project_id@,
                owner_id@,
                source_observations@,
                policy_snapshot@,
                proposal_digest@,
                version,
            ) {
                Some(e) => r == Err::<Self, CandidateError>(e),
                None => r matches Ok(c) && c@ == (CandidateView {
                    candidate_id: candidate_id@,
                    project_id: project_id@,
                    owner_id: owner_id@,
                    source_observations: source_observations@.map_values(|s: &str| s@),
                    policy_snapshot: policy_snapshot@,
                    target,
                    proposal_digest: proposal_digest@,
                    version,
                    risk,
                    status: CandidateStatus::Draft,
                    authorized: false,
                }),
            },
    {
        let mut observations_ok = true;
        let mut i: usize = 0;
        while i < source_observations.len()
            invariant
                i <= source_observations@.len(),
                observations_ok == forall|k: int|
                    0 <= k < i ==> #[trigger] bounded_value(
                        source_observations@[k]@,
                        MAX_TEXT as nat,
                    ),
            decreases source_observations@.len() - i,
        {
            if !is_bounded_value(source_observations[i], MAX_TEXT) {
                observations_ok = false;
            }
            i = i + 1;
        }
        if version == 0 || source_observations.len() == 0 || source_observations.len()
            > MAX_OBSERVATIONS || !is_bounded_value(candidate_id, MAX_TEXT) || !is_bounded_value(
            project_id,
            MAX_TEXT,
        ) || !is_bounded_value(owner_id, MAX_TEXT) || !is_bounded_value(policy_snapshot, MAX_TEXT)
            || !is_bounded_value(proposal_digest, MAX_TEXT) || !observations_ok {
            return Err(
                if source_observations.len() > MAX_OBSERVATIONS {
                    CandidateError::BoundsExceeded
                } else {
                    CandidateError::InvalidProvenance
                },
            );
        }
        let mut owned: Vec<String> = Vec::new();
        let mut j: usize = 0;
        while j < source_observations.len()
            invariant
                j <= source_observations@.len(),
                owned@.len() == j,
                forall|k: int| 0 <= k < j ==> #[trigger] owned@[k]@ == source_observations@[k]@,
            decreases source_observations@.len() - j,
        {
            owned.push(source_observations[j].to_string());
            j = j + 1;
        }
        assert(owned@.map_values(|s: String| s@) =~= source_observations@.map_values(|s: &str| s@));
        Ok(
            ImprovementCandidate {
                candidate_id: candidate_id.to_string(),
                project_id: project_id.to_string(),
                owner_id: owner_id.to_string(),
                source_observations: owned,
                policy_snapshot: policy_snapshot.to_string(),
                target,
                proposal_digest: proposal_digest.to_string(),
                version,
                risk,
                status: CandidateStatus::Draft,
                authorized: false,
            },
        )
    }

    pub fn status(&self) -> (r: CandidateStatus)
        ensures
            r == self@.status,
    {
        self.status
    }

    pub fn version(&self) -> (r: u32)
        ensures
            r == self@.version,
    {
        self.version
    }

    pub fn project_id(&self) -> (r: &str)
        ensures
            r@ == self@.project_id,
    {
        self.project_id.as_str()
    }

    /// Authorizes the candidate for its own project and owner only.
    pub fn authorize(&mut self, project_id: &str, owner_id: &str) -> (r: Result<(), CandidateError>)
        ensures
            r is Ok <==> project_id@ == old(self)@.project_id && owner_id@ == old(self)@.owner_id,
            r matches Err(e) ==> e == CandidateError::Unauthorized,
            final(self)@ == (if r is Ok {
                CandidateView { authorized: true, ..old(self)@ }
            } else {
                old(self)@
            }),
    {
        if !crate::text::same_text(project_id, self.project_id.as_str()) || !crate::text::same_text(
            owner_id,
            self.owner_id.as_str(),
        ) {
            return Err(CandidateError::Unauthorized);
        }
        self.authorized = true;
        Ok(())
    }

    /// Moves the candidate along its lifecycle; any other move is refused.
    pub fn transition(&mut self, next: CandidateStatus) -> (r: Result<(), CandidateError>)
        ensures
            r is Ok <==> valid_transition(old(self)@.status, next),
            r matches Err(e) ==> e == CandidateError::InvalidTransition,
            final(self)@ == (if r is Ok {
                CandidateView { status: next, ..old(self)@ }
            } else {
                old(self)@
            }),
    {
        let valid = match (self.status, next) {
            (CandidateStatus::Draft, CandidateStatus::Evaluating) => true,
            (CandidateStatus::Evaluating, CandidateStatus::Approved) => true,
            (CandidateStatus::Evaluating, CandidateStatus::Rejected) => true,
            (CandidateStatus::Approved, CandidateStatus::RolledBack) => true,
            _ => false,
        };
        if !valid {
            return Err(CandidateError::InvalidTransition);
        }
        self.status = next;
        Ok(())
    }

    /// A candidate never activates itself.
    pub fn can_activate(&self) -> (r: bool)
        ensures
            !r,
    {
        false
    }
}

/// The candidate lifecycle only moves forward: no status is ever reached
/// again, rejected and rolled-back candidates are final, and only an
/// approved candidate can be rolled back.
pub proof fn law_candidate_lifecycle_moves_forward(
    a: CandidateStatus,
    b: CandidateStatus,
    c: CandidateStatus,
)
    ensures
        !valid_transition(a, a),
        valid_transition(a, b) && valid_transition(b, c) ==> a != c && !valid_transition(c, a),
        !valid_transition(CandidateStatus::Rejected, b),
        !valid_transition(CandidateStatus::RolledBack, b),
        valid_transition(a, CandidateStatus::RolledBack) ==> a == CandidateStatus::Approved,
        !valid_transition(a, CandidateStatus::Draft),
{
}

} // verus!
