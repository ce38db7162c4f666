//! Deterministic evaluation evidence; it never authorizes a rollout.
use crate::digest::{decimal, fingerprint, fingerprint_of, to_decimal_u64};
use crate::text::{is_sized_value, same_text, sized_value};
use vstd::prelude::*;
use vstd::string::StrSliceExecFns;

verus! {

/// The longest identity value, in bytes.
pub const MAX_TEXT: usize = 256;

#[derive(Debug, Clone, PartialEq, Eq)]
pub struct EvaluationRequest {
    pub manifest_id: String,
    pub baseline_id: String,
    pub candidate_id: String,
    pub candidate_sha: String,
    pub fixtures_id: String,
    pub seed: u64,
    pub resource_limit: u64,
}

#[derive(Debug, Clone, Copy, PartialEq, Eq, Structural)]
pub enum EvaluationStatus {
    Pass,
    Fail,
    Unknown,
}

#[derive(Debug, Clone, Copy, PartialEq, Eq, Structural)]
pub enum EvaluationError {
    InvalidManifest,
    IdentityMismatch,
}

pub open spec fn evaluation_message(e: EvaluationError) -> Seq<char> {
    match e {
        EvaluationError::InvalidManifest => "evaluation manifest is invalid"@,
        EvaluationError::IdentityMismatch => "candidate identity does not match the manifest"@,
    }
}

impl EvaluationError {
    /// The human-readable description of the error.
    pub fn message(&self) -> (r: &'static str)
        ensures
            r@ == evaluation_message(*self),
    {
        match self {
            EvaluationError::InvalidManifest => "evaluation manifest is invalid",
            EvaluationError::IdentityMismatch => "candidate identity does not match the manifest",
        }
    }
}

impl EvaluationRequest {
    /// A request; every identity is non-empty and bounded, and the resource
    /// limit is positive.
    #[allow(clippy::too_many_arguments)]
    pub fn new(
        manifest: &str,
        baseline: &str,
        candidate: &str,
        sha: &str,
        fixtures: &str,
        seed: u64,
        limit: u64,
    ) -> (r: Result<Self, EvaluationError>)
        ensures
            r is Ok <==> sized_value(manifest@, MAX_TEXT as nat) && sized_value(
                baseline@,
                MAX_TEXT as nat,
            ) && sized_value(candidate@, MAX_TEXT as nat) && sized_value(sha@, MAX_TEXT as nat)
                && sized_value(fixtures@, MAX_TEXT as nat) && limit != 0,
            r matches Err(e) ==> e == EvaluationError::InvalidManifest,
            r matches Ok(q) ==> {
                &&& q.manifest_id@ == manifest@
                &&& q.baseline_id@ == baseline@
                &&& q.candidate_id@ == candidate@
                &&& q.candidate_sha@ == sha@
                &&& q.fixtures_id@ == fixtures@
                &&& q.seed == seed
                &&& q.resource_limit == limit
            },
    {
        if !is_sized_value(manifest, MAX_TEXT) || !is_sized_value(baseline, MAX_TEXT)
            || !is_sized_value(candidate, MAX_TEXT) || !is_sized_value(sha, MAX_TEXT)
            || !is_sized_value(fixtures, MAX_TEXT) || limit == 0 {
            return Err(EvaluationError::InvalidManifest);
        }
        Ok(
            EvaluationRequest {
                manifest_id: manifest.to_string(),
                baseline_id: baseline.to_string(),
                candidate_id: candidate.to_string(),
                candidate_sha: sha.to_string(),
                fixtures_id: fixtures.to_string(),
                seed,
                resource_limit: limit,
            },
        )
    }
}

/// What a run's metrics amount to once their scores have been compared
/// with the thresholds.
#[derive(Debug, Clone, Copy, PartialEq, Eq, Structural)]
pub enum MetricsOutcome {
    /// The run timed out, was skipped or exceeded its resources.
    Inconclusive,
    /// Quality or safety fell below the threshold.
    BelowThreshold,
    /// Quality and safety met the threshold.
    MeetsThreshold,
}

pub open spec fn outcome_status(o: MetricsOutcome) -> EvaluationStatus {
    match o {
        MetricsOutcome::Inconclusive => EvaluationStatus::Unknown,
        MetricsOutcome::BelowThreshold => EvaluationStatus::Fail,
        MetricsOutcome::MeetsThreshold => EvaluationStatus::Pass,
    }
}

/// The text a report's fingerprint is computed over; the scores arrive
/// already rendered with six decimals.
pub open spec fn evaluation_text(
    q: EvaluationRequest,
    quality: Seq<char>,
    safety: Seq<char>,
    cost: u64,
    latency_ms: u64,
) -> Seq<char> {
    q.manifest_id@ + "|"@ + q.baseline_id@ + "|"@ + q.candidate_id@ + "|"@ + q.candidate_sha@ + "|"@
        + q.fixtures_id@ + "|"@ + decimal(q.seed as nat) + "|"@ + quality + "|"@ + safety + "|"@
        + decimal(cost as nat) + "|"@ + decimal(latency_ms as nat)
}

#[derive(Debug, Clone, PartialEq, Eq)]
pub struct EvaluationReport {
    status: EvaluationStatus,
    fingerprint: String,
}

impl EvaluationReport {
    pub closed spec fn status_of(&self) -> EvaluationStatus {
        self.status
    }

    pub closed spec fn fingerprint_of(&self) -> Seq<char> {
        self.fingerprint@
    }

    /// The report for a run of the expected candidate: the outcome decides
    /// the status, and the request and metrics are fingerprinted.
    pub fn from_outcome(
        request: &EvaluationRequest,
        outcome: MetricsOutcome,
        quality: &str,
        safety: &str,
        cost: u64,
        latency_ms: u64,
    ) -> (r: Result<Self, EvaluationError>)
        ensures
            r is Err <==> request.candidate_sha@ != "sha-1"@,
            r matches Err(e) ==> e == EvaluationError::IdentityMismatch,
            r matches Ok(rep) ==> rep.status_of() == outcome_status(outcome) && rep.fingerprint_of()
                == fingerprint_of(
                vstd::utf8::encode_utf8(
                    evaluation_text(*request, quality@, safety@, cost, latency_ms),
                ),
            ),
    {
        if !same_text(request.candidate_sha.as_str(), "sha-1") {
            return Err(EvaluationError::IdentityMismatch);
        }
        let status = match outcome {
            MetricsOutcome::Inconclusive => EvaluationStatus::Unknown,
            MetricsOutcome::BelowThreshold => EvaluationStatus::Fail,
            MetricsOutcome::MeetsThreshold => EvaluationStatus::Pass,
        };
        let mut material = String::new();
        material.append(request.manifest_id.as_str());
        material.append("|");
        material.append(request.baseline_id.as_str());
        material.append("|");
        material.append(request.candidate_id.as_str());
        material.append("|");
        material.append(request.candidate_sha.as_str());
        material.append("|");
        material.append(request.fixtures_id.as_str());
        material.append("|");
        let seed = to_decimal_u64(request.seed);
        material.append(seed.as_str());
        material.append("|");
        material.append(quality);
        material.append("|");
        material.append(safety);
        material.append("|");
        let c = to_decimal_u64(cost);
        material.append(c.as_str());
        material.append("|");
        let l = to_decimal_u64(latency_ms);
        material.append(l.as_str());
        assert(material@ =~= evaluation_text(*request, quality@, safety@, cost, latency_ms));
        Ok(EvaluationReport { status, fingerprint: fingerprint(material.as_str()) })
    }

    pub fn status(&self) -> (r: EvaluationStatus)
        ensures
            r == self.status_of(),
    {
        self.status
    }

    pub fn fingerprint(&self) -> (r: &str)
        ensures
            r@ == self.fingerprint_of(),
    {
        self.fingerprint.as_str()
    }

    /// Evaluation evidence never activates anything.
    pub fn can_activate(&self) -> (r: bool)
        ensures
            !r,
    {
        false
    }
}

} // verus!
