use agent_core::agent_configuration_proposal::{
    AgentConfigurationProposal, ConfigChange, ConfigField, ConfigProposalError,
    ConfigProposalRequest, PrecedenceClass, ProposalStatus,
};
use agent_core::automated_evaluation::{
    EvaluationError, EvaluationReport, EvaluationRequest, EvaluationStatus, MetricsOutcome,
};
use agent_core::automatic_rollback::{Rollback, RollbackError, RollbackRequest, RollbackStatus, RollbackTrigger};
use agent_core::automatic_skill_rollout::{
    Health, Rollout, RolloutError, RolloutRequest, RolloutScope, RolloutStatus,
};
use agent_core::ci_status_integration::{
    CiCheckResult, CiCheckStatus, CiContext, CiEvent, CiInput, CiPolicyState, CiState,
    CiStatusError, CiStatusIntegration, RequiredCheck,
};
use agent_core::digest::fingerprint;
use agent_core::fix_review_workflow::{
    FixReviewError, FixReviewMapping, FixReviewState, FixReviewWorkflow, ReviewFinding,
};
use agent_core::improvement_candidate::{
    CandidateError, CandidateStatus, ImprovementCandidate, RiskClass, TargetKind,
};
use agent_core::improvement_observation::{
    ImprovementObservation, ObservationError, ObservationRequest, ObservationSource,
    ObservationType, PrivacyClass, RedactionState, RetentionClass, TrustClass,
};
use agent_core::mcp_transport::{
    CapabilitySet, Envelope, FrameKind, ProtocolVersion, Session, SessionState, Transport,
    TransportError,
};

fn ci_context(policy: &str) -> CiContext {
    CiContext::new("repo", "pr-1", CiEvent::PullRequest, "head", "tree", policy).unwrap()
}

fn check(name: RequiredCheck, status: CiCheckStatus, policy: &str) -> CiCheckResult {
    CiCheckResult::new(name, status, "head", "tree", policy, "run-1", "dig").unwrap()
}

#[test]
fn ci_passes_only_with_each_required_check_passed_once() {
    let checks = vec![
        check(RequiredCheck::BuildRust, CiCheckStatus::Pass, "p"),
        check(RequiredCheck::Quality, CiCheckStatus::Pass, "p"),
        check(RequiredCheck::Security, CiCheckStatus::Pass, "p"),
    ];
    let input = CiInput::new(ci_context("p"), checks.clone()).unwrap();
    let report = CiStatusIntegration::evaluate(&input).unwrap();
    assert_eq!(report.state(), CiState::Pass);
    assert_eq!(report.policy_state(), CiPolicyState::Enforced);
    assert!(!report.can_merge());
    assert_eq!(
        report.fingerprint(),
        fingerprint(
            "repo:pr-1:head:PullRequest:pBuildRust:Pass:digQuality:Pass:digSecurity:Pass:dig"
        )
    );

    let mut repeated = checks.clone();
    repeated.push(check(RequiredCheck::Quality, CiCheckStatus::Pass, "p"));
    let input = CiInput::new(ci_context("p"), repeated).unwrap();
    assert_eq!(CiStatusIntegration::evaluate(&input).unwrap().state(), CiState::Unknown);

    let missing = vec![checks[0].clone(), checks[1].clone()];
    let input = CiInput::new(ci_context("p"), missing).unwrap();
    assert_eq!(CiStatusIntegration::evaluate(&input).unwrap().state(), CiState::Unknown);

    let mut failed = checks.clone();
    failed[2] = check(RequiredCheck::Security, CiCheckStatus::Timeout, "p");
    let input = CiInput::new(ci_context("p"), failed).unwrap();
    assert_eq!(CiStatusIntegration::evaluate(&input).unwrap().state(), CiState::Unknown);
}

#[test]
fn ci_refuses_stale_results_and_bounds_inputs() {
    let stale = CiCheckResult::new(
        RequiredCheck::BuildRust,
        CiCheckStatus::Pass,
        "other",
        "tree",
        "p",
        "run",
        "d",
    )
    .unwrap();
    let input = CiInput::new(ci_context("p"), vec![stale]).unwrap();
    assert_eq!(
        CiStatusIntegration::evaluate(&input).err(),
        Some(CiStatusError::StaleEvidence)
    );
    let other_policy = check(RequiredCheck::BuildRust, CiCheckStatus::Pass, "q");
    let input = CiInput::new(ci_context("p"), vec![other_policy.clone()]).unwrap();
    assert!(CiStatusIntegration::evaluate(&input).is_err());
    let input = CiInput::new(ci_context("not-applicable"), vec![other_policy]).unwrap();
    let report = CiStatusIntegration::evaluate(&input).unwrap();
    assert_eq!(report.policy_state(), CiPolicyState::NotApplicable);
    assert_eq!(
        CiInput::new(ci_context("p"), vec![check(RequiredCheck::Quality, CiCheckStatus::Pass, "p"); 33])
            .err(),
        Some(CiStatusError::BoundsExceeded)
    );
    assert_eq!(
        CiContext::new("", "pr", CiEvent::MergeGroup, "h", "t", "p").err(),
        Some(CiStatusError::InvalidValue)
    );
    assert_eq!(
        CiContext::new("r\n", "pr", CiEvent::MergeGroup, "h", "t", "p").err(),
        Some(CiStatusError::InvalidValue)
    );
    assert_eq!(CiStatusError::StaleEvidence.message(), "CI evidence is stale or has wrong identity");
}

#[test]
fn transport_accepts_only_supported_bounded_correlated_frames() {
    let caps = CapabilitySet::read() | CapabilitySet::cancel();
    assert!(caps.contains(CapabilitySet::read()));
    assert!(caps.contains(CapabilitySet::cancel()));
    assert!(!CapabilitySet::read().contains(CapabilitySet::cancel()));
    assert_eq!(
        Envelope::new(ProtocolVersion::V1, 0, FrameKind::Request, 1, caps).err(),
        Some(TransportError::InvalidCorrelation)
    );
    let ok = Envelope::new(ProtocolVersion::V1, 7, FrameKind::Request, 64, caps).unwrap();
    assert_eq!(Transport::accept(ok.clone()), Ok(ok.clone()));
    assert_eq!(ok.correlation_id(), 7);
    let big = Envelope::new(ProtocolVersion::V1, 7, FrameKind::Cancel, 65, caps).unwrap();
    assert_eq!(Transport::accept(big), Err(TransportError::FrameTooLarge));
    let unknown = Envelope::new(ProtocolVersion::Unknown, 7, FrameKind::Close, 1, caps).unwrap();
    assert_eq!(Transport::accept(unknown), Err(TransportError::UnsupportedVersion));
}

#[test]
fn sessions_queue_only_while_active_and_below_limit() {
    let mut session = Session::new(0, 1);
    assert_eq!(session.enqueue(), Ok(()));
    assert_eq!(session.enqueue(), Err(TransportError::Backpressure));
    let mut session = Session::new(0, 5);
    assert_eq!(session.cancel(), SessionState::Cancelled);
    assert_eq!(session.enqueue(), Err(TransportError::Backpressure));
    assert_eq!(session.close(), SessionState::Closed);
    assert_eq!(session.cancel(), SessionState::Closed);
    assert_eq!(session.reconnect(), Err(TransportError::ReconnectDenied));
}

fn review_mapping() -> FixReviewMapping {
    FixReviewMapping::new("proj", "task-1", "repo", "wt", "main", "c1", "t1", "policy").unwrap()
}

#[test]
fn fix_review_plans_a_correction_then_escalates_at_the_cap() {
    let mapping = review_mapping();
    let finding = ReviewFinding::blocker("F-1", "null deref", "c1", "t1", "review-1").unwrap();
    let plan = FixReviewWorkflow::plan(&mapping, &finding, 0, 2).unwrap();
    assert_eq!(plan.state(), FixReviewState::CorrectionPlanned);
    assert_eq!(plan.next_cycle(), 1);
    let task = plan.task().unwrap();
    assert_eq!(task.supersedes_review(), "review-1");
    assert_eq!(task.mapping().commit(), "c1");
    assert_eq!(plan.fingerprint(), fingerprint("F-1:task-1:0:null deref"));

    let last = FixReviewWorkflow::plan(&mapping, &finding, 2, 2).unwrap();
    assert_eq!(last.state(), FixReviewState::Escalated);
    assert!(last.task().is_none());
    assert_eq!(last.next_cycle(), 2);
    assert_eq!(last.fingerprint(), fingerprint("F-1:task-1:2:escalated"));
}

#[test]
fn fix_review_refuses_bad_caps_and_stale_findings() {
    let mapping = review_mapping();
    let finding = ReviewFinding::blocker("F-1", "s", "c1", "t1", "r").unwrap();
    assert_eq!(
        FixReviewWorkflow::plan(&mapping, &finding, 0, 0).err(),
        Some(FixReviewError::InvalidCap)
    );
    assert_eq!(
        FixReviewWorkflow::plan(&mapping, &finding, 3, 2).err(),
        Some(FixReviewError::InvalidCap)
    );
    assert_eq!(
        FixReviewWorkflow::plan(&mapping, &finding, 0, 33).err(),
        Some(FixReviewError::InvalidCap)
    );
    let stale = ReviewFinding::blocker("F-1", "s", "c2", "t1", "r").unwrap();
    assert_eq!(
        FixReviewWorkflow::plan(&mapping, &stale, 0, 2).err(),
        Some(FixReviewError::StaleEvidence)
    );
    assert_eq!(
        ReviewFinding::blocker("", "s", "c", "t", "r").err(),
        Some(FixReviewError::InvalidValue)
    );
}

fn observation(payload: &str, run: Option<&str>) -> ObservationRequest {
    ObservationRequest::new(
        1,
        "tool",
        ObservationType::FailureSignal,
        "proj",
        run,
        "trace",
        "key-1",
        payload,
        PrivacyClass::Internal,
        RetentionClass::Short,
    )
}

#[test]
fn observations_are_untrusted_and_redact_secrets() {
    let request = observation("build failed", Some("run-1"));
    assert_eq!(request.source, ObservationSource::Tool);
    let accepted = ImprovementObservation::accept(request).unwrap();
    assert_eq!(accepted.trust(), TrustClass::Untrusted);
    assert!(!accepted.has_mutation_capability());
    assert_eq!(accepted.redaction(), RedactionState::NotRedacted);
    assert_eq!(accepted.dedup_key(), "key-1");

    let secret = ImprovementObservation::accept(observation("got API_KEY=abc", None)).unwrap();
    assert_eq!(secret.redaction(), RedactionState::Redacted);
    assert!(secret.is_duplicate_of(&accepted));

    let mut wrong = observation("x", None);
    wrong.schema_version = 2;
    assert_eq!(
        ImprovementObservation::accept(wrong).err(),
        Some(ObservationError::UnsupportedVersion)
    );
    let big = "x".repeat(16 * 1024 + 1);
    assert_eq!(
        ImprovementObservation::accept(observation(&big, None)).err(),
        Some(ObservationError::PayloadTooLarge)
    );
    assert_eq!(
        ImprovementObservation::accept(observation("x", Some(""))).err(),
        Some(ObservationError::InvalidMetadata)
    );
    let user = ObservationRequest::new(
        1,
        "someone",
        ObservationType::SuccessSignal,
        "p",
        None,
        "t",
        "k",
        "",
        PrivacyClass::Sensitive,
        RetentionClass::Long,
    );
    assert_eq!(user.source, ObservationSource::User);
}

#[test]
fn candidates_move_forward_through_their_lifecycle() {
    let mut candidate = ImprovementCandidate::new(
        "cand-1",
        "proj",
        "owner",
        vec!["obs-1", "obs-2"],
        "policy-snap",
        TargetKind::Skill,
        "digest",
        1,
        RiskClass::Low,
    )
    .unwrap();
    assert_eq!(candidate.status(), CandidateStatus::Draft);
    assert_eq!(candidate.version(), 1);
    assert_eq!(candidate.project_id(), "proj");
    assert_eq!(candidate.authorize("proj", "intruder").err(), Some(CandidateError::Unauthorized));
    assert_eq!(candidate.authorize("proj", "owner"), Ok(()));
    assert_eq!(
        candidate.transition(CandidateStatus::Approved).err(),
        Some(CandidateError::InvalidTransition)
    );
    candidate.transition(CandidateStatus::Evaluating).unwrap();
    candidate.transition(CandidateStatus::Approved).unwrap();
    candidate.transition(CandidateStatus::RolledBack).unwrap();
    assert!(candidate.transition(CandidateStatus::Draft).is_err());
    assert!(!candidate.can_activate());

    let too_many: Vec<&str> = vec!["o"; 17];
    assert_eq!(
        ImprovementCandidate::new("c", "p", "o", too_many, "s", TargetKind::Workflow, "d", 1, RiskClass::High)
            .err(),
        Some(CandidateError::BoundsExceeded)
    );
    assert_eq!(
        ImprovementCandidate::new("c", "p", "o", vec![], "s", TargetKind::AgentConfig, "d", 1, RiskClass::Medium)
            .err(),
        Some(CandidateError::InvalidProvenance)
    );
}

#[test]
fn rollback_recovers_the_last_known_good_version() {
    let request = RollbackRequest::new("v2", "v1", "policy-1", RollbackTrigger::Crash).unwrap();
    let rollback = Rollback::execute(request).unwrap();
    assert_eq!(rollback.status(), RollbackStatus::Recovered);
    assert_eq!(rollback.previous_version(), "v1");
    assert!(rollback.quarantined());
    assert!(!rollback.can_activate());
    assert_eq!(rollback.rollback_id(), fingerprint("v2|v1|policy-1|Crash"));
    assert_eq!(
        RollbackRequest::new("v2", "", "policy-1", RollbackTrigger::Regression).err(),
        Some(RollbackError::NoLastKnownGood)
    );
    assert_eq!(
        RollbackRequest::new("", "v1", "policy-1", RollbackTrigger::Regression).err(),
        Some(RollbackError::InvalidIdentity)
    );
    let other = RollbackRequest::new("v2", "v1", "policy-2", RollbackTrigger::PermissionRevoked).unwrap();
    assert_eq!(Rollback::execute(other).err(), Some(RollbackError::PolicyMismatch));
}

#[test]
fn rollout_is_a_canary_only_with_evidence_and_health() {
    let ready = RolloutRequest::new("c", "1.0.0", "p", true, true, true, true, true).unwrap();
    let rollout = Rollout::evaluate(ready.clone(), Health::Stable).unwrap();
    assert_eq!(rollout.status(), RolloutStatus::CanaryReady);
    assert_eq!(rollout.scope(), RolloutScope::ProjectCanary);
    assert!(!rollout.global_activation());
    assert_eq!(
        Rollout::evaluate(ready.clone(), Health::KillSwitch).unwrap().status(),
        RolloutStatus::Stopped
    );
    let missing = RolloutRequest::new("c", "1.0.0", "p", true, false, true, true, true).unwrap();
    assert_eq!(
        Rollout::evaluate(missing, Health::Failed).unwrap().status(),
        RolloutStatus::Blocked
    );
    assert_eq!(
        RolloutRequest::new("", "1", "p", true, true, true, true, true).err(),
        Some(RolloutError::InvalidIdentity)
    );
}

#[test]
fn evaluation_report_reflects_the_outcome_and_fingerprints_the_run() {
    let request = EvaluationRequest::new("m", "b", "c", "sha-1", "f", 7, 100).unwrap();
    let report = EvaluationReport::from_outcome(
        &request,
        MetricsOutcome::MeetsThreshold,
        "0.900000",
        "0.950000",
        12,
        340,
    )
    .unwrap();
    assert_eq!(report.status(), EvaluationStatus::Pass);
    assert!(!report.can_activate());
    assert_eq!(
        report.fingerprint(),
        fingerprint("m|b|c|sha-1|f|7|0.900000|0.950000|12|340")
    );
    let low = EvaluationReport::from_outcome(&request, MetricsOutcome::BelowThreshold, "0.1", "0.9", 0, 0)
        .unwrap();
    assert_eq!(low.status(), EvaluationStatus::Fail);
    let skipped =
        EvaluationReport::from_outcome(&request, MetricsOutcome::Inconclusive, "0", "0", 0, 0).unwrap();
    assert_eq!(skipped.status(), EvaluationStatus::Unknown);
    let other = EvaluationRequest::new("m", "b", "c", "sha-2", "f", 7, 100).unwrap();
    assert_eq!(
        EvaluationReport::from_outcome(&other, MetricsOutcome::MeetsThreshold, "1", "1", 0, 0).err(),
        Some(EvaluationError::IdentityMismatch)
    );
    assert_eq!(
        EvaluationRequest::new("m", "b", "c", "sha-1", "f", 7, 0).err(),
        Some(EvaluationError::InvalidManifest)
    );
}

fn proposal_request(changes: Vec<ConfigChange>, budget: bool, approved: bool) -> ConfigProposalRequest {
    ConfigProposalRequest::new("agent", "v1", "cand", "policy", changes, false, false, budget, approved)
        .unwrap()
}

#[test]
fn configuration_proposals_respect_platform_policy() {
    let change = ConfigChange::new(ConfigField::Model, "small", "large");
    let proposal =
        AgentConfigurationProposal::create(proposal_request(vec![change.clone()], false, false)).unwrap();
    assert_eq!(proposal.active_version(), "v1");
    assert_eq!(proposal.precedence(), PrecedenceClass::Agent);
    assert_eq!(proposal.status(), ProposalStatus::Draft);
    assert!(!proposal.can_activate());
    assert_eq!(
        proposal.fingerprint(),
        fingerprint(
            "agent|v1|cand|policy|[ConfigChange { field: Model, from: \"small\", to: \"large\" }]"
        )
    );
    let system = ConfigChange::new(ConfigField::SystemInstruction, "a", "b");
    assert_eq!(
        AgentConfigurationProposal::create(proposal_request(vec![system], false, false)).err(),
        Some(ConfigProposalError::ImmutablePolicy)
    );
    assert_eq!(
        AgentConfigurationProposal::create(proposal_request(vec![change.clone()], true, false)).err(),
        Some(ConfigProposalError::PolicyRequired)
    );
    assert!(AgentConfigurationProposal::create(proposal_request(vec![change.clone()], true, true)).is_ok());
    let token = ConfigChange::new(ConfigField::Tool, "x", "token=abc");
    assert_eq!(
        AgentConfigurationProposal::create(proposal_request(vec![token], false, false)).err(),
        Some(ConfigProposalError::InvalidIdentity)
    );
    assert_eq!(
        AgentConfigurationProposal::create(proposal_request(vec![], false, false)).err(),
        Some(ConfigProposalError::TooLarge)
    );
    assert_eq!(
        ConfigProposalRequest::new("", "v", "c", "p", vec![], false, false, false, false).err(),
        Some(ConfigProposalError::InvalidIdentity)
    );
}

#[test]
fn proposal_fingerprint_lists_every_change_in_order() {
    let a = ConfigChange::new(ConfigField::Memory, "on", "off");
    let b = ConfigChange::new(ConfigField::Personality, "calm", "say \"hi\"");
    let proposal = AgentConfigurationProposal::create(proposal_request(vec![a, b], false, false)).unwrap();
    assert_eq!(
        proposal.fingerprint(),
        fingerprint(
            "agent|v1|cand|policy|[ConfigChange { field: Memory, from: \"on\", to: \"off\" }, \
             ConfigChange { field: Personality, from: \"calm\", to: \"say \\\"hi\\\"\" }]"
        )
    );
}
