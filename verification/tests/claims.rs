use agent_core::claim_evidence::{
    Claim, ClaimClass, ClaimEvidenceError, ClaimEvidenceKind, ClaimResolution, EvidenceRecord,
    EvidenceScope, EvidenceStatus, FactState, ResolutionOutcome,
};
use agent_core::ids::{ProjectId, RunId, TraceId};

fn scope() -> EvidenceScope {
    EvidenceScope::new(
        ProjectId::from_u128(1),
        RunId::from_u128(2),
        TraceId::from_u128(3),
        "a".repeat(64),
        Some("b".repeat(40)),
        None,
        Some("policy-1".into()),
        None,
    )
    .unwrap()
}

fn claim() -> Claim {
    Claim::new(
        ProjectId::from_u128(1),
        RunId::from_u128(2),
        TraceId::from_u128(3),
        "claim-1".into(),
        ClaimClass::CodeChange,
        "c".repeat(64),
        vec![ClaimEvidenceKind::Commit],
        scope(),
    )
    .unwrap()
}

fn record(id: &str, kind: ClaimEvidenceKind, status: EvidenceStatus) -> EvidenceRecord {
    EvidenceRecord::new(
        "claim-1".into(),
        id.into(),
        kind,
        scope(),
        "d".repeat(64),
        "resolver-1".into(),
        status,
    )
    .unwrap()
}

#[test]
fn claims_start_without_proof_and_grant_no_authority() {
    let claim = claim();
    assert_eq!(claim.state(), FactState::NoProof);
    assert!(claim.evidence_ids().is_empty());
    assert!(!claim.can_execute());
    assert!(!claim.can_approve());
    assert!(!claim.can_merge());
}

#[test]
fn verified_needs_matching_verified_evidence_and_replays_idempotently() {
    let mut claim = claim();
    let records = vec![record("ev-1", ClaimEvidenceKind::Commit, EvidenceStatus::Verified)];
    let resolution = ClaimResolution::verified(vec!["ev-1".into()]);
    assert_eq!(
        claim.apply_resolution(resolution.clone(), &records),
        Ok(ResolutionOutcome::Applied)
    );
    assert_eq!(claim.state(), FactState::Verified);
    assert_eq!(claim.evidence_ids(), &["ev-1".to_string()]);
    assert_eq!(
        claim.apply_resolution(resolution, &records),
        Ok(ResolutionOutcome::Idempotent)
    );
}

#[test]
fn verification_without_required_or_verified_evidence_fails_closed() {
    let mut claim = claim();
    let test_only = vec![record("ev-1", ClaimEvidenceKind::Test, EvidenceStatus::Verified)];
    assert_eq!(
        claim.apply_resolution(ClaimResolution::verified(vec!["ev-1".into()]), &test_only),
        Err(ClaimEvidenceError::MissingRequiredEvidence)
    );
    let unverified = vec![record("ev-1", ClaimEvidenceKind::Commit, EvidenceStatus::Unverified)];
    assert_eq!(
        claim.apply_resolution(ClaimResolution::verified(vec!["ev-1".into()]), &unverified),
        Err(ClaimEvidenceError::InvalidEvidenceStatus)
    );
    assert_eq!(
        claim.apply_resolution(ClaimResolution::verified(vec!["ev-9".into()]), &unverified),
        Err(ClaimEvidenceError::MissingEvidence)
    );
    assert_eq!(claim.state(), FactState::NoProof);
}

#[test]
fn sensitive_values_are_refused() {
    let bad = EvidenceScope::new(
        ProjectId::from_u128(1),
        RunId::from_u128(2),
        TraceId::from_u128(3),
        "a".repeat(64),
        None,
        None,
        Some("token=abc".into()),
        None,
    );
    assert_eq!(bad.err(), Some(ClaimEvidenceError::SensitiveValue));
    let short = EvidenceScope::new(
        ProjectId::from_u128(1),
        RunId::from_u128(2),
        TraceId::from_u128(3),
        "a".repeat(63),
        None,
        None,
        None,
        None,
    );
    assert_eq!(short.err(), Some(ClaimEvidenceError::InvalidDigest));
}
