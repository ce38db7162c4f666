use agent_core::architecture_profile::{
    has_cycle, ArchitectureAgentProfile, ArchitectureCheck, ArchitectureDocument,
    ArchitectureDocumentKind, ArchitectureEdge, ArchitectureEdgeRef, ArchitectureEvidence,
    ArchitectureEvidenceStatus, ArchitectureFindingStatus, ArchitectureLayer,
    ArchitectureManifest, ArchitectureProfileError, ArchitectureReportStatus,
    ArchitectureRequest, ArchitectureTool,
};
use agent_core::digest::fingerprint;
use agent_core::ids::{ProjectId, TaskId};
use agent_core::task_mapping::{MappingState, TaskWorkspaceMapping};

fn head() -> String {
    "a".repeat(40)
}

fn tree() -> String {
    "b".repeat(64)
}

fn mapping() -> TaskWorkspaceMapping {
    TaskWorkspaceMapping::new(
        ProjectId::from_u128(1),
        TaskId::from_u128(2),
        "repo".into(),
        "wt".into(),
        "main".into(),
        MappingState::Active,
    )
}

fn request() -> ArchitectureRequest {
    ArchitectureRequest::new(
        ProjectId::from_u128(1),
        TaskId::from_u128(2),
        "repo".into(),
        "wt".into(),
        "main".into(),
        head(),
        tree(),
        ArchitectureTool::ReadGraph,
        None,
    )
    .unwrap()
}

fn layer(id: &str, owner: &str, deps: &[&str]) -> ArchitectureLayer {
    ArchitectureLayer::new(
        id.into(),
        owner.into(),
        "holds the rules".into(),
        deps.iter().map(|d| d.to_string()).collect(),
        "long-lived".into(),
        "typed api".into(),
    )
    .unwrap()
}

fn evidence(check: ArchitectureCheck, status: ArchitectureEvidenceStatus) -> ArchitectureEvidence {
    ArchitectureEvidence::new(
        check,
        "reports/graph.json".into(),
        head(),
        tree(),
        "graph-1".into(),
        "architecture-v1".into(),
        "c".repeat(64),
        10,
        status,
    )
    .unwrap()
}

fn all_evidence() -> Vec<ArchitectureEvidence> {
    [
        ArchitectureCheck::Graph,
        ArchitectureCheck::Dependencies,
        ArchitectureCheck::Documents,
        ArchitectureCheck::AdrImpact,
    ]
    .into_iter()
    .map(|c| evidence(c, ArchitectureEvidenceStatus::Passed))
    .collect()
}

fn manifest(
    edges: Vec<ArchitectureEdge>,
    forbidden: Vec<ArchitectureEdgeRef>,
    documents: Vec<ArchitectureDocument>,
    evidence: Vec<ArchitectureEvidence>,
) -> ArchitectureManifest {
    ArchitectureManifest::new(
        &request(),
        "graph-1".into(),
        vec![layer("domain", "team-a", &[]), layer("app", "team-b", &["domain"])],
        edges,
        vec![ArchitectureEdgeRef::new("app".into(), "domain".into()).unwrap()],
        forbidden,
        documents,
        evidence,
    )
    .unwrap()
}

fn edge(from: &str, to: &str) -> ArchitectureEdge {
    ArchitectureEdge::new(from.into(), to.into(), "import".into()).unwrap()
}

#[test]
fn clean_manifest_passes_and_its_report_is_accepted() {
    let profile = ArchitectureAgentProfile::default();
    let m = manifest(vec![edge("app", "domain")], vec![], vec![], all_evidence());
    let report = profile.evaluate(&mapping(), &m).unwrap();
    assert_eq!(report.status(), ArchitectureReportStatus::Pass);
    assert!(report.findings().is_empty());
    assert!(report.validate(&profile, &mapping()).is_ok());
    assert!(report.handoff().is_none());
}

#[test]
fn undeclared_and_cyclic_edges_fail_the_graph() {
    let profile = ArchitectureAgentProfile::default();
    let m = manifest(
        vec![edge("app", "domain"), edge("domain", "app")],
        vec![],
        vec![],
        all_evidence(),
    );
    let report = profile.evaluate(&mapping(), &m).unwrap();
    assert_eq!(report.status(), ArchitectureReportStatus::Failed);
    let codes: Vec<&str> = report.findings().iter().map(|f| f.code()).collect();
    assert_eq!(codes, vec!["UNDECLARED_EDGE", "CYCLE"]);
    assert_eq!(report.findings()[0].reference(), Some("app"));
    let handoff = report.handoff().unwrap();
    assert_eq!(handoff.finding_codes(), &["UNDECLARED_EDGE".to_string(), "CYCLE".to_string()]);
    assert!(handoff.is_advisory());
    assert!(!handoff.can_approve());
    assert!(report.validate(&profile, &mapping()).is_err());
}

#[test]
fn missing_document_blocks_and_missing_evidence_is_no_proof() {
    let profile = ArchitectureAgentProfile::default();
    let absent = ArchitectureDocument::new(
        "docs/architecture.md".into(),
        ArchitectureDocumentKind::Architecture,
        false,
        String::new(),
    )
    .unwrap();
    let m = manifest(vec![], vec![], vec![absent], all_evidence());
    let report = profile.evaluate(&mapping(), &m).unwrap();
    assert_eq!(report.status(), ArchitectureReportStatus::Blocked);
    assert_eq!(report.findings()[0].code(), "MISSING_DOCUMENT");
    assert_eq!(report.findings()[0].status(), ArchitectureFindingStatus::Blocked);

    let mut three = all_evidence();
    three.pop();
    let m = manifest(vec![], vec![], vec![], three);
    let report = profile.evaluate(&mapping(), &m).unwrap();
    assert_eq!(report.status(), ArchitectureReportStatus::NoProof);
    assert_eq!(report.findings()[0].code(), "MISSING_EVIDENCE");
}

#[test]
fn forbidden_edge_is_critical_and_scope_must_match() {
    let profile = ArchitectureAgentProfile::default();
    let forbidden = vec![ArchitectureEdgeRef::new("domain".into(), "app".into()).unwrap()];
    let m = manifest(vec![edge("domain", "app")], forbidden, vec![], all_evidence());
    let report = profile.evaluate(&mapping(), &m).unwrap();
    assert_eq!(report.findings()[0].code(), "FORBIDDEN_EDGE");

    let other = TaskWorkspaceMapping::new(
        ProjectId::from_u128(9),
        TaskId::from_u128(2),
        "repo".into(),
        "wt".into(),
        "main".into(),
        MappingState::Active,
    );
    let m = manifest(vec![], vec![], vec![], all_evidence());
    assert_eq!(
        profile.evaluate(&other, &m).err(),
        Some(ArchitectureProfileError::ScopeMismatch)
    );
}

#[test]
fn cycle_detection_matches_reachability() {
    assert!(!has_cycle(&vec![edge("a", "b"), edge("b", "c")]));
    assert!(has_cycle(&vec![edge("a", "b"), edge("b", "c"), edge("c", "a")]));
    assert!(has_cycle(&vec![edge("a", "a")]));
    assert!(!has_cycle(&vec![]));
}

#[test]
fn evaluator_digest_fingerprints_revisions_hashes_and_sizes() {
    let profile = ArchitectureAgentProfile::default();
    let m = manifest(vec![edge("app", "domain")], vec![], vec![], all_evidence());
    let report = profile.evaluate(&mapping(), &m).unwrap();
    let expected = fingerprint(&format!("architecture-v1:graph-1:{}:{}:2:1", head(), tree()));
    let handoff_free = report.handoff();
    assert!(handoff_free.is_none());
    let failing = manifest(vec![edge("domain", "app")], vec![], vec![], all_evidence());
    let failed = profile.evaluate(&mapping(), &failing).unwrap();
    assert_eq!(failed.handoff().unwrap().digest(), expected);
}
