use agent_core::autonomy::AutonomyLevel;
use agent_core::digest::{fingerprint, fnv1a_bytes, lower_hex, to_decimal, to_hex16};
use agent_core::embedding::{
    EmbeddingError, EmbeddingInput, EmbeddingPolicy, EmbeddingRequest, MockEmbeddingProvider,
};
use agent_core::ids::{AgentId, ProjectId};
use agent_core::improvement_scoring::{check_identity, tagged_fingerprint, ScoreError};
use agent_core::memory::MemoryType;
use agent_core::memory_policy::{
    MemoryApprovalMode, MemoryPolicy, MemoryPolicyAction, MemoryPolicyEntry, MemoryPolicyLayer,
    MemoryPolicyRequest, MemoryPolicyResolver, MEMORY_POLICY_SCHEMA_VERSION,
};
use agent_core::moderator_policy::{GroupModeratorPolicy, ModeratorDecision, PolicyRollbackError};

fn scope() -> (ProjectId, AgentId) {
    (ProjectId::from_u128(7), AgentId::from_u128(9))
}

fn policy(read: bool, write: bool, types: Vec<MemoryType>, version: u64) -> MemoryPolicy {
    let (project_id, agent_id) = scope();
    MemoryPolicy {
        schema_version: MEMORY_POLICY_SCHEMA_VERSION,
        project_id,
        agent_id,
        version,
        read,
        write,
        learn: false,
        allowed_types: types,
        max_tokens: 1_000,
        max_cost_micros: 10_000,
        retention_days: 30,
        approval_mode: MemoryApprovalMode::CandidateOnly,
        autonomy_level: AutonomyLevel::L0None,
        allow_rollback: false,
    }
}

fn request(action: MemoryPolicyAction, tokens: u32) -> MemoryPolicyRequest {
    let (project_id, agent_id) = scope();
    MemoryPolicyRequest {
        project_id,
        agent_id,
        action,
        memory_type: MemoryType::Semantic,
        requested_tokens: tokens,
        requested_cost_micros: 100,
    }
}

#[test]
fn default_memory_policy_is_valid_and_allows_nothing() {
    let p = MemoryPolicy::default();
    assert!(p.validate().is_ok());
    assert!(!p.read && !p.write && !p.learn);
    assert!(!p.allows_type(MemoryType::Working));
}

#[test]
fn memory_policy_validation_names_each_fault() {
    let mut p = policy(true, true, vec![MemoryType::Semantic, MemoryType::Semantic], 1);
    assert_eq!(
        p.validate().unwrap_err(),
        "memory policy contains duplicate memory types"
    );
    p.allowed_types = vec![MemoryType::Semantic];
    p.learn = true;
    p.write = false;
    assert_eq!(
        p.validate().unwrap_err(),
        "memory learning requires write permission"
    );
    p.learn = false;
    p.version = 0;
    assert_eq!(
        p.validate().unwrap_err(),
        "memory policy version or token limit is invalid"
    );
    p.version = 1;
    p.schema_version = 2;
    assert_eq!(p.validate().unwrap_err(), "unsupported memory policy schema");
}

#[test]
fn resolver_fails_closed_without_a_policy() {
    let decision = MemoryPolicyResolver::resolve(&request(MemoryPolicyAction::Read, 10), &[]);
    assert!(!decision.allowed);
    assert_eq!(decision.reason, "missing memory policy");
    assert_eq!(decision.policy_version, None);
    assert_eq!(decision.layer, None);
}

#[test]
fn resolver_reports_the_highest_layer_and_every_layer_can_deny() {
    let entries = vec![
        MemoryPolicyEntry {
            layer: MemoryPolicyLayer::Agent,
            policy: policy(true, true, vec![MemoryType::Semantic], 3),
        },
        MemoryPolicyEntry {
            layer: MemoryPolicyLayer::Project,
            policy: policy(true, false, vec![MemoryType::Semantic], 5),
        },
    ];
    let read = MemoryPolicyResolver::resolve(&request(MemoryPolicyAction::Read, 10), &entries);
    assert!(read.allowed);
    assert_eq!(read.reason, "memory policy allowed");
    assert_eq!(read.policy_version, Some(5));
    assert_eq!(read.layer, Some(MemoryPolicyLayer::Project));

    let write = MemoryPolicyResolver::resolve(&request(MemoryPolicyAction::Write, 10), &entries);
    assert!(!write.allowed);
    assert_eq!(write.reason, "memory policy denied action or bound");
    assert_eq!(write.layer, Some(MemoryPolicyLayer::Project));

    let too_big = MemoryPolicyResolver::resolve(&request(MemoryPolicyAction::Read, 5_000), &entries);
    assert!(!too_big.allowed);
}

#[test]
fn resolver_denies_when_any_applicable_policy_is_invalid() {
    let mut broken = policy(true, false, vec![MemoryType::Semantic], 2);
    broken.learn = true;
    let entries = vec![
        MemoryPolicyEntry {
            layer: MemoryPolicyLayer::System,
            policy: policy(true, false, vec![MemoryType::Semantic], 1),
        },
        MemoryPolicyEntry { layer: MemoryPolicyLayer::Agent, policy: broken },
    ];
    let decision = MemoryPolicyResolver::resolve(&request(MemoryPolicyAction::Read, 10), &entries);
    assert!(!decision.allowed);
    assert_eq!(decision.reason, "invalid memory policy");
    assert_eq!(decision.layer, None);
}

fn embedding_request() -> EmbeddingRequest {
    EmbeddingRequest {
        project_id: Some(ProjectId::from_u128(1)),
        trace_id: "trace-1".into(),
        model: "mock".into(),
        model_version: "1".into(),
        dimensions: 8,
        inputs: vec![EmbeddingInput { reference: "memory:1".into() }],
        budget_available: true,
        cancelled: false,
    }
}

#[test]
fn embedding_requests_are_checked_in_order() {
    let policy = EmbeddingPolicy::default();
    assert_eq!(policy.max_dimensions, 4096);
    assert!(MockEmbeddingProvider::check(&embedding_request(), &policy).is_ok());

    let mut q = embedding_request();
    q.project_id = None;
    q.cancelled = true;
    assert_eq!(
        MockEmbeddingProvider::check(&q, &policy),
        Err(EmbeddingError::MissingProject)
    );
    let mut q = embedding_request();
    q.trace_id = String::new();
    assert_eq!(MockEmbeddingProvider::check(&q, &policy), Err(EmbeddingError::MissingTrace));
    let mut q = embedding_request();
    q.model_version = String::new();
    assert_eq!(MockEmbeddingProvider::check(&q, &policy), Err(EmbeddingError::InvalidModel));
    let mut q = embedding_request();
    q.dimensions = 4097;
    assert_eq!(
        MockEmbeddingProvider::check(&q, &policy),
        Err(EmbeddingError::InvalidDimensions)
    );
    let mut q = embedding_request();
    q.inputs.clear();
    assert_eq!(MockEmbeddingProvider::check(&q, &policy), Err(EmbeddingError::BatchTooLarge));
    let mut q = embedding_request();
    q.inputs.push(EmbeddingInput { reference: "bad\nref".into() });
    assert_eq!(
        MockEmbeddingProvider::check(&q, &policy),
        Err(EmbeddingError::InvalidReference)
    );
    let mut q = embedding_request();
    q.budget_available = false;
    assert_eq!(
        MockEmbeddingProvider::check(&q, &policy),
        Err(EmbeddingError::BudgetUnavailable)
    );
    let mut q = embedding_request();
    q.cancelled = true;
    assert_eq!(MockEmbeddingProvider::check(&q, &policy), Err(EmbeddingError::Cancelled));
}

#[test]
fn embedding_seeds_are_deterministic() {
    assert_eq!(MockEmbeddingProvider::seeds("", 2), vec![596_883_632, 1_920_407_076]);
    assert_eq!(
        MockEmbeddingProvider::seeds("memory:1", 4),
        MockEmbeddingProvider::seeds("memory:1", 4)
    );
    assert_ne!(
        MockEmbeddingProvider::seeds("memory:1", 4),
        MockEmbeddingProvider::seeds("memory:2", 4)
    );
}

#[test]
fn digests_have_exact_values() {
    assert_eq!(fnv1a_bytes(b""), 0xcbf2_9ce4_8422_2325);
    assert_eq!(fnv1a_bytes(b"a"), 0xaf63_dc4c_8601_ec8c);
    assert_eq!(to_hex16(0xab), "00000000000000ab");
    assert_eq!(fingerprint("a"), "af63dc4c8601ec8c");
    assert_eq!(lower_hex(&[0x0f, 0xa0]), "0fa0");
    assert_eq!(to_decimal(120), "120");
    assert_eq!(to_decimal(0), "0");
}

fn group_policy() -> GroupModeratorPolicy {
    GroupModeratorPolicy::new(ProjectId::from_u128(1), 2, AgentId::from_u128(3), 2).unwrap()
}

#[test]
fn moderator_routes_only_eligible_checked_targets() {
    let mut p = group_policy();
    let member = AgentId::from_u128(10);
    let stranger = AgentId::from_u128(11);
    p.add_eligible_member(member).unwrap();
    assert_eq!(p.decide(stranger, true, true, true), ModeratorDecision::DenyTargetNotEligible);
    assert_eq!(p.decide(member, false, true, true), ModeratorDecision::DenyCycleOrDepth);
    assert_eq!(p.decide(member, true, false, true), ModeratorDecision::DenyCycleOrDepth);
    assert_eq!(p.decide(member, true, true, false), ModeratorDecision::DenyBudget);
    assert_eq!(p.decide(member, true, true, true), ModeratorDecision::Route { target: member });
}

#[test]
fn moderator_limits_are_positive_and_hold_the_members() {
    assert_eq!(
        GroupModeratorPolicy::new(ProjectId::from_u128(1), 2, AgentId::from_u128(3), 0).unwrap_err(),
        PolicyRollbackError::InvalidLimit
    );
    let mut p = group_policy();
    p.add_eligible_member(AgentId::from_u128(10)).unwrap();
    p.add_eligible_member(AgentId::from_u128(11)).unwrap();
    assert_eq!(
        p.add_eligible_member(AgentId::from_u128(12)),
        Err(PolicyRollbackError::InvalidLimit)
    );
    assert!(p.add_eligible_member(AgentId::from_u128(11)).is_ok());
    assert_eq!(p.set_max_participants(1), Err(PolicyRollbackError::InvalidLimit));
    assert_eq!(p.set_max_participants(0), Err(PolicyRollbackError::InvalidLimit));
    assert!(p.set_max_participants(3).is_ok());
    assert_eq!(p.version(), 5);
    assert_eq!(
        PolicyRollbackError::InvalidLimit.message(),
        "policy participant limit is invalid"
    );
}

#[test]
fn moderator_rollback_restores_only_older_snapshots() {
    let mut p = group_policy();
    let member = AgentId::from_u128(10);
    let current = p.snapshot();
    assert_eq!(p.rollback(current), Err(PolicyRollbackError::InvalidSnapshot));
    let older = p.snapshot();
    p.add_eligible_member(member).unwrap();
    p.set_max_participants(5).unwrap();
    assert_eq!(p.decide(member, true, true, true), ModeratorDecision::Route { target: member });
    assert!(p.rollback(older.clone()).is_ok());
    assert_eq!(p.version(), 4);
    assert_eq!(p.snapshot().max_participants, 2);
    assert!(p.snapshot().eligible.is_empty());
    assert_eq!(p.decide(member, true, true, true), ModeratorDecision::DenyTargetNotEligible);
    assert_eq!(p.moderator_id(), AgentId::from_u128(3));
    assert_eq!(p.project_id(), ProjectId::from_u128(1));
    assert_eq!(p.group_id(), 2);
    assert_eq!(
        PolicyRollbackError::InvalidSnapshot.message(),
        "policy snapshot is not older than current policy"
    );
}

#[test]
fn score_identities_are_bounded_and_blocked_scores_are_fingerprinted() {
    assert!(check_identity("policy", "evidence").is_ok());
    assert_eq!(check_identity("", "evidence"), Err(ScoreError::InvalidPolicy));
    assert_eq!(check_identity("policy", &"x".repeat(257)), Err(ScoreError::InvalidPolicy));
    assert!(check_identity("policy", &"x".repeat(256)).is_ok());
    assert_eq!(tagged_fingerprint("p", "e", "blocked"), "f43f507eafc4e1b0");
    assert_eq!(tagged_fingerprint("p", "e", "unknown"), "38f4a30b73636902");
    assert_eq!(
        ScoreError::InvalidPolicy.message(),
        "score policy or evidence identity is invalid"
    );
}
