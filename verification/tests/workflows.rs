use agent_core::ids::{ProjectId, WorkflowId};
use agent_core::workflow_bridge::{
    check_draft, check_draft_scope, map_persistence_error, node_kind, node_label, plan_version,
    validation_output, WorkflowPersistenceError, node_type, parse_project_id, parse_workflow_id, validate_identifier,
    validate_label, WorkflowBridgeError, WorkflowBridgeErrorCode, WorkflowCommandInput,
    WorkflowDraftInput, WorkflowEdgeInput, WorkflowNodeInput, WorkflowNodeType,
};

fn command(project_id: &str, expected_version: u32) -> WorkflowCommandInput {
    WorkflowCommandInput {
        project_id: project_id.to_string(),
        workflow_id: "wf-00000000-0000-4000-8000-000000000001".to_string(),
        expected_version,
        draft: WorkflowDraftInput {
            project_id: project_id.to_string(),
            workflow_id: "wf-00000000-0000-4000-8000-000000000001".to_string(),
            nodes: vec![WorkflowNodeInput {
                id: "agent-1".to_string(),
                kind: "agent".to_string(),
                label: "Release agent".to_string(),
            }],
            edges: Vec::new(),
        },
    }
}

#[test]
fn graph_mapping_rejects_unknown_kinds_and_preserves_bounds() {
    let workflow_id = parse_workflow_id("wf-00000000-0000-4000-8000-000000000001").unwrap();
    assert_eq!(workflow_id, WorkflowId::from_u128(0x0000_0000_0000_4000_8000_0000_0000_0001));
    let mut invalid = command("proj-00000000-0000-4000-8000-000000000001", 0);
    invalid.draft.nodes[0].kind = "shell".to_string();
    assert_eq!(
        check_draft(&invalid.draft).unwrap_err().message,
        "unsupported workflow node type"
    );
}

#[test]
fn drafts_within_bounds_map_each_node_kind() {
    let mut draft = command("proj-00000000-0000-4000-8000-000000000001", 0).draft;
    draft.nodes.push(WorkflowNodeInput {
        id: "gate".into(),
        kind: "approval".into(),
        label: "Human gate".into(),
    });
    draft.edges.push(WorkflowEdgeInput { source: "agent-1".into(), target: "gate".into() });
    assert_eq!(
        check_draft(&draft).unwrap(),
        vec![WorkflowNodeType::Agent, WorkflowNodeType::Approval]
    );
    for _ in 0..11 {
        draft.nodes.push(draft.nodes[0].clone());
    }
    assert_eq!(
        check_draft(&draft).unwrap_err().message,
        "workflow graph exceeds editor bounds"
    );
}

#[test]
fn drafts_refuse_unsafe_identities_and_labels_in_order() {
    let mut draft = command("proj-00000000-0000-4000-8000-000000000001", 0).draft;
    draft.nodes[0].label = "   ".into();
    draft.nodes[0].kind = "shell".into();
    assert_eq!(check_draft(&draft).unwrap_err().message, "invalid workflow label");
    draft.nodes[0].id = "../etc".into();
    assert_eq!(check_draft(&draft).unwrap_err().message, "invalid workflow identity");
    let mut draft = command("proj-00000000-0000-4000-8000-000000000001", 0).draft;
    draft.edges.push(WorkflowEdgeInput { source: "agent-1".into(), target: "a\\b".into() });
    let error = check_draft(&draft).unwrap_err();
    assert_eq!(error.code, WorkflowBridgeErrorCode::InvalidInput);
    assert_eq!(error.message, "invalid workflow identity");
    assert!(validate_identifier("node/1").is_err());
    assert!(validate_identifier(&"x".repeat(129)).is_err());
    assert!(validate_identifier("node-1").is_ok());
    assert!(validate_label(&"x".repeat(257)).is_err());
    assert!(validate_label("tab\tlabel").is_err());
    assert!(validate_label("A label").is_ok());
}

#[test]
fn node_kinds_round_trip_and_errors_have_stable_reasons() {
    for kind in ["agent", "condition", "approval", "tool"] {
        assert_eq!(node_kind(node_type(kind).unwrap()), kind);
    }
    assert_eq!(node_kind(WorkflowNodeType::SubWorkflow), "sub_workflow");
    assert!(node_type("python").is_err());
    assert_eq!(
        WorkflowBridgeError::new(WorkflowBridgeErrorCode::Conflict, "version moved").reason(),
        "stale_version"
    );
    assert_eq!(
        WorkflowBridgeError::new(WorkflowBridgeErrorCode::Internal, "x").reason(),
        "workflow_unavailable"
    );
    assert_eq!(
        parse_project_id("proj-00000000-0000-4000-8000-000000000001").unwrap(),
        ProjectId::from_u128(0x0000_0000_0000_4000_8000_0000_0000_0001)
    );
    assert_eq!(parse_project_id("project-1").unwrap_err().message, "invalid project id");
    assert_eq!(parse_workflow_id("wf-x").unwrap_err().message, "invalid workflow id");
}

#[test]
fn drafts_must_match_the_command_scope() {
    let input = WorkflowCommandInput {
        project_id: "proj-a".into(),
        workflow_id: "wf-a".into(),
        expected_version: 0,
        draft: WorkflowDraftInput { project_id: "proj-a".into(), workflow_id: "wf-a".into(), nodes: vec![], edges: vec![] },
    };
    assert!(check_draft_scope(&input).is_ok());
    let mut other = input.clone();
    other.draft.workflow_id = "wf-b".into();
    let error = check_draft_scope(&other).unwrap_err();
    assert_eq!(error.code, WorkflowBridgeErrorCode::Unauthorized);
    assert_eq!(error.message, "workflow scope does not match project");
}

#[test]
fn versions_are_created_once_and_replaced_in_order() {
    assert_eq!(plan_version(0, false).unwrap(), (1, None));
    assert_eq!(plan_version(0, true).unwrap_err().code, WorkflowBridgeErrorCode::Conflict);
    assert_eq!(plan_version(4, true).unwrap(), (5, Some(4)));
    assert_eq!(plan_version(4, false).unwrap_err().message, "workflow version is stale");
    assert_eq!(plan_version(u32::MAX, true).unwrap(), (u32::MAX, Some(u32::MAX)));
}

#[test]
fn store_failures_and_validation_answers() {
    let e = map_persistence_error(WorkflowPersistenceError::Serialization);
    assert_eq!(e.code, WorkflowBridgeErrorCode::InvalidInput);
    assert_eq!(e.message, "invalid workflow definition");
    assert_eq!(map_persistence_error(WorkflowPersistenceError::ConcurrencyConflict).code, WorkflowBridgeErrorCode::Conflict);
    assert_eq!(map_persistence_error(WorkflowPersistenceError::NotFound).message, "workflow not found");
    assert_eq!(map_persistence_error(WorkflowPersistenceError::Query).code, WorkflowBridgeErrorCode::Internal);

    let ok = validation_output(Ok(())).unwrap();
    assert!(ok.valid);
    assert_eq!(ok.reason, None);
    let stale = validation_output(Err(WorkflowBridgeError::new(WorkflowBridgeErrorCode::NotFound, "x"))).unwrap();
    assert!(!stale.valid);
    assert_eq!(stale.reason.as_deref(), Some("stale_version"));
    let denied = validation_output(Err(WorkflowBridgeError::new(WorkflowBridgeErrorCode::Unauthorized, "x"))).unwrap();
    assert_eq!(denied.reason.as_deref(), Some("unauthorized_project"));
    let down = validation_output(Err(WorkflowBridgeError::new(WorkflowBridgeErrorCode::Internal, "down"))).unwrap_err();
    assert_eq!(down.message, "down");

    assert_eq!(node_label(Some("Review"), "n1"), "Review");
    assert_eq!(node_label(None, "n1"), "n1");
}
