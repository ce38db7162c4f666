use agent_core::budget::{BudgetLimits, ResetPeriod};
use agent_core::error::{DomainError, DomainErrorCode};
use agent_core::skill_bridge::{
    check_discard_input, check_save_input, digest_reference, normalize_list_input,
    validate_editor_document_input, validate_rollback_input, validate_text,
    validate_version_text, ListSkillsInput, SkillBridgeError, SkillEditorBudgetInput,
    SkillEditorDiscardInput, SkillEditorFileInput, SkillEditorPolicyInput, SkillEditorSaveInput,
    SkillRollbackInput, SkillScope, MAX_EDITOR_DOCUMENT_BYTES, MAX_OFFSET, MAX_SKILLS_PER_PAGE,
    SKILL_DISCARD_CAPABILITY, SKILL_EDIT_CAPABILITY, SKILL_ROLLBACK_CAPABILITY,
};

fn input() -> SkillRollbackInput {
    SkillRollbackInput {
        project_id: "proj-00000000-0000-4000-8000-000000000401".into(),
        skill_id: "skill-00000000-0000-4000-8000-000000000402".into(),
        actor_id: "operator-1".into(),
        trace_id: "trace-00000000-0000-4000-8000-000000000403".into(),
        expected_revision: 2,
        approval_id: Some("approval-1".into()),
        capability: SKILL_ROLLBACK_CAPABILITY.into(),
        confirmed: true,
    }
}

#[test]
fn bridge_requires_confirmation_and_ui_capability_alias() {
    let mut unconfirmed = input();
    unconfirmed.confirmed = false;
    assert!(matches!(
        validate_rollback_input(&unconfirmed),
        Err(SkillBridgeError::ConfirmationRequired)
    ));

    let mut wrong_capability = input();
    wrong_capability.capability = "skill:configure".into();
    assert!(matches!(
        validate_rollback_input(&wrong_capability),
        Err(SkillBridgeError::MutationRejected {
            code: DomainErrorCode::PermissionDenied
        })
    ));
}

#[test]
fn list_input_is_bounded_before_reaching_sqlite() {
    let input = ListSkillsInput {
        project_id: "proj-00000000-0000-4000-8000-000000000401".into(),
        scope: Some(SkillScope::Global),
        limit: Some(usize::MAX),
        offset: Some(usize::MAX),
    };
    assert_eq!(
        normalize_list_input(&input).expect("bounded list input"),
        (SkillScope::Global, MAX_SKILLS_PER_PAGE, MAX_OFFSET)
    );
}

#[test]
fn source_digest_does_not_expose_the_reference() {
    let reference = "workspace://private-skill-location";
    let digest = digest_reference(reference);
    assert_eq!(digest.len(), 64);
    assert_ne!(digest, reference);
    assert!(!digest.contains("private"));
}

#[test]
fn editor_input_rejects_path_escape_and_unbounded_content() {
    let project_id = "proj-00000000-0000-4000-8000-000000000401";
    let skill_id = "skill-00000000-0000-4000-8000-000000000402";
    let base_version = "1.0.0";
    let escaped = vec![SkillEditorFileInput {
        path: "references/../secret.txt".into(),
        role: "reference".into(),
        content: "safe".into(),
    }];
    assert!(validate_editor_document_input(
        project_id,
        skill_id,
        base_version,
        "---\n{}\n---\n# Body",
        &escaped,
    )
    .is_err());

    let oversized = "x".repeat(MAX_EDITOR_DOCUMENT_BYTES + 1);
    assert!(validate_editor_document_input(project_id, skill_id, base_version, &oversized, &[],)
        .is_err());
}

#[test]
fn editor_capability_aliases_are_not_interchangeable() {
    assert_ne!(SKILL_EDIT_CAPABILITY, SKILL_DISCARD_CAPABILITY);
    assert_eq!(SKILL_EDIT_CAPABILITY, "skill.edit");
    assert_eq!(SKILL_DISCARD_CAPABILITY, "skill.discard");
}

#[test]
fn list_defaults_to_the_project_scope_and_a_full_page() {
    let input = ListSkillsInput {
        project_id: "p".into(),
        scope: None,
        limit: Some(0),
        offset: None,
    };
    assert_eq!(
        normalize_list_input(&input).unwrap(),
        (SkillScope::Project, 1, 0)
    );
    let input = ListSkillsInput {
        project_id: "p".into(),
        scope: None,
        limit: None,
        offset: Some(7),
    };
    assert_eq!(
        normalize_list_input(&input).unwrap(),
        (SkillScope::Project, MAX_SKILLS_PER_PAGE, 7)
    );
}

#[test]
fn versions_are_three_dot_separated_numbers() {
    assert!(validate_version_text("1.0.0").is_ok());
    assert!(validate_version_text("10.20.300").is_ok());
    assert!(validate_version_text("1.0").is_err());
    assert!(validate_version_text("1..0").is_err());
    assert!(validate_version_text(".1.0").is_err());
    assert!(validate_version_text("1.0.").is_err());
    assert!(validate_version_text("1.0.0.0").is_err());
    assert!(validate_version_text("1.a.0").is_err());
    assert!(validate_version_text("").is_err());
    assert!(validate_text("ok", 2).is_ok());
    assert!(validate_text("long", 2).is_err());
    assert!(validate_text("a..b", 8).is_err());
    assert!(validate_text("   ", 8).is_err());
}

#[test]
fn rollback_approval_must_be_bounded() {
    let mut long_approval = input();
    long_approval.approval_id = Some("a".repeat(129));
    assert_eq!(
        validate_rollback_input(&long_approval),
        Err(SkillBridgeError::InvalidInput)
    );
    assert_eq!(validate_rollback_input(&input()), Ok(()));
}

fn save_input() -> SkillEditorSaveInput {
    SkillEditorSaveInput {
        project_id: "proj-00000000-0000-4000-8000-000000000401".into(),
        skill_id: "skill-00000000-0000-4000-8000-000000000402".into(),
        actor_id: "operator-1".into(),
        trace_id: "trace-00000000-0000-4000-8000-000000000403".into(),
        expected_revision: 1,
        base_version: "1.0.0".into(),
        document: "# Body".into(),
        files: vec![SkillEditorFileInput {
            path: "scripts/run.sh".into(),
            role: "script".into(),
            content: "echo".into(),
        }],
        budget: SkillEditorBudgetInput {
            max_tokens: 10,
            max_cost_micro_usd: 10,
            max_parallel_invocations: 1,
            max_wall_time_seconds: 10,
            reset_period: ResetPeriod::Never,
        },
        policy: SkillEditorPolicyInput {
            allow: true,
            max_document_bytes: 1024,
        },
        capability: SKILL_EDIT_CAPABILITY.into(),
        confirmed: true,
    }
}

#[test]
fn save_checks_confirmation_capability_trace_and_policy() {
    let (project, skill, trace) = check_save_input(&save_input()).unwrap();
    assert_eq!(project.0, 0x00000000_0000_4000_8000_000000000401);
    assert_eq!(skill.0, 0x00000000_0000_4000_8000_000000000402);
    assert_eq!(trace.0, 0x00000000_0000_4000_8000_000000000403);

    let mut discard_capability = save_input();
    discard_capability.capability = SKILL_DISCARD_CAPABILITY.into();
    assert_eq!(
        check_save_input(&discard_capability).err(),
        Some(SkillBridgeError::MutationRejected {
            code: DomainErrorCode::PermissionDenied
        })
    );
    let mut nil_trace = save_input();
    nil_trace.trace_id = "trace-00000000-0000-0000-0000-000000000000".into();
    assert_eq!(
        check_save_input(&nil_trace).err(),
        Some(SkillBridgeError::InvalidInput)
    );
    let mut denied = save_input();
    denied.policy.allow = false;
    assert_eq!(check_save_input(&denied).err(), Some(SkillBridgeError::InvalidInput));
    let mut bad_role = save_input();
    bad_role.files[0].role = "binary".into();
    assert_eq!(check_save_input(&bad_role).err(), Some(SkillBridgeError::InvalidInput));
    let limits: BudgetLimits = save_input().budget.into();
    assert_eq!(limits.max_tokens, 10);
}

#[test]
fn discard_checks_capability_version_and_ids() {
    let discard = SkillEditorDiscardInput {
        project_id: "proj-00000000-0000-4000-8000-000000000401".into(),
        skill_id: "skill-00000000-0000-4000-8000-000000000402".into(),
        actor_id: "operator-1".into(),
        trace_id: "trace-00000000-0000-4000-8000-000000000403".into(),
        expected_revision: 3,
        version: "1.2.3".into(),
        capability: SKILL_DISCARD_CAPABILITY.into(),
        confirmed: true,
    };
    assert!(check_discard_input(&discard).is_ok());
    let mut wrong = discard.clone();
    wrong.project_id = "not-a-project".into();
    assert_eq!(check_discard_input(&wrong).err(), Some(SkillBridgeError::InvalidInput));
    let mut unconfirmed = discard.clone();
    unconfirmed.confirmed = false;
    assert_eq!(
        check_discard_input(&unconfirmed).err(),
        Some(SkillBridgeError::ConfirmationRequired)
    );
}

#[test]
fn domain_errors_become_rejections_with_their_code() {
    let error: SkillBridgeError = DomainError::NotFound("skill".into()).into();
    assert_eq!(
        error,
        SkillBridgeError::MutationRejected {
            code: DomainErrorCode::NotFound
        }
    );
    assert_eq!(error.message(), "skill mutation rejected: NotFound");
    assert_eq!(
        SkillBridgeError::InvalidInput.message(),
        "invalid skill bridge input"
    );
}

#[test]
fn invalid_project_ids_fail_closed_without_raw_input() {
    let error = agent_core::project_bridge::parse_project_id(
        "not-an-id".into(),
        Some("corr-2".into()),
    )
    .unwrap_err();
    assert_eq!(error.code, DomainErrorCode::Validation);
    assert!(!error.message.contains("not-an-id"));
    assert_eq!(error.correlation_id.as_deref(), Some("corr-2"));
}

#[test]
fn project_ids_read_the_uuid_after_the_prefix() {
    let id = agent_core::project_bridge::parse_project_id(
        "proj-00000000-0000-4000-8000-000000000401".into(),
        None,
    )
    .unwrap();
    assert_eq!(id.0, 0x00000000_0000_4000_8000_000000000401);
    assert!(agent_core::project_bridge::parse_project_id("proj-xyz".into(), None).is_err());
}
