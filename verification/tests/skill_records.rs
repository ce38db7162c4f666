use agent_core::error::DomainErrorCode;
use agent_core::ids::{ProjectId, SkillId, TraceId};
use agent_core::skill_bridge::{SkillBridgeError, SkillScope, MAX_EDITOR_DOCUMENT_BYTES};
use agent_core::skill_records::{
    check_editor_document, check_rollback_target, render_instructions, source_kind,
    validate_binding_for_rollback, validate_editor_record, InstructionSection, RollbackBinding,
    RollbackRecord, SkillEditorFileOutput, SkillSourceKind,
};

fn project_binding() -> RollbackBinding {
    RollbackBinding {
        project_id: ProjectId(7),
        scope: SkillScope::Project,
        current_version: "1.2.0".into(),
        import_reference: None,
        enabled: true,
        approval_id: None,
        trace_id: TraceId(9),
    }
}

fn project_record() -> RollbackRecord {
    RollbackRecord { version: "1.2.0".into(), scope: SkillScope::Project, project_id: Some(ProjectId(7)) }
}

fn rejected(code: DomainErrorCode) -> SkillBridgeError {
    SkillBridgeError::MutationRejected { code }
}

#[test]
fn a_project_binding_on_its_record_may_roll_back() {
    assert!(validate_binding_for_rollback(&project_binding(), &project_record(), None).is_ok());
    let mut disabled = project_binding();
    disabled.enabled = false;
    assert_eq!(
        validate_binding_for_rollback(&disabled, &project_record(), None),
        Err(rejected(DomainErrorCode::InvalidStateTransition))
    );
    let mut moved = project_record();
    moved.version = "1.3.0".into();
    assert_eq!(
        validate_binding_for_rollback(&project_binding(), &moved, None),
        Err(rejected(DomainErrorCode::InvalidStateTransition))
    );
    let mut other = project_record();
    other.project_id = Some(ProjectId(8));
    assert_eq!(
        validate_binding_for_rollback(&project_binding(), &other, None),
        Err(rejected(DomainErrorCode::PermissionDenied))
    );
    let mut imported = project_binding();
    imported.import_reference = Some("project-import:x".into());
    assert_eq!(
        validate_binding_for_rollback(&imported, &project_record(), None),
        Err(rejected(DomainErrorCode::InvariantViolation))
    );
}

#[test]
fn a_global_binding_needs_a_project_import_and_the_same_approval() {
    let binding = RollbackBinding {
        scope: SkillScope::Global,
        import_reference: Some("project-import:abc".into()),
        approval_id: Some("approval-1".into()),
        ..project_binding()
    };
    let record = RollbackRecord { scope: SkillScope::Global, project_id: None, ..project_record() };
    assert!(validate_binding_for_rollback(&binding, &record, Some("approval-1")).is_ok());
    assert_eq!(
        validate_binding_for_rollback(&binding, &record, Some("approval-2")),
        Err(rejected(DomainErrorCode::PermissionDenied))
    );
    assert_eq!(
        validate_binding_for_rollback(&binding, &record, None),
        Err(rejected(DomainErrorCode::PermissionDenied))
    );
    let local = RollbackBinding { import_reference: Some("local:abc".into()), ..binding.clone() };
    assert_eq!(
        validate_binding_for_rollback(&local, &record, Some("approval-1")),
        Err(rejected(DomainErrorCode::PermissionDenied))
    );
    let scoped = RollbackRecord { project_id: Some(ProjectId(7)), ..record.clone() };
    assert_eq!(
        validate_binding_for_rollback(&binding, &scoped, Some("approval-1")),
        Err(rejected(DomainErrorCode::PermissionDenied))
    );
}

#[test]
fn rollback_targets_must_exist_and_share_the_trace() {
    let b = project_binding();
    let r = project_record();
    assert_eq!(check_rollback_target(None, Some(&r), TraceId(9), None), Err(rejected(DomainErrorCode::NotFound)));
    assert_eq!(check_rollback_target(Some(&b), None, TraceId(9), None), Err(rejected(DomainErrorCode::NotFound)));
    assert_eq!(
        check_rollback_target(Some(&b), Some(&r), TraceId(10), None),
        Err(rejected(DomainErrorCode::PermissionDenied))
    );
    assert!(check_rollback_target(Some(&b), Some(&r), TraceId(9), None).is_ok());
}

#[test]
fn only_open_project_records_of_the_skill_are_editable() {
    let p = ProjectId(1);
    let s = SkillId(2);
    assert!(validate_editor_record(s, SkillScope::Project, Some(p), false, p, s).is_ok());
    let denied = Err(rejected(DomainErrorCode::PermissionDenied));
    assert_eq!(validate_editor_record(SkillId(3), SkillScope::Project, Some(p), false, p, s), denied);
    assert_eq!(validate_editor_record(s, SkillScope::Global, Some(p), false, p, s), denied);
    assert_eq!(validate_editor_record(s, SkillScope::Project, None, false, p, s), denied);
    assert_eq!(validate_editor_record(s, SkillScope::Project, Some(p), true, p, s), denied);
}

#[test]
fn instructions_render_as_markdown_sections() {
    let sections = vec![
        InstructionSection { level: 1, heading: "Goal".into(), content: "Do it.".into() },
        InstructionSection { level: 3, heading: "Steps".into(), content: "One".into() },
    ];
    assert_eq!(render_instructions(&sections), "# Goal\nDo it.\n\n### Steps\nOne");
    assert_eq!(render_instructions(&vec![]), "");
    assert_eq!(source_kind(SkillSourceKind::BuiltIn), "built_in");
    assert_eq!(source_kind(SkillSourceKind::Registry), "registry");
}

#[test]
fn editor_documents_are_bounded() {
    let file = |n: usize| SkillEditorFileOutput { path: "a.md".into(), role: "instruction".into(), content: "x".repeat(n) };
    assert!(check_editor_document("{}", "# A", &[file(16 * 1024)]).is_ok());
    assert_eq!(check_editor_document("{}", "# A", &[file(16 * 1024 + 1)]), Err(SkillBridgeError::InvalidInput));
    let half = "y".repeat(MAX_EDITOR_DOCUMENT_BYTES / 2);
    assert!(check_editor_document(&half, &half, &[]).is_ok());
    let more = "y".repeat(MAX_EDITOR_DOCUMENT_BYTES / 2 + 1);
    assert_eq!(check_editor_document(&half, &more, &[]), Err(SkillBridgeError::InvalidInput));
    let many: Vec<SkillEditorFileOutput> = (0..33).map(|_| file(1)).collect();
    assert_eq!(check_editor_document("{}", "", &many), Err(SkillBridgeError::InvalidInput));
}
