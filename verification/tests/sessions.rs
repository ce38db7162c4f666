use agent_core::error::{DomainErrorCode, Retryability};
use agent_core::ids::{AgentId, ProjectId};
use agent_core::session_bridge::{
    bounded_title, page_window, parse_agent_id, parse_project_id, session_error,
    SessionServiceError, SessionStorageError,
};

#[test]
fn session_titles_are_trimmed_bounded_and_optional() {
    assert_eq!(bounded_title(None, None).unwrap(), None);
    assert_eq!(bounded_title(Some(" \t ".into()), None).unwrap(), None);
    assert_eq!(
        bounded_title(Some("  Planning call \n".into()), None).unwrap(),
        Some("Planning call".to_string())
    );
    let error = bounded_title(Some("x".repeat(257)), Some("corr".into())).unwrap_err();
    assert_eq!(error.code, DomainErrorCode::Validation);
    assert_eq!(error.message, "Validation failed");
    assert_eq!(error.correlation_id.as_deref(), Some("corr"));
    assert!(bounded_title(Some("bell\u{7}".into()), None).is_err());
    assert!(bounded_title(Some(format!("  {}  ", "x".repeat(256))), None).is_ok());
}

#[test]
fn session_listings_are_bounded() {
    assert_eq!(page_window(None, None), (20, 0));
    assert_eq!(page_window(Some(0), Some(5)), (1, 5));
    assert_eq!(page_window(Some(500), Some(50_000)), (100, 10_000));
}

#[test]
fn session_service_failures_cross_without_detail() {
    let error = session_error(
        SessionServiceError::Storage(SessionStorageError::ScopeMismatch),
        Some("c-1".into()),
    );
    assert_eq!(error.code, DomainErrorCode::PermissionDenied);
    assert_eq!(error.retryability, Retryability::Never);
    assert_eq!(error.message, "Permission denied");
    assert_eq!(error.correlation_id.as_deref(), Some("c-1"));
    let closed = session_error(SessionServiceError::SessionClosed, None);
    assert_eq!(closed.code, DomainErrorCode::InvalidStateTransition);
    assert_eq!(closed.message, "Invalid state transition");
    let conflict = session_error(SessionServiceError::Storage(SessionStorageError::Conflict), None);
    assert_eq!(conflict.code, DomainErrorCode::InvariantViolation);
    assert_eq!(conflict.message, "Concurrency conflict");
    assert_eq!(
        session_error(SessionServiceError::Budget, None).code,
        DomainErrorCode::BudgetExceeded
    );
    assert_eq!(
        session_error(SessionServiceError::ProviderFailure, None).message(),
        "Capability not available"
    );
}

#[test]
fn session_identifiers_are_parsed_without_echoing_input() {
    assert_eq!(
        parse_agent_id("agent-00000000-0000-4000-8000-000000000001".into(), None).unwrap(),
        AgentId::from_u128(0x0000_0000_0000_4000_8000_0000_0000_0001)
    );
    let error = parse_agent_id("agent-<script>".into(), None).unwrap_err();
    assert_eq!(error.message, "Validation failed");
    assert!(!error.message.contains("script"));
    assert_eq!(
        parse_project_id("proj-00000000-0000-4000-8000-000000000002".into(), None).unwrap(),
        ProjectId::from_u128(0x0000_0000_0000_4000_8000_0000_0000_0002)
    );
    assert!(parse_project_id("agent-00000000-0000-4000-8000-000000000001".into(), None).is_err());
}

#[test]
fn sessions_need_an_active_project_then_an_active_agent() {
    use_creation_scope();
}

fn use_creation_scope() {
    let require = agent_core::session_bridge::require_creation_scope;
    assert!(require(true, true, None).is_ok());
    let project = require(false, true, Some("c".into())).unwrap_err();
    assert_eq!(project.code, DomainErrorCode::InvalidStateTransition);
    assert_eq!(project.correlation_id.as_deref(), Some("c"));
    let agent = require(true, false, None).unwrap_err();
    assert_eq!(agent.code, DomainErrorCode::PermissionDenied);
    assert_eq!(agent.message, "Permission denied");

    let scope = agent_core::session_bridge::check_scope;
    assert_eq!(scope(None, Some(true), None).unwrap_err().code, DomainErrorCode::NotFound);
    assert_eq!(scope(Some(true), None, None).unwrap_err().message, "Entity not found");
    assert_eq!(scope(Some(false), Some(true), None).unwrap(), (false, true));
    assert_eq!(agent_core::agent_bridge::agent_page(None, None), (20, 0));
    assert_eq!(agent_core::agent_bridge::agent_page(Some(0), Some(50_000)), (1, 10_000));
    assert_eq!(agent_core::agent_bridge::agent_page(Some(500), Some(3)), (100, 3));
}
