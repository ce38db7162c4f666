use agent_core::agent_bridge::{bridge_error, parse_project_id};
use agent_core::confirmation_bridge::{
    ConfirmationBridgeError, ConfirmationEvent, ConfirmationEventKind, ConfirmationSequence,
    CONFIRMATION_EVENT_NAME, CONFIRMATION_SCHEMA_VERSION,
};
use agent_core::error::{DomainError, DomainErrorCode, Retryability};
use agent_core::ids::ProjectId;

#[test]
fn invalid_agent_project_ids_fail_closed_with_safe_error_envelope() {
    let error = parse_project_id("../../etc/passwd".into(), Some("c-9".into())).unwrap_err();
    assert_eq!(error.code, DomainErrorCode::Validation);
    assert_eq!(error.retryability, Retryability::Never);
    assert_eq!(error.message(), "Validation failed");
    assert!(!error.message.contains("passwd"));
    assert_eq!(error.correlation_id.as_deref(), Some("c-9"));
    assert_eq!(
        parse_project_id("proj-00000000-0000-4000-8000-000000000005".into(), None).unwrap(),
        ProjectId::from_u128(5 | (0x4000 << 64) | (0x8000 << 48))
    );
    let provider = bridge_error(
        DomainError::ProviderError { provider: "p".into(), message: "token=abc".into() },
        None,
    );
    assert_eq!(provider.code, DomainErrorCode::Provider);
    assert_eq!(provider.retryability, Retryability::Conditional);
    assert!(!provider.message.contains("token"));
}

#[test]
fn confirmation_errors_keep_fixed_or_ledger_messages() {
    assert_eq!(CONFIRMATION_EVENT_NAME, "hank://confirmation");
    assert_eq!(ConfirmationBridgeError::EmitFailed.message(), "confirmation event could not be emitted");
    assert_eq!(ConfirmationBridgeError::EventInvalid.message(), "confirmation event is invalid");
    assert_eq!(
        ConfirmationBridgeError::Ledger("ledger: replay rejected".into()).message(),
        "ledger: replay rejected"
    );
}

#[test]
fn submission_events_use_current_schema_and_monotonic_sequence() {
    let mut sequence = ConfirmationSequence::new();
    let first = 0x201u128;
    let second = 0x202u128;
    let event_a = ConfirmationEvent::request_submitted(first, sequence.next_event_sequence());
    let event_b = ConfirmationEvent::request_submitted(second, sequence.next_event_sequence());
    assert_eq!(event_a.schema_version, CONFIRMATION_SCHEMA_VERSION);
    assert_eq!(event_b.schema_version, CONFIRMATION_SCHEMA_VERSION);
    assert!(matches!(event_a.kind, ConfirmationEventKind::RequestSubmitted));
    assert_eq!(event_a.sequence, 0);
    assert_eq!(event_b.sequence, 1);
    assert_eq!(event_a.request_id, first);
    assert_eq!(event_b.request_id, second);
    assert_ne!(event_a.event_id, event_b.event_id);
}

#[test]
fn expected_update_times_are_read_as_utc_milliseconds() {
    use_expected_update_time();
}

fn use_expected_update_time() {
    let read = agent_core::project_bridge::expected_update_time;
    assert_eq!(read(None, None).unwrap(), None);
    assert_eq!(read(Some("2024-01-01T00:00:00Z".into()), None).unwrap(), Some(1_704_067_200_000));
    assert_eq!(read(Some("2024-01-01T02:00:00.250+02:00".into()), None).unwrap(), Some(1_704_067_200_250));
    let error = read(Some("yesterday".into()), Some("corr-1".into())).unwrap_err();
    assert_eq!(error.code, agent_core::error::DomainErrorCode::Validation);
    assert_eq!(error.message, "Validation failed");
    assert_eq!(error.correlation_id.as_deref(), Some("corr-1"));
}
