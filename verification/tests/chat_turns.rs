use agent_core::chat_bridge::ChatBridgeErrorCode;
use agent_core::chat_turn::{
    admit_command, cancel_outcome, credential_lookup, fixture_enabled, select_provider, check_participants, check_session, execution_id,
    first_attempt_id, map_command_error, map_domain_error, map_message_storage,
    map_session_storage, message_page, message_sequences, plan_turn, project_scope, registration,
    role_name, AssistantAction, ChatCommandError, ChatCommandStatus, MessageRole,
    MessageStorageError, ProviderDelta, StreamOutcome, StreamPayload, TurnOutcome, UsageOutcome,
};
use agent_core::error::DomainError;
use agent_core::session_bridge::SessionStorageError;

fn delta(attempt: &str, text: &str, terminal: bool) -> ProviderDelta {
    ProviderDelta { attempt_id: attempt.to_string(), text: text.to_string(), terminal }
}

fn shape(events: &[agent_core::chat_turn::StreamEvent]) -> Vec<(u64, String)> {
    events
        .iter()
        .map(|e| {
            let label = match &e.payload {
                StreamPayload::Start => "start".to_string(),
                StreamPayload::Delta { text } => format!("delta:{text}"),
                StreamPayload::Finish => "finish".to_string(),
                StreamPayload::Cancel => "cancel".to_string(),
                StreamPayload::ProviderFailure => "provider_failure".to_string(),
                StreamPayload::InvalidStream => "invalid_stream".to_string(),
            };
            (e.sequence, label)
        })
        .collect()
}

#[test]
fn only_an_enabled_well_formed_desktop_command_is_admitted() {
    assert!(admit_command(true, true, true, "desktop-webview", "desktop", "c1").is_ok());
    let e = admit_command(false, true, true, "desktop-webview", "desktop", "c1").unwrap_err();
    assert!(matches!(e.code, ChatBridgeErrorCode::ProviderUnavailable));
    assert_eq!(e.correlation_id, "c1");
    let e = admit_command(true, false, true, "desktop-webview", "desktop", "c1").unwrap_err();
    assert!(matches!(e.code, ChatBridgeErrorCode::InvalidCommand));
    let e = admit_command(true, true, false, "desktop-webview", "desktop", "c1").unwrap_err();
    assert!(matches!(e.code, ChatBridgeErrorCode::Unauthorized));
    let e = admit_command(true, true, true, "browser", "desktop", "").unwrap_err();
    assert!(matches!(e.code, ChatBridgeErrorCode::Unauthorized));
    assert_eq!(e.correlation_id, "chat");
}

#[test]
fn sessions_and_participants_must_exist_match_and_be_active() {
    assert!(check_session(true, true, true, "c").is_ok());
    assert!(matches!(check_session(false, true, true, "c").unwrap_err().code, ChatBridgeErrorCode::NotFound));
    assert!(matches!(check_session(true, false, true, "c").unwrap_err().code, ChatBridgeErrorCode::Unauthorized));
    assert!(matches!(check_session(true, true, false, "c").unwrap_err().code, ChatBridgeErrorCode::Unauthorized));
    assert!(check_participants(Some(true), Some(true), "c").is_ok());
    assert!(matches!(check_participants(None, Some(true), "c").unwrap_err().code, ChatBridgeErrorCode::NotFound));
    assert!(matches!(check_participants(Some(true), None, "c").unwrap_err().code, ChatBridgeErrorCode::NotFound));
    assert!(matches!(check_participants(Some(false), Some(true), "c").unwrap_err().code, ChatBridgeErrorCode::Unauthorized));
}

#[test]
fn registry_answers_map_to_bridge_codes() {
    assert!(registration(Ok(ChatCommandStatus::Accepted), "c").is_ok());
    assert!(matches!(registration(Ok(ChatCommandStatus::Duplicate), "c").unwrap_err().code, ChatBridgeErrorCode::DuplicateCommand));
    assert!(matches!(registration(Ok(ChatCommandStatus::Stale), "c").unwrap_err().code, ChatBridgeErrorCode::StaleCommand));
    assert!(matches!(registration(Err(ChatCommandError::Invalid), "c").unwrap_err().code, ChatBridgeErrorCode::InvalidCommand));
    assert!(matches!(map_command_error(ChatCommandError::Capacity), ChatBridgeErrorCode::Internal));
    assert!(matches!(map_command_error(ChatCommandError::Lock), ChatBridgeErrorCode::Internal));
}

#[test]
fn storage_failures_map_to_bridge_codes() {
    assert!(matches!(map_message_storage(MessageStorageError::ScopeMismatch, "c").code, ChatBridgeErrorCode::Unauthorized));
    assert!(matches!(map_message_storage(MessageStorageError::OutOfOrder, "c").code, ChatBridgeErrorCode::InvalidCommand));
    assert!(matches!(map_message_storage(MessageStorageError::Database, "c").code, ChatBridgeErrorCode::Storage));
    assert!(matches!(map_session_storage(SessionStorageError::NotFound, "c").code, ChatBridgeErrorCode::NotFound));
    assert!(matches!(map_session_storage(SessionStorageError::Invalid, "c").code, ChatBridgeErrorCode::InvalidCommand));
    assert!(matches!(map_session_storage(SessionStorageError::Conflict, "c").code, ChatBridgeErrorCode::Storage));
    assert!(matches!(map_domain_error(&DomainError::NotFound("p".into()), "c").code, ChatBridgeErrorCode::NotFound));
    assert!(matches!(map_domain_error(&DomainError::Validation("p".into()), "c").code, ChatBridgeErrorCode::InvalidCommand));
    assert!(matches!(map_domain_error(&DomainError::Duplicate("p".into()), "c").code, ChatBridgeErrorCode::Storage));
}

#[test]
fn turn_messages_follow_the_last_stored_one() {
    assert_eq!(message_sequences(None), (0, 1));
    assert_eq!(message_sequences(Some(4)), (5, 6));
    assert_eq!(message_sequences(Some(u64::MAX)), (u64::MAX, u64::MAX));
}

#[test]
fn message_pages_are_clamped() {
    assert_eq!(message_page(None, None), (100, 0));
    assert_eq!(message_page(Some(0), Some(20_000)), (1, 10_000));
    assert_eq!(message_page(Some(250), Some(7)), (100, 7));
    assert_eq!(message_page(Some(30), None), (30, 0));
    assert_eq!(role_name(MessageRole::ToolResult), "tool_result");
    assert_eq!(role_name(MessageRole::Assistant), "assistant");
}

#[test]
fn only_the_matching_running_turn_is_cancelled() {
    assert!(cancel_outcome("desktop-webview", "desktop", true, Some((true, true)), "c").unwrap().accepted);
    assert!(!cancel_outcome("desktop-webview", "desktop", true, Some((true, false)), "c").unwrap().accepted);
    assert!(!cancel_outcome("desktop-webview", "desktop", true, None, "c").unwrap().accepted);
    assert!(matches!(cancel_outcome("desktop-webview", "desktop", false, None, "c").unwrap_err().code, ChatBridgeErrorCode::InvalidCommand));
    assert!(matches!(cancel_outcome("other", "desktop", true, Some((true, true)), "c").unwrap_err().code, ChatBridgeErrorCode::Unauthorized));
}

#[test]
fn turn_identifiers_are_derived_from_the_command_and_project() {
    assert_eq!(execution_id("cmd-1"), "exec_cmd-1");
    assert_eq!(first_attempt_id("cmd-1"), "cmd-1:attempt_1");
    assert_eq!(project_scope("proj-9"), "project_proj-9");
}

#[test]
fn a_completed_stream_publishes_its_deltas_then_finishes() {
    let events = vec![delta("a-1", "Hel", false), delta("a-2", "", false), delta("a-2", "lo", true)];
    let plan = plan_turn("cmd", TurnOutcome::Streamed { outcome: StreamOutcome::Completed, events });
    assert_eq!(plan.assistant, AssistantAction::Keep);
    assert_eq!(plan.usage_outcome, UsageOutcome::Completed);
    assert_eq!(plan.attempt_id, "a-1");
    assert_eq!(
        shape(&plan.publish),
        vec![(1, "delta:Hel".to_string()), (2, "delta:lo".to_string()), (3, "finish".to_string())]
    );
    assert_eq!(plan.result.unwrap(), "completed");
}

#[test]
fn refused_and_broken_turns_publish_one_closing_event() {
    let plan = plan_turn("cmd", TurnOutcome::ProviderCancelled);
    assert_eq!(plan.assistant, AssistantAction::CancelUnstarted);
    assert_eq!(plan.usage_outcome, UsageOutcome::Cancelled);
    assert_eq!(plan.attempt_id, "cmd:attempt_1");
    assert_eq!(shape(&plan.publish), vec![(1, "cancel".to_string())]);
    assert_eq!(plan.result.unwrap(), "cancelled");

    let plan = plan_turn("cmd", TurnOutcome::ProviderFailed);
    assert_eq!(plan.assistant, AssistantAction::FailUnstarted);
    assert_eq!(shape(&plan.publish), vec![(1, "provider_failure".to_string())]);
    assert!(matches!(plan.result.unwrap_err().code, ChatBridgeErrorCode::ProviderUnavailable));

    let plan = plan_turn("cmd", TurnOutcome::Streamed { outcome: StreamOutcome::Failed, events: vec![] });
    assert_eq!(plan.assistant, AssistantAction::FailIfOpen);
    assert_eq!(plan.usage_outcome, UsageOutcome::Failed);
    assert_eq!(plan.attempt_id, "missing-attempt");
    assert_eq!(shape(&plan.publish), vec![(1, "invalid_stream".to_string())]);
    assert!(matches!(plan.result.unwrap_err().code, ChatBridgeErrorCode::InvalidStream));

    let plan = plan_turn("cmd", TurnOutcome::Streamed {
        outcome: StreamOutcome::Cancelled,
        events: vec![delta("a-7", "x", false)],
    });
    assert_eq!(plan.attempt_id, "a-7");
    assert_eq!(shape(&plan.publish), vec![(1, "cancel".to_string())]);
    assert_eq!(plan.result.unwrap(), "cancelled");
}

#[test]
fn the_fixture_serves_only_in_debug_builds_or_when_switched_on() {
    assert!(fixture_enabled(true, None));
    assert!(fixture_enabled(false, Some("1")));
    assert!(!fixture_enabled(false, Some("true")));
    assert!(!fixture_enabled(false, None));
}

#[test]
fn a_configured_endpoint_selects_its_provider_or_fails_closed() {
    let configured = select_provider(false, true, Some(true), None);
    assert_eq!(configured.provider_id, "openai");
    assert_eq!(configured.model_id, "gpt-4o-mini");
    assert_eq!(configured.account_id, "account_openai");
    assert!(configured.enabled);
    assert!(!configured.fixture_registered);
    assert_eq!(select_provider(false, true, Some(true), Some("acct_9")).account_id, "acct_9");

    let broken = select_provider(true, true, Some(false), None);
    assert!(!broken.enabled);
    assert!(broken.fixture_registered);
    assert_eq!(broken.provider_id, "mock");

    let fixture = select_provider(true, false, Some(true), None);
    assert!(fixture.enabled);
    assert_eq!(fixture.model_id, "mock-model");
    assert_eq!(fixture.account_id, "account_mock");
    assert!(!select_provider(false, true, None, None).enabled);
}

#[test]
fn fixture_provider_is_explicitly_opt_in_for_release_builds() {
    assert_eq!(agent_core::chat_bridge::MOCK_PROVIDER_ENV, "HANK_E2E_MOCK_PROVIDER");
    // Release build, switch unset, no configured provider: chat fails closed.
    let selection = select_provider(fixture_enabled(false, None), false, None, None);
    assert!(!selection.enabled);
    let e = admit_command(selection.enabled, true, true, "desktop-webview", "desktop", "c1").unwrap_err();
    assert!(matches!(e.code, ChatBridgeErrorCode::ProviderUnavailable));
    // A configured endpoint that cannot be used does not fall back to the fixture.
    let broken = select_provider(fixture_enabled(false, Some("1")), true, Some(false), None);
    assert!(!broken.enabled);
    assert!(matches!(
        admit_command(broken.enabled, true, true, "desktop-webview", "desktop", "c1").unwrap_err().code,
        ChatBridgeErrorCode::ProviderUnavailable
    ));
}

#[test]
fn credential_lookup_resolves_and_fails_closed() {
    assert!(credential_lookup(true, true, true, "cmd-1").is_ok());
    let e = credential_lookup(true, true, false, "cmd-1").unwrap_err();
    assert_eq!(e.code, ChatBridgeErrorCode::ProviderUnavailable);
    assert_eq!(e.correlation_id, "cmd-1");
    assert_eq!(
        credential_lookup(true, false, false, "cmd-1").unwrap_err().code,
        ChatBridgeErrorCode::Unauthorized
    );
    assert_eq!(
        credential_lookup(false, true, true, "cmd-1").unwrap_err().code,
        ChatBridgeErrorCode::Internal
    );
}

#[test]
fn chat_does_not_autoconnect_fixture_credentials() {
    // The turn only resolves a stored credential: one that does not resolve
    // is not connected on the spot, the turn fails closed instead.
    let e = credential_lookup(true, true, false, "cmd-2").unwrap_err();
    assert_eq!(e.code, ChatBridgeErrorCode::ProviderUnavailable);
    assert!(credential_lookup(true, true, true, "cmd-2").is_ok());
}
