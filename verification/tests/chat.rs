use agent_core::chat_bridge::{
    chat_output, ChatBridgeError, ChatBridgeErrorCode, MOCK_MODEL_ID, MOCK_PROVIDER_ENV,
    MOCK_PROVIDER_ID,
};

#[test]
fn normalized_fixture_result_has_explicit_provider_capability_metadata() {
    let output = chat_output("command-1", "stream-command-1".into(), "completed");
    assert_eq!(output.provider_id, MOCK_PROVIDER_ID);
    assert_eq!(output.model_id, MOCK_MODEL_ID);
    assert_eq!(output.provider_state, "selected");
    assert_eq!(output.capability, "confirmed");
    assert_eq!(output.attempt_number, 1);
    assert_eq!(output.command_id, "command-1");
    assert_eq!(output.stream_id, "stream-command-1");
    assert_eq!(output.state, "completed");
}

#[test]
fn chat_errors_carry_a_bounded_correlation_only() {
    assert_eq!(MOCK_PROVIDER_ENV, "HANK_E2E_MOCK_PROVIDER");
    let blank = ChatBridgeError::new(ChatBridgeErrorCode::ProviderUnavailable, "  ");
    assert_eq!(blank.correlation_id, "chat");
    assert_eq!(blank.message(), "chat command failed: ProviderUnavailable");
    let long = "é".repeat(200);
    let bounded = ChatBridgeError::new(ChatBridgeErrorCode::Storage, &long);
    assert_eq!(bounded.correlation_id.chars().count(), 128);
    assert_eq!(ChatBridgeError::new(ChatBridgeErrorCode::Event, " c-1 ").correlation_id, " c-1 ");
}
