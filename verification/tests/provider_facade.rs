use agent_core::http_transport::ProviderTransportError;
use agent_core::provider_facade::{
    check_buffered, check_envelope, check_timeout, map_descriptor_error, map_finish_reason,
    map_response, map_stream_event, unscoped_health, AdapterError, FinishReason, HealthStatus,
    ModelProviderError, NormalizedFinishReason, NormalizedResponse, OutputPart,
    ProviderDescriptorError, StreamEventPayload,
};

fn response(complete: bool, finish: NormalizedFinishReason) -> NormalizedResponse {
    NormalizedResponse {
        complete,
        model_id: "gpt-4o-mini".into(),
        finish_reason: finish,
        parts: vec![
            OutputPart { is_text: true, content: "Hel".into() },
            OutputPart { is_text: false, content: "{\"tool\":1}".into() },
            OutputPart { is_text: true, content: "lo".into() },
        ],
        usage: None,
    }
}

#[test]
fn complete_responses_keep_their_text_parts_in_order() {
    let mapped = map_response(&response(true, NormalizedFinishReason::Stop)).unwrap();
    assert_eq!(mapped.text, "Hello");
    assert_eq!(mapped.model_id, "gpt-4o-mini");
    assert_eq!(mapped.finish_reason, FinishReason::Stop);
    assert_eq!((mapped.input_tokens, mapped.output_tokens), (0, 0));
    let mut with_usage = response(true, NormalizedFinishReason::Length);
    with_usage.usage = Some((12, 7));
    let mapped = map_response(&with_usage).unwrap();
    assert_eq!((mapped.input_tokens, mapped.output_tokens), (12, 7));
    assert_eq!(mapped.finish_reason, FinishReason::Length);
}

#[test]
fn incomplete_or_unknown_finishes_make_the_provider_unavailable() {
    assert_eq!(map_response(&response(false, NormalizedFinishReason::Stop)).unwrap_err(), ModelProviderError::Unavailable);
    assert_eq!(map_response(&response(true, NormalizedFinishReason::ToolCall)).unwrap_err(), ModelProviderError::Unavailable);
    assert_eq!(map_finish_reason(NormalizedFinishReason::Cancelled), Ok(FinishReason::Cancelled));
    assert_eq!(map_finish_reason(NormalizedFinishReason::ContentFilter), Err(ModelProviderError::Unavailable));
}

#[test]
fn stream_events_pass_text_and_terminal_markers() {
    let delta = map_stream_event(3, &StreamEventPayload::Delta { is_text: true, content: "hi".into() });
    assert_eq!((delta.sequence, delta.text.as_str(), delta.terminal), (3, "hi", false));
    let other = map_stream_event(4, &StreamEventPayload::Delta { is_text: false, content: "x".into() });
    assert_eq!((other.text.as_str(), other.terminal), ("", false));
    let finish = map_stream_event(5, &StreamEventPayload::Finish);
    assert!(finish.terminal);
    assert!(map_stream_event(6, &StreamEventPayload::Cancel).terminal);
    assert!(!map_stream_event(7, &StreamEventPayload::Usage).terminal);
}

#[test]
fn adapter_failures_map_to_the_stable_taxonomy() {
    assert_eq!(map_descriptor_error(ProviderDescriptorError::UnsupportedModel), ModelProviderError::InvalidRequest);
    assert_eq!(map_descriptor_error(ProviderDescriptorError::Adapter(AdapterError::Credential)), ModelProviderError::InvalidRequest);
    assert_eq!(
        map_descriptor_error(ProviderDescriptorError::Adapter(AdapterError::Transport(ProviderTransportError::Cancelled))),
        ModelProviderError::Cancelled
    );
    assert_eq!(
        map_descriptor_error(ProviderDescriptorError::Adapter(AdapterError::Transport(ProviderTransportError::Timeout))),
        ModelProviderError::Unavailable
    );
    assert_eq!(
        map_descriptor_error(ProviderDescriptorError::Adapter(AdapterError::Transport(ProviderTransportError::RequestTooLarge))),
        ModelProviderError::InvalidRequest
    );
    assert_eq!(map_descriptor_error(ProviderDescriptorError::Adapter(AdapterError::Response)), ModelProviderError::Unavailable);
    assert_eq!(map_descriptor_error(ProviderDescriptorError::Adapter(AdapterError::IncompleteStream)), ModelProviderError::Internal);
}

#[test]
fn calls_need_a_matching_valid_envelope_a_timeout_and_buffer_room() {
    assert_eq!(check_envelope(true, "openai", "openai", "gpt-4o", "gpt-4o", true), Ok(()));
    assert_eq!(check_envelope(false, "openai", "openai", "gpt-4o", "gpt-4o", true), Err(ModelProviderError::InvalidRequest));
    assert_eq!(check_envelope(true, "mock", "openai", "gpt-4o", "gpt-4o", true), Err(ModelProviderError::InvalidRequest));
    assert_eq!(check_envelope(true, "openai", "openai", "gpt-4o", "gpt-4o-mini", true), Err(ModelProviderError::InvalidRequest));
    assert_eq!(check_envelope(true, "openai", "openai", "gpt-4o", "gpt-4o", false), Err(ModelProviderError::InvalidRequest));
    assert_eq!(check_timeout(0), Err(ModelProviderError::InvalidRequest));
    assert_eq!(check_timeout(45_000), Ok(()));
    assert_eq!(check_buffered(4, 4), Ok(()));
    assert_eq!(check_buffered(5, 4), Err(ModelProviderError::Backpressure));
    assert_eq!(unscoped_health(), HealthStatus::Unavailable);
}
