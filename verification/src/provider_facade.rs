//! The desktop's façade over the OpenAI-compatible adapter: what it sends
//! and what it makes of the adapter's answers. Every adapter or transport
//! failure becomes one of the provider taxonomy's stable errors, a response
//! counts only when complete with a known finish, and a stream is passed on
//! as text deltas and terminal markers.
use crate::http_transport::ProviderTransportError;
use crate::text::same_text;
use vstd::prelude::*;
use vstd::string::StringExecFns;

verus! {

/// How long a provider call may take, in seconds.
pub const PROVIDER_TIMEOUT_SECS: u64 = 45;

/// The provider taxonomy's errors.
#[derive(Debug, Clone, Copy, PartialEq, Eq, Structural)]
pub enum ModelProviderError {
    InvalidRequest,
    Unavailable,
    Cancelled,
    Backpressure,
    Internal,
}

/// How the adapter failed.
#[derive(Debug, Clone, Copy, PartialEq, Eq, Structural)]
pub enum AdapterError {
    Credential,
    Transport(ProviderTransportError),
    Response,
    MalformedResponse,
    Stream,
    IncompleteStream,
    Endpoint,
    InvalidRequest,
}

/// How the provider descriptor refused a call.
#[derive(Debug, Clone, Copy, PartialEq, Eq, Structural)]
pub enum ProviderDescriptorError {
    ProviderMismatch,
    UnsupportedModel,
    UnsupportedCapability,
    InvalidRequest,
    Adapter(AdapterError),
}

pub open spec fn descriptor_error_code(e: ProviderDescriptorError) -> ModelProviderError {
    match e {
        ProviderDescriptorError::ProviderMismatch
        | ProviderDescriptorError::UnsupportedModel
        | ProviderDescriptorError::UnsupportedCapability
        | ProviderDescriptorError::InvalidRequest => ModelProviderError::InvalidRequest,
        ProviderDescriptorError::Adapter(a) => match a {
            AdapterError::Credential => ModelProviderError::InvalidRequest,
            AdapterError::Transport(t) => match t {
                ProviderTransportError::Cancelled => ModelProviderError::Cancelled,
                ProviderTransportError::RequestTooLarge => ModelProviderError::InvalidRequest,
                _ => ModelProviderError::Unavailable,
            },
            AdapterError::Response => ModelProviderError::Unavailable,
            _ => ModelProviderError::Internal,
        },
    }
}

/// The provider error of a descriptor or adapter failure: a bad request is
/// invalid, a cancelled transport is cancelled, an unreachable or refusing
/// provider is unavailable, and a malformed answer is internal.
pub fn map_descriptor_error(error: ProviderDescriptorError) -> (r: ModelProviderError)
    ensures
        r == descriptor_error_code(error),
{
    match error {
        ProviderDescriptorError::ProviderMismatch
        | ProviderDescriptorError::UnsupportedModel
        | ProviderDescriptorError::UnsupportedCapability
        | ProviderDescriptorError::InvalidRequest
        | ProviderDescriptorError::Adapter(AdapterError::Credential) => ModelProviderError::InvalidRequest,
        ProviderDescriptorError::Adapter(AdapterError::Transport(transport)) => match transport {
            ProviderTransportError::Cancelled => ModelProviderError::Cancelled,
            ProviderTransportError::RequestTooLarge => ModelProviderError::InvalidRequest,
            ProviderTransportError::Timeout
            | ProviderTransportError::Unavailable
            | ProviderTransportError::ResponseTooLarge => ModelProviderError::Unavailable,
        },
        ProviderDescriptorError::Adapter(AdapterError::Response) => ModelProviderError::Unavailable,
        ProviderDescriptorError::Adapter(AdapterError::MalformedResponse)
        | ProviderDescriptorError::Adapter(AdapterError::Stream)
        | ProviderDescriptorError::Adapter(AdapterError::IncompleteStream)
        | ProviderDescriptorError::Adapter(AdapterError::Endpoint)
        | ProviderDescriptorError::Adapter(AdapterError::InvalidRequest) => ModelProviderError::Internal,
    }
}

/// Why the adapter says a response ended.
#[derive(Debug, Clone, Copy, PartialEq, Eq, Structural)]
pub enum NormalizedFinishReason {
    Stop,
    Length,
    Cancelled,
    ContentFilter,
    ToolCall,
    Error,
    Unknown,
}

/// The finishes the provider taxonomy reports.
#[derive(Debug, Clone, Copy, PartialEq, Eq, Structural)]
pub enum FinishReason {
    Stop,
    Length,
    Cancelled,
}

/// A finish the taxonomy knows passes through; any other makes the
/// provider unavailable.
pub fn map_finish_reason(reason: NormalizedFinishReason) -> (r: Result<FinishReason, ModelProviderError>)
    ensures
        r == (match reason {
            NormalizedFinishReason::Stop => Ok(FinishReason::Stop),
            NormalizedFinishReason::Length => Ok(FinishReason::Length),
            NormalizedFinishReason::Cancelled => Ok(FinishReason::Cancelled),
            _ => Err::<FinishReason, ModelProviderError>(ModelProviderError::Unavailable),
        }),
{
    match reason {
        NormalizedFinishReason::Stop => Ok(FinishReason::Stop),
        NormalizedFinishReason::Length => Ok(FinishReason::Length),
        NormalizedFinishReason::Cancelled => Ok(FinishReason::Cancelled),
        NormalizedFinishReason::ContentFilter
        | NormalizedFinishReason::ToolCall
        | NormalizedFinishReason::Error
        | NormalizedFinishReason::Unknown => Err(ModelProviderError::Unavailable),
    }
}

/// One part of an adapter response: text or another kind, and its content.
#[derive(Debug, Clone)]
pub struct OutputPart {
    pub is_text: bool,
    pub content: String,
}

/// An adapter response, as far as the façade reads it.
#[derive(Debug, Clone)]
pub struct NormalizedResponse {
    pub complete: bool,
    pub model_id: String,
    pub finish_reason: NormalizedFinishReason,
    pub parts: Vec<OutputPart>,
    pub usage: Option<(u64, u64)>,
}

/// A response as the provider taxonomy reports it.
#[derive(Debug, Clone)]
pub struct ProviderResponse {
    pub model_id: String,
    pub text: String,
    pub finish_reason: FinishReason,
    pub input_tokens: u64,
    pub output_tokens: u64,
}

/// The text of a response: its text parts' contents, in order.
pub open spec fn response_text(parts: Seq<OutputPart>) -> Seq<char>
    decreases parts.len(),
{
    if parts.len() == 0 {
        Seq::empty()
    } else {
        response_text(parts.drop_last()) + if parts.last().is_text {
            parts.last().content@
        } else {
            Seq::empty()
        }
    }
}

fn collect_text(parts: &Vec<OutputPart>) -> (r: String)
    ensures
        r@ == response_text(parts@),
{
    let mut out = String::new();
    let mut i: usize = 0;
    while i < parts.len()
        invariant
            i <= parts@.len(),
            out@ == response_text(parts@.take(i as int)),
        decreases parts@.len() - i,
    {
        proof {
            assert(parts@.take(i + 1).drop_last() =~= parts@.take(i as int));
            assert(parts@.take(i + 1).last() == parts@[i as int]);
        }
        if parts[i].is_text {
            out.append(parts[i].content.as_str());
        } else {
            assert(out@ + Seq::<char>::empty() =~= out@);
        }
        i = i + 1;
    }
    proof {
        assert(parts@.take(parts@.len() as int) =~= parts@);
    }
    out
}

/// A response counts only when complete and ended for a known reason; its
/// text is that of its text parts, and missing usage counts as none.
pub fn map_response(response: &NormalizedResponse) -> (r: Result<ProviderResponse, ModelProviderError>)
    ensures
        !response.complete ==> (r matches Err(e) && e == ModelProviderError::Unavailable),
        response.complete ==> (match map_finish_reason_spec(response.finish_reason) {
            Err(e) => r matches Err(f) && f == e,
            Ok(f) => {
                &&& r matches Ok(p)
                &&& p.finish_reason == f
                &&& p.model_id@ == response.model_id@
                &&& p.text@ == response_text(response.parts@)
                &&& (p.input_tokens, p.output_tokens) == (match response.usage {
                    Some(u) => u,
                    None => (0u64, 0u64),
                })
            },
        }),
{
    if !response.complete {
        return Err(ModelProviderError::Unavailable);
    }
    let finish_reason = map_finish_reason(response.finish_reason)?;
    let text = collect_text(&response.parts);
    let (input_tokens, output_tokens) = match response.usage {
        Some(u) => u,
        None => (0, 0),
    };
    Ok(
        ProviderResponse {
            model_id: response.model_id.clone(),
            text,
            finish_reason,
            input_tokens,
            output_tokens,
        },
    )
}

pub open spec fn map_finish_reason_spec(reason: NormalizedFinishReason) -> Result<FinishReason, ModelProviderError> {
    match reason {
        NormalizedFinishReason::Stop => Ok(FinishReason::Stop),
        NormalizedFinishReason::Length => Ok(FinishReason::Length),
        NormalizedFinishReason::Cancelled => Ok(FinishReason::Cancelled),
        _ => Err(ModelProviderError::Unavailable),
    }
}

/// What an adapter stream event carries.
#[derive(Debug, Clone)]
pub enum StreamEventPayload {
    Start,
    Delta { is_text: bool, content: String },
    ToolRequest,
    Usage,
    Finish,
    Error,
    Cancel,
    Unknown,
}

/// A stream event as the provider taxonomy passes it on.
#[derive(Debug, Clone)]
pub struct ProviderStreamEvent {
    pub sequence: u64,
    pub text: String,
    pub terminal: bool,
}

/// An adapter stream event passed on: a text delta keeps its text, a
/// finish, error or cancel ends the stream, and anything else is an empty,
/// non-terminal event.
pub fn map_stream_event(sequence: u64, payload: &StreamEventPayload) -> (r: ProviderStreamEvent)
    ensures
        r.sequence == sequence,
        r.text@ == (match payload {
            StreamEventPayload::Delta { is_text, content } => if *is_text {
                content@
            } else {
                Seq::empty()
            },
            _ => Seq::empty(),
        }),
        r.terminal == (payload is Finish || payload is Error || payload is Cancel),
{
    match payload {
        StreamEventPayload::Delta { is_text, content } => {
            if *is_text {
                ProviderStreamEvent { sequence, text: content.clone(), terminal: false }
            } else {
                ProviderStreamEvent { sequence, text: String::new(), terminal: false }
            }
        },
        StreamEventPayload::Finish | StreamEventPayload::Error | StreamEventPayload::Cancel => {
            ProviderStreamEvent { sequence, text: String::new(), terminal: true }
        },
        StreamEventPayload::Start
        | StreamEventPayload::ToolRequest
        | StreamEventPayload::Usage
        | StreamEventPayload::Unknown => ProviderStreamEvent { sequence, text: String::new(), terminal: false },
    }
}

/// A stream with more events than may be buffered is refused.
pub fn check_buffered(events: usize, max_buffered_events: usize) -> (r: Result<(), ModelProviderError>)
    ensures
        r is Ok <==> events <= max_buffered_events,
        r is Err ==> r == Err::<(), ModelProviderError>(ModelProviderError::Backpressure),
{
    if events > max_buffered_events {
        Err(ModelProviderError::Backpressure)
    } else {
        Ok(())
    }
}

/// A provider call needs a normalized envelope for this provider and the
/// requested model, which must itself be valid.
pub fn check_envelope(
    has_envelope: bool,
    envelope_provider: &str,
    provider_id: &str,
    envelope_model: &str,
    model_id: &str,
    envelope_valid: bool,
) -> (r: Result<(), ModelProviderError>)
    ensures
        r is Ok <==> (has_envelope && envelope_provider@ == provider_id@ && envelope_model@
            == model_id@ && envelope_valid),
        r is Err ==> r == Err::<(), ModelProviderError>(ModelProviderError::InvalidRequest),
{
    if !has_envelope || !same_text(envelope_provider, provider_id) || !same_text(envelope_model, model_id)
        || !envelope_valid {
        return Err(ModelProviderError::InvalidRequest);
    }
    Ok(())
}

/// A provider needs a timeout.
pub fn check_timeout(timeout_ms: u64) -> (r: Result<(), ModelProviderError>)
    ensures
        r is Ok <==> timeout_ms > 0,
        r is Err ==> r == Err::<(), ModelProviderError>(ModelProviderError::InvalidRequest),
{
    if timeout_ms == 0 {
        Err(ModelProviderError::InvalidRequest)
    } else {
        Ok(())
    }
}

/// The health a provider without a project or account reports: it claims
/// no live connection.
#[derive(Debug, Clone, Copy, PartialEq, Eq, Structural)]
pub enum HealthStatus {
    Healthy,
    Unavailable,
}

pub fn unscoped_health() -> (r: HealthStatus)
    ensures
        r == HealthStatus::Unavailable,
{
    HealthStatus::Unavailable
}

} // verus!
