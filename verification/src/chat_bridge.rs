//! The chat bridge's boundary shapes: stable error codes with a bounded
//! correlation, and the normalized result of a chat command.
use crate::text::{blank, is_blank};
use vstd::prelude::*;
use vstd::string::StrSliceExecFns;
use vstd::string::StringExecFns;

verus! {

pub const MOCK_PROVIDER_ENV: &'static str = "HANK_E2E_MOCK_PROVIDER";

pub const MOCK_PROVIDER_ID: &'static str = "mock";

pub const MOCK_MODEL_ID: &'static str = "mock-model";

/// Longest correlation an error carries, in characters.
pub const MAX_CORRELATION_CHARS: usize = 128;

#[derive(Debug, Clone, Copy, PartialEq, Eq, Structural)]
pub enum ChatBridgeErrorCode {
    Disabled,
    InvalidCommand,
    DuplicateCommand,
    StaleCommand,
    Unauthorized,
    NotFound,
    Storage,
    ProviderUnavailable,
    Cancelled,
    InvalidStream,
    Event,
    Internal,
}

pub open spec fn chat_code_name(c: ChatBridgeErrorCode) -> Seq<char> {
    match c {
        ChatBridgeErrorCode::Disabled => "Disabled"@,
        ChatBridgeErrorCode::InvalidCommand => "InvalidCommand"@,
        ChatBridgeErrorCode::DuplicateCommand => "DuplicateCommand"@,
        ChatBridgeErrorCode::StaleCommand => "StaleCommand"@,
        ChatBridgeErrorCode::Unauthorized => "Unauthorized"@,
        ChatBridgeErrorCode::NotFound => "NotFound"@,
        ChatBridgeErrorCode::Storage => "Storage"@,
        ChatBridgeErrorCode::ProviderUnavailable => "ProviderUnavailable"@,
        ChatBridgeErrorCode::Cancelled => "Cancelled"@,
        ChatBridgeErrorCode::InvalidStream => "InvalidStream"@,
        ChatBridgeErrorCode::Event => "Event"@,
        ChatBridgeErrorCode::Internal => "Internal"@,
    }
}

fn chat_code_text(c: ChatBridgeErrorCode) -> (r: &'static str)
    ensures
        r@ == chat_code_name(c),
{
    match c {
        ChatBridgeErrorCode::Disabled => "Disabled",
        ChatBridgeErrorCode::InvalidCommand => "InvalidCommand",
        ChatBridgeErrorCode::DuplicateCommand => "DuplicateCommand",
        ChatBridgeErrorCode::StaleCommand => "StaleCommand",
        ChatBridgeErrorCode::Unauthorized => "Unauthorized",
        ChatBridgeErrorCode::NotFound => "NotFound",
        ChatBridgeErrorCode::Storage => "Storage",
        ChatBridgeErrorCode::ProviderUnavailable => "ProviderUnavailable",
        ChatBridgeErrorCode::Cancelled => "Cancelled",
        ChatBridgeErrorCode::InvalidStream => "InvalidStream",
        ChatBridgeErrorCode::Event => "Event",
        ChatBridgeErrorCode::Internal => "Internal",
    }
}

/// A chat error as the desktop shell receives it: a code and the caller's
/// correlation, never a provider or storage detail.
#[derive(Debug, Clone)]
pub struct ChatBridgeError {
    pub code: ChatBridgeErrorCode,
    pub correlation_id: String,
}

/// The correlation an error carries: `chat` for a blank one, else its
/// first characters up to the bound.
pub open spec fn bounded_correlation(c: Seq<char>) -> Seq<char> {
    if is_blank(c) {
        "chat"@
    } else if c.len() > MAX_CORRELATION_CHARS {
        c.take(MAX_CORRELATION_CHARS as int)
    } else {
        c
    }
}

impl ChatBridgeError {
    pub fn new(code: ChatBridgeErrorCode, correlation_id: &str) -> (r: Self)
        ensures
            r.code == code,
            r.correlation_id@ == bounded_correlation(correlation_id@),
    {
        let correlation = if blank(correlation_id) {
            "chat".to_string()
        } else if correlation_id.unicode_len() > MAX_CORRELATION_CHARS {
            correlation_id.substring_char(0, MAX_CORRELATION_CHARS).to_string()
        } else {
            correlation_id.to_string()
        };
        ChatBridgeError { code, correlation_id: correlation }
    }

    /// The human-readable description of the error.
    pub fn message(&self) -> (r: String)
        ensures
            r@ == "chat command failed: "@ + chat_code_name(self.code),
    {
        let mut s = "chat command failed: ".to_string();
        s.append(chat_code_text(self.code));
        s
    }
}

/// The normalized result of a chat command.
#[derive(Debug, Clone)]
pub struct SendChatCommandOutput {
    pub command_id: String,
    pub stream_id: String,
    pub state: &'static str,
    pub provider_id: String,
    pub model_id: String,
    pub provider_state: &'static str,
    pub capability: &'static str,
    pub attempt_number: u32,
}

#[derive(Debug, Clone, Copy, PartialEq, Eq, Structural)]
pub struct CancelChatCommandOutput {
    pub accepted: bool,
}

/// The result of a command run on the selected provider and model, on its
/// first attempt with a confirmed capability.
pub fn chat_output_for(
    command_id: &str,
    stream_id: String,
    state: &'static str,
    provider_id: &str,
    model_id: &str,
) -> (r: SendChatCommandOutput)
    ensures
        r.command_id@ == command_id@,
        r.stream_id == stream_id,
        r.state == state,
        r.provider_id@ == provider_id@,
        r.model_id@ == model_id@,
        r.provider_state@ == "selected"@,
        r.capability@ == "confirmed"@,
        r.attempt_number == 1,
{
    SendChatCommandOutput {
        command_id: command_id.to_string(),
        stream_id,
        state,
        provider_id: provider_id.to_string(),
        model_id: model_id.to_string(),
        provider_state: "selected",
        capability: "confirmed",
        attempt_number: 1,
    }
}

/// The result of a command run on the fixture provider and model.
pub fn chat_output(command_id: &str, stream_id: String, state: &'static str) -> (r: SendChatCommandOutput)
    ensures
        r.command_id@ == command_id@,
        r.stream_id == stream_id,
        r.state == state,
        r.provider_id@ == MOCK_PROVIDER_ID@,
        r.model_id@ == MOCK_MODEL_ID@,
        r.provider_state@ == "selected"@,
        r.capability@ == "confirmed"@,
        r.attempt_number == 1,
{
    chat_output_for(command_id, stream_id, state, MOCK_PROVIDER_ID, MOCK_MODEL_ID)
}

} // verus!
