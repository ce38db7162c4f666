//! The decisions of a single-agent chat turn. The shell reads storage, runs
//! the provider and emits stream events; these functions decide, from what
//! came back, which error a caller sees, which sequence numbers the turn's
//! messages take, and what a finished turn records and publishes.
use crate::chat_bridge::{bounded_correlation, ChatBridgeError, ChatBridgeErrorCode, CancelChatCommandOutput};
use crate::error::{code_of, DomainError, DomainErrorCode};
use crate::session_bridge::SessionStorageError;
use crate::text::same_text;
use vstd::prelude::*;
use vstd::string::StrSliceExecFns;
use vstd::string::StringExecFns;

verus! {

pub const DESKTOP_CALLER_ID: &'static str = "desktop-webview";

pub const DESKTOP_CALLER_CLASS: &'static str = "desktop";

/// Events a turn's stream buffers before it is flushed.
pub const MAX_STREAM_QUEUE: usize = 64;

/// Output tokens a turn may ask the provider for.
pub const MAX_OUTPUT_TOKENS: u32 = 8_192;

/// Largest page of a message listing, and its default.
pub const MAX_MESSAGE_PAGE: usize = 100;

/// Largest offset a message listing starts from.
pub const MAX_MESSAGE_OFFSET: usize = 10_000;

/// Why an assistant message fails when the provider refused the turn.
pub const PROVIDER_FAILURE_REASON: &'static str = "provider_error";

/// Why an open assistant message fails when its stream broke.
pub const STREAM_FAILURE_REASON: &'static str = "stream_error";

/// The attempt recorded when a finished stream named none.
pub const MISSING_ATTEMPT: &'static str = "missing-attempt";

/// Whether a caller is the desktop web view.
pub fn is_desktop_caller(caller_id: &str, caller_class: &str) -> (r: bool)
    ensures
        r == (caller_id@ == DESKTOP_CALLER_ID@ && caller_class@ == DESKTOP_CALLER_CLASS@),
{
    same_text(caller_id, DESKTOP_CALLER_ID) && same_text(caller_class, DESKTOP_CALLER_CLASS)
}

/// The admission of a chat command before any lookup: a bridge with no
/// provider to run on (a release build without a configured provider, or a
/// configured one that cannot be used) fails closed with the typed
/// capability error that the provider is unavailable; a malformed command
/// is invalid, and one of another schema or from
/// another caller is unauthorized.
pub fn admit_command(
    enabled: bool,
    well_formed: bool,
    schema_matches: bool,
    caller_id: &str,
    caller_class: &str,
    command_id: &str,
) -> (r: Result<(), ChatBridgeError>)
    ensures
        r.is_ok() <==> (enabled && well_formed && schema_matches && caller_id@
            == DESKTOP_CALLER_ID@ && caller_class@ == DESKTOP_CALLER_CLASS@),
        r matches Err(e) ==> e.correlation_id@ == bounded_correlation(command_id@),
        r matches Err(e) ==> e.code == (if !enabled {
            ChatBridgeErrorCode::ProviderUnavailable
        } else if !well_formed {
            ChatBridgeErrorCode::InvalidCommand
        } else {
            ChatBridgeErrorCode::Unauthorized
        }),
{
    if !enabled {
        return Err(ChatBridgeError::new(ChatBridgeErrorCode::ProviderUnavailable, command_id));
    }
    if !well_formed {
        return Err(ChatBridgeError::new(ChatBridgeErrorCode::InvalidCommand, command_id));
    }
    if !schema_matches || !is_desktop_caller(caller_id, caller_class) {
        return Err(ChatBridgeError::new(ChatBridgeErrorCode::Unauthorized, command_id));
    }
    Ok(())
}

/// What the session lookup of a command found: an unknown session is not
/// found, and one of another agent or no longer active refuses the caller.
pub fn check_session(
    found: bool,
    agent_matches: bool,
    active: bool,
    correlation_id: &str,
) -> (r: Result<(), ChatBridgeError>)
    ensures
        r.is_ok() <==> (found && agent_matches && active),
        r matches Err(e) ==> e.correlation_id@ == bounded_correlation(correlation_id@),
        r matches Err(e) ==> e.code == (if !found {
            ChatBridgeErrorCode::NotFound
        } else {
            ChatBridgeErrorCode::Unauthorized
        }),
{
    if !found {
        return Err(ChatBridgeError::new(ChatBridgeErrorCode::NotFound, correlation_id));
    }
    if !agent_matches || !active {
        return Err(ChatBridgeError::new(ChatBridgeErrorCode::Unauthorized, correlation_id));
    }
    Ok(())
}

/// What the project and agent lookups found, each as whether it is active:
/// a missing one is not found, an inactive one refuses the caller.
pub fn check_participants(
    project_active: Option<bool>,
    agent_active: Option<bool>,
    command_id: &str,
) -> (r: Result<(), ChatBridgeError>)
    ensures
        r.is_ok() <==> (project_active == Some(true) && agent_active == Some(true)),
        r matches Err(e) ==> e.correlation_id@ == bounded_correlation(command_id@),
        r matches Err(e) ==> e.code == (if project_active is None || agent_active is None {
            ChatBridgeErrorCode::NotFound
        } else {
            ChatBridgeErrorCode::Unauthorized
        }),
{
    match (project_active, agent_active) {
        (Some(p), Some(a)) => {
            if p && a {
                Ok(())
            } else {
                Err(ChatBridgeError::new(ChatBridgeErrorCode::Unauthorized, command_id))
            }
        },
        _ => Err(ChatBridgeError::new(ChatBridgeErrorCode::NotFound, command_id)),
    }
}

/// How the command registry answered a command.
#[derive(Debug, Clone, Copy, PartialEq, Eq, Structural)]
pub enum ChatCommandStatus {
    Accepted,
    Duplicate,
    Stale,
}

/// Why the command registry refused a command.
#[derive(Debug, Clone, Copy, PartialEq, Eq, Structural)]
pub enum ChatCommandError {
    Invalid,
    Capacity,
    Lock,
}

/// The bridge code of a registry refusal.
pub fn map_command_error(error: ChatCommandError) -> (r: ChatBridgeErrorCode)
    ensures
        r == (if error == ChatCommandError::Invalid {
            ChatBridgeErrorCode::InvalidCommand
        } else {
            ChatBridgeErrorCode::Internal
        }),
{
    match error {
        ChatCommandError::Invalid => ChatBridgeErrorCode::InvalidCommand,
        ChatCommandError::Capacity => ChatBridgeErrorCode::Internal,
        ChatCommandError::Lock => ChatBridgeErrorCode::Internal,
    }
}

/// The registration of a command: only an accepted one runs; a repeated
/// one is a duplicate and an outdated one is stale.
pub fn registration(
    answer: Result<ChatCommandStatus, ChatCommandError>,
    command_id: &str,
) -> (r: Result<(), ChatBridgeError>)
    ensures
        r.is_ok() <==> answer == Ok::<ChatCommandStatus, ChatCommandError>(ChatCommandStatus::Accepted),
        r matches Err(e) ==> e.correlation_id@ == bounded_correlation(command_id@),
        r matches Err(e) ==> e.code == (match answer {
            Ok(ChatCommandStatus::Duplicate) => ChatBridgeErrorCode::DuplicateCommand,
            Ok(_) => ChatBridgeErrorCode::StaleCommand,
            Err(ChatCommandError::Invalid) => ChatBridgeErrorCode::InvalidCommand,
            Err(_) => ChatBridgeErrorCode::Internal,
        }),
{
    match answer {
        Err(error) => Err(ChatBridgeError::new(map_command_error(error), command_id)),
        Ok(ChatCommandStatus::Accepted) => Ok(()),
        Ok(ChatCommandStatus::Duplicate) => Err(
            ChatBridgeError::new(ChatBridgeErrorCode::DuplicateCommand, command_id),
        ),
        Ok(ChatCommandStatus::Stale) => Err(
            ChatBridgeError::new(ChatBridgeErrorCode::StaleCommand, command_id),
        ),
    }
}

/// How the message store failed.
#[derive(Debug, Clone, Copy, PartialEq, Eq, Structural)]
pub enum MessageStorageError {
    ScopeMismatch,
    Invalid,
    DuplicateSequence,
    OutOfOrder,
    StaleGeneration,
    NotFound,
    Conflict,
    Serialization,
    Database,
}

pub open spec fn message_storage_code(e: MessageStorageError) -> ChatBridgeErrorCode {
    match e {
        MessageStorageError::ScopeMismatch => ChatBridgeErrorCode::Unauthorized,
        MessageStorageError::Invalid
        | MessageStorageError::DuplicateSequence
        | MessageStorageError::OutOfOrder
        | MessageStorageError::StaleGeneration => ChatBridgeErrorCode::InvalidCommand,
        _ => ChatBridgeErrorCode::Storage,
    }
}

/// The bridge error of a message store failure.
pub fn map_message_storage(error: MessageStorageError, correlation_id: &str) -> (r: ChatBridgeError)
    ensures
        r.code == message_storage_code(error),
        r.correlation_id@ == bounded_correlation(correlation_id@),
{
    let code = match error {
        MessageStorageError::ScopeMismatch => ChatBridgeErrorCode::Unauthorized,
        MessageStorageError::Invalid
        | MessageStorageError::DuplicateSequence
        | MessageStorageError::OutOfOrder
        | MessageStorageError::StaleGeneration => ChatBridgeErrorCode::InvalidCommand,
        MessageStorageError::NotFound
        | MessageStorageError::Conflict
        | MessageStorageError::Serialization
        | MessageStorageError::Database => ChatBridgeErrorCode::Storage,
    };
    ChatBridgeError::new(code, correlation_id)
}

pub open spec fn session_storage_code(e: SessionStorageError) -> ChatBridgeErrorCode {
    match e {
        SessionStorageError::ScopeMismatch => ChatBridgeErrorCode::Unauthorized,
        SessionStorageError::NotFound => ChatBridgeErrorCode::NotFound,
        SessionStorageError::Invalid => ChatBridgeErrorCode::InvalidCommand,
        _ => ChatBridgeErrorCode::Storage,
    }
}

/// The bridge error of a session store failure.
pub fn map_session_storage(error: SessionStorageError, correlation_id: &str) -> (r: ChatBridgeError)
    ensures
        r.code == session_storage_code(error),
        r.correlation_id@ == bounded_correlation(correlation_id@),
{
    let code = match error {
        SessionStorageError::ScopeMismatch => ChatBridgeErrorCode::Unauthorized,
        SessionStorageError::NotFound => ChatBridgeErrorCode::NotFound,
        SessionStorageError::Invalid => ChatBridgeErrorCode::InvalidCommand,
        SessionStorageError::Conflict
        | SessionStorageError::Serialization
        | SessionStorageError::Database => ChatBridgeErrorCode::Storage,
    };
    ChatBridgeError::new(code, correlation_id)
}

pub open spec fn domain_chat_code(c: DomainErrorCode) -> ChatBridgeErrorCode {
    match c {
        DomainErrorCode::NotFound => ChatBridgeErrorCode::NotFound,
        DomainErrorCode::PermissionDenied => ChatBridgeErrorCode::Unauthorized,
        DomainErrorCode::Validation => ChatBridgeErrorCode::InvalidCommand,
        _ => ChatBridgeErrorCode::Storage,
    }
}

/// The bridge error of a domain failure while loading a project or agent.
pub fn map_domain_error(error: &DomainError, correlation_id: &str) -> (r: ChatBridgeError)
    ensures
        r.code == domain_chat_code(code_of(error)),
        r.correlation_id@ == bounded_correlation(correlation_id@),
{
    let code = match error {
        DomainError::NotFound(_) => ChatBridgeErrorCode::NotFound,
        DomainError::PermissionDenied { .. } => ChatBridgeErrorCode::Unauthorized,
        DomainError::Validation(_) => ChatBridgeErrorCode::InvalidCommand,
        _ => ChatBridgeErrorCode::Storage,
    };
    ChatBridgeError::new(code, correlation_id)
}

/// The sequence numbers of a turn's user and assistant messages: the user's
/// follows the last stored message (or is zero), the assistant's follows it.
pub fn message_sequences(last: Option<u64>) -> (r: (u64, u64))
    ensures
        r.0 == (match last {
            None => 0,
            Some(s) => if s == u64::MAX { u64::MAX as int } else { s + 1 },
        }),
        r.1 == (if r.0 == u64::MAX { u64::MAX as int } else { r.0 + 1 }),
{
    let user = match last {
        None => 0,
        Some(s) => s.saturating_add(1),
    };
    (user, user.saturating_add(1))
}

/// The page size and offset of a message listing: a hundred by default,
/// between one and a hundred, from an offset of at most ten thousand.
pub fn message_page(limit: Option<usize>, offset: Option<usize>) -> (r: (usize, usize))
    ensures
        r.0 == (match limit {
            None => MAX_MESSAGE_PAGE,
            Some(l) => if l < 1 {
                1
            } else if l > MAX_MESSAGE_PAGE {
                MAX_MESSAGE_PAGE
            } else {
                l
            },
        }),
        r.1 == (match offset {
            None => 0,
            Some(o) => if o > MAX_MESSAGE_OFFSET {
                MAX_MESSAGE_OFFSET
            } else {
                o
            },
        }),
{
    let l = match limit {
        None => MAX_MESSAGE_PAGE,
        Some(l) => l,
    };
    let l = if l < 1 {
        1
    } else if l > MAX_MESSAGE_PAGE {
        MAX_MESSAGE_PAGE
    } else {
        l
    };
    let o = match offset {
        None => 0,
        Some(o) => o,
    };
    let o = if o > MAX_MESSAGE_OFFSET {
        MAX_MESSAGE_OFFSET
    } else {
        o
    };
    (l, o)
}

/// Who wrote a message.
#[derive(Debug, Clone, Copy, PartialEq, Eq, Structural)]
pub enum MessageRole {
    User,
    Assistant,
    System,
    Tool,
    ToolResult,
}

pub open spec fn role_label(role: MessageRole) -> Seq<char> {
    match role {
        MessageRole::User => "user"@,
        MessageRole::Assistant => "assistant"@,
        MessageRole::System => "system"@,
        MessageRole::Tool => "tool"@,
        MessageRole::ToolResult => "tool_result"@,
    }
}

/// The name a message listing shows for a role.
pub fn role_name(role: MessageRole) -> (r: &'static str)
    ensures
        r@ == role_label(role),
{
    match role {
        MessageRole::User => "user",
        MessageRole::Assistant => "assistant",
        MessageRole::System => "system",
        MessageRole::Tool => "tool",
        MessageRole::ToolResult => "tool_result",
    }
}

/// The answer to a cancellation request. `running` is the running turn of
/// that command, if any, as whether its session and caller are the
/// request's. Only the desktop caller may ask, with a session id that
/// parses; a turn is cancelled only when both match.
pub fn cancel_outcome(
    caller_id: &str,
    caller_class: &str,
    session_id_parses: bool,
    running: Option<(bool, bool)>,
    command_id: &str,
) -> (r: Result<CancelChatCommandOutput, ChatBridgeError>)
    ensures
        r.is_err() <==> !(caller_id@ == DESKTOP_CALLER_ID@ && caller_class@ == DESKTOP_CALLER_CLASS@)
            || !session_id_parses,
        r matches Err(e) ==> e.correlation_id@ == bounded_correlation(command_id@),
        r matches Err(e) ==> e.code == (if !(caller_id@ == DESKTOP_CALLER_ID@ && caller_class@
            == DESKTOP_CALLER_CLASS@) {
            ChatBridgeErrorCode::Unauthorized
        } else {
            ChatBridgeErrorCode::InvalidCommand
        }),
        r matches Ok(o) ==> o.accepted == (running == Some((true, true))),
{
    if !is_desktop_caller(caller_id, caller_class) {
        return Err(ChatBridgeError::new(ChatBridgeErrorCode::Unauthorized, command_id));
    }
    if !session_id_parses {
        return Err(ChatBridgeError::new(ChatBridgeErrorCode::InvalidCommand, command_id));
    }
    let accepted = match running {
        Some((same_session, same_caller)) => same_session && same_caller,
        None => false,
    };
    Ok(CancelChatCommandOutput { accepted })
}

/// The execution a turn runs under: `exec_` and the command id.
pub fn execution_id(command_id: &str) -> (r: String)
    ensures
        r@ == "exec_"@ + command_id@,
{
    let mut s = "exec_".to_string();
    s.append(command_id);
    s
}

/// The first provider attempt of a command: the command id and `:attempt_1`.
pub fn first_attempt_id(command_id: &str) -> (r: String)
    ensures
        r@ == command_id@ + ":attempt_1"@,
{
    let mut s = command_id.to_string();
    s.append(":attempt_1");
    s
}

/// The credential scope of a project: `project_` and the project id.
pub fn project_scope(project_id: &str) -> (r: String)
    ensures
        r@ == "project_"@ + project_id@,
{
    let mut s = "project_".to_string();
    s.append(project_id);
    s
}

/// The credential lookup before a turn reaches the provider. The shell
/// builds the project's credential account and the caller's access
/// context, then resolves a reference to the stored credential (it never
/// connects a new one); this decides from those three outcomes. An account
/// that cannot be formed is an internal error, an access context that
/// cannot be formed leaves the caller unauthorized, and a credential that
/// does not resolve fails closed as an unavailable provider.
pub fn credential_lookup(
    account_formed: bool,
    access_formed: bool,
    resolved: bool,
    command_id: &str,
) -> (r: Result<(), ChatBridgeError>)
    ensures
        match r {
            Ok(()) => account_formed && access_formed && resolved,
            Err(e) => e.correlation_id@ == bounded_correlation(command_id@) && e.code == (if !account_formed {
                ChatBridgeErrorCode::Internal
            } else if !access_formed {
                ChatBridgeErrorCode::Unauthorized
            } else {
                ChatBridgeErrorCode::ProviderUnavailable
            }),
        },
        (account_formed && access_formed && resolved) ==> r is Ok,
{
    if !account_formed {
        return Err(ChatBridgeError::new(ChatBridgeErrorCode::Internal, command_id));
    }
    if !access_formed {
        return Err(ChatBridgeError::new(ChatBridgeErrorCode::Unauthorized, command_id));
    }
    if !resolved {
        return Err(ChatBridgeError::new(ChatBridgeErrorCode::ProviderUnavailable, command_id));
    }
    Ok(())
}

/// What a chat stream carries, in the order a turn publishes it.
#[derive(Debug, Clone)]
pub enum StreamPayload {
    Start,
    Delta { text: String },
    Finish,
    Cancel,
    ProviderFailure,
    InvalidStream,
}

/// The kind of a stream payload.
#[derive(Debug, Clone, Copy, PartialEq, Eq, Structural)]
pub enum PayloadKind {
    Start,
    Delta,
    Finish,
    Cancel,
    ProviderFailure,
    InvalidStream,
}

impl View for StreamPayload {
    type V = (PayloadKind, Seq<char>);

    /// A payload as its kind and the text it carries (empty but for a delta).
    open spec fn view(&self) -> (PayloadKind, Seq<char>) {
        match self {
            StreamPayload::Start => (PayloadKind::Start, Seq::empty()),
            StreamPayload::Delta { text } => (PayloadKind::Delta, text@),
            StreamPayload::Finish => (PayloadKind::Finish, Seq::empty()),
            StreamPayload::Cancel => (PayloadKind::Cancel, Seq::empty()),
            StreamPayload::ProviderFailure => (PayloadKind::ProviderFailure, Seq::empty()),
            StreamPayload::InvalidStream => (PayloadKind::InvalidStream, Seq::empty()),
        }
    }
}

/// A stream event to publish: its sequence number and payload.
#[derive(Debug, Clone)]
pub struct StreamEvent {
    pub sequence: u64,
    pub payload: StreamPayload,
}

pub open spec fn events_view(v: Seq<StreamEvent>) -> Seq<(u64, (PayloadKind, Seq<char>))> {
    v.map_values(|e: StreamEvent| (e.sequence, e.payload@))
}

/// One event of the provider's stream: the attempt it came from, the text
/// it adds and whether it ends the stream.
#[derive(Debug, Clone)]
pub struct ProviderDelta {
    pub attempt_id: String,
    pub text: String,
    pub terminal: bool,
}

/// How the provider's stream ended once it was consumed.
#[derive(Debug, Clone, Copy, PartialEq, Eq, Structural)]
pub enum StreamOutcome {
    Completed,
    Cancelled,
    Failed,
}

/// What came back from running a turn on the provider: it refused to
/// start (cancelled, or failed), or it streamed these events, which ended
/// so.
#[derive(Debug, Clone)]
pub enum TurnOutcome {
    ProviderCancelled,
    ProviderFailed,
    Streamed { outcome: StreamOutcome, events: Vec<ProviderDelta> },
}

/// What happens to the assistant message before the turn is stored.
#[derive(Debug, Clone, Copy, PartialEq, Eq, Structural)]
pub enum AssistantAction {
    /// Left as the stream left it.
    Keep,
    /// Started and cancelled.
    CancelUnstarted,
    /// Started and failed for the provider's refusal.
    FailUnstarted,
    /// Failed for the broken stream, unless already terminal.
    FailIfOpen,
}

/// How the usage of a turn is recorded.
#[derive(Debug, Clone, Copy, PartialEq, Eq, Structural)]
pub enum UsageOutcome {
    Completed,
    Cancelled,
    Failed,
}

/// What the shell does once a turn's provider run is over, in this order:
/// settle the assistant message, record the turn's usage (missing, under
/// this attempt), store the turn, publish these events, answer the caller.
#[derive(Debug)]
pub struct TurnPlan {
    pub assistant: AssistantAction,
    pub usage_outcome: UsageOutcome,
    pub attempt_id: String,
    pub publish: Vec<StreamEvent>,
    pub result: Result<&'static str, ChatBridgeError>,
}

pub open spec fn next_number(n: u64) -> u64 {
    if n == u64::MAX { n } else { (n + 1) as u64 }
}

/// The events a completed stream publishes from sequence number `next` on:
/// a delta for each event with text, numbered one after another, and a
/// finish after each terminal event, numbered as the next delta would be.
/// Also gives the number the next delta would take.
pub open spec fn completed_events(events: Seq<ProviderDelta>, next: u64) -> (Seq<(u64, (PayloadKind, Seq<char>))>, u64)
    decreases events.len(),
{
    if events.len() == 0 {
        (Seq::empty(), next)
    } else {
        let (before, n) = completed_events(events.drop_last(), next);
        let e = events.last();
        let (with_delta, n1) = if e.text@.len() > 0 {
            (before.push((n, (PayloadKind::Delta, e.text@))), next_number(n))
        } else {
            (before, n)
        };
        if e.terminal {
            (with_delta.push((n1, (PayloadKind::Finish, Seq::empty()))), n1)
        } else {
            (with_delta, n1)
        }
    }
}

/// The attempt a consumed stream is recorded under: that of its first event.
pub open spec fn stream_attempt(events: Seq<ProviderDelta>) -> Seq<char> {
    if events.len() > 0 {
        events[0].attempt_id@
    } else {
        MISSING_ATTEMPT@
    }
}

pub open spec fn single(kind: PayloadKind) -> Seq<(u64, (PayloadKind, Seq<char>))> {
    seq![(1u64, (kind, Seq::<char>::empty()))]
}

fn publish_completed(events: &Vec<ProviderDelta>) -> (r: Vec<StreamEvent>)
    ensures
        events_view(r@) == completed_events(events@, 1).0,
{
    let mut out: Vec<StreamEvent> = Vec::new();
    let mut next: u64 = 1;
    let mut i: usize = 0;
    while i < events.len()
        invariant
            i <= events@.len(),
            (events_view(out@), next) == completed_events(events@.take(i as int), 1),
        decreases events@.len() - i,
    {
        let e = &events[i];
        proof {
            assert(events@.take(i + 1).drop_last() =~= events@.take(i as int));
            assert(events@.take(i + 1).last() == events@[i as int]);
        }
        if e.text.unicode_len() > 0 {
            out.push(StreamEvent { sequence: next, payload: StreamPayload::Delta { text: e.text.clone() } });
            next = next.saturating_add(1);
        }
        if e.terminal {
            out.push(StreamEvent { sequence: next, payload: StreamPayload::Finish });
        }
        proof {
            assert(events_view(out@) =~= completed_events(events@.take(i + 1), 1).0);
        }
        i = i + 1;
    }
    proof {
        assert(events@.take(events@.len() as int) =~= events@);
    }
    out
}

fn one_event(kind: PayloadKind) -> (r: Vec<StreamEvent>)
    requires
        kind == PayloadKind::Cancel || kind == PayloadKind::ProviderFailure || kind
            == PayloadKind::InvalidStream,
    ensures
        events_view(r@) == single(kind),
{
    let payload = match kind {
        PayloadKind::Cancel => StreamPayload::Cancel,
        PayloadKind::ProviderFailure => StreamPayload::ProviderFailure,
        _ => StreamPayload::InvalidStream,
    };
    let r = vec![StreamEvent { sequence: 1, payload }];
    assert(events_view(r@) =~= single(kind));
    r
}

/// The plan that ends a turn. A provider that refused to start leaves the
/// assistant message started and cancelled (or failed) under the first
/// attempt, and publishes a cancel (or a provider failure) as the first
/// event after the start; a cancelled turn answers `cancelled`, a failed
/// one that the provider is unavailable. A consumed stream is recorded
/// under its first event's attempt: completed, it publishes its deltas and
/// finishes and answers `completed`; cancelled, a cancel and `cancelled`;
/// broken, it fails the open assistant message, publishes an invalid stream
/// and answers so.
pub fn plan_turn(command_id: &str, outcome: TurnOutcome) -> (r: TurnPlan)
    ensures
        r.result matches Err(e) ==> e.correlation_id@ == bounded_correlation(command_id@),
        match outcome {
            TurnOutcome::ProviderCancelled => {
                &&& r.assistant == AssistantAction::CancelUnstarted
                &&& r.usage_outcome == UsageOutcome::Cancelled
                &&& r.attempt_id@ == command_id@ + ":attempt_1"@
                &&& events_view(r.publish@) == single(PayloadKind::Cancel)
                &&& r.result matches Ok(s) && s@ == "cancelled"@
            },
            TurnOutcome::ProviderFailed => {
                &&& r.assistant == AssistantAction::FailUnstarted
                &&& r.usage_outcome == UsageOutcome::Failed
                &&& r.attempt_id@ == command_id@ + ":attempt_1"@
                &&& events_view(r.publish@) == single(PayloadKind::ProviderFailure)
                &&& r.result matches Err(e) && e.code == ChatBridgeErrorCode::ProviderUnavailable
            },
            TurnOutcome::Streamed { outcome: StreamOutcome::Completed, events } => {
                &&& r.assistant == AssistantAction::Keep
                &&& r.usage_outcome == UsageOutcome::Completed
                &&& r.attempt_id@ == stream_attempt(events@)
                &&& events_view(r.publish@) == completed_events(events@, 1).0
                &&& r.result matches Ok(s) && s@ == "completed"@
            },
            TurnOutcome::Streamed { outcome: StreamOutcome::Cancelled, events } => {
                &&& r.assistant == AssistantAction::Keep
                &&& r.usage_outcome == UsageOutcome::Cancelled
                &&& r.attempt_id@ == stream_attempt(events@)
                &&& events_view(r.publish@) == single(PayloadKind::Cancel)
                &&& r.result matches Ok(s) && s@ == "cancelled"@
            },
            TurnOutcome::Streamed { outcome: StreamOutcome::Failed, events } => {
                &&& r.assistant == AssistantAction::FailIfOpen
                &&& r.usage_outcome == UsageOutcome::Failed
                &&& r.attempt_id@ == stream_attempt(events@)
                &&& events_view(r.publish@) == single(PayloadKind::InvalidStream)
                &&& r.result matches Err(e) && e.code == ChatBridgeErrorCode::InvalidStream
            },
        },
{
    match outcome {
        TurnOutcome::ProviderCancelled => TurnPlan {
            assistant: AssistantAction::CancelUnstarted,
            usage_outcome: UsageOutcome::Cancelled,
            attempt_id: first_attempt_id(command_id),
            publish: one_event(PayloadKind::Cancel),
            result: Ok("cancelled"),
        },
        TurnOutcome::ProviderFailed => TurnPlan {
            assistant: AssistantAction::FailUnstarted,
            usage_outcome: UsageOutcome::Failed,
            attempt_id: first_attempt_id(command_id),
            publish: one_event(PayloadKind::ProviderFailure),
            result: Err(ChatBridgeError::new(ChatBridgeErrorCode::ProviderUnavailable, command_id)),
        },
        TurnOutcome::Streamed { outcome, events } => {
            let attempt_id = if events.len() > 0 {
                events[0].attempt_id.clone()
            } else {
                MISSING_ATTEMPT.to_string()
            };
            match outcome {
                StreamOutcome::Completed => TurnPlan {
                    assistant: AssistantAction::Keep,
                    usage_outcome: UsageOutcome::Completed,
                    attempt_id,
                    publish: publish_completed(&events),
                    result: Ok("completed"),
                },
                StreamOutcome::Cancelled => TurnPlan {
                    assistant: AssistantAction::Keep,
                    usage_outcome: UsageOutcome::Cancelled,
                    attempt_id,
                    publish: one_event(PayloadKind::Cancel),
                    result: Ok("cancelled"),
                },
                StreamOutcome::Failed => TurnPlan {
                    assistant: AssistantAction::FailIfOpen,
                    usage_outcome: UsageOutcome::Failed,
                    attempt_id,
                    publish: one_event(PayloadKind::InvalidStream),
                    result: Err(ChatBridgeError::new(ChatBridgeErrorCode::InvalidStream, command_id)),
                },
            }
        },
    }
}

/// The provider the chat bridge runs turns on.
pub const OPENAI_PROVIDER_ID: &'static str = "openai";

/// The model turns use on the configured provider.
pub const OPENAI_MODEL_ID: &'static str = "gpt-4o-mini";

/// The account turns use on the configured provider when none is named.
pub const OPENAI_DEFAULT_ACCOUNT_ID: &'static str = "account_openai";

/// The fixture account.
pub const MOCK_ACCOUNT_ID: &'static str = "account_mock";

/// Whether chat has a provider to run on: a usable configured provider
/// (with a secure store), or else the fixture where it may serve and no
/// configured provider proved unusable.
pub open spec fn chat_enabled(fixture_allowed: bool, store_available: bool, endpoint: Option<bool>) -> bool {
    (store_available && endpoint == Some(true)) || (fixture_allowed && !(store_available && endpoint
        == Some(false)))
}

/// Whether the fixture provider may serve, as a predicate.
pub open spec fn fixture_allowed(debug_build: bool, switch: Option<Seq<char>>) -> bool {
    debug_build || switch == Some("1"@)
}

/// A release build (no debug, fixture switch not `1`) without a usable
/// configured provider has no provider to run chat on, so every command is
/// refused as unavailable before any provider runs.
pub proof fn law_release_without_provider_fails_closed(
    switch: Option<Seq<char>>,
    store_available: bool,
    endpoint: Option<bool>,
)
    requires
        switch != Some("1"@),
        !(store_available && endpoint == Some(true)),
    ensures
        !chat_enabled(fixture_allowed(false, switch), store_available, endpoint),
{
}

/// Whether the fixture provider may serve: in a debug build, or when the
/// fixture switch is set to `1`.
pub fn fixture_enabled(debug_build: bool, switch: Option<&str>) -> (r: bool)
    ensures
        r == fixture_allowed(
            debug_build,
            match switch {
                Some(v) => Some(v@),
                None => None,
            },
        ),
{
    debug_build || match switch {
        Some(v) => same_text(v, "1"),
        None => false,
    }
}

/// The provider, model and account chat turns run on, whether chat is
/// enabled, and whether the fixture provider is registered.
#[derive(Debug, Clone)]
pub struct ProviderSelection {
    pub provider_id: String,
    pub model_id: String,
    pub account_id: String,
    pub enabled: bool,
    pub fixture_registered: bool,
}

/// Chooses the chat provider. With a secure store and a configured
/// endpoint, a usable endpoint selects the configured provider (under the
/// named account, or the default one) and enables chat; an unusable one
/// disables chat rather than fall back to the fixture. Otherwise the
/// fixture provider is registered, and chat is enabled only where the
/// fixture may serve.
pub fn select_provider(
    fixture_allowed: bool,
    store_available: bool,
    endpoint: Option<bool>,
    account_id: Option<&str>,
) -> (r: ProviderSelection)
    ensures
        r.enabled == chat_enabled(fixture_allowed, store_available, endpoint),
        store_available && endpoint == Some(true) ==> ({
            &&& r.provider_id@ == OPENAI_PROVIDER_ID@
            &&& r.model_id@ == OPENAI_MODEL_ID@
            &&& r.account_id@ == (match account_id {
                Some(a) => a@,
                None => OPENAI_DEFAULT_ACCOUNT_ID@,
            })
            &&& r.enabled
            &&& !r.fixture_registered
        }),
        !(store_available && endpoint == Some(true)) ==> ({
            &&& r.provider_id@ == crate::chat_bridge::MOCK_PROVIDER_ID@
            &&& r.model_id@ == crate::chat_bridge::MOCK_MODEL_ID@
            &&& r.account_id@ == MOCK_ACCOUNT_ID@
            &&& r.fixture_registered
            &&& r.enabled == (fixture_allowed && !(store_available && endpoint == Some(false)))
        }),
{
    if store_available {
        match endpoint {
            Some(true) => {
                let account = match account_id {
                    Some(a) => a.to_string(),
                    None => OPENAI_DEFAULT_ACCOUNT_ID.to_string(),
                };
                return ProviderSelection {
                    provider_id: OPENAI_PROVIDER_ID.to_string(),
                    model_id: OPENAI_MODEL_ID.to_string(),
                    account_id: account,
                    enabled: true,
                    fixture_registered: false,
                };
            },
            Some(false) => {
                return ProviderSelection {
                    provider_id: crate::chat_bridge::MOCK_PROVIDER_ID.to_string(),
                    model_id: crate::chat_bridge::MOCK_MODEL_ID.to_string(),
                    account_id: MOCK_ACCOUNT_ID.to_string(),
                    enabled: false,
                    fixture_registered: true,
                };
            },
            None => {},
        }
    }
    ProviderSelection {
        provider_id: crate::chat_bridge::MOCK_PROVIDER_ID.to_string(),
        model_id: crate::chat_bridge::MOCK_MODEL_ID.to_string(),
        account_id: MOCK_ACCOUNT_ID.to_string(),
        enabled: fixture_allowed,
        fixture_registered: true,
    }
}

} // verus!
