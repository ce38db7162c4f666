//! Append-only improvement observations, always treated as untrusted data.
use crate::text::{
    bounded_value, contains_ci, contains_marker_ci, is_bounded_value, same_text, text_len, utf8_len,
};
use vstd::prelude::*;
use vstd::string::StringSliceAdditionalSpecFns;

verus! {

pub const OBSERVATION_SCHEMA_VERSION: u32 = 1;

/// The largest payload, in bytes.
pub const MAX_OBSERVATION_PAYLOAD: usize = 16384;

/// The longest metadata value, in bytes.
pub const MAX_VALUE: usize = 256;

#[derive(Debug, Clone, Copy, PartialEq, Eq, Structural)]
pub enum ObservationType {
    FailureSignal,
    SuccessSignal,
}

#[derive(Debug, Clone, Copy, PartialEq, Eq, Structural)]
pub enum ObservationSource {
    Tool,
    Test,
    User,
}

#[derive(Debug, Clone, Copy, PartialEq, Eq, Structural)]
pub enum PrivacyClass {
    Internal,
    Sensitive,
}

#[derive(Debug, Clone, Copy, PartialEq, Eq, Structural)]
pub enum RetentionClass {
    Short,
    Long,
}

#[derive(Debug, Clone, Copy, PartialEq, Eq, Structural)]
pub enum TrustClass {
    Untrusted,
}

#[derive(Debug, Clone, Copy, PartialEq, Eq, Structural)]
pub enum RedactionState {
    NotRedacted,
    Redacted,
}

/// The source a label names: `tool`, `test`, or otherwise a user.
pub open spec fn source_of_label(label: Seq<char>) -> ObservationSource {
    if label == "tool"@ {
        ObservationSource::Tool
    } else if label == "test"@ {
        ObservationSource::Test
    } else {
        ObservationSource::User
    }
}

pub open spec fn opt_text(o: Option<String>) -> Option<Seq<char>> {
    match o {
        Some(s) => Some(s@),
        None => None,
    }
}

#[derive(Debug, Clone, PartialEq, Eq)]
pub struct ObservationRequest {
    pub schema_version: u32,
    pub source: ObservationSource,
    pub observation_type: ObservationType,
    pub project_id: String,
    pub run_id: Option<String>,
    pub trace_id: String,
    pub dedup_key: String,
    pub payload: String,
    pub privacy: PrivacyClass,
    pub retention: RetentionClass,
}

impl ObservationRequest {
    /// A request; the source label is read as `tool`, `test` or a user.
    #[allow(clippy::too_many_arguments)]
    pub fn new(
        schema_version: u32,
        source: &str,
        observation_type: ObservationType,
        project: &str,
        run: Option<&str>,
        trace: &str,
        key: &str,
        payload: &str,
        privacy: PrivacyClass,
        retention: RetentionClass,
    ) -> (r: Self)
        ensures
            r.schema_version == schema_version,
            r.source == source_of_label(source@),
            r.observation_type == observation_type,
            r.project_id@ == project@,
            r.run_id is Some <==> run is Some,
            run matches Some(x) ==> opt_text(r.run_id) == Some(x@),
            r.trace_id@ == trace@,
            r.dedup_key@ == key@,
            r.payload@ == payload@,
            r.privacy == privacy,
            r.retention == retention,
    {
        let source = if same_text(source, "tool") {
            ObservationSource::Tool
        } else if same_text(source, "test") {
            ObservationSource::Test
        } else {
            ObservationSource::User
        };
        let run_id = match run {
            Some(x) => Some(x.to_string()),
            None => None,
        };
        ObservationRequest {
            schema_version,
            source,
            observation_type,
            project_id: project.to_string(),
            run_id,
            trace_id: trace.to_string(),
            dedup_key: key.to_string(),
            payload: payload.to_string(),
            privacy,
            retention,
        }
    }
}

#[derive(Debug, Clone, Copy, PartialEq, Eq, Structural)]
pub enum ObservationError {
    UnsupportedVersion,
    PayloadTooLarge,
    InvalidMetadata,
}

pub open spec fn observation_message(e: ObservationError) -> Seq<char> {
    match e {
        ObservationError::UnsupportedVersion => "unsupported observation schema version"@,
        ObservationError::PayloadTooLarge => "observation payload exceeds limit"@,
        ObservationError::InvalidMetadata => "invalid observation metadata"@,
    }
}

impl ObservationError {
    /// The human-readable description of the error.
    pub fn message(&self) -> (r: &'static str)
        ensures
            r@ == observation_message(*self),
    {
        match self {
            ObservationError::UnsupportedVersion => "unsupported observation schema version",
            ObservationError::PayloadTooLarge => "observation payload exceeds limit",
            ObservationError::InvalidMetadata => "invalid observation metadata",
        }
    }
}

/// Text that looks like it carries a credential (ASCII case ignored).
pub open spec fn secret_like(s: Seq<char>) -> bool {
    let b = vstd::utf8::encode_utf8(s);
    ||| contains_ci(b, "api_key=".spec_bytes())
    ||| contains_ci(b, "apikey=".spec_bytes())
    ||| contains_ci(b, "token=".spec_bytes())
    ||| contains_ci(b, "password=".spec_bytes())
    ||| contains_ci(b, "secret=".spec_bytes())
}

fn contains_secret_like(payload: &str) -> (r: bool)
    ensures
        r == secret_like(payload@),
{
    contains_marker_ci(payload, "api_key=") || contains_marker_ci(payload, "apikey=")
        || contains_marker_ci(payload, "token=") || contains_marker_ci(payload, "password=")
        || contains_marker_ci(payload, "secret=")
}

/// Why a request cannot be recorded, if it cannot.
pub open spec fn accept_fault(r: ObservationRequest) -> Option<ObservationError> {
    if r.schema_version != OBSERVATION_SCHEMA_VERSION {
        Some(ObservationError::UnsupportedVersion)
    } else if utf8_len(r.payload@) > MAX_OBSERVATION_PAYLOAD {
        Some(ObservationError::PayloadTooLarge)
    } else if !bounded_value(r.project_id@, MAX_VALUE as nat) || !bounded_value(
        r.trace_id@,
        MAX_VALUE as nat,
    ) || !bounded_value(r.dedup_key@, MAX_VALUE as nat) {
        Some(ObservationError::InvalidMetadata)
    } else if r.run_id matches Some(run) && !bounded_value(run@, MAX_VALUE as nat) {
        Some(ObservationError::InvalidMetadata)
    } else {
        None
    }
}

/// The payload that is stored for `p`.
pub open spec fn stored_payload(p: Seq<char>) -> Seq<char> {
    if secret_like(p) {
        "[REDACTED]"@
    } else {
        p
    }
}

#[derive(Debug, Clone, PartialEq, Eq)]
pub struct ImprovementObservation {
    source: ObservationSource,
    observation_type: ObservationType,
    project_id: String,
    run_id: Option<String>,
    trace_id: String,
    dedup_key: String,
    payload: String,
    privacy: PrivacyClass,
    retention: RetentionClass,
    redaction: RedactionState,
}

impl ImprovementObservation {
    pub closed spec fn source_of(&self) -> ObservationSource {
        self.source
    }

    pub closed spec fn type_of(&self) -> ObservationType {
        self.observation_type
    }

    pub closed spec fn project_of(&self) -> Seq<char> {
        self.project_id@
    }

    pub closed spec fn run_of(&self) -> Option<Seq<char>> {
        opt_text(self.run_id)
    }

    pub closed spec fn trace_of(&self) -> Seq<char> {
        self.trace_id@
    }

    pub closed spec fn key_of(&self) -> Seq<char> {
        self.dedup_key@
    }

    pub closed spec fn payload_of(&self) -> Seq<char> {
        self.payload@
    }

    pub closed spec fn privacy_of(&self) -> PrivacyClass {
        self.privacy
    }

    pub closed spec fn retention_of(&self) -> RetentionClass {
        self.retention
    }

    pub closed spec fn redaction_of(&self) -> RedactionState {
        self.redaction
    }

    /// Records a request as an untrusted observation; a payload that looks
    /// like it carries a credential is replaced by a redaction marker.
    pub fn accept(request: ObservationRequest) -> (r: Result<Self, ObservationError>)
        ensures
            match accept_fault(request) {
                Some(e) => r == Err::<Self, ObservationError>(e),
                None => r matches Ok(o) && {
                    &&& o.source_of() == request.source
                    &&& o.type_of() == request.observation_type
                    &&& o.project_of() == request.project_id@
                    &&& o.run_of() == opt_text(request.run_id)
                    &&& o.trace_of() == request.trace_id@
                    &&& o.key_of() == request.dedup_key@
                    &&& o.payload_of() == stored_payload(request.payload@)
                    &&& o.privacy_of() == request.privacy
                    &&& o.retention_of() == request.retention
                    &&& o.redaction_of() == (if secret_like(request.payload@) {
                        RedactionState::Redacted
                    } else {
                        RedactionState::NotRedacted
                    })
                },
            },
    {
        if request.schema_version != OBSERVATION_SCHEMA_VERSION {
            return Err(ObservationError::UnsupportedVersion);
        }
        if text_len(request.payload.as_str()) > MAX_OBSERVATION_PAYLOAD {
            return Err(ObservationError::PayloadTooLarge);
        }
        if !is_bounded_value(request.project_id.as_str(), MAX_VALUE) || !is_bounded_value(
            request.trace_id.as_str(),
            MAX_VALUE,
        ) || !is_bounded_value(request.dedup_key.as_str(), MAX_VALUE) {
            return Err(ObservationError::InvalidMetadata);
        }
        let run_bad = match &request.run_id {
            Some(run) => !is_bounded_value(run.as_str(), MAX_VALUE),
            None => false,
        };
        if run_bad {
            return Err(ObservationError::InvalidMetadata);
        }
        let redacted = contains_secret_like(request.payload.as_str());
        let ObservationRequest {
            schema_version: _,
            source,
            observation_type,
            project_id,
            run_id,
            trace_id,
            dedup_key,
            payload,
            privacy,
            retention,
        } = request;
        Ok(
            ImprovementObservation {
                source,
                observation_type,
                project_id,
                run_id,
                trace_id,
                dedup_key,
                payload: if redacted {
                    "[REDACTED]".to_string()
                } else {
                    payload
                },
                privacy,
                retention,
                redaction: if redacted {
                    RedactionState::Redacted
                } else {
                    RedactionState::NotRedacted
                },
            },
        )
    }

    /// Observations are never trusted.
    pub fn trust(&self) -> (r: TrustClass)
        ensures
            r == TrustClass::Untrusted,
    {
        TrustClass::Untrusted
    }

    /// Observations never carry the capability to change anything.
    pub fn has_mutation_capability(&self) -> (r: bool)
        ensures
            !r,
    {
        false
    }

    pub fn redaction(&self) -> (r: RedactionState)
        ensures
            r == self.redaction_of(),
    {
        self.redaction
    }

    pub fn dedup_key(&self) -> (r: &str)
        ensures
            r@ == self.key_of(),
    {
        self.dedup_key.as_str()
    }

    /// Two observations are duplicates when they share project and key.
    pub fn is_duplicate_of(&self, other: &Self) -> (r: bool)
        ensures
            r == (self.project_of() == other.project_of() && self.key_of() == other.key_of()),
    {
        self.project_id == other.project_id && self.dedup_key == other.dedup_key
    }
}

proof fn lemma_marker_free(m: Seq<u8>)
    requires
        m.len() > 0,
        m[m.len() - 1] == 61u8,
    ensures
        !contains_ci("[REDACTED]".spec_bytes(), m),
{
    reveal_strlit("[REDACTED]");
    let s = "[REDACTED]"@;
    assert(vstd::utf8::is_ascii_chars(s));
    vstd::utf8::is_ascii_chars_encode_utf8(s);
    let b = "[REDACTED]".spec_bytes();
    assert forall|at: int| !crate::text::occurs_at_ci(b, m, at) by {
        if crate::text::occurs_at_ci(b, m, at) {
            let j = m.len() - 1;
            assert(crate::text::ascii_lower(b[at + j]) == m[j]);
            assert(0 <= at + j < 10);
        }
    }
}

/// An accepted observation never stores a payload that looks like it
/// carries a credential, and it is redacted exactly when its request's
/// payload did.
pub proof fn law_stored_payloads_hold_no_secret(p: Seq<char>)
    ensures
        !secret_like(stored_payload(p)),
        stored_payload(p) == p <== !secret_like(p),
{
    if secret_like(p) {
        reveal_strlit("api_key=");
        reveal_strlit("apikey=");
        reveal_strlit("token=");
        reveal_strlit("password=");
        reveal_strlit("secret=");
        let ms = seq!["api_key="@, "apikey="@, "token="@, "password="@, "secret="@];
        assert forall|k: int| 0 <= k < 5 implies vstd::utf8::is_ascii_chars(#[trigger] ms[k]) by {}
        vstd::utf8::is_ascii_chars_encode_utf8("api_key="@);
        vstd::utf8::is_ascii_chars_encode_utf8("apikey="@);
        vstd::utf8::is_ascii_chars_encode_utf8("token="@);
        vstd::utf8::is_ascii_chars_encode_utf8("password="@);
        vstd::utf8::is_ascii_chars_encode_utf8("secret="@);
        lemma_marker_free("api_key=".spec_bytes());
        lemma_marker_free("apikey=".spec_bytes());
        lemma_marker_free("token=".spec_bytes());
        lemma_marker_free("password=".spec_bytes());
        lemma_marker_free("secret=".spec_bytes());
    }
}

} // verus!
