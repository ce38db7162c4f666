//! Checks at the boundary between the desktop shell and the skill
//! inventory: bounded list pages, confirmed and capability-bound
//! mutations, and editor documents that cannot escape their skill.
use crate::budget::{BudgetLimits, ResetPeriod};
use crate::digest::{hex_bytes, lower_hex, sha256, sha256_of};
use crate::error::{code_of, DomainError, DomainErrorCode};
use crate::ids::{prefixed_value, ProjectId, SkillId, TraceId};
use crate::text::{
    blank, contains_control, contains_marker, contains_bytes, has_control, is_blank, same_text,
    text_len, utf8_len,
};
use vstd::prelude::*;
use vstd::string::StrSliceExecFns;
use vstd::string::StringSliceAdditionalSpecFns;

verus! {

pub const SKILL_ROLLBACK_CAPABILITY: &'static str = "skill.rollback";

pub const SKILL_EDIT_CAPABILITY: &'static str = "skill.edit";

pub const SKILL_DISCARD_CAPABILITY: &'static str = "skill.discard";

pub const MAX_SKILLS_PER_PAGE: usize = 50;

pub const MAX_OFFSET: usize = 10_000;

pub const MAX_ACTOR_ID_BYTES: usize = 128;

pub const MAX_APPROVAL_ID_BYTES: usize = 128;

pub const MAX_EDITOR_DOCUMENT_BYTES: usize = 65536;

pub const MAX_EDITOR_FILES: usize = 32;

pub const MAX_EDITOR_FILE_BYTES: usize = 16384;

pub const MAX_EDITOR_PATH_BYTES: usize = 128;

/// The longest file role, in bytes.
pub const MAX_ROLE_BYTES: usize = 32;

/// The longest version text, in bytes.
pub const MAX_VERSION_BYTES: usize = 64;

/// Where a skill lives: in one project, or for every project.
#[derive(Debug, Clone, Copy, PartialEq, Eq, Structural)]
pub enum SkillScope {
    Project,
    Global,
}

#[derive(Debug, Clone, Copy, PartialEq, Eq, Structural)]
pub enum SkillBridgeError {
    InvalidInput,
    ConfirmationRequired,
    MutationRejected { code: DomainErrorCode },
}

impl From<DomainError> for SkillBridgeError {
    fn from(error: DomainError) -> (r: Self) {
        SkillBridgeError::MutationRejected { code: error.code() }
    }
}

impl vstd::std_specs::convert::FromSpecImpl<DomainError> for SkillBridgeError {
    open spec fn obeys_from_spec() -> bool {
        true
    }

    open spec fn from_spec(error: DomainError) -> Self {
        SkillBridgeError::MutationRejected { code: code_of(&error) }
    }
}

pub open spec fn code_name(c: DomainErrorCode) -> Seq<char> {
    match c {
        DomainErrorCode::InvalidStateTransition => "InvalidStateTransition"@,
        DomainErrorCode::NotFound => "NotFound"@,
        DomainErrorCode::Duplicate => "Duplicate"@,
        DomainErrorCode::InvariantViolation => "InvariantViolation"@,
        DomainErrorCode::Validation => "Validation"@,
        DomainErrorCode::PermissionDenied => "PermissionDenied"@,
        DomainErrorCode::BudgetExceeded => "BudgetExceeded"@,
        DomainErrorCode::CapabilityUnavailable => "CapabilityUnavailable"@,
        DomainErrorCode::Provider => "Provider"@,
        DomainErrorCode::Tool => "Tool"@,
        DomainErrorCode::Workflow => "Workflow"@,
        DomainErrorCode::Serialization => "Serialization"@,
        DomainErrorCode::Uuid => "Uuid"@,
        DomainErrorCode::Io => "Io"@,
    }
}

pub(crate) fn code_text(c: DomainErrorCode) -> (r: &'static str)
    ensures
        r@ == code_name(c),
{
    match c {
        DomainErrorCode::InvalidStateTransition => "InvalidStateTransition",
        DomainErrorCode::NotFound => "NotFound",
        DomainErrorCode::Duplicate => "Duplicate",
        DomainErrorCode::InvariantViolation => "InvariantViolation",
        DomainErrorCode::Validation => "Validation",
        DomainErrorCode::PermissionDenied => "PermissionDenied",
        DomainErrorCode::BudgetExceeded => "BudgetExceeded",
        DomainErrorCode::CapabilityUnavailable => "CapabilityUnavailable",
        DomainErrorCode::Provider => "Provider",
        DomainErrorCode::Tool => "Tool",
        DomainErrorCode::Workflow => "Workflow",
        DomainErrorCode::Serialization => "Serialization",
        DomainErrorCode::Uuid => "Uuid",
        DomainErrorCode::Io => "Io",
    }
}

pub open spec fn bridge_message(e: SkillBridgeError) -> Seq<char> {
    match e {
        SkillBridgeError::InvalidInput => "invalid skill bridge input"@,
        SkillBridgeError::ConfirmationRequired => "skill mutation confirmation required"@,
        SkillBridgeError::MutationRejected { code } => "skill mutation rejected: "@ + code_name(code),
    }
}

impl SkillBridgeError {
    /// The human-readable description of the error.
    pub fn message(&self) -> (r: String)
        ensures
            r@ == bridge_message(*self),
    {
        match self {
            SkillBridgeError::InvalidInput => "invalid skill bridge input".to_string(),
            SkillBridgeError::ConfirmationRequired => "skill mutation confirmation required".to_string(),
            SkillBridgeError::MutationRejected { code } => {
                let mut s = "skill mutation rejected: ".to_string();
                s.append(code_text(*code));
                s
            },
        }
    }
}

#[derive(Debug, Clone)]
pub struct ListSkillsInput {
    pub project_id: String,
    pub scope: Option<SkillScope>,
    pub limit: Option<usize>,
    pub offset: Option<usize>,
}

#[derive(Debug, Clone)]
pub struct SkillRollbackInput {
    pub project_id: String,
    pub skill_id: String,
    pub actor_id: String,
    pub trace_id: String,
    pub expected_revision: u64,
    pub approval_id: Option<String>,
    pub capability: String,
    pub confirmed: bool,
}

#[derive(Debug, Clone)]
pub struct SkillEditorFileInput {
    pub path: String,
    pub role: String,
    pub content: String,
}

#[derive(Debug, Clone)]
pub struct SkillEditorPolicyInput {
    pub allow: bool,
    pub max_document_bytes: usize,
}

#[derive(Debug, Clone)]
pub struct SkillEditorBudgetInput {
    pub max_tokens: u64,
    pub max_cost_micro_usd: u64,
    pub max_parallel_invocations: u32,
    pub max_wall_time_seconds: u64,
    pub reset_period: ResetPeriod,
}

impl From<SkillEditorBudgetInput> for BudgetLimits {
    fn from(value: SkillEditorBudgetInput) -> (r: Self) {
        BudgetLimits {
            max_tokens: value.max_tokens,
            max_cost_micro_usd: value.max_cost_micro_usd,
            max_parallel_invocations: value.max_parallel_invocations,
            max_wall_time_seconds: value.max_wall_time_seconds,
            reset_period: value.reset_period,
        }
    }
}

impl vstd::std_specs::convert::FromSpecImpl<SkillEditorBudgetInput> for BudgetLimits {
    open spec fn obeys_from_spec() -> bool {
        true
    }

    open spec fn from_spec(value: SkillEditorBudgetInput) -> Self {
        BudgetLimits {
            max_tokens: value.max_tokens,
            max_cost_micro_usd: value.max_cost_micro_usd,
            max_parallel_invocations: value.max_parallel_invocations,
            max_wall_time_seconds: value.max_wall_time_seconds,
            reset_period: value.reset_period,
        }
    }
}

#[derive(Debug, Clone)]
pub struct SkillEditorValidateInput {
    pub project_id: String,
    pub skill_id: String,
    pub base_version: String,
    pub document: String,
    pub files: Vec<SkillEditorFileInput>,
}

#[derive(Debug, Clone)]
pub struct SkillEditorSaveInput {
    pub project_id: String,
    pub skill_id: String,
    pub actor_id: String,
    pub trace_id: String,
    pub expected_revision: u64,
    pub base_version: String,
    pub document: String,
    pub files: Vec<SkillEditorFileInput>,
    pub budget: SkillEditorBudgetInput,
    pub policy: SkillEditorPolicyInput,
    pub capability: String,
    pub confirmed: bool,
}

#[derive(Debug, Clone)]
pub struct SkillEditorDiscardInput {
    pub project_id: String,
    pub skill_id: String,
    pub actor_id: String,
    pub trace_id: String,
    pub expected_revision: u64,
    pub version: String,
    pub capability: String,
    pub confirmed: bool,
}

// ---------------------------------------------------------------------------
// Text rules
// ---------------------------------------------------------------------------
/// Non-blank, at most `max` bytes, no control character and no `..`.
pub open spec fn bridge_text_ok(s: Seq<char>, max: nat) -> bool {
    &&& !is_blank(s)
    &&& utf8_len(s) <= max
    &&& !has_control(s)
    &&& !contains_bytes(vstd::utf8::encode_utf8(s), "..".spec_bytes())
}

/// Checks a bounded bridge text.
pub fn validate_text(value: &str, max_bytes: usize) -> (r: Result<(), SkillBridgeError>)
    ensures
        r is Ok <==> bridge_text_ok(value@, max_bytes as nat),
        r matches Err(e) ==> e == SkillBridgeError::InvalidInput,
{
    if blank(value) || text_len(value) > max_bytes || contains_control(value) || contains_marker(
        value,
        "..",
    ) {
        return Err(SkillBridgeError::InvalidInput);
    }
    Ok(())
}

pub open spec fn is_digit(c: char) -> bool {
    '0' <= c && c <= '9'
}

/// Three non-empty runs of ASCII digits joined by dots.
pub open spec fn version_ok(s: Seq<char>) -> bool {
    exists|i: int, j: int|
        0 < i && i + 1 < j && j + 1 < s.len() && s[i] == '.' && s[j] == '.' && forall|k: int|
            0 <= k < s.len() && k != i && k != j ==> #[trigger] is_digit(s[k])
}

/// Checks a version written as three dot-separated numbers.
pub fn validate_version_text(value: &str) -> (r: Result<(), SkillBridgeError>)
    ensures
        r is Ok <==> version_ok(value@) && utf8_len(value@) <= MAX_VERSION_BYTES,
        r matches Err(e) ==> e == SkillBridgeError::InvalidInput,
{
    if text_len(value) > MAX_VERSION_BYTES {
        return Err(SkillBridgeError::InvalidInput);
    }
    let n = value.unicode_len();
    let ghost s = value@;
    let mut dots: usize = 0;
    let mut first: usize = 0;
    let mut second: usize = 0;
    let mut prev_dot = true;
    let mut k: usize = 0;
    while k < n
        invariant
            s == value@,
            n == s.len(),
            k <= n,
            dots <= 2,
            dots >= 1 ==> 0 < first < k && s[first as int] == '.',
            dots >= 2 ==> first + 1 < second < k && s[second as int] == '.',
            forall|m: int|
                0 <= m < k && !(dots >= 1 && m == first) && !(dots >= 2 && m == second) ==> #[trigger] is_digit(s[m]),
            prev_dot <==> (k == 0 || (dots >= 1 && k - 1 == first) || (dots >= 2 && k - 1 == second)),
        decreases n - k,
    {
        let c = value.get_char(k);
        if c == '.' {
            if prev_dot || dots == 2 {
                proof {
                    if version_ok(s) {
                        let (i, j) = choose|i: int, j: int|
                            0 < i && i + 1 < j && j + 1 < s.len() && s[i] == '.' && s[j] == '.'
                                && forall|q: int|
                                0 <= q < s.len() && q != i && q != j ==> #[trigger] is_digit(s[q]);
                        assert(!is_digit(s[k as int]));
                        if dots == 2 {
                            assert(!is_digit(s[first as int]));
                            assert(!is_digit(s[second as int]));
                        } else if k == 0 {
                        } else if dots >= 1 && k - 1 == first {
                            assert(!is_digit(s[first as int]));
                        } else {
                            assert(!is_digit(s[second as int]));
                        }
                    }
                }
                return Err(SkillBridgeError::InvalidInput);
            }
            if dots == 0 {
                first = k;
            } else {
                second = k;
            }
            dots = dots + 1;
            prev_dot = true;
        } else if '0' <= c && c <= '9' {
            prev_dot = false;
        } else {
            proof {
                if version_ok(s) {
                    let (i, j) = choose|i: int, j: int|
                        0 < i && i + 1 < j && j + 1 < s.len() && s[i] == '.' && s[j] == '.' && forall|
                            q: int,
                        |
                            0 <= q < s.len() && q != i && q != j ==> #[trigger] is_digit(s[q]);
                    assert(!is_digit(s[k as int]));
                }
            }
            return Err(SkillBridgeError::InvalidInput);
        }
        k = k + 1;
    }
    if dots != 2 || prev_dot {
        proof {
            if version_ok(s) {
                let (i, j) = choose|i: int, j: int|
                    0 < i && i + 1 < j && j + 1 < s.len() && s[i] == '.' && s[j] == '.' && forall|
                        q: int,
                    |
                        0 <= q < s.len() && q != i && q != j ==> #[trigger] is_digit(s[q]);
                assert(!is_digit(s[i]));
                assert(!is_digit(s[j]));
                if dots == 0 {
                } else if dots == 1 {
                    assert(i == first || j == first);
                } else {
                    assert(!is_digit(s[first as int]));
                    assert(!is_digit(s[second as int]));
                    assert(n - 1 == first || n - 1 == second || n == 0);
                }
            }
        }
        return Err(SkillBridgeError::InvalidInput);
    }
    proof {
        assert(0 < first && first + 1 < second && second + 1 < s.len());
    }
    Ok(())
}

// ---------------------------------------------------------------------------
// Inputs
// ---------------------------------------------------------------------------
/// The page a list request asks for: its scope (a project's skills by
/// default), a limit clamped to one through fifty, and an offset capped at
/// ten thousand.
pub fn normalize_list_input(input: &ListSkillsInput) -> (r: Result<(SkillScope, usize, usize), SkillBridgeError>)
    ensures
        r == Ok::<(SkillScope, usize, usize), SkillBridgeError>(
            (
                match input.scope {
                    Some(s) => s,
                    None => SkillScope::Project,
                },
                match input.limit {
                    Some(l) => if l < 1 {
                        1
                    } else if l > MAX_SKILLS_PER_PAGE {
                        MAX_SKILLS_PER_PAGE
                    } else {
                        l
                    },
                    None => MAX_SKILLS_PER_PAGE,
                },
                match input.offset {
                    Some(o) => if o > MAX_OFFSET {
                        MAX_OFFSET
                    } else {
                        o
                    },
                    None => 0,
                },
            ),
        ),
{
    let scope = match input.scope {
        Some(s) => s,
        None => SkillScope::Project,
    };
    let requested = match input.limit {
        Some(l) => l,
        None => MAX_SKILLS_PER_PAGE,
    };
    let limit = if requested < 1 {
        1
    } else if requested > MAX_SKILLS_PER_PAGE {
        MAX_SKILLS_PER_PAGE
    } else {
        requested
    };
    let requested_offset = match input.offset {
        Some(o) => o,
        None => 0,
    };
    let offset = if requested_offset > MAX_OFFSET {
        MAX_OFFSET
    } else {
        requested_offset
    };
    Ok((scope, limit, offset))
}

/// Why a rollback request is refused before it reaches the inventory, if
/// it is.
pub open spec fn rollback_fault(input: SkillRollbackInput) -> Option<SkillBridgeError> {
    if !input.confirmed {
        Some(SkillBridgeError::ConfirmationRequired)
    } else if input.capability@ != SKILL_ROLLBACK_CAPABILITY@ {
        Some(SkillBridgeError::MutationRejected { code: DomainErrorCode::PermissionDenied })
    } else if !bridge_text_ok(input.actor_id@, MAX_ACTOR_ID_BYTES as nat) {
        Some(SkillBridgeError::InvalidInput)
    } else if input.approval_id matches Some(a) && !bridge_text_ok(a@, MAX_APPROVAL_ID_BYTES as nat) {
        Some(SkillBridgeError::InvalidInput)
    } else {
        None
    }
}

/// A rollback must be confirmed, carry the rollback capability and name a
/// bounded actor and approval.
pub fn validate_rollback_input(input: &SkillRollbackInput) -> (r: Result<(), SkillBridgeError>)
    ensures
        match rollback_fault(*input) {
            Some(e) => r == Err::<(), SkillBridgeError>(e),
            None => r is Ok,
        },
{
    if !input.confirmed {
        return Err(SkillBridgeError::ConfirmationRequired);
    }
    if !same_text(input.capability.as_str(), SKILL_ROLLBACK_CAPABILITY) {
        return Err(SkillBridgeError::MutationRejected { code: DomainErrorCode::PermissionDenied });
    }
    validate_text(input.actor_id.as_str(), MAX_ACTOR_ID_BYTES)?;
    match &input.approval_id {
        Some(a) => validate_text(a.as_str(), MAX_APPROVAL_ID_BYTES)?,
        None => {},
    }
    Ok(())
}

/// The roles a skill file may play.
pub open spec fn role_ok(role: Seq<char>) -> bool {
    ||| role == "instruction"@
    ||| role == "script"@
    ||| role == "template"@
    ||| role == "reference"@
    ||| role == "test"@
    ||| role == "manifest"@
}

fn check_role(role: &str) -> (r: bool)
    ensures
        r == role_ok(role@),
{
    same_text(role, "instruction") || same_text(role, "script") || same_text(role, "template")
        || same_text(role, "reference") || same_text(role, "test") || same_text(role, "manifest")
}

pub open spec fn file_ok(f: SkillEditorFileInput) -> bool {
    &&& bridge_text_ok(f.path@, MAX_EDITOR_PATH_BYTES as nat)
    &&& bridge_text_ok(f.role@, MAX_ROLE_BYTES as nat)
    &&& utf8_len(f.content@) <= MAX_EDITOR_FILE_BYTES
    &&& role_ok(f.role@)
}

/// Why an editor document is refused, if it is: unreadable identifiers, a
/// malformed base version, an oversized document or file list, or a file
/// with a bad path, role or size.
pub open spec fn document_fault(
    project_id: Seq<char>,
    skill_id: Seq<char>,
    base_version: Seq<char>,
    document: Seq<char>,
    files: Seq<SkillEditorFileInput>,
) -> bool {
    ||| prefixed_value(project_id, "proj-"@) is None
    ||| prefixed_value(skill_id, "skill-"@) is None
    ||| !(version_ok(base_version) && utf8_len(base_version) <= MAX_VERSION_BYTES)
    ||| utf8_len(document) > MAX_EDITOR_DOCUMENT_BYTES
    ||| files.len() > MAX_EDITOR_FILES
    ||| exists|k: int| 0 <= k < files.len() && !#[trigger] file_ok(files[k])
}

/// Checks an editor document and reads its project and skill.
pub fn validate_editor_document_input(
    project_id: &str,
    skill_id: &str,
    base_version: &str,
    document: &str,
    files: &[SkillEditorFileInput],
) -> (r: Result<(ProjectId, SkillId), SkillBridgeError>)
    ensures
        document_fault(project_id@, skill_id@, base_version@, document@, files@) <==> r is Err,
        r matches Err(e) ==> e == SkillBridgeError::InvalidInput,
        r matches Ok((p, s)) ==> Some(p.0) == prefixed_value(project_id@, "proj-"@) && Some(s.0)
            == prefixed_value(skill_id@, "skill-"@),
{
    let project = match ProjectId::parse(project_id) {
        Some(p) => p,
        None => {
            return Err(SkillBridgeError::InvalidInput);
        },
    };
    let skill = match SkillId::parse(skill_id) {
        Some(s) => s,
        None => {
            return Err(SkillBridgeError::InvalidInput);
        },
    };
    validate_version_text(base_version)?;
    if text_len(document) > MAX_EDITOR_DOCUMENT_BYTES || files.len() > MAX_EDITOR_FILES {
        return Err(SkillBridgeError::InvalidInput);
    }
    let mut k: usize = 0;
    while k < files.len()
        invariant
            k <= files@.len(),
            forall|m: int| 0 <= m < k ==> #[trigger] file_ok(files@[m]),
        decreases files@.len() - k,
    {
        let file = &files[k];
        let path_ok = validate_text(file.path.as_str(), MAX_EDITOR_PATH_BYTES).is_ok();
        let role_text_ok = validate_text(file.role.as_str(), MAX_ROLE_BYTES).is_ok();
        if !path_ok || !role_text_ok || text_len(file.content.as_str()) > MAX_EDITOR_FILE_BYTES
            || !check_role(file.role.as_str()) {
            assert(!file_ok(files@[k as int]));
            return Err(SkillBridgeError::InvalidInput);
        }
        k = k + 1;
    }
    Ok((project, skill))
}

/// Why a save request is refused before the draft service sees it, if it
/// is.
pub open spec fn save_fault(input: SkillEditorSaveInput) -> Option<SkillBridgeError> {
    if !input.confirmed {
        Some(SkillBridgeError::ConfirmationRequired)
    } else if input.capability@ != SKILL_EDIT_CAPABILITY@ {
        Some(SkillBridgeError::MutationRejected { code: DomainErrorCode::PermissionDenied })
    } else if !bridge_text_ok(input.actor_id@, MAX_ACTOR_ID_BYTES as nat) || document_fault(
        input.project_id@,
        input.skill_id@,
        input.base_version@,
        input.document@,
        input.files@,
    ) || prefixed_value(input.trace_id@, "trace-"@) matches None || prefixed_value(
        input.trace_id@,
        "trace-"@,
    ) == Some(0u128) || input.expected_revision == 0 || !input.policy.allow
        || input.policy.max_document_bytes == 0 || input.policy.max_document_bytes
        > MAX_EDITOR_DOCUMENT_BYTES {
        Some(SkillBridgeError::InvalidInput)
    } else {
        None
    }
}

/// The checks a draft save passes before it is handed to the draft service:
/// confirmation, the edit capability, a bounded actor, a valid document, a
/// non-nil trace, a known revision and an allowing, bounded policy. Yields
/// the project, skill and trace the save is for.
pub fn check_save_input(input: &SkillEditorSaveInput) -> (r: Result<
    (ProjectId, SkillId, TraceId),
    SkillBridgeError,
>)
    ensures
        match save_fault(*input) {
            Some(e) => r == Err::<(ProjectId, SkillId, TraceId), SkillBridgeError>(e),
            None => r matches Ok((p, s, t)) && Some(p.0) == prefixed_value(input.project_id@, "proj-"@)
                && Some(s.0) == prefixed_value(input.skill_id@, "skill-"@) && Some(t.0)
                == prefixed_value(input.trace_id@, "trace-"@),
        },
{
    if !input.confirmed {
        return Err(SkillBridgeError::ConfirmationRequired);
    }
    if !same_text(input.capability.as_str(), SKILL_EDIT_CAPABILITY) {
        return Err(SkillBridgeError::MutationRejected { code: DomainErrorCode::PermissionDenied });
    }
    validate_text(input.actor_id.as_str(), MAX_ACTOR_ID_BYTES)?;
    let (project, skill) = validate_editor_document_input(
        input.project_id.as_str(),
        input.skill_id.as_str(),
        input.base_version.as_str(),
        input.document.as_str(),
        input.files.as_slice(),
    )?;
    let trace = match TraceId::parse(input.trace_id.as_str()) {
        Some(t) => t,
        None => {
            return Err(SkillBridgeError::InvalidInput);
        },
    };
    if trace.0 == 0 {
        return Err(SkillBridgeError::InvalidInput);
    }
    if input.expected_revision == 0 || !input.policy.allow || input.policy.max_document_bytes == 0
        || input.policy.max_document_bytes > MAX_EDITOR_DOCUMENT_BYTES {
        return Err(SkillBridgeError::InvalidInput);
    }
    Ok((project, skill, trace))
}

/// Why a discard request is refused before the draft service sees it, if
/// it is.
pub open spec fn discard_fault(input: SkillEditorDiscardInput) -> Option<SkillBridgeError> {
    if !input.confirmed {
        Some(SkillBridgeError::ConfirmationRequired)
    } else if input.capability@ != SKILL_DISCARD_CAPABILITY@ {
        Some(SkillBridgeError::MutationRejected { code: DomainErrorCode::PermissionDenied })
    } else if !bridge_text_ok(input.actor_id@, MAX_ACTOR_ID_BYTES as nat) || !(version_ok(
        input.version@,
    ) && utf8_len(input.version@) <= MAX_VERSION_BYTES) || prefixed_value(
        input.project_id@,
        "proj-"@,
    ) is None || prefixed_value(input.skill_id@, "skill-"@) is None || prefixed_value(
        input.trace_id@,
        "trace-"@,
    ) is None || input.expected_revision == 0 {
        Some(SkillBridgeError::InvalidInput)
    } else {
        None
    }
}

/// The checks a draft discard passes before it is handed to the draft
/// service; yields the project, skill and trace it is for.
pub fn check_discard_input(input: &SkillEditorDiscardInput) -> (r: Result<
    (ProjectId, SkillId, TraceId),
    SkillBridgeError,
>)
    ensures
        match discard_fault(*input) {
            Some(e) => r == Err::<(ProjectId, SkillId, TraceId), SkillBridgeError>(e),
            None => r matches Ok((p, s, t)) && Some(p.0) == prefixed_value(input.project_id@, "proj-"@)
                && Some(s.0) == prefixed_value(input.skill_id@, "skill-"@) && Some(t.0)
                == prefixed_value(input.trace_id@, "trace-"@),
        },
{
    if !input.confirmed {
        return Err(SkillBridgeError::ConfirmationRequired);
    }
    if !same_text(input.capability.as_str(), SKILL_DISCARD_CAPABILITY) {
        return Err(SkillBridgeError::MutationRejected { code: DomainErrorCode::PermissionDenied });
    }
    validate_text(input.actor_id.as_str(), MAX_ACTOR_ID_BYTES)?;
    validate_version_text(input.version.as_str())?;
    let project = match ProjectId::parse(input.project_id.as_str()) {
        Some(p) => p,
        None => {
            return Err(SkillBridgeError::InvalidInput);
        },
    };
    let skill = match SkillId::parse(input.skill_id.as_str()) {
        Some(s) => s,
        None => {
            return Err(SkillBridgeError::InvalidInput);
        },
    };
    let trace = match TraceId::parse(input.trace_id.as_str()) {
        Some(t) => t,
        None => {
            return Err(SkillBridgeError::InvalidInput);
        },
    };
    if input.expected_revision == 0 {
        return Err(SkillBridgeError::InvalidInput);
    }
    Ok((project, skill, trace))
}

/// The digest that stands for a skill's source reference: its SHA-256 in
/// lower-case hexadecimal, so the reference itself never crosses the
/// bridge.
pub fn digest_reference(reference: &str) -> (r: String)
    ensures
        r@ == hex_bytes(sha256_of(reference.spec_bytes())),
        r@.len() == 64,
{
    let hash = sha256(reference.as_bytes());
    let out = lower_hex(hash.as_slice());
    proof {
        crate::digest::lemma_hex_bytes_len(hash@);
    }
    out
}

/// Every mutation the bridge forwards was confirmed and carried the
/// capability of its kind; anything else is refused before any service is
/// reached.
pub proof fn law_mutations_need_confirmation_and_capability(
    rollback: SkillRollbackInput,
    save: SkillEditorSaveInput,
    discard: SkillEditorDiscardInput,
)
    ensures
        rollback_fault(rollback) is None ==> rollback.confirmed && rollback.capability@
            == SKILL_ROLLBACK_CAPABILITY@,
        save_fault(save) is None ==> save.confirmed && save.capability@ == SKILL_EDIT_CAPABILITY@,
        discard_fault(discard) is None ==> discard.confirmed && discard.capability@
            == SKILL_DISCARD_CAPABILITY@,
        !rollback.confirmed ==> rollback_fault(rollback) == Some(SkillBridgeError::ConfirmationRequired),
{
}

} // verus!
