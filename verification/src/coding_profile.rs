//! Bounded profile for coding agents. Only identity, scope, limits and the
//! handoff are checked here; no tool, repository or network is touched.
use crate::ids::{ProjectId, TaskId};
use crate::task_mapping::{MappingState, TaskWorkspaceMapping};
use crate::text::{
    blank, contains_bytes, contains_char, contains_ci, contains_control, contains_marker,
    contains_marker_ci, has_char, has_control, is_blank, is_lower_hex_of_len, lower_hex_of_len,
    starts_with_char, text_len, utf8_len,
};
use vstd::prelude::*;
use vstd::string::StringSliceAdditionalSpecFns;

verus! {

pub const CODING_PROFILE_SCHEMA_VERSION: u32 = 1;

pub const MAX_POLICY_REVISION_LEN: usize = 128;

pub const MAX_PROFILE_TOOLS: usize = 16;

pub const MAX_PROFILE_CHECKS: usize = 16;

pub const MAX_PATHS_PER_HANDOFF: usize = 128;

pub const MAX_PATH_LEN: usize = 512;

pub const MAX_DIGEST_LEN: usize = 64;

pub const MAX_CODING_TOKENS: u64 = 1_000_000;

pub const MAX_CODING_INVOCATIONS: u32 = 64;

pub const MAX_CODING_WALL_TIME_SECONDS: u64 = 86_400;

#[derive(Debug, Clone, PartialEq, Eq)]
pub enum CodingProfileError {
    InvalidProfile(String),
    ScopeMismatch,
    MappingInactive,
    UnsafeIdentity,
    ToolDenied,
    PathDenied,
    NetworkDenied,
    PublicationDenied,
    MergeDenied,
    BudgetExceeded(String),
    Cancelled,
    InvalidHandoff(String),
}

/// The observable content of a coding profile error.
pub enum CodingFault {
    InvalidProfile(Seq<char>),
    ScopeMismatch,
    MappingInactive,
    UnsafeIdentity,
    ToolDenied,
    PathDenied,
    NetworkDenied,
    PublicationDenied,
    MergeDenied,
    BudgetExceeded(Seq<char>),
    Cancelled,
    InvalidHandoff(Seq<char>),
}

pub open spec fn fault_of(e: CodingProfileError) -> CodingFault {
    match e {
        CodingProfileError::InvalidProfile(m) => CodingFault::InvalidProfile(m@),
        CodingProfileError::ScopeMismatch => CodingFault::ScopeMismatch,
        CodingProfileError::MappingInactive => CodingFault::MappingInactive,
        CodingProfileError::UnsafeIdentity => CodingFault::UnsafeIdentity,
        CodingProfileError::ToolDenied => CodingFault::ToolDenied,
        CodingProfileError::PathDenied => CodingFault::PathDenied,
        CodingProfileError::NetworkDenied => CodingFault::NetworkDenied,
        CodingProfileError::PublicationDenied => CodingFault::PublicationDenied,
        CodingProfileError::MergeDenied => CodingFault::MergeDenied,
        CodingProfileError::BudgetExceeded(m) => CodingFault::BudgetExceeded(m@),
        CodingProfileError::Cancelled => CodingFault::Cancelled,
        CodingProfileError::InvalidHandoff(m) => CodingFault::InvalidHandoff(m@),
    }
}

#[derive(Debug, Clone, Copy, PartialEq, Eq, Hash, Structural)]
pub enum CodingTool {
    ReadFile,
    WriteFile,
    ApplyPatch,
    RunTests,
    RunArbitraryCommand,
    NetworkRequest,
    PublishChange,
    MergeChange,
}

pub open spec fn tool_forbidden(t: CodingTool) -> bool {
    t == CodingTool::RunArbitraryCommand || t == CodingTool::NetworkRequest || t
        == CodingTool::PublishChange || t == CodingTool::MergeChange
}

pub open spec fn tool_needs_path(t: CodingTool) -> bool {
    t == CodingTool::ReadFile || t == CodingTool::WriteFile || t == CodingTool::ApplyPatch
}

impl CodingTool {
    pub fn is_forbidden(&self) -> (r: bool)
        ensures
            r == tool_forbidden(*self),
    {
        match self {
            CodingTool::RunArbitraryCommand | CodingTool::NetworkRequest
            | CodingTool::PublishChange | CodingTool::MergeChange => true,
            _ => false,
        }
    }

    pub fn requires_path(&self) -> (r: bool)
        ensures
            r == tool_needs_path(*self),
    {
        match self {
            CodingTool::ReadFile | CodingTool::WriteFile | CodingTool::ApplyPatch => true,
            _ => false,
        }
    }
}

#[derive(Debug, Clone, Copy, PartialEq, Eq, Structural)]
pub struct CodingBudget {
    pub max_input_tokens: u64,
    pub max_output_tokens: u64,
    pub max_invocations: u32,
    pub max_attempts: u32,
    pub max_wall_time_seconds: u64,
}

pub open spec fn budget_valid(b: CodingBudget) -> bool {
    &&& 1 <= b.max_input_tokens <= MAX_CODING_TOKENS
    &&& 1 <= b.max_output_tokens <= MAX_CODING_TOKENS
    &&& 1 <= b.max_invocations <= MAX_CODING_INVOCATIONS
    &&& 1 <= b.max_attempts <= 3
    &&& 1 <= b.max_wall_time_seconds <= MAX_CODING_WALL_TIME_SECONDS
}

impl Default for CodingBudget {
    fn default() -> (r: Self)
        ensures
            r == (CodingBudget {
                max_input_tokens: 100_000,
                max_output_tokens: 100_000,
                max_invocations: 16,
                max_attempts: 3,
                max_wall_time_seconds: 900,
            }),
    {
        CodingBudget {
            max_input_tokens: 100_000,
            max_output_tokens: 100_000,
            max_invocations: 16,
            max_attempts: 3,
            max_wall_time_seconds: 900,
        }
    }
}

impl CodingBudget {
    pub fn is_valid(&self) -> (r: bool)
        ensures
            r == budget_valid(*self),
    {
        !(self.max_input_tokens == 0 || self.max_input_tokens > MAX_CODING_TOKENS
            || self.max_output_tokens == 0 || self.max_output_tokens > MAX_CODING_TOKENS
            || self.max_invocations == 0 || self.max_invocations > MAX_CODING_INVOCATIONS
            || self.max_attempts == 0 || self.max_attempts > 3 || self.max_wall_time_seconds == 0
            || self.max_wall_time_seconds > MAX_CODING_WALL_TIME_SECONDS)
    }
}

#[derive(Debug, Clone, Copy, PartialEq, Eq, Structural)]
pub struct CodingAutonomy {
    allow_network: bool,
    allow_publication: bool,
    allow_merge: bool,
    max_attempts: u32,
}

impl Default for CodingAutonomy {
    fn default() -> (r: Self)
        ensures
            !r.network_of() && !r.publication_of() && !r.merge_of() && r.attempts_of() == 0,
    {
        CodingAutonomy {
            allow_network: false,
            allow_publication: false,
            allow_merge: false,
            max_attempts: 0,
        }
    }
}

impl CodingAutonomy {
    pub closed spec fn network_of(&self) -> bool {
        self.allow_network
    }

    pub closed spec fn publication_of(&self) -> bool {
        self.allow_publication
    }

    pub closed spec fn merge_of(&self) -> bool {
        self.allow_merge
    }

    pub closed spec fn attempts_of(&self) -> u32 {
        self.max_attempts
    }

    pub fn allow_network(&self) -> (r: bool)
        ensures
            r == self.network_of(),
    {
        self.allow_network
    }

    pub fn allow_publication(&self) -> (r: bool)
        ensures
            r == self.publication_of(),
    {
        self.allow_publication
    }

    pub fn allow_merge(&self) -> (r: bool)
        ensures
            r == self.merge_of(),
    {
        self.allow_merge
    }

    pub fn max_attempts(&self) -> (r: u32)
        ensures
            r == self.attempts_of(),
    {
        self.max_attempts
    }

    /// An autonomy that grants nothing beyond `max_attempts` attempts.
    pub fn restricted(max_attempts: u32) -> (r: Self)
        ensures
            !r.network_of() && !r.publication_of() && !r.merge_of(),
            r.attempts_of() == max_attempts,
    {
        CodingAutonomy {
            allow_network: false,
            allow_publication: false,
            allow_merge: false,
            max_attempts,
        }
    }
}

#[derive(Debug, Clone, Copy, PartialEq, Eq, Hash, Structural)]
pub enum CodingCheck {
    Formatting,
    Tests,
    Lint,
    Security,
}

impl Default for CodingCheck {
    fn default() -> (r: Self)
        ensures
            r == CodingCheck::Formatting,
    {
        CodingCheck::Formatting
    }
}

#[derive(Debug, Clone)]
pub struct CodingAgentProfile {
    pub schema_version: u32,
    pub policy_revision: String,
    pub allowed_tools: Vec<CodingTool>,
    pub budget: CodingBudget,
    pub autonomy: CodingAutonomy,
    pub required_checks: Vec<CodingCheck>,
}

/// Text that tries to steer an agent (ASCII case ignored).
pub open spec fn instruction_like(s: Seq<char>) -> bool {
    let b = vstd::utf8::encode_utf8(s);
    ||| contains_ci(b, "ignore previous instructions".spec_bytes())
    ||| contains_ci(b, "system prompt".spec_bytes())
    ||| contains_ci(b, "approve merge".spec_bytes())
    ||| contains_ci(b, "grant capability".spec_bytes())
}

pub open spec fn safe_identity(s: Seq<char>) -> bool {
    !is_blank(s) && !has_control(s) && !instruction_like(s)
}

/// A relative path inside the worktree: non-empty, bounded, not absolute,
/// no parent step, no backslash, colon or control character, no steering
/// text.
pub open spec fn path_ok(p: Seq<char>) -> bool {
    &&& p.len() > 0
    &&& utf8_len(p) <= MAX_PATH_LEN
    &&& p[0] != '/'
    &&& p[0] != '\\'
    &&& !contains_bytes(vstd::utf8::encode_utf8(p), "..".spec_bytes())
    &&& !has_char(p, '\\')
    &&& !has_char(p, ':')
    &&& !has_char(p, '\n')
    &&& !has_char(p, '\r')
    &&& !has_control(p)
    &&& !instruction_like(p)
}

pub open spec fn has_dup<T>(s: Seq<T>) -> bool {
    exists|i: int, j: int| 0 <= i < j < s.len() && s[i] == s[j]
}

pub open spec fn any_forbidden(s: Seq<CodingTool>) -> bool {
    exists|i: int| 0 <= i < s.len() && tool_forbidden(#[trigger] s[i])
}

pub open spec fn autonomy_fault(a: CodingAutonomy) -> Option<Seq<char>> {
    if a.network_of() || a.publication_of() || a.merge_of() {
        Some("coding autonomy cannot grant network, publication, or merge"@)
    } else if a.attempts_of() == 0 || a.attempts_of() > 3 {
        Some("coding autonomy attempts are outside bounded limits"@)
    } else {
        None
    }
}

/// The message of the first rule a profile breaks, if any.
pub open spec fn profile_fault(p: CodingAgentProfile) -> Option<Seq<char>> {
    let rev = p.policy_revision@;
    if p.schema_version != CODING_PROFILE_SCHEMA_VERSION || is_blank(rev) || utf8_len(rev)
        > MAX_POLICY_REVISION_LEN || has_control(rev) || instruction_like(rev) {
        Some("coding profile schema or policy revision is invalid"@)
    } else if p.allowed_tools@.len() == 0 || p.allowed_tools@.len() > MAX_PROFILE_TOOLS {
        Some("coding profile tool allowlist is invalid"@)
    } else if any_forbidden(p.allowed_tools@) || has_dup(p.allowed_tools@) {
        Some("coding profile contains forbidden or duplicate tool"@)
    } else if p.required_checks@.len() == 0 || p.required_checks@.len() > MAX_PROFILE_CHECKS {
        Some("coding profile required checks are invalid"@)
    } else if has_dup(p.required_checks@) {
        Some("coding profile contains duplicate required checks"@)
    } else if !budget_valid(p.budget) {
        Some("coding budget is outside bounded limits"@)
    } else if autonomy_fault(p.autonomy) is Some {
        autonomy_fault(p.autonomy)
    } else if p.autonomy.attempts_of() > p.budget.max_attempts {
        Some("coding autonomy attempts exceed budget attempts"@)
    } else {
        None
    }
}

pub open spec fn profile_result_ok(p: CodingAgentProfile, r: Result<(), CodingProfileError>) -> bool {
    match profile_fault(p) {
        None => r is Ok,
        Some(m) => r matches Err(e) && fault_of(e) == CodingFault::InvalidProfile(m),
    }
}

#[derive(Debug, Clone, Copy, PartialEq, Eq, Structural)]
pub struct CodingBudgetUsage {
    pub input_tokens: u64,
    pub output_tokens: u64,
    pub invocations: u32,
    pub attempts: u32,
    pub wall_time_seconds: u64,
}

pub open spec fn usage_within(b: CodingBudget, u: CodingBudgetUsage) -> bool {
    &&& u.input_tokens <= b.max_input_tokens
    &&& u.output_tokens <= b.max_output_tokens
    &&& u.invocations <= b.max_invocations
    &&& u.attempts <= b.max_attempts
    &&& u.wall_time_seconds <= b.max_wall_time_seconds
}

impl Default for CodingBudgetUsage {
    fn default() -> (r: Self)
        ensures
            r == (CodingBudgetUsage {
                input_tokens: 0,
                output_tokens: 0,
                invocations: 0,
                attempts: 0,
                wall_time_seconds: 0,
            }),
    {
        CodingBudgetUsage {
            input_tokens: 0,
            output_tokens: 0,
            invocations: 0,
            attempts: 0,
            wall_time_seconds: 0,
        }
    }
}

impl CodingBudgetUsage {
    pub fn new(
        input_tokens: u64,
        output_tokens: u64,
        invocations: u32,
        attempts: u32,
        wall_time_seconds: u64,
    ) -> (r: Self)
        ensures
            r == (CodingBudgetUsage {
                input_tokens,
                output_tokens,
                invocations,
                attempts,
                wall_time_seconds,
            }),
    {
        CodingBudgetUsage { input_tokens, output_tokens, invocations, attempts, wall_time_seconds }
    }
}

#[derive(Debug, Clone)]
pub struct CodingAgentRequest {
    pub project_id: ProjectId,
    pub task_id: TaskId,
    pub repository_id: String,
    pub worktree_id: String,
    pub branch: String,
    pub tool: CodingTool,
    pub path: Option<String>,
    pub usage: CodingBudgetUsage,
    pub network: bool,
    pub publication: bool,
    pub merge: bool,
    pub cancelled: bool,
}

impl CodingAgentRequest {
    /// A request that asks for no network, publication or merge.
    #[allow(clippy::too_many_arguments)]
    pub fn new(
        project_id: ProjectId,
        task_id: TaskId,
        repository_id: String,
        worktree_id: String,
        branch: String,
        tool: CodingTool,
        path: Option<String>,
        usage: CodingBudgetUsage,
    ) -> (r: Self)
        ensures
            r == (CodingAgentRequest {
                project_id,
                task_id,
                repository_id,
                worktree_id,
                branch,
                tool,
                path,
                usage,
                network: false,
                publication: false,
                merge: false,
                cancelled: false,
            }),
    {
        CodingAgentRequest {
            project_id,
            task_id,
            repository_id,
            worktree_id,
            branch,
            tool,
            path,
            usage,
            network: false,
            publication: false,
            merge: false,
            cancelled: false,
        }
    }

    pub fn with_project_id(self, project_id: ProjectId) -> (r: Self)
        ensures
            r == (CodingAgentRequest { project_id, ..self }),
    {
        CodingAgentRequest { project_id, ..self }
    }

    pub fn with_usage(self, usage: CodingBudgetUsage) -> (r: Self)
        ensures
            r == (CodingAgentRequest { usage, ..self }),
    {
        CodingAgentRequest { usage, ..self }
    }

    pub fn requesting_network(self) -> (r: Self)
        ensures
            r == (CodingAgentRequest { network: true, ..self }),
    {
        CodingAgentRequest { network: true, ..self }
    }

    pub fn requesting_publication(self) -> (r: Self)
        ensures
            r == (CodingAgentRequest { publication: true, ..self }),
    {
        CodingAgentRequest { publication: true, ..self }
    }

    pub fn requesting_merge(self) -> (r: Self)
        ensures
            r == (CodingAgentRequest { merge: true, ..self }),
    {
        CodingAgentRequest { merge: true, ..self }
    }

    pub fn cancelled(self) -> (r: Self)
        ensures
            r == (CodingAgentRequest { cancelled: true, ..self }),
    {
        CodingAgentRequest { cancelled: true, ..self }
    }
}

#[derive(Debug, Clone)]
pub struct CodingPermit {
    project_id: ProjectId,
    task_id: TaskId,
    worktree_id: String,
    branch: String,
    policy_revision: String,
}

impl CodingPermit {
    pub closed spec fn project_id_of(&self) -> ProjectId {
        self.project_id
    }

    pub closed spec fn task_id_of(&self) -> TaskId {
        self.task_id
    }

    pub closed spec fn worktree_id_of(&self) -> Seq<char> {
        self.worktree_id@
    }

    pub closed spec fn branch_of(&self) -> Seq<char> {
        self.branch@
    }

    pub closed spec fn policy_revision_of(&self) -> Seq<char> {
        self.policy_revision@
    }

    pub fn project_id(&self) -> (r: ProjectId)
        ensures
            r == self.project_id_of(),
    {
        self.project_id
    }

    pub fn task_id(&self) -> (r: TaskId)
        ensures
            r == self.task_id_of(),
    {
        self.task_id
    }

    pub fn worktree_id(&self) -> (r: &str)
        ensures
            r@ == self.worktree_id_of(),
    {
        self.worktree_id.as_str()
    }

    pub fn branch(&self) -> (r: &str)
        ensures
            r@ == self.branch_of(),
    {
        self.branch.as_str()
    }

    pub fn policy_revision(&self) -> (r: &str)
        ensures
            r@ == self.policy_revision_of(),
    {
        self.policy_revision.as_str()
    }

    /// A coding permit never publishes.
    pub fn can_publish(&self) -> (r: bool)
        ensures
            !r,
    {
        false
    }

    /// A coding permit never merges.
    pub fn can_merge(&self) -> (r: bool)
        ensures
            !r,
    {
        false
    }
}

#[derive(Debug, Clone, Copy, PartialEq, Eq, Structural)]
pub enum HandoffStatus {
    Proposed,
    Rejected,
    Superseded,
}

#[derive(Debug, Clone, Copy, PartialEq, Eq, Structural)]
pub enum CodingCheckStatus {
    Passed,
    Failed,
    Skipped,
    NoRun,
}

#[derive(Debug, Clone)]
pub struct CodingCheckResult {
    pub check: CodingCheck,
    pub status: CodingCheckStatus,
    pub digest: String,
}

impl CodingCheckResult {
    pub fn passed(check: CodingCheck, digest: String) -> (r: Self)
        ensures
            r == (CodingCheckResult { check, status: CodingCheckStatus::Passed, digest }),
    {
        CodingCheckResult { check, status: CodingCheckStatus::Passed, digest }
    }

    pub fn skipped(check: CodingCheck) -> (r: Self)
        ensures
            r.check == check,
            r.status == CodingCheckStatus::Skipped,
            r.digest@.len() == 0,
    {
        CodingCheckResult { check, status: CodingCheckStatus::Skipped, digest: String::new() }
    }
}

#[derive(Debug, Clone)]
pub struct CodingAgentHandoff {
    pub schema_version: u32,
    pub profile_revision: String,
    pub project_id: ProjectId,
    pub task_id: TaskId,
    pub repository_id: String,
    pub worktree_id: String,
    pub branch: String,
    pub status: HandoffStatus,
    pub changed_paths: Vec<String>,
    pub patch_digest: String,
    pub report_digest: String,
    pub checks: Vec<CodingCheckResult>,
}

pub open spec fn digest_message() -> Seq<char> {
    "digest must be 64 lowercase hexadecimal characters"@
}

pub open spec fn digest_ok(s: Seq<char>) -> bool {
    lower_hex_of_len(s, MAX_DIGEST_LEN as nat)
}

pub open spec fn paths_fault(paths: Seq<String>) -> Option<Seq<char>> {
    if paths.len() == 0 || paths.len() > MAX_PATHS_PER_HANDOFF {
        Some("changed path list is outside bounds"@)
    } else if exists|i: int| 0 <= i < paths.len() && !path_ok(#[trigger] paths[i]@) {
        Some("changed path is invalid"@)
    } else {
        None
    }
}

pub open spec fn check_kinds(checks: Seq<CodingCheckResult>) -> Seq<CodingCheck> {
    checks.map_values(|c: CodingCheckResult| c.check)
}

pub open spec fn shape_fault(checks: Seq<CodingCheckResult>) -> Option<Seq<char>> {
    if checks.len() == 0 || checks.len() > MAX_PROFILE_CHECKS {
        Some("check result list is outside bounds"@)
    } else if has_dup(check_kinds(checks)) {
        Some("duplicate check result"@)
    } else {
        None
    }
}

/// The result recorded for check `c`.
pub open spec fn result_for(checks: Seq<CodingCheckResult>, c: CodingCheck) -> CodingCheckResult {
    checks[result_index(checks, c)]
}

pub open spec fn result_index(checks: Seq<CodingCheckResult>, c: CodingCheck) -> int {
    choose|i: int| 0 <= i < checks.len() && checks[i].check == c
}

pub open spec fn has_result(checks: Seq<CodingCheckResult>, c: CodingCheck) -> bool {
    exists|i: int| 0 <= i < checks.len() && checks[i].check == c
}

/// The first required check, in profile order, whose result is missing,
/// not passed or without a valid digest.
pub open spec fn required_fault(req: Seq<CodingCheck>, checks: Seq<CodingCheckResult>) -> Option<Seq<char>>
    decreases req.len(),
{
    if req.len() == 0 {
        None
    } else {
        let prev = required_fault(req.drop_last(), checks);
        if prev is Some {
            prev
        } else {
            let c = req.last();
            if !has_result(checks, c) {
                Some("required check result is missing"@)
            } else if result_for(checks, c).status != CodingCheckStatus::Passed {
                Some("required check did not pass"@)
            } else if !digest_ok(result_for(checks, c).digest@) {
                Some(digest_message())
            } else {
                None
            }
        }
    }
}

pub open spec fn passed_digest_fault(checks: Seq<CodingCheckResult>) -> bool {
    exists|i: int|
        0 <= i < checks.len() && #[trigger] checks[i].status == CodingCheckStatus::Passed
            && !digest_ok(checks[i].digest@)
}

pub open spec fn mapping_scope_matches(
    m: TaskWorkspaceMapping,
    project_id: ProjectId,
    task_id: TaskId,
    repository_id: Seq<char>,
    worktree_id: Seq<char>,
    branch: Seq<char>,
) -> bool {
    &&& project_id == m.project_id
    &&& task_id == m.task_id
    &&& repository_id == m.repository_id@
    &&& worktree_id == m.worktree_id@
    &&& branch == m.branch@
}

/// The first reason a request is refused, in the order the profile checks
/// them.
pub open spec fn authorize_fault(
    p: CodingAgentProfile,
    m: TaskWorkspaceMapping,
    r: CodingAgentRequest,
) -> Option<CodingFault> {
    if profile_fault(p) is Some {
        Some(CodingFault::InvalidProfile(profile_fault(p)->Some_0))
    } else if m.state != MappingState::Active {
        Some(CodingFault::MappingInactive)
    } else if !mapping_scope_matches(
        m,
        r.project_id,
        r.task_id,
        r.repository_id@,
        r.worktree_id@,
        r.branch@,
    ) {
        Some(CodingFault::ScopeMismatch)
    } else if !safe_identity(r.repository_id@) || !safe_identity(r.worktree_id@)
        || !safe_identity(r.branch@) {
        Some(CodingFault::UnsafeIdentity)
    } else if r.cancelled {
        Some(CodingFault::Cancelled)
    } else if r.network {
        Some(CodingFault::NetworkDenied)
    } else if r.publication {
        Some(CodingFault::PublicationDenied)
    } else if r.merge {
        Some(CodingFault::MergeDenied)
    } else if !p.allowed_tools@.contains(r.tool) || tool_forbidden(r.tool) {
        Some(CodingFault::ToolDenied)
    } else if (tool_needs_path(r.tool) && r.path is None) || (r.path matches Some(x) && !path_ok(
        x@,
    )) {
        Some(CodingFault::PathDenied)
    } else if !usage_within(p.budget, r.usage) {
        Some(CodingFault::BudgetExceeded("usage exceeds profile limits"@))
    } else {
        None
    }
}

/// The first reason a handoff is refused, in the order it is checked.
pub open spec fn handoff_fault(
    h: CodingAgentHandoff,
    p: CodingAgentProfile,
    m: TaskWorkspaceMapping,
) -> Option<CodingFault> {
    if profile_fault(p) is Some {
        Some(CodingFault::InvalidProfile(profile_fault(p)->Some_0))
    } else if m.state != MappingState::Active {
        Some(CodingFault::MappingInactive)
    } else if h.schema_version != CODING_PROFILE_SCHEMA_VERSION || h.profile_revision@
        != p.policy_revision@ || !mapping_scope_matches(
        m,
        h.project_id,
        h.task_id,
        h.repository_id@,
        h.worktree_id@,
        h.branch@,
    ) {
        Some(CodingFault::InvalidHandoff("handoff identity or profile revision is stale"@))
    } else if h.status != HandoffStatus::Proposed {
        Some(CodingFault::InvalidHandoff("handoff is not a proposal"@))
    } else if !safe_identity(h.profile_revision@) || !safe_identity(h.repository_id@)
        || !safe_identity(h.worktree_id@) || !safe_identity(h.branch@) {
        Some(CodingFault::UnsafeIdentity)
    } else if paths_fault(h.changed_paths@) is Some {
        Some(CodingFault::InvalidHandoff(paths_fault(h.changed_paths@)->Some_0))
    } else if !digest_ok(h.patch_digest@) || !digest_ok(h.report_digest@) {
        Some(CodingFault::InvalidHandoff(digest_message()))
    } else if shape_fault(h.checks@) is Some {
        Some(CodingFault::InvalidHandoff(shape_fault(h.checks@)->Some_0))
    } else if required_fault(p.required_checks@, h.checks@) is Some {
        Some(CodingFault::InvalidHandoff(required_fault(p.required_checks@, h.checks@)->Some_0))
    } else if passed_digest_fault(h.checks@) {
        Some(CodingFault::InvalidHandoff(digest_message()))
    } else {
        None
    }
}

pub open spec fn result_matches_fault<T>(r: Result<T, CodingProfileError>, f: Option<CodingFault>) -> bool {
    match f {
        None => r is Ok,
        Some(x) => r matches Err(e) && fault_of(e) == x,
    }
}

// ---------------------------------------------------------------------------
// Checks
// ---------------------------------------------------------------------------
pub fn contains_instruction_like(value: &str) -> (r: bool)
    ensures
        r == instruction_like(value@),
{
    contains_marker_ci(value, "ignore previous instructions") || contains_marker_ci(
        value,
        "system prompt",
    ) || contains_marker_ci(value, "approve merge") || contains_marker_ci(
        value,
        "grant capability",
    )
}

fn is_safe_identity(value: &str) -> (r: bool)
    ensures
        r == safe_identity(value@),
{
    !blank(value) && !contains_control(value) && !contains_instruction_like(value)
}

fn is_valid_path(path: &str) -> (r: bool)
    ensures
        r == path_ok(path@),
{
    if path.is_empty() || text_len(path) > MAX_PATH_LEN {
        return false;
    }
    !(starts_with_char(path, '/') || starts_with_char(path, '\\') || contains_marker(path, "..")
        || contains_char(path, '\\') || contains_char(path, ':') || contains_char(path, '\n')
        || contains_char(path, '\r') || contains_control(path) || contains_instruction_like(path))
}

fn tools_contain(tools: &Vec<CodingTool>, t: CodingTool) -> (r: bool)
    ensures
        r == tools@.contains(t),
{
    let mut i: usize = 0;
    while i < tools.len()
        invariant
            i <= tools@.len(),
            forall|k: int| 0 <= k < i ==> tools@[k] != t,
        decreases tools@.len() - i,
    {
        if tools[i] == t {
            assert(tools@[i as int] == t);
            return true;
        }
        i = i + 1;
    }
    false
}

fn tools_forbidden_or_duplicate(tools: &Vec<CodingTool>) -> (r: bool)
    ensures
        r == (any_forbidden(tools@) || has_dup(tools@)),
{
    let mut j: usize = 0;
    while j < tools.len()
        invariant
            j <= tools@.len(),
            forall|a: int| 0 <= a < j ==> !tool_forbidden(#[trigger] tools@[a]),
            forall|a: int, b: int| 0 <= a < b < j ==> tools@[a] != tools@[b],
        decreases tools@.len() - j,
    {
        if tools[j].is_forbidden() {
            assert(tool_forbidden(tools@[j as int]));
            return true;
        }
        let mut i: usize = 0;
        while i < j
            invariant
                j < tools@.len(),
                i <= j,
                forall|a: int| 0 <= a < i ==> tools@[a] != tools@[j as int],
            decreases j - i,
        {
            if tools[i] == tools[j] {
                assert(0 <= i < j < tools@.len() && tools@[i as int] == tools@[j as int]);
                return true;
            }
            i = i + 1;
        }
        j = j + 1;
    }
    false
}

fn checks_duplicate(checks: &Vec<CodingCheck>) -> (r: bool)
    ensures
        r == has_dup(checks@),
{
    let mut j: usize = 0;
    while j < checks.len()
        invariant
            j <= checks@.len(),
            forall|a: int, b: int| 0 <= a < b < j ==> checks@[a] != checks@[b],
        decreases checks@.len() - j,
    {
        let mut i: usize = 0;
        while i < j
            invariant
                j < checks@.len(),
                i <= j,
                forall|a: int| 0 <= a < i ==> checks@[a] != checks@[j as int],
            decreases j - i,
        {
            if checks[i] == checks[j] {
                assert(0 <= i < j < checks@.len() && checks@[i as int] == checks@[j as int]);
                return true;
            }
            i = i + 1;
        }
        j = j + 1;
    }
    false
}

fn result_kinds_duplicate(checks: &Vec<CodingCheckResult>) -> (r: bool)
    ensures
        r == has_dup(check_kinds(checks@)),
{
    let ghost kinds = check_kinds(checks@);
    let mut j: usize = 0;
    while j < checks.len()
        invariant
            kinds == check_kinds(checks@),
            j <= checks@.len(),
            forall|a: int, b: int| 0 <= a < b < j ==> kinds[a] != kinds[b],
        decreases checks@.len() - j,
    {
        let mut i: usize = 0;
        while i < j
            invariant
                kinds == check_kinds(checks@),
                j < checks@.len(),
                i <= j,
                forall|a: int| 0 <= a < i ==> kinds[a] != kinds[j as int],
            decreases j - i,
        {
            if checks[i].check == checks[j].check {
                assert(0 <= i < j < kinds.len() && kinds[i as int] == kinds[j as int]);
                return true;
            }
            i = i + 1;
        }
        j = j + 1;
    }
    false
}

fn invalid_profile(message: &str) -> (r: CodingProfileError)
    ensures
        fault_of(r) == CodingFault::InvalidProfile(message@),
{
    CodingProfileError::InvalidProfile(message.to_owned())
}

fn invalid_handoff(message: &str) -> (r: CodingProfileError)
    ensures
        fault_of(r) == CodingFault::InvalidHandoff(message@),
{
    CodingProfileError::InvalidHandoff(message.to_owned())
}

fn validate_autonomy(a: &CodingAutonomy) -> (r: Result<(), CodingProfileError>)
    ensures
        match autonomy_fault(*a) {
            None => r is Ok,
            Some(m) => r matches Err(e) && fault_of(e) == CodingFault::InvalidProfile(m),
        },
{
    if a.allow_network || a.allow_publication || a.allow_merge {
        return Err(invalid_profile("coding autonomy cannot grant network, publication, or merge"));
    }
    if a.max_attempts == 0 || a.max_attempts > 3 {
        return Err(invalid_profile("coding autonomy attempts are outside bounded limits"));
    }
    Ok(())
}

fn validate_handoff_paths(paths: &Vec<String>) -> (r: Result<(), CodingProfileError>)
    ensures
        match paths_fault(paths@) {
            None => r is Ok,
            Some(m) => r matches Err(e) && fault_of(e) == CodingFault::InvalidHandoff(m),
        },
{
    if paths.len() == 0 || paths.len() > MAX_PATHS_PER_HANDOFF {
        return Err(invalid_handoff("changed path list is outside bounds"));
    }
    let mut i: usize = 0;
    while i < paths.len()
        invariant
            1 <= paths@.len() <= MAX_PATHS_PER_HANDOFF,
            i <= paths@.len(),
            forall|k: int| 0 <= k < i ==> path_ok(#[trigger] paths@[k]@),
        decreases paths@.len() - i,
    {
        if !is_valid_path(paths[i].as_str()) {
            assert(!path_ok(paths@[i as int]@));
            return Err(invalid_handoff("changed path is invalid"));
        }
        i = i + 1;
    }
    Ok(())
}

fn validate_check_shape(checks: &Vec<CodingCheckResult>) -> (r: Result<(), CodingProfileError>)
    ensures
        match shape_fault(checks@) {
            None => r is Ok,
            Some(m) => r matches Err(e) && fault_of(e) == CodingFault::InvalidHandoff(m),
        },
{
    if checks.len() == 0 || checks.len() > MAX_PROFILE_CHECKS {
        return Err(invalid_handoff("check result list is outside bounds"));
    }
    if result_kinds_duplicate(checks) {
        return Err(invalid_handoff("duplicate check result"));
    }
    Ok(())
}

impl CodingAgentProfile {
    pub fn required_checks(&self) -> (r: &[CodingCheck])
        ensures
            r@ == self.required_checks@,
    {
        self.required_checks.as_slice()
    }

    pub fn autonomy(&self) -> (r: CodingAutonomy)
        ensures
            r == self.autonomy,
    {
        self.autonomy
    }

    /// Checks the schema and revision, the tool allowlist, required checks,
    /// budget and autonomy; the first broken rule is reported.
    pub fn validate(&self) -> (r: Result<(), CodingProfileError>)
        ensures
            profile_result_ok(*self, r),
    {
        let rev = self.policy_revision.as_str();
        if self.schema_version != CODING_PROFILE_SCHEMA_VERSION || blank(rev) || text_len(rev)
            > MAX_POLICY_REVISION_LEN || contains_control(rev) || contains_instruction_like(rev) {
            return Err(invalid_profile("coding profile schema or policy revision is invalid"));
        }
        if self.allowed_tools.len() == 0 || self.allowed_tools.len() > MAX_PROFILE_TOOLS {
            return Err(invalid_profile("coding profile tool allowlist is invalid"));
        }
        if tools_forbidden_or_duplicate(&self.allowed_tools) {
            return Err(invalid_profile("coding profile contains forbidden or duplicate tool"));
        }
        if self.required_checks.len() == 0 || self.required_checks.len() > MAX_PROFILE_CHECKS {
            return Err(invalid_profile("coding profile required checks are invalid"));
        }
        if checks_duplicate(&self.required_checks) {
            return Err(invalid_profile("coding profile contains duplicate required checks"));
        }
        if !self.budget.is_valid() {
            return Err(invalid_profile("coding budget is outside bounded limits"));
        }
        validate_autonomy(&self.autonomy)?;
        if self.autonomy.max_attempts > self.budget.max_attempts {
            return Err(invalid_profile("coding autonomy attempts exceed budget attempts"));
        }
        Ok(())
    }

    /// Grants a permit for one tool call inside the active mapping's scope,
    /// or reports the first reason to refuse it.
    pub fn authorize(&self, mapping: &TaskWorkspaceMapping, request: &CodingAgentRequest) -> (r:
        Result<CodingPermit, CodingProfileError>)
        ensures
            result_matches_fault(r, authorize_fault(*self, *mapping, *request)),
            r matches Ok(permit) ==> {
                &&& permit.project_id_of() == mapping.project_id
                &&& permit.task_id_of() == mapping.task_id
                &&& permit.worktree_id_of() == mapping.worktree_id@
                &&& permit.branch_of() == mapping.branch@
                &&& permit.policy_revision_of() == self.policy_revision@
            },
    {
        self.validate()?;
        if mapping.state != MappingState::Active {
            return Err(CodingProfileError::MappingInactive);
        }
        if request.project_id != mapping.project_id || request.task_id != mapping.task_id
            || request.repository_id != mapping.repository_id || request.worktree_id
            != mapping.worktree_id || request.branch != mapping.branch {
            return Err(CodingProfileError::ScopeMismatch);
        }
        if !is_safe_identity(request.repository_id.as_str()) || !is_safe_identity(
            request.worktree_id.as_str(),
        ) || !is_safe_identity(request.branch.as_str()) {
            return Err(CodingProfileError::UnsafeIdentity);
        }
        if request.cancelled {
            return Err(CodingProfileError::Cancelled);
        }
        if request.network {
            return Err(CodingProfileError::NetworkDenied);
        }
        if request.publication {
            return Err(CodingProfileError::PublicationDenied);
        }
        if request.merge {
            return Err(CodingProfileError::MergeDenied);
        }
        if !tools_contain(&self.allowed_tools, request.tool) || request.tool.is_forbidden() {
            return Err(CodingProfileError::ToolDenied);
        }
        match &request.path {
            None => {
                if request.tool.requires_path() {
                    return Err(CodingProfileError::PathDenied);
                }
            },
            Some(p) => {
                if !is_valid_path(p.as_str()) {
                    return Err(CodingProfileError::PathDenied);
                }
            },
        }
        let u = request.usage;
        let b = self.budget;
        if u.input_tokens > b.max_input_tokens || u.output_tokens > b.max_output_tokens
            || u.invocations > b.max_invocations || u.attempts > b.max_attempts
            || u.wall_time_seconds > b.max_wall_time_seconds {
            return Err(CodingProfileError::BudgetExceeded("usage exceeds profile limits".to_owned()));
        }
        Ok(CodingPermit {
            project_id: mapping.project_id,
            task_id: mapping.task_id,
            worktree_id: mapping.worktree_id.clone(),
            branch: mapping.branch.clone(),
            policy_revision: self.policy_revision.clone(),
        })
    }
}

impl Default for CodingAgentProfile {
    fn default() -> (r: Self)
        ensures
            r.schema_version == CODING_PROFILE_SCHEMA_VERSION,
            r.policy_revision@ == "coding-v1"@,
            r.allowed_tools@ == seq![
                CodingTool::ReadFile,
                CodingTool::WriteFile,
                CodingTool::ApplyPatch,
                CodingTool::RunTests,
            ],
            r.required_checks@ == seq![
                CodingCheck::Formatting,
                CodingCheck::Tests,
                CodingCheck::Lint,
                CodingCheck::Security,
            ],
            r.budget.max_attempts == 3,
            !r.autonomy.network_of() && !r.autonomy.publication_of() && !r.autonomy.merge_of(),
            r.autonomy.attempts_of() == 3,
    {
        let r = CodingAgentProfile {
            schema_version: CODING_PROFILE_SCHEMA_VERSION,
            policy_revision: "coding-v1".to_owned(),
            allowed_tools: vec![
                CodingTool::ReadFile,
                CodingTool::WriteFile,
                CodingTool::ApplyPatch,
                CodingTool::RunTests,
            ],
            budget: CodingBudget::default(),
            autonomy: CodingAutonomy::restricted(3),
            required_checks: vec![
                CodingCheck::Formatting,
                CodingCheck::Tests,
                CodingCheck::Lint,
                CodingCheck::Security,
            ],
        };
        assert(r.allowed_tools@ =~= seq![
            CodingTool::ReadFile,
            CodingTool::WriteFile,
            CodingTool::ApplyPatch,
            CodingTool::RunTests,
        ]);
        assert(r.required_checks@ =~= seq![
            CodingCheck::Formatting,
            CodingCheck::Tests,
            CodingCheck::Lint,
            CodingCheck::Security,
        ]);
        r
    }
}


fn find_result(checks: &Vec<CodingCheckResult>, c: CodingCheck) -> (r: Option<usize>)
    requires
        !has_dup(check_kinds(checks@)),
    ensures
        r is None <==> !has_result(checks@, c),
        r matches Some(i) ==> i < checks@.len() && checks@[i as int] == result_for(checks@, c),
{
    let mut i: usize = 0;
    while i < checks.len()
        invariant
            !has_dup(check_kinds(checks@)),
            i <= checks@.len(),
            forall|k: int| 0 <= k < i ==> checks@[k].check != c,
        decreases checks@.len() - i,
    {
        if checks[i].check == c {
            assert(has_result(checks@, c));
            proof {
                let j = result_index(checks@, c);
                let ii = i as int;
                if j != ii {
                    let kinds = check_kinds(checks@);
                    assert(kinds[j] == kinds[ii]);
                    if j < ii {
                        assert(0 <= j < ii < kinds.len() && kinds[j] == kinds[ii]);
                        assert(has_dup(kinds));
                    } else {
                        assert(0 <= ii < j < kinds.len() && kinds[ii] == kinds[j]);
                        assert(has_dup(kinds));
                    }
                }
                assert(checks@[ii] == result_for(checks@, c));
            }
            return Some(i);
        }
        i = i + 1;
    }
    None
}

fn validate_required_results(required: &Vec<CodingCheck>, checks: &Vec<CodingCheckResult>) -> (r:
    Result<(), CodingProfileError>)
    requires
        !has_dup(check_kinds(checks@)),
    ensures
        match required_fault(required@, checks@) {
            None => r is Ok,
            Some(m) => r matches Err(e) && fault_of(e) == CodingFault::InvalidHandoff(m),
        },
{
    let mut q: usize = 0;
    while q < required.len()
        invariant
            !has_dup(check_kinds(checks@)),
            q <= required@.len(),
            required_fault(required@.take(q as int), checks@) is None,
        decreases required@.len() - q,
    {
        assert(required@.take(q + 1).drop_last() =~= required@.take(q as int));
        assert(required@.take(q + 1).last() == required@[q as int]);
        let step: Result<(), CodingProfileError> = match find_result(checks, required[q]) {
            None => Err(invalid_handoff("required check result is missing")),
            Some(i) => {
                if checks[i].status != CodingCheckStatus::Passed {
                    Err(invalid_handoff("required check did not pass"))
                } else if !is_lower_hex_of_len(checks[i].digest.as_str(), MAX_DIGEST_LEN) {
                    Err(invalid_handoff("digest must be 64 lowercase hexadecimal characters"))
                } else {
                    Ok(())
                }
            },
        };
        if step.is_err() {
            proof {
                lemma_required_fault_prefix(required@, checks@, (q + 1) as int);
            }
            assert(required@.take(required@.len() as int) =~= required@);
            return step;
        }
        q = q + 1;
    }
    assert(required@.take(required@.len() as int) =~= required@);
    Ok(())
}

proof fn lemma_required_fault_prefix(req: Seq<CodingCheck>, checks: Seq<CodingCheckResult>, i: int)
    requires
        0 <= i <= req.len(),
        required_fault(req.take(i), checks) is Some,
    ensures
        required_fault(req.take(req.len() as int), checks) == required_fault(req.take(i), checks),
    decreases req.len() - i,
{
    if i < req.len() {
        assert(req.take(i + 1).drop_last() =~= req.take(i));
        lemma_required_fault_prefix(req, checks, i + 1);
    }
}

fn validate_passed_digests(checks: &Vec<CodingCheckResult>) -> (r: bool)
    ensures
        r == !passed_digest_fault(checks@),
{
    let mut i: usize = 0;
    while i < checks.len()
        invariant
            i <= checks@.len(),
            forall|k: int|
                0 <= k < i ==> !(#[trigger] checks@[k].status == CodingCheckStatus::Passed
                    && !digest_ok(checks@[k].digest@)),
        decreases checks@.len() - i,
    {
        if checks[i].status == CodingCheckStatus::Passed && !is_lower_hex_of_len(
            checks[i].digest.as_str(),
            MAX_DIGEST_LEN,
        ) {
            assert(checks@[i as int].status == CodingCheckStatus::Passed && !digest_ok(
                checks@[i as int].digest@,
            ));
            return false;
        }
        i = i + 1;
    }
    true
}

/// The first reason a handoff cannot be proposed.
pub open spec fn proposal_fault(
    p: CodingAgentProfile,
    m: TaskWorkspaceMapping,
    changed_paths: Seq<String>,
    patch_digest: Seq<char>,
    report_digest: Seq<char>,
    checks: Seq<CodingCheckResult>,
) -> Option<CodingFault> {
    if profile_fault(p) is Some {
        Some(CodingFault::InvalidProfile(profile_fault(p)->Some_0))
    } else if m.state != MappingState::Active {
        Some(CodingFault::MappingInactive)
    } else if !safe_identity(m.repository_id@) || !safe_identity(m.worktree_id@) || !safe_identity(
        m.branch@,
    ) {
        Some(CodingFault::UnsafeIdentity)
    } else if paths_fault(changed_paths) is Some {
        Some(CodingFault::InvalidHandoff(paths_fault(changed_paths)->Some_0))
    } else if !digest_ok(patch_digest) || !digest_ok(report_digest) {
        Some(CodingFault::InvalidHandoff(digest_message()))
    } else if shape_fault(checks) is Some {
        Some(CodingFault::InvalidHandoff(shape_fault(checks)->Some_0))
    } else {
        None
    }
}

impl CodingAgentHandoff {
    /// A proposed handoff bound to the active mapping and the profile
    /// revision, with bounded paths, digests and check results.
    pub fn proposed(
        profile: &CodingAgentProfile,
        mapping: &TaskWorkspaceMapping,
        changed_paths: Vec<String>,
        patch_digest: String,
        report_digest: String,
        checks: Vec<CodingCheckResult>,
    ) -> (r: Result<Self, CodingProfileError>)
        ensures
            result_matches_fault(
                r,
                proposal_fault(
                    *profile,
                    *mapping,
                    changed_paths@,
                    patch_digest@,
                    report_digest@,
                    checks@,
                ),
            ),
            r matches Ok(h) ==> {
                &&& h.schema_version == CODING_PROFILE_SCHEMA_VERSION
                &&& h.profile_revision@ == profile.policy_revision@
                &&& mapping_scope_matches(
                    *mapping,
                    h.project_id,
                    h.task_id,
                    h.repository_id@,
                    h.worktree_id@,
                    h.branch@,
                )
                &&& h.status == HandoffStatus::Proposed
                &&& h.changed_paths == changed_paths
                &&& h.patch_digest == patch_digest
                &&& h.report_digest == report_digest
                &&& h.checks == checks
            },
    {
        profile.validate()?;
        if mapping.state != MappingState::Active {
            return Err(CodingProfileError::MappingInactive);
        }
        if !is_safe_identity(mapping.repository_id.as_str()) || !is_safe_identity(
            mapping.worktree_id.as_str(),
        ) || !is_safe_identity(mapping.branch.as_str()) {
            return Err(CodingProfileError::UnsafeIdentity);
        }
        validate_handoff_paths(&changed_paths)?;
        if !is_lower_hex_of_len(patch_digest.as_str(), MAX_DIGEST_LEN) || !is_lower_hex_of_len(
            report_digest.as_str(),
            MAX_DIGEST_LEN,
        ) {
            return Err(invalid_handoff("digest must be 64 lowercase hexadecimal characters"));
        }
        validate_check_shape(&checks)?;
        Ok(CodingAgentHandoff {
            schema_version: CODING_PROFILE_SCHEMA_VERSION,
            profile_revision: profile.policy_revision.clone(),
            project_id: mapping.project_id,
            task_id: mapping.task_id,
            repository_id: mapping.repository_id.clone(),
            worktree_id: mapping.worktree_id.clone(),
            branch: mapping.branch.clone(),
            status: HandoffStatus::Proposed,
            changed_paths,
            patch_digest,
            report_digest,
            checks,
        })
    }

    pub fn with_branch(self, branch: String) -> (r: Self)
        ensures
            r == (CodingAgentHandoff { branch, ..self }),
    {
        CodingAgentHandoff { branch, ..self }
    }

    pub fn status(&self) -> (r: HandoffStatus)
        ensures
            r == self.status,
    {
        self.status
    }

    /// A handoff never approves itself.
    pub fn can_approve(&self) -> (r: bool)
        ensures
            !r,
    {
        false
    }

    /// A handoff never merges itself.
    pub fn can_merge(&self) -> (r: bool)
        ensures
            !r,
    {
        false
    }

    /// Rechecks the handoff against the current profile and mapping: its
    /// identity must not be stale, it must still be a proposal, and every
    /// required check must have passed with a valid digest.
    pub fn validate(&self, profile: &CodingAgentProfile, mapping: &TaskWorkspaceMapping) -> (r:
        Result<(), CodingProfileError>)
        ensures
            result_matches_fault(r, handoff_fault(*self, *profile, *mapping)),
    {
        profile.validate()?;
        if mapping.state != MappingState::Active {
            return Err(CodingProfileError::MappingInactive);
        }
        if self.schema_version != CODING_PROFILE_SCHEMA_VERSION || self.profile_revision
            != profile.policy_revision || self.project_id != mapping.project_id || self.task_id
            != mapping.task_id || self.repository_id != mapping.repository_id || self.worktree_id
            != mapping.worktree_id || self.branch != mapping.branch {
            return Err(invalid_handoff("handoff identity or profile revision is stale"));
        }
        if self.status != HandoffStatus::Proposed {
            return Err(invalid_handoff("handoff is not a proposal"));
        }
        if !is_safe_identity(self.profile_revision.as_str()) || !is_safe_identity(
            self.repository_id.as_str(),
        ) || !is_safe_identity(self.worktree_id.as_str()) || !is_safe_identity(
            self.branch.as_str(),
        ) {
            return Err(CodingProfileError::UnsafeIdentity);
        }
        validate_handoff_paths(&self.changed_paths)?;
        if !is_lower_hex_of_len(self.patch_digest.as_str(), MAX_DIGEST_LEN) || !is_lower_hex_of_len(
            self.report_digest.as_str(),
            MAX_DIGEST_LEN,
        ) {
            return Err(invalid_handoff("digest must be 64 lowercase hexadecimal characters"));
        }
        validate_check_shape(&self.checks)?;
        validate_required_results(&profile.required_checks, &self.checks)?;
        if !validate_passed_digests(&self.checks) {
            return Err(invalid_handoff("digest must be 64 lowercase hexadecimal characters"));
        }
        Ok(())
    }
}

/// A permit is only ever granted for an allowlisted, non-forbidden tool,
/// inside the active mapping, without network, publication or merge, and
/// within the budget.
pub proof fn law_permit_stays_in_scope(
    p: CodingAgentProfile,
    m: TaskWorkspaceMapping,
    r: CodingAgentRequest,
)
    requires
        authorize_fault(p, m, r) is None,
    ensures
        profile_fault(p) is None,
        m.state == MappingState::Active,
        r.project_id == m.project_id && r.task_id == m.task_id,
        p.allowed_tools@.contains(r.tool) && !tool_forbidden(r.tool),
        !r.network && !r.publication && !r.merge && !r.cancelled,
        usage_within(p.budget, r.usage),
{
}

/// A handoff that validates has every check the profile requires, each
/// passed with a 64-digit lower-case hex digest.
pub proof fn law_valid_handoff_has_passing_checks(
    h: CodingAgentHandoff,
    p: CodingAgentProfile,
    m: TaskWorkspaceMapping,
    q: int,
)
    requires
        handoff_fault(h, p, m) is None,
        0 <= q < p.required_checks@.len(),
    ensures
        has_result(h.checks@, p.required_checks@[q]),
        result_for(h.checks@, p.required_checks@[q]).status == CodingCheckStatus::Passed,
        digest_ok(result_for(h.checks@, p.required_checks@[q]).digest@),
{
    lemma_required_none(p.required_checks@, h.checks@, q);
}

proof fn lemma_required_none(req: Seq<CodingCheck>, checks: Seq<CodingCheckResult>, q: int)
    requires
        required_fault(req, checks) is None,
        0 <= q < req.len(),
    ensures
        has_result(checks, req[q]),
        result_for(checks, req[q]).status == CodingCheckStatus::Passed,
        digest_ok(result_for(checks, req[q]).digest@),
    decreases req.len(),
{
    if q < req.len() - 1 {
        assert(req.drop_last()[q] == req[q]);
        lemma_required_none(req.drop_last(), checks, q);
    }
}

} // verus!
