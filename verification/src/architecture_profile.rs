//! Pure, advisory profile for architecture analysis: typed manifests,
//! boundaries, documents and evidence are checked; nothing is edited,
//! ratified or executed.
use crate::ids::{ProjectId, TaskId};
use crate::task_mapping::{MappingState, TaskWorkspaceMapping};
use crate::text::{
    same_text, blank, contains_ci, contains_control, contains_marker_ci, has_control, hex_of_len, is_blank,
    is_hex_of_len, starts_with_char, text_len, utf8_len,
};
use vstd::prelude::*;
use vstd::string::StrSliceExecFns;
use vstd::string::StringSliceAdditionalSpecFns;

verus! {

pub const ARCHITECTURE_PROFILE_SCHEMA_VERSION: u32 = 1;

pub const MAX_POLICY_REVISION_LEN: usize = 128;

pub const MAX_GRAPH_REVISION_LEN: usize = 128;

pub const MAX_ID_LEN: usize = 128;

pub const MAX_TEXT_LEN: usize = 512;

pub const MAX_PATH_LEN: usize = 512;

pub const MAX_LAYERS: usize = 64;

pub const MAX_EDGES: usize = 256;

pub const MAX_DOCUMENTS: usize = 64;

pub const MAX_EVIDENCE: usize = 32;

pub const MAX_FINDINGS: usize = 128;

pub const MAX_EVIDENCE_BYTES: u64 = 1_048_576;

pub const MAX_PROFILE_TOOLS: usize = 16;

#[derive(Debug, Clone, PartialEq, Eq)]
pub enum ArchitectureProfileError {
    InvalidProfile(String),
    MappingInactive,
    ScopeMismatch,
    ToolDenied,
    PathDenied,
    InvalidRequest(String),
    InvalidManifest(String),
    InvalidEvidence(String),
}

/// The observable content of an architecture profile error.
pub enum ArchFault {
    InvalidProfile(Seq<char>),
    MappingInactive,
    ScopeMismatch,
    ToolDenied,
    PathDenied,
    InvalidRequest(Seq<char>),
    InvalidManifest(Seq<char>),
    InvalidEvidence(Seq<char>),
}

pub open spec fn arch_fault_of(e: ArchitectureProfileError) -> ArchFault {
    match e {
        ArchitectureProfileError::InvalidProfile(m) => ArchFault::InvalidProfile(m@),
        ArchitectureProfileError::MappingInactive => ArchFault::MappingInactive,
        ArchitectureProfileError::ScopeMismatch => ArchFault::ScopeMismatch,
        ArchitectureProfileError::ToolDenied => ArchFault::ToolDenied,
        ArchitectureProfileError::PathDenied => ArchFault::PathDenied,
        ArchitectureProfileError::InvalidRequest(m) => ArchFault::InvalidRequest(m@),
        ArchitectureProfileError::InvalidManifest(m) => ArchFault::InvalidManifest(m@),
        ArchitectureProfileError::InvalidEvidence(m) => ArchFault::InvalidEvidence(m@),
    }
}

pub open spec fn arch_result<T>(r: Result<T, ArchitectureProfileError>, f: Option<ArchFault>) -> bool {
    match f {
        None => r is Ok,
        Some(x) => r matches Err(e) && arch_fault_of(e) == x,
    }
}

#[derive(Debug, Clone, Copy, PartialEq, Eq, Hash, Structural)]
pub enum ArchitectureTool {
    ReadGraph,
    ReadSourceReference,
    ReadAdr,
    ReadDocumentation,
    ReadDiff,
    WriteArchitecture,
    RatifyAdr,
    BypassGate,
}

pub open spec fn tool_mutating(t: ArchitectureTool) -> bool {
    t == ArchitectureTool::WriteArchitecture || t == ArchitectureTool::RatifyAdr || t
        == ArchitectureTool::BypassGate
}

impl ArchitectureTool {
    pub fn is_mutating(self) -> (r: bool)
        ensures
            r == tool_mutating(self),
    {
        match self {
            ArchitectureTool::WriteArchitecture | ArchitectureTool::RatifyAdr
            | ArchitectureTool::BypassGate => true,
            _ => false,
        }
    }
}

#[derive(Debug, Clone)]
pub struct ArchitectureAgentProfile {
    pub schema_version: u32,
    pub policy_revision: String,
    pub allowed_tools: Vec<ArchitectureTool>,
    pub max_layers: usize,
    pub max_edges: usize,
    pub max_documents: usize,
    pub max_evidence: usize,
    pub max_findings: usize,
}

// ---------------------------------------------------------------------------
// Text rules
// ---------------------------------------------------------------------------
/// Text that tries to steer an agent or run something (ASCII case ignored).
pub open spec fn arch_instruction_like(s: Seq<char>) -> bool {
    let b = vstd::utf8::encode_utf8(s);
    ||| contains_ci(b, "ignore previous".spec_bytes())
    ||| contains_ci(b, "system prompt".spec_bytes())
    ||| contains_ci(b, "execute command".spec_bytes())
    ||| contains_ci(b, "run shell".spec_bytes())
    ||| contains_ci(b, "sudo ".spec_bytes())
    ||| contains_ci(b, "rm -rf".spec_bytes())
    ||| contains_ci(b, "bypass gate".spec_bytes())
    ||| contains_ci(b, "approve this".spec_bytes())
}

/// Non-blank, at most `max` bytes, no control character, no steering text.
pub open spec fn bounded(s: Seq<char>, max: nat) -> bool {
    !is_blank(s) && utf8_len(s) <= max && !has_control(s) && !arch_instruction_like(s)
}

pub open spec fn is_sep(c: char) -> bool {
    c == '/' || c == '\\'
}

/// A `..` component at position `i`, delimited by separators or the ends.
pub open spec fn parent_step_at(s: Seq<char>, i: int) -> bool {
    &&& 0 <= i
    &&& i + 2 <= s.len()
    &&& s[i] == '.'
    &&& s[i + 1] == '.'
    &&& (i == 0 || is_sep(s[i - 1]))
    &&& (i + 2 == s.len() || is_sep(s[i + 2]))
}

pub open spec fn has_parent_step(s: Seq<char>) -> bool {
    exists|i: int| parent_step_at(s, i)
}

/// A relative path with no parent component and no control character.
pub open spec fn safe_path(s: Seq<char>) -> bool {
    &&& s.len() > 0
    &&& utf8_len(s) <= MAX_PATH_LEN
    &&& s[0] != '/'
    &&& s[0] != '\\'
    &&& !has_parent_step(s)
    &&& !has_control(s)
}

pub open spec fn sha_ok(s: Seq<char>, n: nat) -> bool {
    hex_of_len(s, n)
}

pub open spec fn document_digest_ok(d: Seq<char>, present: bool) -> bool {
    &&& !has_control(d)
    &&& utf8_len(d) <= 64
    &&& if present {
        sha_ok(d, 64)
    } else {
        d.len() == 0 || sha_ok(d, 64)
    }
}

pub fn contains_instruction_like(value: &str) -> (r: bool)
    ensures
        r == arch_instruction_like(value@),
{
    contains_marker_ci(value, "ignore previous") || contains_marker_ci(value, "system prompt")
        || contains_marker_ci(value, "execute command") || contains_marker_ci(value, "run shell")
        || contains_marker_ci(value, "sudo ") || contains_marker_ci(value, "rm -rf")
        || contains_marker_ci(value, "bypass gate") || contains_marker_ci(value, "approve this")
}

pub fn bounded_text(value: &str, max: usize) -> (r: bool)
    ensures
        r == bounded(value@, max as nat),
{
    !blank(value) && text_len(value) <= max && !contains_control(value)
        && !contains_instruction_like(value)
}

fn is_separator(c: char) -> (r: bool)
    ensures
        r == is_sep(c),
{
    c == '/' || c == '\\'
}

fn contains_parent_step(value: &str) -> (r: bool)
    ensures
        r == has_parent_step(value@),
{
    let n = value.unicode_len();
    if n < 2 {
        assert forall|i: int| !parent_step_at(value@, i) by {}
        return false;
    }
    let mut i: usize = 0;
    while i < n - 1
        invariant
            n == value@.len(),
            n >= 2,
            i <= n - 1,
            forall|k: int| 0 <= k < i ==> !parent_step_at(value@, k),
        decreases n - i,
    {
        if value.get_char(i) == '.' && value.get_char(i + 1) == '.' {
            let before = i == 0 || is_separator(value.get_char(i - 1));
            let after = i + 2 == n || is_separator(value.get_char(i + 2));
            if before && after {
                assert(parent_step_at(value@, i as int));
                return true;
            }
        }
        i = i + 1;
    }
    assert forall|k: int| !parent_step_at(value@, k) by {}
    false
}

pub fn safe_relative_path(value: &str) -> (r: bool)
    ensures
        r == safe_path(value@),
{
    !value.is_empty() && text_len(value) <= MAX_PATH_LEN && !starts_with_char(value, '/')
        && !starts_with_char(value, '\\') && !contains_parent_step(value) && !contains_control(
        value,
    )
}

pub fn valid_sha(value: &str, length: usize) -> (r: bool)
    ensures
        r == sha_ok(value@, length as nat),
{
    is_hex_of_len(value, length)
}

pub fn valid_document_digest(digest: &str, present: bool) -> (r: bool)
    ensures
        r == document_digest_ok(digest@, present),
{
    if contains_control(digest) || text_len(digest) > 64 {
        return false;
    }
    if present {
        valid_sha(digest, 64)
    } else {
        digest.is_empty() || valid_sha(digest, 64)
    }
}


pub open spec fn has_dup<T>(s: Seq<T>) -> bool {
    exists|i: int, j: int| 0 <= i < j < s.len() && s[i] == s[j]
}

pub open spec fn any_mutating(s: Seq<ArchitectureTool>) -> bool {
    exists|i: int| 0 <= i < s.len() && tool_mutating(#[trigger] s[i])
}

pub open spec fn limits_ok(p: ArchitectureAgentProfile) -> bool {
    &&& 1 <= p.max_layers <= MAX_LAYERS
    &&& 1 <= p.max_edges <= MAX_EDGES
    &&& 1 <= p.max_documents <= MAX_DOCUMENTS
    &&& 1 <= p.max_evidence <= MAX_EVIDENCE
    &&& 1 <= p.max_findings <= MAX_FINDINGS
}

/// The message of the first rule a profile breaks, if any.
pub open spec fn arch_profile_fault(p: ArchitectureAgentProfile) -> Option<Seq<char>> {
    if p.schema_version != ARCHITECTURE_PROFILE_SCHEMA_VERSION || !bounded(
        p.policy_revision@,
        MAX_POLICY_REVISION_LEN as nat,
    ) {
        Some("schema or policy revision is invalid"@)
    } else if p.allowed_tools@.len() == 0 || p.allowed_tools@.len() > MAX_PROFILE_TOOLS {
        Some("tool allowlist is outside bounds"@)
    } else if any_mutating(p.allowed_tools@) || has_dup(p.allowed_tools@) {
        Some("allowlist contains mutation or duplicate tool"@)
    } else if !limits_ok(p) {
        Some("architecture limits are outside bounds"@)
    } else {
        None
    }
}

pub open spec fn profile_fault_result(p: ArchitectureAgentProfile) -> Option<ArchFault> {
    match arch_profile_fault(p) {
        Some(m) => Some(ArchFault::InvalidProfile(m)),
        None => None,
    }
}

#[derive(Debug, Clone)]
pub struct ArchitectureRequest {
    pub project_id: ProjectId,
    pub task_id: TaskId,
    pub repository_id: String,
    pub worktree_id: String,
    pub branch: String,
    pub head_sha: String,
    pub tree_sha: String,
    pub tool: ArchitectureTool,
    pub path: Option<String>,
}

pub open spec fn request_fault(r: ArchitectureRequest) -> Option<ArchFault> {
    if !bounded(r.repository_id@, MAX_ID_LEN as nat) || !bounded(r.worktree_id@, MAX_ID_LEN as nat)
        || !bounded(r.branch@, MAX_PATH_LEN as nat) || !sha_ok(r.head_sha@, 40) || !sha_ok(
        r.tree_sha@,
        64,
    ) {
        Some(ArchFault::InvalidRequest("identity or SHA is invalid"@))
    } else if r.path matches Some(p) && !safe_path(p@) {
        Some(ArchFault::PathDenied)
    } else {
        None
    }
}

pub open spec fn scope_matches(
    m: TaskWorkspaceMapping,
    project_id: ProjectId,
    task_id: TaskId,
    repository_id: Seq<char>,
    worktree_id: Seq<char>,
    branch: Seq<char>,
) -> bool {
    &&& project_id == m.project_id
    &&& task_id == m.task_id
    &&& repository_id == m.repository_id@
    &&& worktree_id == m.worktree_id@
    &&& branch == m.branch@
}

pub open spec fn authorize_fault(
    p: ArchitectureAgentProfile,
    m: TaskWorkspaceMapping,
    r: ArchitectureRequest,
) -> Option<ArchFault> {
    if profile_fault_result(p) is Some {
        profile_fault_result(p)
    } else if m.state != MappingState::Active {
        Some(ArchFault::MappingInactive)
    } else if request_fault(r) is Some {
        request_fault(r)
    } else if !scope_matches(m, r.project_id, r.task_id, r.repository_id@, r.worktree_id@, r.branch@) {
        Some(ArchFault::ScopeMismatch)
    } else if tool_mutating(r.tool) || !p.allowed_tools@.contains(r.tool) {
        Some(ArchFault::ToolDenied)
    } else {
        None
    }
}

#[derive(Debug, Clone)]
pub struct ArchitecturePermit {
    project_id: ProjectId,
    task_id: TaskId,
    worktree_id: String,
    branch: String,
    head_sha: String,
    tree_sha: String,
    tool: ArchitectureTool,
}

fn invalid_profile(m: &str) -> (r: ArchitectureProfileError)
    ensures
        arch_fault_of(r) == ArchFault::InvalidProfile(m@),
{
    ArchitectureProfileError::InvalidProfile(m.to_owned())
}

fn invalid_manifest(m: &str) -> (r: ArchitectureProfileError)
    ensures
        arch_fault_of(r) == ArchFault::InvalidManifest(m@),
{
    ArchitectureProfileError::InvalidManifest(m.to_owned())
}

fn invalid_evidence(m: &str) -> (r: ArchitectureProfileError)
    ensures
        arch_fault_of(r) == ArchFault::InvalidEvidence(m@),
{
    ArchitectureProfileError::InvalidEvidence(m.to_owned())
}

fn tools_contain(tools: &Vec<ArchitectureTool>, t: ArchitectureTool) -> (r: bool)
    ensures
        r == tools@.contains(t),
{
    let mut i: usize = 0;
    while i < tools.len()
        invariant
            i <= tools@.len(),
            forall|k: int| 0 <= k < i ==> tools@[k] != t,
        decreases tools@.len() - i,
    {
        if tools[i] == t {
            assert(tools@[i as int] == t);
            return true;
        }
        i = i + 1;
    }
    false
}

fn tools_mutating_or_duplicate(tools: &Vec<ArchitectureTool>) -> (r: bool)
    ensures
        r == (any_mutating(tools@) || has_dup(tools@)),
{
    let mut j: usize = 0;
    while j < tools.len()
        invariant
            j <= tools@.len(),
            forall|a: int| 0 <= a < j ==> !tool_mutating(#[trigger] tools@[a]),
            forall|a: int, b: int| 0 <= a < b < j ==> tools@[a] != tools@[b],
        decreases tools@.len() - j,
    {
        if tools[j].is_mutating() {
            assert(tool_mutating(tools@[j as int]));
            return true;
        }
        let mut i: usize = 0;
        while i < j
            invariant
                j < tools@.len(),
                i <= j,
                forall|a: int| 0 <= a < i ==> tools@[a] != tools@[j as int],
            decreases j - i,
        {
            if tools[i] == tools[j] {
                assert(0 <= i < j < tools@.len() && tools@[i as int] == tools@[j as int]);
                return true;
            }
            i = i + 1;
        }
        j = j + 1;
    }
    false
}

impl Default for ArchitectureAgentProfile {
    fn default() -> (r: Self)
        ensures
            r.schema_version == ARCHITECTURE_PROFILE_SCHEMA_VERSION,
            r.policy_revision@ == "architecture-v1"@,
            r.allowed_tools@ == seq![
                ArchitectureTool::ReadGraph,
                ArchitectureTool::ReadSourceReference,
                ArchitectureTool::ReadAdr,
                ArchitectureTool::ReadDocumentation,
                ArchitectureTool::ReadDiff,
            ],
            r.max_layers == MAX_LAYERS,
            r.max_edges == MAX_EDGES,
            r.max_documents == MAX_DOCUMENTS,
            r.max_evidence == MAX_EVIDENCE,
            r.max_findings == MAX_FINDINGS,
    {
        let r = ArchitectureAgentProfile {
            schema_version: ARCHITECTURE_PROFILE_SCHEMA_VERSION,
            policy_revision: "architecture-v1".to_owned(),
            allowed_tools: vec![
                ArchitectureTool::ReadGraph,
                ArchitectureTool::ReadSourceReference,
                ArchitectureTool::ReadAdr,
                ArchitectureTool::ReadDocumentation,
                ArchitectureTool::ReadDiff,
            ],
            max_layers: MAX_LAYERS,
            max_edges: MAX_EDGES,
            max_documents: MAX_DOCUMENTS,
            max_evidence: MAX_EVIDENCE,
            max_findings: MAX_FINDINGS,
        };
        assert(r.allowed_tools@ =~= seq![
            ArchitectureTool::ReadGraph,
            ArchitectureTool::ReadSourceReference,
            ArchitectureTool::ReadAdr,
            ArchitectureTool::ReadDocumentation,
            ArchitectureTool::ReadDiff,
        ]);
        r
    }
}

impl ArchitectureAgentProfile {
    /// Checks the schema and revision, a read-only duplicate-free tool
    /// allowlist and the collection limits.
    pub fn validate(&self) -> (r: Result<(), ArchitectureProfileError>)
        ensures
            arch_result(r, profile_fault_result(*self)),
    {
        if self.schema_version != ARCHITECTURE_PROFILE_SCHEMA_VERSION || !bounded_text(
            self.policy_revision.as_str(),
            MAX_POLICY_REVISION_LEN,
        ) || contains_instruction_like(self.policy_revision.as_str()) {
            return Err(invalid_profile("schema or policy revision is invalid"));
        }
        if self.allowed_tools.len() == 0 || self.allowed_tools.len() > MAX_PROFILE_TOOLS {
            return Err(invalid_profile("tool allowlist is outside bounds"));
        }
        if tools_mutating_or_duplicate(&self.allowed_tools) {
            return Err(invalid_profile("allowlist contains mutation or duplicate tool"));
        }
        if self.max_layers == 0 || self.max_layers > MAX_LAYERS || self.max_edges == 0
            || self.max_edges > MAX_EDGES || self.max_documents == 0 || self.max_documents
            > MAX_DOCUMENTS || self.max_evidence == 0 || self.max_evidence > MAX_EVIDENCE
            || self.max_findings == 0 || self.max_findings > MAX_FINDINGS {
            return Err(invalid_profile("architecture limits are outside bounds"));
        }
        Ok(())
    }

    /// A read-only permit for one tool inside the active mapping's scope.
    pub fn authorize(&self, mapping: &TaskWorkspaceMapping, request: &ArchitectureRequest) -> (r:
        Result<ArchitecturePermit, ArchitectureProfileError>)
        ensures
            arch_result(r, authorize_fault(*self, *mapping, *request)),
            r matches Ok(permit) ==> {
                &&& permit.project_id_of() == request.project_id
                &&& permit.task_id_of() == request.task_id
                &&& permit.worktree_id_of() == request.worktree_id@
                &&& permit.branch_of() == request.branch@
                &&& permit.head_sha_of() == request.head_sha@
                &&& permit.tree_sha_of() == request.tree_sha@
                &&& permit.tool_of() == request.tool
            },
    {
        self.validate()?;
        if mapping.state != MappingState::Active {
            return Err(ArchitectureProfileError::MappingInactive);
        }
        request.validate()?;
        if request.project_id != mapping.project_id || request.task_id != mapping.task_id
            || request.repository_id != mapping.repository_id || request.worktree_id
            != mapping.worktree_id || request.branch != mapping.branch {
            return Err(ArchitectureProfileError::ScopeMismatch);
        }
        if request.tool.is_mutating() || !tools_contain(&self.allowed_tools, request.tool) {
            return Err(ArchitectureProfileError::ToolDenied);
        }
        Ok(ArchitecturePermit {
            project_id: request.project_id,
            task_id: request.task_id,
            worktree_id: request.worktree_id.clone(),
            branch: request.branch.clone(),
            head_sha: request.head_sha.clone(),
            tree_sha: request.tree_sha.clone(),
            tool: request.tool,
        })
    }
}

impl ArchitectureRequest {
    /// A request, kept only if its identity, hashes and path are valid.
    #[allow(clippy::too_many_arguments)]
    pub fn new(
        project_id: ProjectId,
        task_id: TaskId,
        repository_id: String,
        worktree_id: String,
        branch: String,
        head_sha: String,
        tree_sha: String,
        tool: ArchitectureTool,
        path: Option<String>,
    ) -> (r: Result<Self, ArchitectureProfileError>)
        ensures
            ({
                let q = ArchitectureRequest {
                    project_id,
                    task_id,
                    repository_id,
                    worktree_id,
                    branch,
                    head_sha,
                    tree_sha,
                    tool,
                    path,
                };
                &&& arch_result(r, request_fault(q))
                &&& r matches Ok(x) ==> x == q
            }),
    {
        let request = ArchitectureRequest {
            project_id,
            task_id,
            repository_id,
            worktree_id,
            branch,
            head_sha,
            tree_sha,
            tool,
            path,
        };
        match request.validate() {
            Ok(_) => Ok(request),
            Err(e) => Err(e),
        }
    }

    pub fn with_tool(self, tool: ArchitectureTool) -> (r: Self)
        ensures
            r == (ArchitectureRequest { tool, ..self }),
    {
        ArchitectureRequest { tool, ..self }
    }

    pub fn head_sha(&self) -> (r: &str)
        ensures
            r@ == self.head_sha@,
    {
        self.head_sha.as_str()
    }

    pub fn tree_sha(&self) -> (r: &str)
        ensures
            r@ == self.tree_sha@,
    {
        self.tree_sha.as_str()
    }

    fn validate(&self) -> (r: Result<(), ArchitectureProfileError>)
        ensures
            arch_result(r, request_fault(*self)),
    {
        if !bounded_text(self.repository_id.as_str(), MAX_ID_LEN) || !bounded_text(
            self.worktree_id.as_str(),
            MAX_ID_LEN,
        ) || !bounded_text(self.branch.as_str(), MAX_PATH_LEN) || !valid_sha(
            self.head_sha.as_str(),
            40,
        ) || !valid_sha(self.tree_sha.as_str(), 64) {
            return Err(ArchitectureProfileError::InvalidRequest("identity or SHA is invalid".to_owned()));
        }
        if let Some(path) = &self.path {
            if !safe_relative_path(path.as_str()) {
                return Err(ArchitectureProfileError::PathDenied);
            }
        }
        Ok(())
    }
}

impl ArchitecturePermit {
    pub closed spec fn project_id_of(&self) -> ProjectId {
        self.project_id
    }

    pub closed spec fn task_id_of(&self) -> TaskId {
        self.task_id
    }

    pub closed spec fn worktree_id_of(&self) -> Seq<char> {
        self.worktree_id@
    }

    pub closed spec fn branch_of(&self) -> Seq<char> {
        self.branch@
    }

    pub closed spec fn head_sha_of(&self) -> Seq<char> {
        self.head_sha@
    }

    pub closed spec fn tree_sha_of(&self) -> Seq<char> {
        self.tree_sha@
    }

    pub closed spec fn tool_of(&self) -> ArchitectureTool {
        self.tool
    }

    /// An architecture permit never writes.
    pub fn can_write(&self) -> (r: bool)
        ensures
            !r,
    {
        false
    }

    pub fn can_edit_architecture(&self) -> (r: bool)
        ensures
            !r,
    {
        false
    }

    pub fn can_ratify_adr(&self) -> (r: bool)
        ensures
            !r,
    {
        false
    }

    pub fn can_bypass_gate(&self) -> (r: bool)
        ensures
            !r,
    {
        false
    }

    pub fn head_sha(&self) -> (r: &str)
        ensures
            r@ == self.head_sha_of(),
    {
        self.head_sha.as_str()
    }

    pub fn tree_sha(&self) -> (r: &str)
        ensures
            r@ == self.tree_sha_of(),
    {
        self.tree_sha.as_str()
    }

    pub fn tool(&self) -> (r: ArchitectureTool)
        ensures
            r == self.tool_of(),
    {
        self.tool
    }
}

#[derive(Debug, Clone)]
pub struct ArchitectureLayer {
    pub id: String,
    pub owner: String,
    pub responsibility: String,
    pub allowed_dependencies: Vec<String>,
    pub process_lifecycle: String,
    pub contract: String,
}

pub open spec fn layer_shape_ok(l: ArchitectureLayer) -> bool {
    &&& bounded(l.id@, MAX_ID_LEN as nat)
    &&& bounded(l.owner@, MAX_ID_LEN as nat)
    &&& bounded(l.responsibility@, MAX_TEXT_LEN as nat)
    &&& l.allowed_dependencies@.len() <= MAX_LAYERS
    &&& bounded(l.process_lifecycle@, MAX_TEXT_LEN as nat)
    &&& bounded(l.contract@, MAX_TEXT_LEN as nat)
}

fn validate_layer_shape(layer: &ArchitectureLayer) -> (r: bool)
    ensures
        r == layer_shape_ok(*layer),
{
    bounded_text(layer.id.as_str(), MAX_ID_LEN) && bounded_text(layer.owner.as_str(), MAX_ID_LEN)
        && bounded_text(layer.responsibility.as_str(), MAX_TEXT_LEN)
        && layer.allowed_dependencies.len() <= MAX_LAYERS && bounded_text(
        layer.process_lifecycle.as_str(),
        MAX_TEXT_LEN,
    ) && bounded_text(layer.contract.as_str(), MAX_TEXT_LEN)
}

impl ArchitectureLayer {
    pub fn new(
        id: String,
        owner: String,
        responsibility: String,
        allowed_dependencies: Vec<String>,
        process_lifecycle: String,
        contract: String,
    ) -> (r: Result<Self, ArchitectureProfileError>)
        ensures
            ({
                let l = ArchitectureLayer {
                    id,
                    owner,
                    responsibility,
                    allowed_dependencies,
                    process_lifecycle,
                    contract,
                };
                &&& arch_result(
                    r,
                    if layer_shape_ok(l) {
                        None
                    } else {
                        Some(ArchFault::InvalidManifest("layer is malformed or instruction-like"@))
                    },
                )
                &&& r matches Ok(x) ==> x == l
            }),
    {
        let layer = ArchitectureLayer {
            id,
            owner,
            responsibility,
            allowed_dependencies,
            process_lifecycle,
            contract,
        };
        if !validate_layer_shape(&layer) {
            return Err(invalid_manifest("layer is malformed or instruction-like"));
        }
        Ok(layer)
    }
}

#[derive(Debug, Clone)]
pub struct ArchitectureEdge {
    pub from: String,
    pub to: String,
    pub kind: String,
}

impl ArchitectureEdge {
    pub fn new(from: String, to: String, kind: String) -> (r: Result<Self, ArchitectureProfileError>)
        ensures
            ({
                let ok = bounded(from@, MAX_ID_LEN as nat) && bounded(to@, MAX_ID_LEN as nat)
                    && bounded(kind@, MAX_ID_LEN as nat);
                &&& arch_result(
                    r,
                    if ok {
                        None
                    } else {
                        Some(ArchFault::InvalidManifest("edge identity or kind is invalid"@))
                    },
                )
                &&& r matches Ok(x) ==> x == (ArchitectureEdge { from, to, kind })
            }),
    {
        let edge = ArchitectureEdge { from, to, kind };
        if !bounded_text(edge.from.as_str(), MAX_ID_LEN) || !bounded_text(edge.to.as_str(), MAX_ID_LEN)
            || !bounded_text(edge.kind.as_str(), MAX_ID_LEN) || contains_instruction_like(
            edge.kind.as_str(),
        ) {
            return Err(invalid_manifest("edge identity or kind is invalid"));
        }
        Ok(edge)
    }
}

#[derive(Debug, Clone)]
pub struct ArchitectureEdgeRef {
    pub from: String,
    pub to: String,
}

impl ArchitectureEdgeRef {
    pub fn new(from: String, to: String) -> (r: Result<Self, ArchitectureProfileError>)
        ensures
            ({
                let ok = bounded(from@, MAX_ID_LEN as nat) && bounded(to@, MAX_ID_LEN as nat);
                &&& arch_result(
                    r,
                    if ok {
                        None
                    } else {
                        Some(ArchFault::InvalidManifest("edge reference is invalid"@))
                    },
                )
                &&& r matches Ok(x) ==> x == (ArchitectureEdgeRef { from, to })
            }),
    {
        let edge = ArchitectureEdgeRef { from, to };
        if !bounded_text(edge.from.as_str(), MAX_ID_LEN) || !bounded_text(edge.to.as_str(), MAX_ID_LEN) {
            return Err(invalid_manifest("edge reference is invalid"));
        }
        Ok(edge)
    }
}

#[derive(Debug, Clone, Copy, PartialEq, Eq, Hash, Structural)]
pub enum ArchitectureDocumentKind {
    Architecture,
    Adr,
}

pub open spec fn document_label(k: ArchitectureDocumentKind) -> Seq<char> {
    match k {
        ArchitectureDocumentKind::Architecture => "architecture document"@,
        ArchitectureDocumentKind::Adr => "ADR"@,
    }
}

impl ArchitectureDocumentKind {
    pub fn label(self) -> (r: &'static str)
        ensures
            r@ == document_label(self),
    {
        match self {
            ArchitectureDocumentKind::Architecture => "architecture document",
            ArchitectureDocumentKind::Adr => "ADR",
        }
    }
}

#[derive(Debug, Clone)]
pub struct ArchitectureDocument {
    pub path: String,
    pub kind: ArchitectureDocumentKind,
    pub present: bool,
    pub digest: String,
}

impl ArchitectureDocument {
    pub fn new(path: String, kind: ArchitectureDocumentKind, present: bool, digest: String) -> (r:
        Result<Self, ArchitectureProfileError>)
        ensures
            ({
                let ok = safe_path(path@) && document_digest_ok(digest@, present);
                &&& arch_result(
                    r,
                    if ok {
                        None
                    } else {
                        Some(ArchFault::InvalidManifest("document path or digest is invalid"@))
                    },
                )
                &&& r matches Ok(x) ==> x == (ArchitectureDocument { path, kind, present, digest })
            }),
    {
        let document = ArchitectureDocument { path, kind, present, digest };
        if !safe_relative_path(document.path.as_str()) || !valid_document_digest(
            document.digest.as_str(),
            document.present,
        ) {
            return Err(invalid_manifest("document path or digest is invalid"));
        }
        Ok(document)
    }
}

#[derive(Debug, Clone, Copy, PartialEq, Eq, Hash, Structural)]
pub enum ArchitectureCheck {
    Graph,
    Dependencies,
    Documents,
    AdrImpact,
}

pub open spec fn check_label(c: ArchitectureCheck) -> Seq<char> {
    match c {
        ArchitectureCheck::Graph => "graph"@,
        ArchitectureCheck::Dependencies => "dependencies"@,
        ArchitectureCheck::Documents => "documents"@,
        ArchitectureCheck::AdrImpact => "ADR impact"@,
    }
}

impl ArchitectureCheck {
    pub fn label(self) -> (r: &'static str)
        ensures
            r@ == check_label(self),
    {
        match self {
            ArchitectureCheck::Graph => "graph",
            ArchitectureCheck::Dependencies => "dependencies",
            ArchitectureCheck::Documents => "documents",
            ArchitectureCheck::AdrImpact => "ADR impact",
        }
    }
}

/// The checks every pass report must prove, in order.
pub open spec fn required_checks() -> Seq<ArchitectureCheck> {
    seq![
        ArchitectureCheck::Graph,
        ArchitectureCheck::Dependencies,
        ArchitectureCheck::Documents,
        ArchitectureCheck::AdrImpact,
    ]
}

#[derive(Debug, Clone, Copy, PartialEq, Eq, Structural)]
pub enum ArchitectureEvidenceStatus {
    Passed,
    Failed,
    Missing,
    Skipped,
    NoRun,
    Malformed,
    Stale,
}

#[derive(Debug, Clone)]
pub struct ArchitectureEvidence {
    pub check: ArchitectureCheck,
    pub file_path: String,
    pub head_sha: String,
    pub tree_sha: String,
    pub graph_revision: String,
    pub policy_revision: String,
    pub digest: String,
    pub bytes: u64,
    pub status: ArchitectureEvidenceStatus,
}

pub open spec fn payload_ok(e: ArchitectureEvidence) -> bool {
    let d = e.digest@;
    &&& e.bytes <= MAX_EVIDENCE_BYTES
    &&& !has_control(d)
    &&& utf8_len(d) <= 64
    &&& match e.status {
        ArchitectureEvidenceStatus::Passed | ArchitectureEvidenceStatus::Failed
        | ArchitectureEvidenceStatus::Stale => e.bytes > 0 && sha_ok(d, 64),
        ArchitectureEvidenceStatus::Missing | ArchitectureEvidenceStatus::Skipped
        | ArchitectureEvidenceStatus::NoRun => d.len() == 0 || sha_ok(d, 64),
        ArchitectureEvidenceStatus::Malformed => d.len() != 0,
    }
}

pub fn valid_evidence_payload(e: &ArchitectureEvidence) -> (r: bool)
    ensures
        r == payload_ok(*e),
{
    let d = e.digest.as_str();
    if e.bytes > MAX_EVIDENCE_BYTES || contains_control(d) || text_len(d) > 64 {
        return false;
    }
    match e.status {
        ArchitectureEvidenceStatus::Passed | ArchitectureEvidenceStatus::Failed
        | ArchitectureEvidenceStatus::Stale => e.bytes > 0 && valid_sha(d, 64),
        ArchitectureEvidenceStatus::Missing | ArchitectureEvidenceStatus::Skipped
        | ArchitectureEvidenceStatus::NoRun => d.is_empty() || valid_sha(d, 64),
        ArchitectureEvidenceStatus::Malformed => !d.is_empty(),
    }
}

pub open spec fn evidence_ok(e: ArchitectureEvidence) -> bool {
    &&& safe_path(e.file_path@)
    &&& sha_ok(e.head_sha@, 40)
    &&& sha_ok(e.tree_sha@, 64)
    &&& bounded(e.graph_revision@, MAX_GRAPH_REVISION_LEN as nat)
    &&& bounded(e.policy_revision@, MAX_POLICY_REVISION_LEN as nat)
    &&& payload_ok(e)
}

impl ArchitectureEvidence {
    #[allow(clippy::too_many_arguments)]
    pub fn new(
        check: ArchitectureCheck,
        file_path: String,
        head_sha: String,
        tree_sha: String,
        graph_revision: String,
        policy_revision: String,
        digest: String,
        bytes: u64,
        status: ArchitectureEvidenceStatus,
    ) -> (r: Result<Self, ArchitectureProfileError>)
        ensures
            ({
                let e = ArchitectureEvidence {
                    check,
                    file_path,
                    head_sha,
                    tree_sha,
                    graph_revision,
                    policy_revision,
                    digest,
                    bytes,
                    status,
                };
                &&& arch_result(
                    r,
                    if evidence_ok(e) {
                        None
                    } else {
                        Some(
                            ArchFault::InvalidEvidence(
                                "evidence identity, digest or byte bound is invalid"@,
                            ),
                        )
                    },
                )
                &&& r matches Ok(x) ==> x == e
            }),
    {
        let evidence = ArchitectureEvidence {
            check,
            file_path,
            head_sha,
            tree_sha,
            graph_revision,
            policy_revision,
            digest,
            bytes,
            status,
        };
        if !safe_relative_path(evidence.file_path.as_str()) || !valid_sha(
            evidence.head_sha.as_str(),
            40,
        ) || !valid_sha(evidence.tree_sha.as_str(), 64) || !bounded_text(
            evidence.graph_revision.as_str(),
            MAX_GRAPH_REVISION_LEN,
        ) || !bounded_text(evidence.policy_revision.as_str(), MAX_POLICY_REVISION_LEN)
            || !valid_evidence_payload(&evidence) {
            return Err(invalid_evidence("evidence identity, digest or byte bound is invalid"));
        }
        Ok(evidence)
    }
}


#[derive(Debug, Clone)]
pub struct ArchitectureManifest {
    pub schema_version: u32,
    pub policy_revision: String,
    pub graph_revision: String,
    pub project_id: ProjectId,
    pub task_id: TaskId,
    pub repository_id: String,
    pub worktree_id: String,
    pub branch: String,
    pub head_sha: String,
    pub tree_sha: String,
    pub layers: Vec<ArchitectureLayer>,
    pub edges: Vec<ArchitectureEdge>,
    pub allowed_edges: Vec<ArchitectureEdgeRef>,
    pub forbidden_edges: Vec<ArchitectureEdgeRef>,
    pub documents: Vec<ArchitectureDocument>,
    pub evidence: Vec<ArchitectureEvidence>,
}

pub open spec fn layer_ids(layers: Seq<ArchitectureLayer>) -> Seq<Seq<char>> {
    layers.map_values(|l: ArchitectureLayer| l.id@)
}

pub open spec fn edge_pairs(edges: Seq<ArchitectureEdge>) -> Seq<(Seq<char>, Seq<char>)> {
    edges.map_values(|e: ArchitectureEdge| (e.from@, e.to@))
}

pub open spec fn ref_pairs(refs: Seq<ArchitectureEdgeRef>) -> Seq<(Seq<char>, Seq<char>)> {
    refs.map_values(|e: ArchitectureEdgeRef| (e.from@, e.to@))
}

pub open spec fn header_ok(m: ArchitectureManifest, rev: Seq<char>) -> bool {
    &&& m.schema_version == ARCHITECTURE_PROFILE_SCHEMA_VERSION
    &&& m.policy_revision@ == rev
    &&& bounded(m.graph_revision@, MAX_GRAPH_REVISION_LEN as nat)
    &&& bounded(m.repository_id@, MAX_ID_LEN as nat)
    &&& bounded(m.worktree_id@, MAX_ID_LEN as nat)
    &&& bounded(m.branch@, MAX_PATH_LEN as nat)
    &&& sha_ok(m.head_sha@, 40)
    &&& sha_ok(m.tree_sha@, 64)
}

/// The limits of a profile that bound a manifest.
pub struct ManifestLimits {
    pub revision: Seq<char>,
    pub max_layers: nat,
    pub max_edges: nat,
    pub max_documents: nat,
    pub max_evidence: nat,
}

pub open spec fn limits_of(p: ArchitectureAgentProfile) -> ManifestLimits {
    ManifestLimits {
        revision: p.policy_revision@,
        max_layers: p.max_layers as nat,
        max_edges: p.max_edges as nat,
        max_documents: p.max_documents as nat,
        max_evidence: p.max_evidence as nat,
    }
}

/// The limits of the default profile.
pub open spec fn default_limits() -> ManifestLimits {
    ManifestLimits {
        revision: "architecture-v1"@,
        max_layers: MAX_LAYERS as nat,
        max_edges: MAX_EDGES as nat,
        max_documents: MAX_DOCUMENTS as nat,
        max_evidence: MAX_EVIDENCE as nat,
    }
}

pub open spec fn sizes_ok(m: ArchitectureManifest, l: ManifestLimits) -> bool {
    &&& m.layers@.len() > 0
    &&& m.layers@.len() <= l.max_layers
    &&& m.edges@.len() <= l.max_edges
    &&& m.allowed_edges@.len() <= l.max_edges
    &&& m.forbidden_edges@.len() <= l.max_edges
    &&& m.documents@.len() <= l.max_documents
    &&& m.evidence@.len() <= l.max_evidence
}

pub open spec fn shared_contracts() -> Seq<char> {
    "ports/application contracts"@
}

pub open spec fn unknown_dependency(l: ArchitectureLayer, ids: Seq<Seq<char>>) -> bool {
    exists|d: int|
        0 <= d < l.allowed_dependencies@.len() && #[trigger] l.allowed_dependencies@[d]@
            != shared_contracts() && !ids.contains(l.allowed_dependencies@[d]@)
}

pub open spec fn owner_repeated(layers: Seq<ArchitectureLayer>, k: int) -> bool {
    exists|j: int| 0 <= j < k && #[trigger] layers[j].owner@ == layers[k].owner@
}

pub open spec fn layer_fault(layers: Seq<ArchitectureLayer>, k: int) -> Option<Seq<char>> {
    if !layer_shape_ok(layers[k]) {
        Some("layer is malformed or instruction-like"@)
    } else if owner_repeated(layers, k) {
        Some("duplicate layer owner"@)
    } else if unknown_dependency(layers[k], layer_ids(layers)) {
        Some("layer contains unknown dependency"@)
    } else {
        None
    }
}

/// The first fault among the first `n` layers, in order.
pub open spec fn layers_fault_upto(layers: Seq<ArchitectureLayer>, n: int) -> Option<Seq<char>>
    decreases n,
{
    if n <= 0 {
        None
    } else {
        let prev = layers_fault_upto(layers, n - 1);
        if prev is Some {
            prev
        } else {
            layer_fault(layers, n - 1)
        }
    }
}

pub open spec fn pair_unknown(p: (Seq<char>, Seq<char>), ids: Seq<Seq<char>>) -> bool {
    !ids.contains(p.0) || !ids.contains(p.1)
}

pub open spec fn endpoint_unknown(pairs: Seq<(Seq<char>, Seq<char>)>, ids: Seq<Seq<char>>) -> bool {
    exists|k: int| 0 <= k < pairs.len() && #[trigger] pair_unknown(pairs[k], ids)
}

pub open spec fn document_bad(docs: Seq<ArchitectureDocument>, k: int) -> bool {
    ||| exists|j: int| 0 <= j < k && #[trigger] docs[j].path@ == docs[k].path@
    ||| !safe_path(docs[k].path@)
    ||| !document_digest_ok(docs[k].digest@, docs[k].present)
}

pub open spec fn evidence_bad(ev: Seq<ArchitectureEvidence>, k: int) -> bool {
    ||| exists|j: int| 0 <= j < k && #[trigger] ev[j].check == ev[k].check
    ||| !safe_path(ev[k].file_path@)
    ||| !sha_ok(ev[k].head_sha@, 40)
    ||| !sha_ok(ev[k].tree_sha@, 64)
    ||| !payload_ok(ev[k])
}

/// The message of the first rule a manifest breaks under profile `p`.
pub open spec fn shape_fault(m: ArchitectureManifest, l: ManifestLimits) -> Option<Seq<char>> {
    let ids = layer_ids(m.layers@);
    if !header_ok(m, l.revision) {
        Some("manifest schema, identity or revision is invalid"@)
    } else if !sizes_ok(m, l) {
        Some("manifest collection exceeds bounded limits"@)
    } else if has_dup(ids) {
        Some("duplicate layer id"@)
    } else if layers_fault_upto(m.layers@, m.layers@.len() as int) is Some {
        layers_fault_upto(m.layers@, m.layers@.len() as int)
    } else if has_dup(edge_pairs(m.edges@)) || has_dup(ref_pairs(m.allowed_edges@)) || has_dup(
        ref_pairs(m.forbidden_edges@),
    ) {
        Some("duplicate architecture edge"@)
    } else if endpoint_unknown(edge_pairs(m.edges@), ids) || endpoint_unknown(
        ref_pairs(m.allowed_edges@),
        ids,
    ) || endpoint_unknown(ref_pairs(m.forbidden_edges@), ids) {
        Some("edge references unknown layer"@)
    } else if exists|k: int| 0 <= k < m.documents@.len() && #[trigger] document_bad(m.documents@, k) {
        Some("document is duplicate or malformed"@)
    } else if exists|k: int| 0 <= k < m.evidence@.len() && #[trigger] evidence_bad(m.evidence@, k) {
        Some("evidence is duplicate or malformed"@)
    } else {
        None
    }
}

pub open spec fn shape_fault_result(m: ArchitectureManifest, l: ManifestLimits) -> Option<ArchFault> {
    match shape_fault(m, l) {
        Some(x) => Some(ArchFault::InvalidManifest(x)),
        None => None,
    }
}

proof fn lemma_layers_fault_stable(layers: Seq<ArchitectureLayer>, i: int, n: int)
    requires
        0 <= i <= n,
        layers_fault_upto(layers, i) is Some,
    ensures
        layers_fault_upto(layers, n) == layers_fault_upto(layers, i),
    decreases n - i,
{
    if i < n {
        lemma_layers_fault_stable(layers, i, n - 1);
    }
}

fn ids_contain(layers: &Vec<ArchitectureLayer>, name: &str) -> (r: bool)
    ensures
        r == layer_ids(layers@).contains(name@),
{
    let ghost ids = layer_ids(layers@);
    let mut i: usize = 0;
    while i < layers.len()
        invariant
            ids == layer_ids(layers@),
            i <= layers@.len(),
            forall|k: int| 0 <= k < i ==> ids[k] != name@,
        decreases layers@.len() - i,
    {
        if same_text(layers[i].id.as_str(), name) {
            assert(ids[i as int] == name@);
            return true;
        }
        i = i + 1;
    }
    false
}

fn layer_ids_duplicate(layers: &Vec<ArchitectureLayer>) -> (r: bool)
    ensures
        r == has_dup(layer_ids(layers@)),
{
    let ghost ids = layer_ids(layers@);
    let mut j: usize = 0;
    while j < layers.len()
        invariant
            ids == layer_ids(layers@),
            j <= layers@.len(),
            forall|a: int, b: int| 0 <= a < b < j ==> ids[a] != ids[b],
        decreases layers@.len() - j,
    {
        let mut i: usize = 0;
        while i < j
            invariant
                ids == layer_ids(layers@),
                j < layers@.len(),
                i <= j,
                forall|a: int| 0 <= a < i ==> ids[a] != ids[j as int],
            decreases j - i,
        {
            if same_text(layers[i].id.as_str(), layers[j].id.as_str()) {
                assert(0 <= i < j < ids.len() && ids[i as int] == ids[j as int]);
                return true;
            }
            i = i + 1;
        }
        j = j + 1;
    }
    false
}

#[verifier::loop_isolation(false)]
fn layer_fault_at(layers: &Vec<ArchitectureLayer>, k: usize) -> (r: Option<&'static str>)
    requires
        k < layers@.len(),
    ensures
        r is Some <==> layer_fault(layers@, k as int) is Some,
        r matches Some(m) ==> layer_fault(layers@, k as int) == Some(m@),
{
    let layer = &layers[k];
    if !validate_layer_shape(layer) {
        return Some("layer is malformed or instruction-like");
    }
    let mut j: usize = 0;
    while j < k
        invariant
            k < layers@.len(),
            j <= k,
            forall|a: int| 0 <= a < j ==> layers@[a].owner@ != layers@[k as int].owner@,
        decreases k - j,
    {
        if same_text(layers[j].owner.as_str(), layers[k].owner.as_str()) {
            assert(layers@[j as int].owner@ == layers@[k as int].owner@);
            return Some("duplicate layer owner");
        }
        j = j + 1;
    }
    let deps = &layer.allowed_dependencies;
    let mut d: usize = 0;
    while d < deps.len()
        invariant
            k < layers@.len(),
            *deps == layers@[k as int].allowed_dependencies,
            d <= deps@.len(),
            forall|a: int|
                0 <= a < d ==> !(#[trigger] deps@[a]@ != shared_contracts() && !layer_ids(
                    layers@,
                ).contains(deps@[a]@)),
        decreases deps@.len() - d,
    {
        let dep = deps[d].as_str();
        if !same_text(dep, "ports/application contracts") && !ids_contain(layers, dep) {
            assert(deps@[d as int]@ != shared_contracts());
            return Some("layer contains unknown dependency");
        }
        d = d + 1;
    }
    None
}

fn edge_pairs_duplicate(edges: &Vec<ArchitectureEdge>) -> (r: bool)
    ensures
        r == has_dup(edge_pairs(edges@)),
{
    let ghost ps = edge_pairs(edges@);
    let mut j: usize = 0;
    while j < edges.len()
        invariant
            ps == edge_pairs(edges@),
            j <= edges@.len(),
            forall|a: int, b: int| 0 <= a < b < j ==> ps[a] != ps[b],
        decreases edges@.len() - j,
    {
        let mut i: usize = 0;
        while i < j
            invariant
                ps == edge_pairs(edges@),
                j < edges@.len(),
                i <= j,
                forall|a: int| 0 <= a < i ==> ps[a] != ps[j as int],
            decreases j - i,
        {
            if same_text(edges[i].from.as_str(), edges[j].from.as_str()) && same_text(
                edges[i].to.as_str(),
                edges[j].to.as_str(),
            ) {
                assert(0 <= i < j < ps.len() && ps[i as int] == ps[j as int]);
                return true;
            }
            i = i + 1;
        }
        j = j + 1;
    }
    false
}

fn ref_pairs_duplicate(edges: &Vec<ArchitectureEdgeRef>) -> (r: bool)
    ensures
        r == has_dup(ref_pairs(edges@)),
{
    let ghost ps = ref_pairs(edges@);
    let mut j: usize = 0;
    while j < edges.len()
        invariant
            ps == ref_pairs(edges@),
            j <= edges@.len(),
            forall|a: int, b: int| 0 <= a < b < j ==> ps[a] != ps[b],
        decreases edges@.len() - j,
    {
        let mut i: usize = 0;
        while i < j
            invariant
                ps == ref_pairs(edges@),
                j < edges@.len(),
                i <= j,
                forall|a: int| 0 <= a < i ==> ps[a] != ps[j as int],
            decreases j - i,
        {
            if same_text(edges[i].from.as_str(), edges[j].from.as_str()) && same_text(
                edges[i].to.as_str(),
                edges[j].to.as_str(),
            ) {
                assert(0 <= i < j < ps.len() && ps[i as int] == ps[j as int]);
                return true;
            }
            i = i + 1;
        }
        j = j + 1;
    }
    false
}

fn edge_endpoints_unknown(edges: &Vec<ArchitectureEdge>, layers: &Vec<ArchitectureLayer>) -> (r:
    bool)
    ensures
        r == endpoint_unknown(edge_pairs(edges@), layer_ids(layers@)),
{
    let ghost ps = edge_pairs(edges@);
    let ghost ids = layer_ids(layers@);
    let mut k: usize = 0;
    while k < edges.len()
        invariant
            ps == edge_pairs(edges@),
            ids == layer_ids(layers@),
            k <= edges@.len(),
            forall|a: int| 0 <= a < k ==> !#[trigger] pair_unknown(ps[a], ids),
        decreases edges@.len() - k,
    {
        assert(ps.len() == edges@.len());
        assert(ps[k as int] == (edges@[k as int].from@, edges@[k as int].to@));
        let known_from = ids_contain(layers, edges[k].from.as_str());
        let known_to = ids_contain(layers, edges[k].to.as_str());
        if !known_from || !known_to {
            assert(pair_unknown(ps[k as int], ids));
            assert(endpoint_unknown(ps, ids));
            return true;
        }
        assert(!pair_unknown(ps[k as int], ids));
        k = k + 1;
    }
    false
}

fn ref_endpoints_unknown(edges: &Vec<ArchitectureEdgeRef>, layers: &Vec<ArchitectureLayer>) -> (r:
    bool)
    ensures
        r == endpoint_unknown(ref_pairs(edges@), layer_ids(layers@)),
{
    let ghost ps = ref_pairs(edges@);
    let ghost ids = layer_ids(layers@);
    let mut k: usize = 0;
    while k < edges.len()
        invariant
            ps == ref_pairs(edges@),
            ids == layer_ids(layers@),
            k <= edges@.len(),
            forall|a: int| 0 <= a < k ==> !#[trigger] pair_unknown(ps[a], ids),
        decreases edges@.len() - k,
    {
        assert(ps.len() == edges@.len());
        assert(ps[k as int] == (edges@[k as int].from@, edges@[k as int].to@));
        let known_from = ids_contain(layers, edges[k].from.as_str());
        let known_to = ids_contain(layers, edges[k].to.as_str());
        if !known_from || !known_to {
            assert(pair_unknown(ps[k as int], ids));
            assert(endpoint_unknown(ps, ids));
            return true;
        }
        assert(!pair_unknown(ps[k as int], ids));
        k = k + 1;
    }
    false
}

fn some_document_bad(docs: &Vec<ArchitectureDocument>) -> (r: bool)
    ensures
        r == exists|k: int| 0 <= k < docs@.len() && #[trigger] document_bad(docs@, k),
{
    let mut k: usize = 0;
    while k < docs.len()
        invariant
            k <= docs@.len(),
            forall|a: int| 0 <= a < k ==> !#[trigger] document_bad(docs@, a),
        decreases docs@.len() - k,
    {
        let mut j: usize = 0;
        while j < k
            invariant
                k < docs@.len(),
                j <= k,
                forall|a: int| 0 <= a < j ==> docs@[a].path@ != docs@[k as int].path@,
            decreases k - j,
        {
            if same_text(docs[j].path.as_str(), docs[k].path.as_str()) {
                assert(docs@[j as int].path@ == docs@[k as int].path@);
                assert(document_bad(docs@, k as int));
                return true;
            }
            j = j + 1;
        }
        if !safe_relative_path(docs[k].path.as_str()) || !valid_document_digest(
            docs[k].digest.as_str(),
            docs[k].present,
        ) {
            assert(document_bad(docs@, k as int));
            return true;
        }
        k = k + 1;
    }
    false
}

fn some_evidence_bad(ev: &Vec<ArchitectureEvidence>) -> (r: bool)
    ensures
        r == exists|k: int| 0 <= k < ev@.len() && #[trigger] evidence_bad(ev@, k),
{
    let mut k: usize = 0;
    while k < ev.len()
        invariant
            k <= ev@.len(),
            forall|a: int| 0 <= a < k ==> !#[trigger] evidence_bad(ev@, a),
        decreases ev@.len() - k,
    {
        let mut j: usize = 0;
        while j < k
            invariant
                k < ev@.len(),
                j <= k,
                forall|a: int| 0 <= a < j ==> ev@[a].check != ev@[k as int].check,
            decreases k - j,
        {
            if ev[j].check == ev[k].check {
                assert(ev@[j as int].check == ev@[k as int].check);
                assert(evidence_bad(ev@, k as int));
                return true;
            }
            j = j + 1;
        }
        let e = &ev[k];
        if !safe_relative_path(e.file_path.as_str()) || !valid_sha(e.head_sha.as_str(), 40)
            || !valid_sha(e.tree_sha.as_str(), 64) || !valid_evidence_payload(e) {
            assert(evidence_bad(ev@, k as int));
            return true;
        }
        k = k + 1;
    }
    false
}

impl ArchitectureManifest {
    /// A manifest for the request's identity under the default profile's
    /// revision, kept only if its shape is valid for the default profile.
    #[allow(clippy::too_many_arguments)]
    pub fn new(
        request: &ArchitectureRequest,
        graph_revision: String,
        layers: Vec<ArchitectureLayer>,
        edges: Vec<ArchitectureEdge>,
        allowed_edges: Vec<ArchitectureEdgeRef>,
        forbidden_edges: Vec<ArchitectureEdgeRef>,
        documents: Vec<ArchitectureDocument>,
        evidence: Vec<ArchitectureEvidence>,
    ) -> (r: Result<Self, ArchitectureProfileError>)
        ensures
            r matches Ok(m) ==> {
                &&& m.schema_version == ARCHITECTURE_PROFILE_SCHEMA_VERSION
                &&& m.policy_revision@ == "architecture-v1"@
                &&& m.graph_revision == graph_revision
                &&& m.project_id == request.project_id
                &&& m.task_id == request.task_id
                &&& m.repository_id@ == request.repository_id@
                &&& m.worktree_id@ == request.worktree_id@
                &&& m.branch@ == request.branch@
                &&& m.head_sha@ == request.head_sha@
                &&& m.tree_sha@ == request.tree_sha@
                &&& m.layers == layers
                &&& m.edges == edges
                &&& m.allowed_edges == allowed_edges
                &&& m.forbidden_edges == forbidden_edges
                &&& m.documents == documents
                &&& m.evidence == evidence
            },
            r matches Ok(m) ==> shape_fault(m, default_limits()) is None,
            r matches Err(e) ==> exists|m: ArchitectureManifest|
                {
                    &&& m.policy_revision@ == "architecture-v1"@
                    &&& m.graph_revision == graph_revision
                    &&& m.layers == layers
                    &&& m.edges == edges
                    &&& m.allowed_edges == allowed_edges
                    &&& m.forbidden_edges == forbidden_edges
                    &&& m.documents == documents
                    &&& m.evidence == evidence
                    &&& m.repository_id@ == request.repository_id@
                    &&& m.worktree_id@ == request.worktree_id@
                    &&& m.branch@ == request.branch@
                    &&& m.head_sha@ == request.head_sha@
                    &&& m.tree_sha@ == request.tree_sha@
                    &&& m.schema_version == ARCHITECTURE_PROFILE_SCHEMA_VERSION
                    &&& m.project_id == request.project_id
                    &&& m.task_id == request.task_id
                    &&& shape_fault_result(m, default_limits()) == Some(arch_fault_of(e))
                },
    {
        let manifest = ArchitectureManifest {
            schema_version: ARCHITECTURE_PROFILE_SCHEMA_VERSION,
            policy_revision: "architecture-v1".to_owned(),
            graph_revision,
            project_id: request.project_id,
            task_id: request.task_id,
            repository_id: request.repository_id.clone(),
            worktree_id: request.worktree_id.clone(),
            branch: request.branch.clone(),
            head_sha: request.head_sha.clone(),
            tree_sha: request.tree_sha.clone(),
            layers,
            edges,
            allowed_edges,
            forbidden_edges,
            documents,
            evidence,
        };
        let profile = ArchitectureAgentProfile::default();
        match manifest.validate_shape(&profile) {
            Ok(_) => Ok(manifest),
            Err(e) => Err(e),
        }
    }

    /// Checks the manifest's header, collection bounds, layers, edges,
    /// documents and evidence under `profile`; the first broken rule is
    /// reported.
    #[verifier::loop_isolation(false)]
    pub fn validate_shape(&self, profile: &ArchitectureAgentProfile) -> (r: Result<(), ArchitectureProfileError>)
        ensures
            arch_result(r, shape_fault_result(*self, limits_of(*profile))),
    {
        if self.schema_version != ARCHITECTURE_PROFILE_SCHEMA_VERSION || self.policy_revision
            != profile.policy_revision || !bounded_text(
            self.graph_revision.as_str(),
            MAX_GRAPH_REVISION_LEN,
        ) || contains_instruction_like(self.graph_revision.as_str()) || !bounded_text(
            self.repository_id.as_str(),
            MAX_ID_LEN,
        ) || !bounded_text(self.worktree_id.as_str(), MAX_ID_LEN) || !bounded_text(
            self.branch.as_str(),
            MAX_PATH_LEN,
        ) || !valid_sha(self.head_sha.as_str(), 40) || !valid_sha(self.tree_sha.as_str(), 64) {
            return Err(invalid_manifest("manifest schema, identity or revision is invalid"));
        }
        if self.layers.len() == 0 || self.layers.len() > profile.max_layers || self.edges.len()
            > profile.max_edges || self.allowed_edges.len() > profile.max_edges
            || self.forbidden_edges.len() > profile.max_edges || self.documents.len()
            > profile.max_documents || self.evidence.len() > profile.max_evidence {
            return Err(invalid_manifest("manifest collection exceeds bounded limits"));
        }
        if layer_ids_duplicate(&self.layers) {
            return Err(invalid_manifest("duplicate layer id"));
        }
        let mut k: usize = 0;
        while k < self.layers.len()
            invariant
                k <= self.layers@.len(),
                layers_fault_upto(self.layers@, k as int) is None,
            decreases self.layers@.len() - k,
        {
            match layer_fault_at(&self.layers, k) {
                Some(m) => {
                    proof {
                        lemma_layers_fault_stable(
                            self.layers@,
                            (k + 1) as int,
                            self.layers@.len() as int,
                        );
                    }
                    return Err(invalid_manifest(m));
                },
                None => {},
            }
            k = k + 1;
        }
        if edge_pairs_duplicate(&self.edges) || ref_pairs_duplicate(&self.allowed_edges)
            || ref_pairs_duplicate(&self.forbidden_edges) {
            return Err(invalid_manifest("duplicate architecture edge"));
        }
        if edge_endpoints_unknown(&self.edges, &self.layers) || ref_endpoints_unknown(
            &self.allowed_edges,
            &self.layers,
        ) || ref_endpoints_unknown(&self.forbidden_edges, &self.layers) {
            return Err(invalid_manifest("edge references unknown layer"));
        }
        if some_document_bad(&self.documents) {
            return Err(invalid_manifest("document is duplicate or malformed"));
        }
        if some_evidence_bad(&self.evidence) {
            return Err(invalid_manifest("evidence is duplicate or malformed"));
        }
        Ok(())
    }
}


// ---------------------------------------------------------------------------
// Dependency cycles
// ---------------------------------------------------------------------------
/// `rank` strictly decreases along every edge.
pub open spec fn ranks_down(pairs: Seq<(Seq<char>, Seq<char>)>, rank: spec_fn(Seq<char>) -> int) -> bool {
    forall|k: int| 0 <= k < pairs.len() ==> rank(#[trigger] pairs[k].0) > rank(pairs[k].1)
}

/// A graph is acyclic exactly when its nodes can be ranked so that every
/// edge goes from a higher to a lower rank.
pub open spec fn acyclic(pairs: Seq<(Seq<char>, Seq<char>)>) -> bool {
    exists|rank: spec_fn(Seq<char>) -> int| ranks_down(pairs, rank)
}

/// The latest removal time among the first `upto` edges leaving `n`, or -1.
pub open spec fn last_leave(pairs: Seq<(Seq<char>, Seq<char>)>, t: Seq<int>, n: Seq<char>, upto: int) -> int
    decreases upto,
{
    if upto <= 0 {
        -1
    } else {
        let m = last_leave(pairs, t, n, upto - 1);
        if pairs[upto - 1].0 == n && t[upto - 1] > m {
            t[upto - 1]
        } else {
            m
        }
    }
}

proof fn lemma_last_leave_ge(pairs: Seq<(Seq<char>, Seq<char>)>, t: Seq<int>, n: Seq<char>, upto: int, j: int)
    requires
        0 <= j < upto,
        pairs[j].0 == n,
    ensures
        last_leave(pairs, t, n, upto) >= t[j],
    decreases upto,
{
    if j < upto - 1 {
        lemma_last_leave_ge(pairs, t, n, upto - 1, j);
    }
}

proof fn lemma_last_leave_lt(pairs: Seq<(Seq<char>, Seq<char>)>, t: Seq<int>, n: Seq<char>, upto: int, bound: int)
    requires
        bound >= 0,
        forall|j: int| 0 <= j < upto && pairs[j].0 == n ==> t[j] < bound,
    ensures
        last_leave(pairs, t, n, upto) < bound,
    decreases upto,
{
    if upto > 0 {
        lemma_last_leave_lt(pairs, t, n, upto - 1, bound);
    }
}

/// Among the alive edges, one whose source has the least rank.
proof fn lemma_least_alive(alive: Seq<bool>, f: spec_fn(int) -> int, n: int) -> (m: int)
    requires
        0 < n <= alive.len(),
        exists|k: int| 0 <= k < n && alive[k],
    ensures
        0 <= m < n,
        alive[m],
        forall|k: int| 0 <= k < n && alive[k] ==> f(m) <= f(k),
    decreases n,
{
    if n == 1 {
        0
    } else if exists|k: int| 0 <= k < n - 1 && alive[k] {
        let m0 = lemma_least_alive(alive, f, n - 1);
        if alive[n - 1] && f(n - 1) < f(m0) {
            n - 1
        } else {
            m0
        }
    } else {
        n - 1
    }
}

/// When every alive edge leads into the source of another alive edge, no
/// ranking can exist: the alive edge of least source rank would lead lower.
proof fn lemma_stuck_is_cyclic(pairs: Seq<(Seq<char>, Seq<char>)>, alive: Seq<bool>)
    requires
        alive.len() == pairs.len(),
        exists|k: int| 0 <= k < pairs.len() && alive[k],
        forall|k: int|
            0 <= k < pairs.len() && alive[k] ==> exists|j: int|
                0 <= j < pairs.len() && alive[j] && #[trigger] pairs[j].0 == pairs[k].1,
    ensures
        !acyclic(pairs),
{
    if acyclic(pairs) {
        let rank = choose|rank: spec_fn(Seq<char>) -> int| ranks_down(pairs, rank);
        let f = |k: int| rank(pairs[k].0);
        let m = lemma_least_alive(alive, f, pairs.len() as int);
        let j = choose|j: int| 0 <= j < pairs.len() && alive[j] && #[trigger] pairs[j].0 == pairs[m].1;
        assert(rank(pairs[m].0) > rank(pairs[m].1));
        assert(f(j) == rank(pairs[m].1));
        assert(f(m) <= f(j));
    }
}

fn edge_follows(edges: &Vec<ArchitectureEdge>) -> (r: Vec<Vec<bool>>)
    ensures
        r@.len() == edges@.len(),
        forall|k: int| 0 <= k < edges@.len() ==> #[trigger] r@[k]@.len() == edges@.len(),
        forall|k: int, j: int|
            0 <= k < edges@.len() && 0 <= j < edges@.len() ==> #[trigger] r@[k]@[j] == (
            edges@[j].from@ == edges@[k].to@),
{
    let n = edges.len();
    let mut r: Vec<Vec<bool>> = Vec::new();
    let mut k: usize = 0;
    while k < n
        invariant
            n == edges@.len(),
            k <= n,
            r@.len() == k,
            forall|a: int| 0 <= a < k ==> #[trigger] r@[a]@.len() == n,
            forall|a: int, b: int|
                0 <= a < k && 0 <= b < n ==> #[trigger] r@[a]@[b] == (edges@[b].from@
                    == edges@[a].to@),
        decreases n - k,
    {
        let mut row: Vec<bool> = Vec::new();
        let mut j: usize = 0;
        while j < n
            invariant
                n == edges@.len(),
                k < n,
                j <= n,
                row@.len() == j,
                forall|b: int| 0 <= b < j ==> #[trigger] row@[b] == (edges@[b].from@ == edges@[k as int].to@),
            decreases n - j,
        {
            row.push(same_text(edges[j].from.as_str(), edges[k].to.as_str()));
            j = j + 1;
        }
        r.push(row);
        k = k + 1;
    }
    r
}

/// Whether the dependency edges contain a directed cycle (a self-loop
/// counts). Edges are removed while their target has no remaining outgoing
/// edge; edges that can never be removed lie on or lead into a cycle.
pub fn has_cycle(edges: &Vec<ArchitectureEdge>) -> (r: bool)
    ensures
        r == !acyclic(edge_pairs(edges@)),
{
    let ghost pairs = edge_pairs(edges@);
    let n = edges.len();
    let follows = edge_follows(edges);
    let mut alive: Vec<bool> = Vec::new();
    let mut time: Vec<usize> = Vec::new();
    let mut i: usize = 0;
    while i < n
        invariant
            n == edges@.len(),
            i <= n,
            alive@.len() == i,
            time@.len() == i,
            forall|a: int| 0 <= a < i ==> #[trigger] alive@[a],
            count_alive(alive@, i as int) == i,
        decreases n - i,
    {
        proof {
            lemma_count_alive_same(alive@, alive@.push(true), i as int);
        }
        alive.push(true);
        time.push(0);
        i = i + 1;
    }
    let mut clock: usize = 0;
    let mut remaining: usize = n;
    loop
        invariant
            n == edges@.len(),
            pairs == edge_pairs(edges@),
            pairs.len() == n,
            follows@.len() == n,
            forall|k: int| 0 <= k < n ==> #[trigger] follows@[k]@.len() == n,
            forall|k: int, j: int|
                0 <= k < n && 0 <= j < n ==> #[trigger] follows@[k]@[j] == (pairs[j].0 == pairs[k].1),
            alive@.len() == n,
            time@.len() == n,
            remaining <= n,
            clock + remaining == n,
            remaining == count_alive(alive@, n as int),
            forall|k: int| 0 <= k < n && !alive@[k] ==> #[trigger] time@[k] < clock,
            removal_ordered(pairs, alive@, time@),
        decreases remaining,
    {
        let mut killed = false;
        let ghost start = remaining;
        let mut k: usize = 0;
        while k < n
            invariant
                remaining <= start,
                killed ==> remaining < start,
                n == edges@.len(),
                pairs == edge_pairs(edges@),
                pairs.len() == n,
                follows@.len() == n,
                forall|a: int| 0 <= a < n ==> #[trigger] follows@[a]@.len() == n,
                forall|a: int, j: int|
                    0 <= a < n && 0 <= j < n ==> #[trigger] follows@[a]@[j] == (pairs[j].0
                        == pairs[a].1),
                alive@.len() == n,
                time@.len() == n,
                k <= n,
                remaining <= n,
                clock + remaining == n,
                remaining == count_alive(alive@, n as int),
                forall|a: int| 0 <= a < n && !alive@[a] ==> #[trigger] time@[a] < clock,
                removal_ordered(pairs, alive@, time@),
                !killed ==> forall|a: int|
                    0 <= a < k && #[trigger] alive@[a] ==> exists|j: int|
                        0 <= j < n && alive@[j] && #[trigger] pairs[j].0 == pairs[a].1,
            decreases n - k,
        {
            if alive[k] {
                let mut blocked = false;
                let mut j: usize = 0;
                while j < n
                    invariant
                        n == edges@.len(),
                        pairs.len() == n,
                        k < n,
                        follows@.len() == n,
                        forall|a: int| 0 <= a < n ==> #[trigger] follows@[a]@.len() == n,
                        forall|a: int, b: int|
                            0 <= a < n && 0 <= b < n ==> #[trigger] follows@[a]@[b] == (pairs[b].0
                                == pairs[a].1),
                        alive@.len() == n,
                        j <= n,
                        blocked ==> exists|b: int|
                            0 <= b < n && alive@[b] && #[trigger] pairs[b].0 == pairs[k as int].1,
                        !blocked ==> forall|b: int|
                            0 <= b < j && pairs[b].0 == pairs[k as int].1 ==> !#[trigger] alive@[b],
                    decreases n - j,
                {
                    if follows[k][j] && alive[j] {
                        assert(pairs[j as int].0 == pairs[k as int].1);
                        blocked = true;
                    }
                    j = j + 1;
                }
                if !blocked {
                    proof {
                        lemma_count_alive_kill(alive@, n as int, k as int);
                        lemma_kill_keeps_order(pairs, alive@, time@, k as int, clock);
                    }
                    alive.set(k, false);
                    time.set(k, clock);
                    clock = clock + 1;
                    remaining = remaining - 1;
                    killed = true;
                }
            }
            k = k + 1;
        }
        if !killed {
            if remaining == 0 {
                proof {
                    let t = time@.map_values(|x: usize| x as int);
                    let rank = |name: Seq<char>| last_leave(pairs, t, name, n as int);
                    lemma_none_alive(alive@, n as int);
                    assert forall|k: int| 0 <= k < pairs.len() implies rank(#[trigger] pairs[k].0) > rank(
                        pairs[k].1,
                    ) by {
                        lemma_last_leave_ge(pairs, t, pairs[k].0, n as int, k);
                        assert(dead_before(pairs, alive@, time@, k));
                        assert forall|j: int| 0 <= j < n && pairs[j].0 == pairs[k].1 implies t[j] < t[k] by {
                            assert(time@[j] < time@[k]);
                        }
                        lemma_last_leave_lt(pairs, t, pairs[k].1, n as int, t[k]);
                    }
                    assert(ranks_down(pairs, rank));
                }
                return false;
            } else {
                proof {
                    lemma_some_alive(alive@, n as int);
                    lemma_stuck_is_cyclic(pairs, alive@);
                }
                return true;
            }
        }
    }
}


/// A removed edge's followers were all removed before it.
pub open spec fn dead_before(pairs: Seq<(Seq<char>, Seq<char>)>, alive: Seq<bool>, time: Seq<usize>, k: int) -> bool {
    !alive[k] ==> forall|j: int|
        0 <= j < pairs.len() && #[trigger] pairs[j].0 == pairs[k].1 ==> !alive[j] && time[j]
            < time[k]
}

pub open spec fn removal_ordered(pairs: Seq<(Seq<char>, Seq<char>)>, alive: Seq<bool>, time: Seq<usize>) -> bool {
    forall|k: int| 0 <= k < pairs.len() ==> #[trigger] dead_before(pairs, alive, time, k)
}

proof fn lemma_kill_keeps_order(
    pairs: Seq<(Seq<char>, Seq<char>)>,
    alive: Seq<bool>,
    time: Seq<usize>,
    k0: int,
    clock: usize,
)
    requires
        alive.len() == pairs.len(),
        time.len() == pairs.len(),
        0 <= k0 < pairs.len(),
        alive[k0],
        removal_ordered(pairs, alive, time),
        forall|a: int| 0 <= a < pairs.len() && !alive[a] ==> #[trigger] time[a] < clock,
        forall|b: int| 0 <= b < pairs.len() && pairs[b].0 == pairs[k0].1 ==> !#[trigger] alive[b],
    ensures
        removal_ordered(pairs, alive.update(k0, false), time.update(k0, clock)),
{
    let a2 = alive.update(k0, false);
    let t2 = time.update(k0, clock);
    assert forall|k: int| 0 <= k < pairs.len() implies #[trigger] dead_before(pairs, a2, t2, k) by {
        if !a2[k] {
            if k == k0 {
                assert forall|j: int| 0 <= j < pairs.len() && #[trigger] pairs[j].0 == pairs[k].1 implies !a2[j]
                    && t2[j] < t2[k] by {
                    assert(!alive[j]);
                    assert(time[j] < clock);
                }
            } else {
                assert(dead_before(pairs, alive, time, k));
                assert forall|j: int| 0 <= j < pairs.len() && #[trigger] pairs[j].0 == pairs[k].1 implies !a2[j]
                    && t2[j] < t2[k] by {
                    assert(!alive[j]);
                }
            }
        }
    }
}

/// Number of alive entries among the first `n`.
pub open spec fn count_alive(alive: Seq<bool>, n: int) -> nat
    decreases n,
{
    if n <= 0 {
        0
    } else {
        count_alive(alive, n - 1) + if alive[n - 1] {
            1nat
        } else {
            0nat
        }
    }
}

proof fn lemma_count_alive_kill(alive: Seq<bool>, n: int, k: int)
    requires
        0 <= k < n <= alive.len(),
        alive[k],
    ensures
        count_alive(alive.update(k, false), n) + 1 == count_alive(alive, n),
    decreases n,
{
    if n - 1 > k {
        lemma_count_alive_kill(alive, n - 1, k);
    } else {
        lemma_count_alive_same(alive, alive.update(k, false), k);
    }
}

proof fn lemma_count_alive_same(a: Seq<bool>, b: Seq<bool>, n: int)
    requires
        0 <= n <= a.len(),
        n <= b.len(),
        forall|i: int| 0 <= i < n ==> a[i] == b[i],
    ensures
        count_alive(a, n) == count_alive(b, n),
    decreases n,
{
    if n > 0 {
        lemma_count_alive_same(a, b, n - 1);
    }
}

proof fn lemma_none_alive(alive: Seq<bool>, n: int)
    requires
        0 <= n <= alive.len(),
        count_alive(alive, n) == 0,
    ensures
        forall|i: int| 0 <= i < n ==> !alive[i],
    decreases n,
{
    if n > 0 {
        lemma_none_alive(alive, n - 1);
    }
}

proof fn lemma_some_alive(alive: Seq<bool>, n: int)
    requires
        0 <= n <= alive.len(),
        count_alive(alive, n) > 0,
    ensures
        exists|i: int| 0 <= i < n && alive[i],
    decreases n,
{
    if n > 0 && !alive[n - 1] {
        lemma_some_alive(alive, n - 1);
    }
}


// ---------------------------------------------------------------------------
// Findings, reports and handoffs
// ---------------------------------------------------------------------------
#[derive(Debug, Clone, Copy, PartialEq, Eq, Structural)]
pub enum ArchitectureReportStatus {
    Pass,
    Failed,
    Blocked,
    NoProof,
}

#[derive(Debug, Clone, Copy, PartialEq, Eq, Structural)]
pub enum ArchitectureSeverity {
    Info,
    Low,
    Medium,
    High,
    Critical,
}

#[derive(Debug, Clone, Copy, PartialEq, Eq, Structural)]
pub enum ArchitectureFindingStatus {
    Failed,
    Blocked,
    Unknown,
}

#[derive(Debug, Clone)]
pub struct ArchitectureFinding {
    code: String,
    severity: ArchitectureSeverity,
    summary: String,
    reference: Option<String>,
    status: ArchitectureFindingStatus,
}

/// What a finding says.
pub struct FindingView {
    pub code: Seq<char>,
    pub severity: ArchitectureSeverity,
    pub summary: Seq<char>,
    pub reference: Option<Seq<char>>,
    pub status: ArchitectureFindingStatus,
}

pub open spec fn opt_view(o: Option<String>) -> Option<Seq<char>> {
    match o {
        Some(s) => Some(s@),
        None => None,
    }
}

/// A finding must carry a bounded code and summary and a safe reference.
pub open spec fn finding_ok(f: FindingView) -> bool {
    &&& bounded(f.code, MAX_ID_LEN as nat)
    &&& bounded(f.summary, MAX_TEXT_LEN as nat)
    &&& (f.reference matches Some(r) ==> safe_path(r))
}

impl ArchitectureFinding {
    pub closed spec fn view_of(&self) -> FindingView {
        FindingView {
            code: self.code@,
            severity: self.severity,
            summary: self.summary@,
            reference: opt_view(self.reference),
            status: self.status,
        }
    }

    fn new(
        code: &str,
        severity: ArchitectureSeverity,
        summary: String,
        reference: Option<String>,
        status: ArchitectureFindingStatus,
    ) -> (r: Result<Self, ArchitectureProfileError>)
        ensures
            ({
                let v = FindingView {
                    code: code@,
                    severity,
                    summary: summary@,
                    reference: opt_view(reference),
                    status,
                };
                &&& r is Ok <==> finding_ok(v)
                &&& r matches Ok(f) ==> f.view_of() == v
                &&& r matches Err(e) ==> arch_fault_of(e) == ArchFault::InvalidManifest(
                    "finding is malformed or instruction-like"@,
                )
            }),
    {
        let finding = ArchitectureFinding {
            code: code.to_owned(),
            severity,
            summary,
            reference,
            status,
        };
        let reference_ok = match &finding.reference {
            Some(x) => safe_relative_path(x.as_str()),
            None => true,
        };
        if !bounded_text(finding.code.as_str(), MAX_ID_LEN) || !bounded_text(
            finding.summary.as_str(),
            MAX_TEXT_LEN,
        ) || !reference_ok || contains_instruction_like(finding.summary.as_str()) {
            return Err(invalid_manifest("finding is malformed or instruction-like"));
        }
        Ok(finding)
    }

    pub fn code(&self) -> (r: &str)
        ensures
            r@ == self.view_of().code,
    {
        self.code.as_str()
    }

    pub fn severity(&self) -> (r: ArchitectureSeverity)
        ensures
            r == self.view_of().severity,
    {
        self.severity
    }

    pub fn status(&self) -> (r: ArchitectureFindingStatus)
        ensures
            r == self.view_of().status,
    {
        self.status
    }

    pub fn reference(&self) -> (r: Option<&str>)
        ensures
            r is Some <==> self.view_of().reference is Some,
            r matches Some(x) ==> self.view_of().reference == Some(x@),
    {
        match &self.reference {
            Some(x) => Some(x.as_str()),
            None => None,
        }
    }
}

pub open spec fn finding_views(fs: Seq<ArchitectureFinding>) -> Seq<FindingView> {
    fs.map_values(|f: ArchitectureFinding| f.view_of())
}

pub open spec fn mk_finding(
    code: Seq<char>,
    severity: ArchitectureSeverity,
    summary: Seq<char>,
    reference: Option<Seq<char>>,
    status: ArchitectureFindingStatus,
) -> FindingView {
    FindingView { code, severity, summary, reference, status }
}

/// The finding raised by edge `k`, if any: unknown endpoint, forbidden
/// boundary, or not declared as allowed.
pub open spec fn edge_finding(m: ArchitectureManifest, k: int) -> Option<FindingView> {
    let e = m.edges@[k];
    let ids = layer_ids(m.layers@);
    let pair = (e.from@, e.to@);
    let head = e.from@ + " -> "@ + e.to@;
    if !ids.contains(e.from@) || !ids.contains(e.to@) {
        Some(
            mk_finding(
                "UNKNOWN_LAYER"@,
                ArchitectureSeverity::High,
                head + " references an unknown layer"@,
                Some(e.to@),
                ArchitectureFindingStatus::Failed,
            ),
        )
    } else if ref_pairs(m.forbidden_edges@).contains(pair) {
        Some(
            mk_finding(
                "FORBIDDEN_EDGE"@,
                ArchitectureSeverity::Critical,
                head + " is forbidden by the architecture boundary"@,
                Some(e.to@),
                ArchitectureFindingStatus::Failed,
            ),
        )
    } else if !ref_pairs(m.allowed_edges@).contains(pair) {
        Some(
            mk_finding(
                "UNDECLARED_EDGE"@,
                ArchitectureSeverity::High,
                head + " is not in the allowed edge set"@,
                Some(e.to@),
                ArchitectureFindingStatus::Failed,
            ),
        )
    } else {
        None
    }
}

pub open spec fn push_opt(s: Seq<FindingView>, o: Option<FindingView>) -> Seq<FindingView> {
    match o {
        Some(f) => s.push(f),
        None => s,
    }
}

pub open spec fn edge_findings(m: ArchitectureManifest, n: int) -> Seq<FindingView>
    decreases n,
{
    if n <= 0 {
        seq![]
    } else {
        push_opt(edge_findings(m, n - 1), edge_finding(m, n - 1))
    }
}

pub open spec fn cycle_finding(m: ArchitectureManifest) -> Option<FindingView> {
    if !acyclic(edge_pairs(m.edges@)) {
        Some(
            mk_finding(
                "CYCLE"@,
                ArchitectureSeverity::Critical,
                "architecture dependency cycle detected"@,
                None,
                ArchitectureFindingStatus::Failed,
            ),
        )
    } else {
        None
    }
}

pub open spec fn document_finding(m: ArchitectureManifest, k: int) -> Option<FindingView> {
    let d = m.documents@[k];
    if !d.present {
        Some(
            mk_finding(
                "MISSING_DOCUMENT"@,
                ArchitectureSeverity::High,
                "required "@ + document_label(d.kind) + " is absent"@,
                Some(d.path@),
                ArchitectureFindingStatus::Blocked,
            ),
        )
    } else {
        None
    }
}

pub open spec fn document_findings(m: ArchitectureManifest, n: int) -> Seq<FindingView>
    decreases n,
{
    if n <= 0 {
        seq![]
    } else {
        push_opt(document_findings(m, n - 1), document_finding(m, n - 1))
    }
}

pub open spec fn has_evidence(ev: Seq<ArchitectureEvidence>, c: ArchitectureCheck) -> bool {
    exists|i: int| 0 <= i < ev.len() && ev[i].check == c
}

pub open spec fn evidence_index(ev: Seq<ArchitectureEvidence>, c: ArchitectureCheck) -> int {
    choose|i: int| 0 <= i < ev.len() && ev[i].check == c
}

/// The evidence recorded for check `c`.
pub open spec fn evidence_for(ev: Seq<ArchitectureEvidence>, c: ArchitectureCheck) -> ArchitectureEvidence {
    ev[evidence_index(ev, c)]
}

pub open spec fn evidence_stale(m: ArchitectureManifest, e: ArchitectureEvidence) -> bool {
    ||| e.graph_revision@ != m.graph_revision@
    ||| e.head_sha@ != m.head_sha@
    ||| e.tree_sha@ != m.tree_sha@
    ||| e.policy_revision@ != m.policy_revision@
}

/// The finding raised by required check `c`: missing, stale, failed or not
/// passed evidence.
pub open spec fn check_finding(m: ArchitectureManifest, c: ArchitectureCheck) -> Option<FindingView> {
    let label = check_label(c);
    if !has_evidence(m.evidence@, c) {
        Some(
            mk_finding(
                "MISSING_EVIDENCE"@,
                ArchitectureSeverity::High,
                label + " evidence is missing"@,
                None,
                ArchitectureFindingStatus::Unknown,
            ),
        )
    } else {
        let e = evidence_for(m.evidence@, c);
        if evidence_stale(m, e) {
            Some(
                mk_finding(
                    "STALE_EVIDENCE"@,
                    ArchitectureSeverity::High,
                    label + " evidence identity is stale"@,
                    Some(e.file_path@),
                    ArchitectureFindingStatus::Unknown,
                ),
            )
        } else if e.status == ArchitectureEvidenceStatus::Passed {
            None
        } else if e.status == ArchitectureEvidenceStatus::Failed {
            Some(
                mk_finding(
                    "EVIDENCE_FAILED"@,
                    ArchitectureSeverity::High,
                    label + " evidence failed"@,
                    Some(e.file_path@),
                    ArchitectureFindingStatus::Failed,
                ),
            )
        } else {
            Some(
                mk_finding(
                    "INCOMPLETE_EVIDENCE"@,
                    ArchitectureSeverity::High,
                    label + " evidence is not passed"@,
                    Some(e.file_path@),
                    ArchitectureFindingStatus::Unknown,
                ),
            )
        }
    }
}

pub open spec fn check_findings(m: ArchitectureManifest, n: int) -> Seq<FindingView>
    decreases n,
{
    if n <= 0 {
        seq![]
    } else {
        push_opt(check_findings(m, n - 1), check_finding(m, required_checks()[n - 1]))
    }
}

/// Every finding of a manifest, in the order they are raised.
pub open spec fn all_findings(m: ArchitectureManifest) -> Seq<FindingView> {
    push_opt(edge_findings(m, m.edges@.len() as int), cycle_finding(m)) + document_findings(
        m,
        m.documents@.len() as int,
    ) + check_findings(m, 4)
}

pub open spec fn some_status(fs: Seq<FindingView>, st: ArchitectureFindingStatus) -> bool {
    exists|i: int| 0 <= i < fs.len() && #[trigger] fs[i].status == st
}

/// A failed graph beats a missing document, which beats missing proof.
pub open spec fn report_status(fs: Seq<FindingView>) -> ArchitectureReportStatus {
    if some_status(fs, ArchitectureFindingStatus::Failed) {
        ArchitectureReportStatus::Failed
    } else if some_status(fs, ArchitectureFindingStatus::Blocked) {
        ArchitectureReportStatus::Blocked
    } else if some_status(fs, ArchitectureFindingStatus::Unknown) {
        ArchitectureReportStatus::NoProof
    } else {
        ArchitectureReportStatus::Pass
    }
}

pub open spec fn all_findings_ok(fs: Seq<FindingView>) -> bool {
    forall|i: int| 0 <= i < fs.len() ==> #[trigger] finding_ok(fs[i])
}

/// The text the evaluator digest is computed over.
pub open spec fn digest_input(m: ArchitectureManifest) -> Seq<char> {
    m.policy_revision@ + ":"@ + m.graph_revision@ + ":"@ + m.head_sha@ + ":"@ + m.tree_sha@
        + ":"@ + crate::digest::decimal(m.layers@.len()) + ":"@ + crate::digest::decimal(
        m.edges@.len(),
    )
}

/// The outcome of evaluating `m` for mapping `map` under profile `p`.
pub open spec fn evaluate_fault(
    p: ArchitectureAgentProfile,
    map: TaskWorkspaceMapping,
    m: ArchitectureManifest,
) -> Option<ArchFault> {
    if profile_fault_result(p) is Some {
        profile_fault_result(p)
    } else if shape_fault_result(m, limits_of(p)) is Some {
        shape_fault_result(m, limits_of(p))
    } else if !scope_matches(map, m.project_id, m.task_id, m.repository_id@, m.worktree_id@, m.branch@) {
        Some(ArchFault::ScopeMismatch)
    } else if !all_findings_ok(all_findings(m)) {
        Some(ArchFault::InvalidManifest("finding is malformed or instruction-like"@))
    } else if all_findings(m).len() > p.max_findings {
        Some(ArchFault::InvalidManifest("finding count exceeds profile limit"@))
    } else {
        None
    }
}

#[derive(Debug, Clone)]
pub struct ArchitectureReport {
    schema_version: u32,
    policy_revision: String,
    graph_revision: String,
    project_id: ProjectId,
    task_id: TaskId,
    repository_id: String,
    worktree_id: String,
    branch: String,
    head_sha: String,
    tree_sha: String,
    status: ArchitectureReportStatus,
    findings: Vec<ArchitectureFinding>,
    evidence: Vec<ArchitectureEvidence>,
    evaluator_digest: String,
}

#[derive(Debug, Clone)]
pub struct ArchitectureHandoff {
    status: ArchitectureReportStatus,
    finding_codes: Vec<String>,
    digest: String,
}

pub open spec fn evidence_views_equal(a: Seq<ArchitectureEvidence>, b: Seq<ArchitectureEvidence>) -> bool {
    a.len() == b.len() && forall|i: int| 0 <= i < a.len() ==> #[trigger] same_evidence(a[i], b[i])
}

pub open spec fn same_evidence(a: ArchitectureEvidence, b: ArchitectureEvidence) -> bool {
    &&& a.check == b.check
    &&& a.file_path@ == b.file_path@
    &&& a.head_sha@ == b.head_sha@
    &&& a.tree_sha@ == b.tree_sha@
    &&& a.graph_revision@ == b.graph_revision@
    &&& a.policy_revision@ == b.policy_revision@
    &&& a.digest@ == b.digest@
    &&& a.bytes == b.bytes
    &&& a.status == b.status
}

impl ArchitectureEvidence {
    /// An equal copy of the evidence.
    pub fn duplicate(&self) -> (r: Self)
        ensures
            r == *self,
    {
        ArchitectureEvidence {
            check: self.check,
            file_path: self.file_path.clone(),
            head_sha: self.head_sha.clone(),
            tree_sha: self.tree_sha.clone(),
            graph_revision: self.graph_revision.clone(),
            policy_revision: self.policy_revision.clone(),
            digest: self.digest.clone(),
            bytes: self.bytes,
            status: self.status,
        }
    }
}

fn copy_evidence(ev: &Vec<ArchitectureEvidence>) -> (r: Vec<ArchitectureEvidence>)
    ensures
        r@ == ev@,
{
    let mut out: Vec<ArchitectureEvidence> = Vec::new();
    let mut i: usize = 0;
    while i < ev.len()
        invariant
            i <= ev@.len(),
            out@ == ev@.take(i as int),
        decreases ev@.len() - i,
    {
        out.push(ev[i].duplicate());
        assert(out@ =~= ev@.take(i + 1));
        i = i + 1;
    }
    assert(ev@.take(ev@.len() as int) =~= ev@);
    out
}

impl ArchitectureReport {
    pub closed spec fn schema_version_of(&self) -> u32 {
        self.schema_version
    }

    pub closed spec fn policy_revision_of(&self) -> Seq<char> {
        self.policy_revision@
    }

    pub closed spec fn graph_revision_of(&self) -> Seq<char> {
        self.graph_revision@
    }

    pub closed spec fn project_id_of(&self) -> ProjectId {
        self.project_id
    }

    pub closed spec fn task_id_of(&self) -> TaskId {
        self.task_id
    }

    pub closed spec fn repository_id_of(&self) -> Seq<char> {
        self.repository_id@
    }

    pub closed spec fn worktree_id_of(&self) -> Seq<char> {
        self.worktree_id@
    }

    pub closed spec fn branch_of(&self) -> Seq<char> {
        self.branch@
    }

    pub closed spec fn head_sha_of(&self) -> Seq<char> {
        self.head_sha@
    }

    pub closed spec fn tree_sha_of(&self) -> Seq<char> {
        self.tree_sha@
    }

    pub closed spec fn status_of(&self) -> ArchitectureReportStatus {
        self.status
    }

    pub closed spec fn findings_of(&self) -> Seq<FindingView> {
        finding_views(self.findings@)
    }

    pub closed spec fn evidence_of(&self) -> Seq<ArchitectureEvidence> {
        self.evidence@
    }

    pub closed spec fn digest_of(&self) -> Seq<char> {
        self.evaluator_digest@
    }

    pub fn status(&self) -> (r: ArchitectureReportStatus)
        ensures
            r == self.status_of(),
    {
        self.status
    }

    pub fn findings(&self) -> (r: &[ArchitectureFinding])
        ensures
            finding_views(r@) == self.findings_of(),
    {
        self.findings.as_slice()
    }

    /// A report is accepted as proof only if it matches the profile and
    /// mapping, is a pass without findings, and carries exactly the four
    /// required pieces of passed, current evidence.
    #[verifier::loop_isolation(false)]
    pub fn validate(&self, profile: &ArchitectureAgentProfile, mapping: &TaskWorkspaceMapping) -> (r:
        Result<(), ArchitectureProfileError>)
        ensures
            arch_result(r, report_fault(*self, *profile, *mapping)),
    {
        profile.validate()?;
        if self.schema_version != ARCHITECTURE_PROFILE_SCHEMA_VERSION || self.policy_revision
            != profile.policy_revision || self.project_id != mapping.project_id || self.task_id
            != mapping.task_id || self.repository_id != mapping.repository_id || self.worktree_id
            != mapping.worktree_id || self.branch != mapping.branch || !valid_sha(
            self.head_sha.as_str(),
            40,
        ) || !valid_sha(self.tree_sha.as_str(), 64) || !valid_sha(
            self.evaluator_digest.as_str(),
            16,
        ) {
            return Err(invalid_manifest("report identity or evaluator digest is invalid"));
        }
        if self.status != ArchitectureReportStatus::Pass {
            return Err(invalid_manifest("architecture report is not proven pass"));
        }
        if self.findings.len() != 0 {
            return Err(invalid_manifest("pass report contains findings"));
        }
        if self.evidence.len() != 4 {
            return Err(invalid_evidence("pass report evidence is incomplete or stale"));
        }
        let mut i: usize = 0;
        while i < self.evidence.len()
            invariant
                i <= self.evidence@.len(),
                forall|k: int| 0 <= k < i ==> !#[trigger] report_evidence_bad(*self, self.evidence@[k]),
            decreases self.evidence@.len() - i,
        {
            let e = &self.evidence[i];
            if e.status != ArchitectureEvidenceStatus::Passed || e.graph_revision
                != self.graph_revision || e.head_sha != self.head_sha || e.tree_sha != self.tree_sha
                || e.policy_revision != self.policy_revision {
                assert(report_evidence_bad(*self, self.evidence@[i as int]));
                return Err(invalid_evidence("pass report evidence is incomplete or stale"));
            }
            i = i + 1;
        }
        Ok(())
    }

    /// Non-pass reports hand their status, finding codes and digest to a
    /// human; a pass has nothing to hand off.
    pub fn handoff(&self) -> (r: Option<ArchitectureHandoff>)
        ensures
            self.status_of() == ArchitectureReportStatus::Pass <==> r is None,
            r matches Some(h) ==> {
                &&& h.status_of() == self.status_of()
                &&& h.codes_of() == self.findings_of().map_values(|f: FindingView| f.code)
                &&& h.digest_of() == self.digest_of()
            },
    {
        if self.status == ArchitectureReportStatus::Pass {
            return None;
        }
        let mut codes: Vec<String> = Vec::new();
        let mut i: usize = 0;
        while i < self.findings.len()
            invariant
                i <= self.findings@.len(),
                codes@.len() == i,
                forall|k: int| 0 <= k < i ==> #[trigger] codes@[k]@ == self.findings@[k].view_of().code,
            decreases self.findings@.len() - i,
        {
            codes.push(self.findings[i].code.clone());
            i = i + 1;
        }
        let h = ArchitectureHandoff {
            status: self.status,
            finding_codes: codes,
            digest: self.evaluator_digest.clone(),
        };
        assert(h.codes_of() =~= self.findings_of().map_values(|f: FindingView| f.code));
        Some(h)
    }
}

pub open spec fn report_evidence_bad(r: ArchitectureReport, e: ArchitectureEvidence) -> bool {
    ||| e.status != ArchitectureEvidenceStatus::Passed
    ||| e.graph_revision@ != r.graph_revision_of()
    ||| e.head_sha@ != r.head_sha_of()
    ||| e.tree_sha@ != r.tree_sha_of()
    ||| e.policy_revision@ != r.policy_revision_of()
}

/// Why a report cannot stand as proof, if it cannot.
pub open spec fn report_fault(
    r: ArchitectureReport,
    p: ArchitectureAgentProfile,
    m: TaskWorkspaceMapping,
) -> Option<ArchFault> {
    if profile_fault_result(p) is Some {
        profile_fault_result(p)
    } else if r.schema_version_of() != ARCHITECTURE_PROFILE_SCHEMA_VERSION || r.policy_revision_of()
        != p.policy_revision@ || !scope_matches(
        m,
        r.project_id_of(),
        r.task_id_of(),
        r.repository_id_of(),
        r.worktree_id_of(),
        r.branch_of(),
    ) || !sha_ok(r.head_sha_of(), 40) || !sha_ok(r.tree_sha_of(), 64) || !sha_ok(r.digest_of(), 16) {
        Some(ArchFault::InvalidManifest("report identity or evaluator digest is invalid"@))
    } else if r.status_of() != ArchitectureReportStatus::Pass {
        Some(ArchFault::InvalidManifest("architecture report is not proven pass"@))
    } else if r.findings_of().len() != 0 {
        Some(ArchFault::InvalidManifest("pass report contains findings"@))
    } else if r.evidence_of().len() != 4 || exists|k: int|
        0 <= k < r.evidence_of().len() && #[trigger] report_evidence_bad(r, r.evidence_of()[k]) {
        Some(ArchFault::InvalidEvidence("pass report evidence is incomplete or stale"@))
    } else {
        None
    }
}

impl ArchitectureHandoff {
    pub closed spec fn status_of(&self) -> ArchitectureReportStatus {
        self.status
    }

    pub closed spec fn codes_of(&self) -> Seq<Seq<char>> {
        self.finding_codes@.map_values(|s: String| s@)
    }

    pub closed spec fn digest_of(&self) -> Seq<char> {
        self.digest@
    }

    /// Handoffs only advise.
    pub fn is_advisory(&self) -> (r: bool)
        ensures
            r,
    {
        true
    }

    pub fn can_edit_architecture(&self) -> (r: bool)
        ensures
            !r,
    {
        false
    }

    pub fn can_ratify_adr(&self) -> (r: bool)
        ensures
            !r,
    {
        false
    }

    pub fn can_bypass_gate(&self) -> (r: bool)
        ensures
            !r,
    {
        false
    }

    pub fn can_approve(&self) -> (r: bool)
        ensures
            !r,
    {
        false
    }

    pub fn digest(&self) -> (r: &str)
        ensures
            r@ == self.digest_of(),
    {
        self.digest.as_str()
    }

    pub fn status(&self) -> (r: ArchitectureReportStatus)
        ensures
            r == self.status_of(),
    {
        self.status
    }

    pub fn finding_codes(&self) -> (r: &[String])
        ensures
            r@.map_values(|s: String| s@) == self.codes_of(),
    {
        self.finding_codes.as_slice()
    }
}

} // verus!

verus! {

// ---------------------------------------------------------------------------
// Evaluation
// ---------------------------------------------------------------------------
/// `a` is an initial segment of `b`.
pub open spec fn prefix_of(a: Seq<FindingView>, b: Seq<FindingView>) -> bool {
    a.len() <= b.len() && forall|j: int| 0 <= j < a.len() ==> #[trigger] b[j] == a[j]
}

proof fn lemma_edge_prefix(m: ArchitectureManifest, i: int, n: int)
    requires
        0 <= i <= n,
    ensures
        prefix_of(edge_findings(m, i), edge_findings(m, n)),
    decreases n - i,
{
    if i < n {
        lemma_edge_prefix(m, i, n - 1);
    }
}

proof fn lemma_document_prefix(m: ArchitectureManifest, i: int, n: int)
    requires
        0 <= i <= n,
    ensures
        prefix_of(document_findings(m, i), document_findings(m, n)),
    decreases n - i,
{
    if i < n {
        lemma_document_prefix(m, i, n - 1);
    }
}

proof fn lemma_check_prefix(m: ArchitectureManifest, i: int, n: int)
    requires
        0 <= i <= n,
    ensures
        prefix_of(check_findings(m, i), check_findings(m, n)),
    decreases n - i,
{
    if i < n {
        lemma_check_prefix(m, i, n - 1);
    }
}

/// A malformed finding at position `p.len()` of every findings list that
/// extends `p.push(f)` makes the whole list malformed.
proof fn lemma_bad_in_all(p: Seq<FindingView>, f: FindingView, all: Seq<FindingView>)
    requires
        prefix_of(p.push(f), all),
        !finding_ok(f),
    ensures
        !all_findings_ok(all),
{
    assert(all[p.len() as int] == p.push(f)[p.len() as int]);
}

/// The front part of the findings: edge findings and the cycle finding.
pub open spec fn graph_findings(m: ArchitectureManifest) -> Seq<FindingView> {
    push_opt(edge_findings(m, m.edges@.len() as int), cycle_finding(m))
}

proof fn lemma_prefix_concat(a: Seq<FindingView>, b: Seq<FindingView>, x: Seq<FindingView>, c: Seq<FindingView>)
    requires
        prefix_of(a, b),
    ensures
        prefix_of(x + a, x + b + c),
{
    assert forall|j: int| 0 <= j < (x + a).len() implies #[trigger] (x + b + c)[j] == (x + a)[j] by {
        if j < x.len() {
        } else {
            assert(b[j - x.len()] == a[j - x.len()]);
        }
    }
}

fn ref_pairs_contain(refs: &Vec<ArchitectureEdgeRef>, from: &str, to: &str) -> (r: bool)
    ensures
        r == ref_pairs(refs@).contains((from@, to@)),
{
    let ghost ps = ref_pairs(refs@);
    let mut i: usize = 0;
    while i < refs.len()
        invariant
            ps == ref_pairs(refs@),
            i <= refs@.len(),
            forall|k: int| 0 <= k < i ==> ps[k] != (from@, to@),
        decreases refs@.len() - i,
    {
        if same_text(refs[i].from.as_str(), from) && same_text(refs[i].to.as_str(), to) {
            assert(ps[i as int] == (from@, to@));
            return true;
        }
        i = i + 1;
    }
    false
}

fn join2(a: &str, b: &str) -> (r: String)
    ensures
        r@ == a@ + b@,
{
    let mut s = String::new();
    s.append(a);
    s.append(b);
    s
}

fn edge_summary(from: &str, to: &str, tail: &str) -> (r: String)
    ensures
        r@ == from@ + " -> "@ + to@ + tail@,
{
    let mut s = String::new();
    s.append(from);
    s.append(" -> ");
    s.append(to);
    s.append(tail);
    s
}

/// Adds the described finding, failing where it is malformed.
fn push_finding(
    findings: &mut Vec<ArchitectureFinding>,
    code: &str,
    severity: ArchitectureSeverity,
    summary: String,
    reference: Option<String>,
    status: ArchitectureFindingStatus,
) -> (r: Result<(), ArchitectureProfileError>)
    ensures
        ({
            let v = mk_finding(code@, severity, summary@, opt_view(reference), status);
            &&& r is Ok <==> finding_ok(v)
            &&& r is Ok ==> finding_views(final(findings)@) == finding_views(old(findings)@).push(v)
            &&& r matches Err(e) ==> arch_fault_of(e) == ArchFault::InvalidManifest(
                "finding is malformed or instruction-like"@,
            )
        }),
{
    match ArchitectureFinding::new(code, severity, summary, reference, status) {
        Ok(f) => {
            let ghost before = findings@;
            findings.push(f);
            assert(finding_views(findings@) =~= finding_views(before).push(f.view_of()));
            Ok(())
        },
        Err(e) => Err(e),
    }
}

fn required_check(i: usize) -> (r: ArchitectureCheck)
    requires
        i < 4,
    ensures
        r == required_checks()[i as int],
{
    match i {
        0 => ArchitectureCheck::Graph,
        1 => ArchitectureCheck::Dependencies,
        2 => ArchitectureCheck::Documents,
        _ => ArchitectureCheck::AdrImpact,
    }
}

fn evidence_position(ev: &Vec<ArchitectureEvidence>, c: ArchitectureCheck) -> (r: Option<usize>)
    ensures
        r matches Some(i) ==> i < ev@.len() && ev@[i as int].check == c,
        r is None ==> !has_evidence(ev@, c),
{
    let mut i: usize = 0;
    while i < ev.len()
        invariant
            i <= ev@.len(),
            forall|k: int| 0 <= k < i ==> ev@[k].check != c,
        decreases ev@.len() - i,
    {
        if ev[i].check == c {
            return Some(i);
        }
        i = i + 1;
    }
    None
}

proof fn lemma_evidence_unique(ev: Seq<ArchitectureEvidence>, c: ArchitectureCheck, i: int)
    requires
        0 <= i < ev.len(),
        ev[i].check == c,
        forall|k: int| 0 <= k < ev.len() ==> !#[trigger] evidence_bad(ev, k),
    ensures
        evidence_for(ev, c) == ev[i],
{
    assert(has_evidence(ev, c));
    let j = evidence_index(ev, c);
    if j < i {
        assert(evidence_bad(ev, i));
    } else if i < j {
        assert(evidence_bad(ev, j));
    }
}

fn any_status(findings: &Vec<ArchitectureFinding>, st: ArchitectureFindingStatus) -> (r: bool)
    ensures
        r == some_status(finding_views(findings@), st),
{
    let ghost vs = finding_views(findings@);
    let mut i: usize = 0;
    while i < findings.len()
        invariant
            vs == finding_views(findings@),
            i <= findings@.len(),
            forall|k: int| 0 <= k < i ==> vs[k].status != st,
        decreases findings@.len() - i,
    {
        if findings[i].status == st {
            assert(vs[i as int].status == st);
            return true;
        }
        i = i + 1;
    }
    false
}

proof fn lemma_prefix_trans(a: Seq<FindingView>, b: Seq<FindingView>, c: Seq<FindingView>)
    requires
        prefix_of(a, b),
        prefix_of(b, c),
    ensures
        prefix_of(a, c),
{
    assert forall|j: int| 0 <= j < a.len() implies #[trigger] c[j] == a[j] by {
        assert(c[j] == b[j]);
    }
}

proof fn lemma_prefix_extend(a: Seq<FindingView>, b: Seq<FindingView>)
    ensures
        prefix_of(a, a + b),
{
    assert forall|j: int| 0 <= j < a.len() implies #[trigger] (a + b)[j] == a[j] by {}
}

proof fn lemma_prefix_within(x: Seq<FindingView>, a: Seq<FindingView>, b: Seq<FindingView>)
    requires
        prefix_of(a, b),
    ensures
        prefix_of(x + a, x + b),
{
    assert forall|j: int| 0 <= j < (x + a).len() implies #[trigger] (x + b)[j] == (x + a)[j] by {
        if j >= x.len() {
            assert(b[j - x.len()] == a[j - x.len()]);
        }
    }
}

/// The graph findings come first in every findings list.
proof fn lemma_graph_first(m: ArchitectureManifest)
    ensures
        prefix_of(graph_findings(m), all_findings(m)),
        prefix_of(
            graph_findings(m) + document_findings(m, m.documents@.len() as int),
            all_findings(m),
        ),
{
    let g = graph_findings(m);
    let d = document_findings(m, m.documents@.len() as int);
    let c = check_findings(m, 4);
    assert(all_findings(m) == g + d + c);
    lemma_prefix_extend(g, d);
    lemma_prefix_extend(g + d, c);
    lemma_prefix_trans(g, g + d, g + d + c);
}

/// The findings of the manifest's edges, in order.
fn edge_stage(manifest: &ArchitectureManifest) -> (r: Result<Vec<ArchitectureFinding>, ArchitectureProfileError>)
    ensures
        r matches Ok(v) ==> finding_views(v@) == edge_findings(*manifest, manifest.edges@.len() as int)
            && all_findings_ok(finding_views(v@)),
        r matches Err(e) ==> arch_fault_of(e) == ArchFault::InvalidManifest(
            "finding is malformed or instruction-like"@,
        ) && !all_findings_ok(all_findings(*manifest)),
{
    let ghost m = *manifest;
    let ghost n = manifest.edges@.len() as int;
    let mut findings: Vec<ArchitectureFinding> = Vec::new();
    assert(finding_views(findings@) =~= edge_findings(m, 0));
    let mut k: usize = 0;
    while k < manifest.edges.len()
        invariant
            m == *manifest,
            n == manifest.edges@.len(),
            k <= n,
            finding_views(findings@) == edge_findings(m, k as int),
            all_findings_ok(finding_views(findings@)),
        decreases n - k,
    {
        let e = &manifest.edges[k];
        let from = e.from.as_str();
        let to = e.to.as_str();
        let res = if !ids_contain(&manifest.layers, from) || !ids_contain(&manifest.layers, to) {
            push_finding(
                &mut findings,
                "UNKNOWN_LAYER",
                ArchitectureSeverity::High,
                edge_summary(from, to, " references an unknown layer"),
                Some(e.to.clone()),
                ArchitectureFindingStatus::Failed,
            )
        } else if ref_pairs_contain(&manifest.forbidden_edges, from, to) {
            push_finding(
                &mut findings,
                "FORBIDDEN_EDGE",
                ArchitectureSeverity::Critical,
                edge_summary(from, to, " is forbidden by the architecture boundary"),
                Some(e.to.clone()),
                ArchitectureFindingStatus::Failed,
            )
        } else if !ref_pairs_contain(&manifest.allowed_edges, from, to) {
            push_finding(
                &mut findings,
                "UNDECLARED_EDGE",
                ArchitectureSeverity::High,
                edge_summary(from, to, " is not in the allowed edge set"),
                Some(e.to.clone()),
                ArchitectureFindingStatus::Failed,
            )
        } else {
            Ok(())
        };
        match res {
            Err(err) => {
                proof {
                    let f = edge_finding(m, k as int)->Some_0;
                    lemma_edge_prefix(m, k + 1, n);
                    lemma_prefix_trans(edge_findings(m, k + 1), edge_findings(m, n), graph_findings(m));
                    lemma_graph_first(m);
                    lemma_prefix_trans(edge_findings(m, k + 1), graph_findings(m), all_findings(m));
                    lemma_bad_in_all(edge_findings(m, k as int), f, all_findings(m));
                }
                return Err(err);
            },
            Ok(()) => {},
        }
        k = k + 1;
    }
    Ok(findings)
}

/// Adds the cycle finding when the edges form a cycle.
fn cycle_stage(manifest: &ArchitectureManifest, findings: &mut Vec<ArchitectureFinding>) -> (r: Result<
    (),
    ArchitectureProfileError,
>)
    requires
        finding_views(old(findings)@) == edge_findings(*manifest, manifest.edges@.len() as int),
        all_findings_ok(finding_views(old(findings)@)),
    ensures
        r is Ok ==> finding_views(final(findings)@) == graph_findings(*manifest) && all_findings_ok(
            finding_views(final(findings)@),
        ),
        r matches Err(e) ==> arch_fault_of(e) == ArchFault::InvalidManifest(
            "finding is malformed or instruction-like"@,
        ) && !all_findings_ok(all_findings(*manifest)),
{
    if has_cycle(&manifest.edges) {
        let res = push_finding(
            findings,
            "CYCLE",
            ArchitectureSeverity::Critical,
            "architecture dependency cycle detected".to_string(),
            None,
            ArchitectureFindingStatus::Failed,
        );
        match res {
            Err(err) => {
                proof {
                    let m = *manifest;
                    lemma_graph_first(m);
                    lemma_bad_in_all(
                        edge_findings(m, manifest.edges@.len() as int),
                        cycle_finding(m)->Some_0,
                        all_findings(m),
                    );
                }
                return Err(err);
            },
            Ok(()) => {},
        }
    }
    Ok(())
}

/// Adds a finding for every absent document.
fn document_stage(manifest: &ArchitectureManifest, findings: &mut Vec<ArchitectureFinding>) -> (r:
    Result<(), ArchitectureProfileError>)
    requires
        finding_views(old(findings)@) == graph_findings(*manifest),
        all_findings_ok(finding_views(old(findings)@)),
    ensures
        r is Ok ==> finding_views(final(findings)@) == graph_findings(*manifest) + document_findings(
            *manifest,
            manifest.documents@.len() as int,
        ) && all_findings_ok(finding_views(final(findings)@)),
        r matches Err(e) ==> arch_fault_of(e) == ArchFault::InvalidManifest(
            "finding is malformed or instruction-like"@,
        ) && !all_findings_ok(all_findings(*manifest)),
{
    let ghost m = *manifest;
    let ghost g = graph_findings(m);
    let ghost n = manifest.documents@.len() as int;
    assert(finding_views(findings@) =~= g + document_findings(m, 0));
    let mut k: usize = 0;
    while k < manifest.documents.len()
        invariant
            m == *manifest,
            g == graph_findings(m),
            n == manifest.documents@.len(),
            k <= n,
            finding_views(findings@) == g + document_findings(m, k as int),
            all_findings_ok(finding_views(findings@)),
        decreases n - k,
    {
        let d = &manifest.documents[k];
        if !d.present {
            let mut summary = join2("required ", d.kind.label());
            summary.append(" is absent");
            let res = push_finding(
                findings,
                "MISSING_DOCUMENT",
                ArchitectureSeverity::High,
                summary,
                Some(d.path.clone()),
                ArchitectureFindingStatus::Blocked,
            );
            let ghost f = document_finding(m, k as int)->Some_0;
            match res {
                Err(err) => {
                    proof {
                        lemma_document_prefix(m, k + 1, n);
                        lemma_prefix_within(g, document_findings(m, k + 1), document_findings(m, n));
                        lemma_graph_first(m);
                        lemma_prefix_trans(
                            g + document_findings(m, k + 1),
                            g + document_findings(m, n),
                            all_findings(m),
                        );
                        assert((g + document_findings(m, k as int)).push(f) =~= g
                            + document_findings(m, k + 1));
                        lemma_bad_in_all(g + document_findings(m, k as int), f, all_findings(m));
                    }
                    return Err(err);
                },
                Ok(()) => {
                    assert(finding_views(findings@) =~= g + document_findings(m, k + 1));
                },
            }
        } else {
            assert(document_findings(m, k + 1) == document_findings(m, k as int));
        }
        k = k + 1;
    }
    Ok(())
}

/// Adds a finding for every required check whose evidence is missing,
/// stale, failed or not passed.
fn check_stage(manifest: &ArchitectureManifest, findings: &mut Vec<ArchitectureFinding>) -> (r: Result<
    (),
    ArchitectureProfileError,
>)
    requires
        finding_views(old(findings)@) == graph_findings(*manifest) + document_findings(
            *manifest,
            manifest.documents@.len() as int,
        ),
        all_findings_ok(finding_views(old(findings)@)),
        forall|k: int|
            0 <= k < manifest.evidence@.len() ==> !#[trigger] evidence_bad(manifest.evidence@, k),
    ensures
        r is Ok ==> finding_views(final(findings)@) == all_findings(*manifest) && all_findings_ok(
            finding_views(final(findings)@),
        ),
        r matches Err(e) ==> arch_fault_of(e) == ArchFault::InvalidManifest(
            "finding is malformed or instruction-like"@,
        ) && !all_findings_ok(all_findings(*manifest)),
{
    let ghost m = *manifest;
    let ghost x = graph_findings(m) + document_findings(m, m.documents@.len() as int);
    assert(finding_views(findings@) =~= x + check_findings(m, 0));
    let mut i: usize = 0;
    while i < 4
        invariant
            m == *manifest,
            x == graph_findings(m) + document_findings(m, m.documents@.len() as int),
            i <= 4,
            finding_views(findings@) == x + check_findings(m, i as int),
            all_findings_ok(finding_views(findings@)),
            forall|k: int|
                0 <= k < manifest.evidence@.len() ==> !#[trigger] evidence_bad(manifest.evidence@, k),
        decreases 4 - i,
    {
        let c = required_check(i);
        let label = c.label();
        let res = match evidence_position(&manifest.evidence, c) {
            None => push_finding(
                findings,
                "MISSING_EVIDENCE",
                ArchitectureSeverity::High,
                join2(label, " evidence is missing"),
                None,
                ArchitectureFindingStatus::Unknown,
            ),
            Some(j) => {
                let e = &manifest.evidence[j];
                proof {
                    lemma_evidence_unique(manifest.evidence@, c, j as int);
                }
                if e.graph_revision != manifest.graph_revision || e.head_sha != manifest.head_sha
                    || e.tree_sha != manifest.tree_sha || e.policy_revision
                    != manifest.policy_revision {
                    push_finding(
                        findings,
                        "STALE_EVIDENCE",
                        ArchitectureSeverity::High,
                        join2(label, " evidence identity is stale"),
                        Some(e.file_path.clone()),
                        ArchitectureFindingStatus::Unknown,
                    )
                } else if e.status == ArchitectureEvidenceStatus::Passed {
                    Ok(())
                } else if e.status == ArchitectureEvidenceStatus::Failed {
                    push_finding(
                        findings,
                        "EVIDENCE_FAILED",
                        ArchitectureSeverity::High,
                        join2(label, " evidence failed"),
                        Some(e.file_path.clone()),
                        ArchitectureFindingStatus::Failed,
                    )
                } else {
                    push_finding(
                        findings,
                        "INCOMPLETE_EVIDENCE",
                        ArchitectureSeverity::High,
                        join2(label, " evidence is not passed"),
                        Some(e.file_path.clone()),
                        ArchitectureFindingStatus::Unknown,
                    )
                }
            },
        };
        let ghost o = check_finding(m, required_checks()[i as int]);
        assert(check_findings(m, i + 1) == push_opt(check_findings(m, i as int), o));
        match res {
            Err(err) => {
                proof {
                    let f = o->Some_0;
                    lemma_check_prefix(m, i + 1, 4);
                    lemma_prefix_within(x, check_findings(m, i + 1), check_findings(m, 4));
                    assert(all_findings(m) == x + check_findings(m, 4));
                    assert((x + check_findings(m, i as int)).push(f) =~= x + check_findings(m, i + 1));
                    lemma_bad_in_all(x + check_findings(m, i as int), f, all_findings(m));
                }
                return Err(err);
            },
            Ok(()) => {
                assert(finding_views(findings@) =~= x + check_findings(m, i + 1));
            },
        }
        i = i + 1;
    }
    assert(all_findings(m) == x + check_findings(m, 4));
    Ok(())
}

/// The evaluator digest of a manifest: the fingerprint of its revisions,
/// hashes and sizes.
pub fn stable_digest(manifest: &ArchitectureManifest) -> (r: String)
    ensures
        r@ == crate::digest::fingerprint_of(vstd::utf8::encode_utf8(digest_input(*manifest))),
{
    let mut input = String::new();
    input.append(manifest.policy_revision.as_str());
    input.append(":");
    input.append(manifest.graph_revision.as_str());
    input.append(":");
    input.append(manifest.head_sha.as_str());
    input.append(":");
    input.append(manifest.tree_sha.as_str());
    input.append(":");
    let layers = crate::digest::to_decimal(manifest.layers.len());
    input.append(layers.as_str());
    input.append(":");
    let edges = crate::digest::to_decimal(manifest.edges.len());
    input.append(edges.as_str());
    assert(input@ =~= digest_input(*manifest));
    crate::digest::fingerprint(input.as_str())
}

impl ArchitectureAgentProfile {
    /// Evaluates a manifest for the mapping under this profile: unknown,
    /// forbidden and undeclared edges, a dependency cycle, absent documents
    /// and missing, stale, failed or unfinished evidence become findings,
    /// and the worst of them decides the report's status.
    pub fn evaluate(&self, mapping: &TaskWorkspaceMapping, manifest: &ArchitectureManifest) -> (r:
        Result<ArchitectureReport, ArchitectureProfileError>)
        ensures
            arch_result(r, evaluate_fault(*self, *mapping, *manifest)),
            r matches Ok(rep) ==> issued_report(rep, *manifest),
    {
        self.validate()?;
        manifest.validate_shape(self)?;
        if manifest.project_id != mapping.project_id || manifest.task_id != mapping.task_id
            || manifest.repository_id != mapping.repository_id || manifest.worktree_id
            != mapping.worktree_id || manifest.branch != mapping.branch {
            return Err(ArchitectureProfileError::ScopeMismatch);
        }
        let mut findings = edge_stage(manifest)?;
        cycle_stage(manifest, &mut findings)?;
        document_stage(manifest, &mut findings)?;
        check_stage(manifest, &mut findings)?;
        let status = if any_status(&findings, ArchitectureFindingStatus::Failed) {
            ArchitectureReportStatus::Failed
        } else if any_status(&findings, ArchitectureFindingStatus::Blocked) {
            ArchitectureReportStatus::Blocked
        } else if any_status(&findings, ArchitectureFindingStatus::Unknown) {
            ArchitectureReportStatus::NoProof
        } else {
            ArchitectureReportStatus::Pass
        };
        if findings.len() > self.max_findings {
            return Err(invalid_manifest("finding count exceeds profile limit"));
        }
        Ok(ArchitectureReport {
            schema_version: ARCHITECTURE_PROFILE_SCHEMA_VERSION,
            policy_revision: manifest.policy_revision.clone(),
            graph_revision: manifest.graph_revision.clone(),
            project_id: manifest.project_id,
            task_id: manifest.task_id,
            repository_id: manifest.repository_id.clone(),
            worktree_id: manifest.worktree_id.clone(),
            branch: manifest.branch.clone(),
            head_sha: manifest.head_sha.clone(),
            tree_sha: manifest.tree_sha.clone(),
            status,
            findings,
            evidence: copy_evidence(&manifest.evidence),
            evaluator_digest: stable_digest(manifest),
        })
    }
}

/// `rep` is the report the evaluator issues for manifest `m`.
pub open spec fn issued_report(rep: ArchitectureReport, m: ArchitectureManifest) -> bool {
    &&& rep.schema_version_of() == ARCHITECTURE_PROFILE_SCHEMA_VERSION
    &&& rep.policy_revision_of() == m.policy_revision@
    &&& rep.graph_revision_of() == m.graph_revision@
    &&& rep.project_id_of() == m.project_id
    &&& rep.task_id_of() == m.task_id
    &&& rep.repository_id_of() == m.repository_id@
    &&& rep.worktree_id_of() == m.worktree_id@
    &&& rep.branch_of() == m.branch@
    &&& rep.head_sha_of() == m.head_sha@
    &&& rep.tree_sha_of() == m.tree_sha@
    &&& rep.findings_of() == all_findings(m)
    &&& rep.status_of() == report_status(all_findings(m))
    &&& rep.evidence_of() == m.evidence@
    &&& rep.digest_of() == crate::digest::fingerprint_of(vstd::utf8::encode_utf8(digest_input(m)))
}

/// The findings of the first `n` required checks hold the finding of each
/// of those checks that raises one.
proof fn lemma_check_finding_kept(m: ArchitectureManifest, n: int, k: int)
    requires
        0 <= k < n <= 4,
        check_finding(m, required_checks()[k]) is Some,
    ensures
        exists|i: int|
            0 <= i < check_findings(m, n).len() && #[trigger] check_findings(m, n)[i] == check_finding(
                m,
                required_checks()[k],
            )->Some_0,
    decreases n,
{
    if k == n - 1 {
        let s = check_findings(m, n - 1);
        assert(check_findings(m, n)[s.len() as int] == check_finding(m, required_checks()[k])->Some_0);
    } else {
        lemma_check_finding_kept(m, n - 1, k);
        let i = choose|i: int|
            0 <= i < check_findings(m, n - 1).len() && #[trigger] check_findings(m, n - 1)[i]
                == check_finding(m, required_checks()[k])->Some_0;
        assert(check_findings(m, n)[i] == check_findings(m, n - 1)[i]);
    }
}

/// Failed evidence fails the report: when the current evidence of a
/// required check has failed, the issued report holds a failed finding and
/// its status is failed, never missing proof nor a pass.
pub proof fn law_failed_evidence_fails_the_report(
    rep: ArchitectureReport,
    m: ArchitectureManifest,
    k: int,
)
    requires
        issued_report(rep, m),
        0 <= k < 4,
        has_evidence(m.evidence@, required_checks()[k]),
        !evidence_stale(m, evidence_for(m.evidence@, required_checks()[k])),
        evidence_for(m.evidence@, required_checks()[k]).status == ArchitectureEvidenceStatus::Failed,
    ensures
        exists|i: int|
            0 <= i < rep.findings_of().len() && #[trigger] rep.findings_of()[i].status
                == ArchitectureFindingStatus::Failed,
        rep.status_of() == ArchitectureReportStatus::Failed,
{
    lemma_check_finding_kept(m, 4, k);
    let c = check_findings(m, 4);
    let i = choose|i: int| 0 <= i < c.len() && #[trigger] c[i] == check_finding(m, required_checks()[k])->Some_0;
    assert(c[i].status == ArchitectureFindingStatus::Failed);
    let head = push_opt(edge_findings(m, m.edges@.len() as int), cycle_finding(m)) + document_findings(
        m,
        m.documents@.len() as int,
    );
    let all = all_findings(m);
    assert(all == head + c);
    assert(all[head.len() + i] == c[i]);
    assert(some_status(all, ArchitectureFindingStatus::Failed));
}

/// Evidence that does not prove a required check leaves the report
/// without proof: when the check's evidence is missing, stale, or current
/// but neither passed nor failed, the issued report holds a finding of
/// unknown status, so it cannot pass. Current passed evidence raises no
/// finding for its check.
pub proof fn law_unproved_check_cannot_pass(rep: ArchitectureReport, m: ArchitectureManifest, k: int)
    requires
        issued_report(rep, m),
        0 <= k < 4,
    ensures
        ({
            let c = required_checks()[k];
            let e = evidence_for(m.evidence@, c);
            (!has_evidence(m.evidence@, c) || evidence_stale(m, e) || (e.status
                != ArchitectureEvidenceStatus::Passed && e.status
                != ArchitectureEvidenceStatus::Failed)) ==> {
                &&& exists|i: int|
                    0 <= i < rep.findings_of().len() && #[trigger] rep.findings_of()[i].status
                        == ArchitectureFindingStatus::Unknown
                &&& rep.status_of() != ArchitectureReportStatus::Pass
            }
        }),
        ({
            let c = required_checks()[k];
            let e = evidence_for(m.evidence@, c);
            has_evidence(m.evidence@, c) && !evidence_stale(m, e) && e.status
                == ArchitectureEvidenceStatus::Passed ==> check_finding(m, c) is None
        }),
{
    let c = required_checks()[k];
    let e = evidence_for(m.evidence@, c);
    if !has_evidence(m.evidence@, c) || evidence_stale(m, e) || (e.status
        != ArchitectureEvidenceStatus::Passed && e.status != ArchitectureEvidenceStatus::Failed) {
        lemma_check_finding_kept(m, 4, k);
        let cf = check_findings(m, 4);
        let i = choose|i: int| 0 <= i < cf.len() && #[trigger] cf[i] == check_finding(m, c)->Some_0;
        assert(cf[i].status == ArchitectureFindingStatus::Unknown);
        let head = push_opt(edge_findings(m, m.edges@.len() as int), cycle_finding(m))
            + document_findings(m, m.documents@.len() as int);
        let all = all_findings(m);
        assert(all == head + cf);
        assert(all[head.len() + i] == cf[i]);
        assert(some_status(all, ArchitectureFindingStatus::Unknown));
    }
}

/// A report's status is a pass exactly when it holds no finding.
pub proof fn law_pass_means_no_findings(fs: Seq<FindingView>)
    ensures
        report_status(fs) == ArchitectureReportStatus::Pass <==> fs.len() == 0,
{
    if fs.len() > 0 {
        let st = fs[0].status;
        assert(some_status(fs, st));
    }
}

proof fn lemma_no_check_findings(m: ArchitectureManifest)
    requires
        check_findings(m, 4).len() == 0,
    ensures
        forall|i: int| 0 <= i < 4 ==> #[trigger] check_finding(m, required_checks()[i]) is None,
{
    reveal_with_fuel(check_findings, 5);
}

/// A report the evaluator issues as a pass is accepted as proof for the
/// same profile and mapping: it holds no finding and exactly the four
/// required pieces of passed evidence, each current for the report.
pub proof fn law_pass_report_is_accepted(
    p: ArchitectureAgentProfile,
    map: TaskWorkspaceMapping,
    m: ArchitectureManifest,
    rep: ArchitectureReport,
)
    requires
        evaluate_fault(p, map, m) is None,
        issued_report(rep, m),
        rep.status_of() == ArchitectureReportStatus::Pass,
    ensures
        report_fault(rep, p, map) is None,
        rep.findings_of().len() == 0,
        rep.evidence_of().len() == 4,
{
    let fs = all_findings(m);
    law_pass_means_no_findings(fs);
    crate::digest::lemma_hex16_is_hex(crate::digest::fnv1a(vstd::utf8::encode_utf8(digest_input(m))));
    let g = graph_findings(m);
    let d = document_findings(m, m.documents@.len() as int);
    let c = check_findings(m, 4);
    assert(fs == g + d + c);
    assert(c.len() == 0);
    lemma_no_check_findings(m);
    let ev = m.evidence@;
    assert(forall|k: int| 0 <= k < ev.len() ==> !#[trigger] evidence_bad(ev, k));
    assert forall|k: int| 0 <= k < ev.len() implies !#[trigger] report_evidence_bad(rep, ev[k]) by {
        let ck = ev[k].check;
        lemma_evidence_unique(ev, ck, k);
        let i: int = if ck == ArchitectureCheck::Graph {
            0
        } else if ck == ArchitectureCheck::Dependencies {
            1
        } else if ck == ArchitectureCheck::Documents {
            2
        } else {
            3
        };
        assert(required_checks()[i] == ck);
        assert(check_finding(m, required_checks()[i]) is None);
    }
    assert forall|i: int| 0 <= i < 4 implies #[trigger] has_evidence(ev, required_checks()[i]) by {
        assert(check_finding(m, required_checks()[i]) is None);
    }
    let i0 = evidence_index(ev, ArchitectureCheck::Graph);
    let i1 = evidence_index(ev, ArchitectureCheck::Dependencies);
    let i2 = evidence_index(ev, ArchitectureCheck::Documents);
    let i3 = evidence_index(ev, ArchitectureCheck::AdrImpact);
    assert(has_evidence(ev, required_checks()[0]));
    assert(has_evidence(ev, required_checks()[1]));
    assert(has_evidence(ev, required_checks()[2]));
    assert(has_evidence(ev, required_checks()[3]));
    assert(ev[i0].check != ev[i1].check && ev[i0].check != ev[i2].check && ev[i0].check != ev[i3].check
        && ev[i1].check != ev[i2].check && ev[i1].check != ev[i3].check && ev[i2].check != ev[i3].check);
    assert(ev.len() >= 4);
    if ev.len() > 4 {
        assert(!evidence_bad(ev, 1) && !evidence_bad(ev, 2) && !evidence_bad(ev, 3) && !evidence_bad(ev, 4));
        assert(ev[0].check != ev[1].check);
        assert(ev[0].check != ev[2].check && ev[1].check != ev[2].check);
        assert(ev[0].check != ev[3].check && ev[1].check != ev[3].check && ev[2].check != ev[3].check);
        assert(ev[0].check != ev[4].check && ev[1].check != ev[4].check && ev[2].check != ev[4].check
            && ev[3].check != ev[4].check);
    }
}

} // verus!
