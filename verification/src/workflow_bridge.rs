//! The workflow editor bridge's boundary rules: bounded drafts, safe node
//! and edge identities, labels and the supported node kinds, checked before
//! any graph is built.
use crate::ids::{prefixed_value, ProjectId, WorkflowId};
use crate::text::{
    blank, contains_bytes, contains_char, contains_control, contains_marker, has_char, has_control,
    is_blank, same_text, text_len, utf8_len,
};
use vstd::prelude::*;

verus! {

pub const MAX_EDITOR_NODES: usize = 12;

pub const MAX_EDITOR_EDGES: usize = 24;

pub const MAX_EDITOR_LABEL_BYTES: usize = 256;

pub const MAX_EDITOR_ID_BYTES: usize = 128;

#[derive(Debug, Clone, Copy, PartialEq, Eq, Structural)]
pub enum WorkflowBridgeErrorCode {
    InvalidInput,
    Unauthorized,
    NotFound,
    Conflict,
    Internal,
}

/// A workflow error as the desktop shell receives it.
#[derive(Debug, Clone)]
pub struct WorkflowBridgeError {
    pub code: WorkflowBridgeErrorCode,
    pub message: String,
}

impl WorkflowBridgeError {
    pub fn new(code: WorkflowBridgeErrorCode, message: &str) -> (r: Self)
        ensures
            r.code == code,
            r.message@ == message@,
    {
        WorkflowBridgeError { code, message: message.to_string() }
    }

    /// The stable reason reported for the error's code.
    pub fn reason(&self) -> (r: &'static str)
        ensures
            r@ == (match self.code {
                WorkflowBridgeErrorCode::InvalidInput => "invalid_workflow"@,
                WorkflowBridgeErrorCode::Unauthorized => "unauthorized_project"@,
                WorkflowBridgeErrorCode::NotFound => "stale_version"@,
                WorkflowBridgeErrorCode::Conflict => "stale_version"@,
                WorkflowBridgeErrorCode::Internal => "workflow_unavailable"@,
            }),
    {
        match self.code {
            WorkflowBridgeErrorCode::InvalidInput => "invalid_workflow",
            WorkflowBridgeErrorCode::Unauthorized => "unauthorized_project",
            WorkflowBridgeErrorCode::NotFound => "stale_version",
            WorkflowBridgeErrorCode::Conflict => "stale_version",
            WorkflowBridgeErrorCode::Internal => "workflow_unavailable",
        }
    }

    /// The message shown for the error.
    pub fn message(&self) -> (r: &str)
        ensures
            r@ == self.message@,
    {
        self.message.as_str()
    }
}

#[derive(Debug, Clone)]
pub struct WorkflowNodeInput {
    pub id: String,
    pub kind: String,
    pub label: String,
}

#[derive(Debug, Clone)]
pub struct WorkflowEdgeInput {
    pub source: String,
    pub target: String,
}

#[derive(Debug, Clone)]
pub struct WorkflowDraftInput {
    pub project_id: String,
    pub workflow_id: String,
    pub nodes: Vec<WorkflowNodeInput>,
    pub edges: Vec<WorkflowEdgeInput>,
}

#[derive(Debug, Clone)]
pub struct WorkflowCommandInput {
    pub project_id: String,
    pub workflow_id: String,
    pub expected_version: u32,
    pub draft: WorkflowDraftInput,
}

#[derive(Debug, Clone)]
pub struct GetWorkflowInput {
    pub project_id: String,
    pub workflow_id: String,
}

#[derive(Debug, Clone)]
pub struct WorkflowValidationOutput {
    pub valid: bool,
    pub reason: Option<String>,
}

#[derive(Debug, Clone, Copy, PartialEq, Eq, Structural)]
pub struct WorkflowSaveOutput {
    pub version: u32,
}

#[derive(Debug, Clone)]
pub struct WorkflowNodeOutput {
    pub id: String,
    pub kind: String,
    pub label: String,
}

#[derive(Debug, Clone)]
pub struct WorkflowEdgeOutput {
    pub source: String,
    pub target: String,
}

#[derive(Debug, Clone)]
pub struct WorkflowSnapshotOutput {
    pub project_id: String,
    pub workflow_id: String,
    pub version: u32,
    pub nodes: Vec<WorkflowNodeOutput>,
    pub edges: Vec<WorkflowEdgeOutput>,
}

/// The kinds of workflow node.
#[derive(Debug, Clone, Copy, PartialEq, Eq, Structural)]
pub enum WorkflowNodeType {
    Agent,
    Condition,
    Approval,
    Tool,
    Python,
    Parallel,
    Delay,
    SubWorkflow,
}

/// The node kinds the editor may create, by name.
pub open spec fn kind_named(kind: Seq<char>) -> Option<WorkflowNodeType> {
    if kind == "agent"@ {
        Some(WorkflowNodeType::Agent)
    } else if kind == "condition"@ {
        Some(WorkflowNodeType::Condition)
    } else if kind == "approval"@ {
        Some(WorkflowNodeType::Approval)
    } else if kind == "tool"@ {
        Some(WorkflowNodeType::Tool)
    } else {
        None
    }
}

/// The name a node kind is shown under.
pub open spec fn kind_name(node: WorkflowNodeType) -> Seq<char> {
    match node {
        WorkflowNodeType::Agent => "agent"@,
        WorkflowNodeType::Condition => "condition"@,
        WorkflowNodeType::Approval => "approval"@,
        WorkflowNodeType::Tool => "tool"@,
        WorkflowNodeType::Python => "python"@,
        WorkflowNodeType::Parallel => "parallel"@,
        WorkflowNodeType::Delay => "delay"@,
        WorkflowNodeType::SubWorkflow => "sub_workflow"@,
    }
}

fn invalid(message: &str) -> (r: WorkflowBridgeError)
    ensures
        r.code == WorkflowBridgeErrorCode::InvalidInput,
        r.message@ == message@,
{
    WorkflowBridgeError::new(WorkflowBridgeErrorCode::InvalidInput, message)
}

/// The node kind named `kind`, among those the editor may create.
pub fn node_type(kind: &str) -> (r: Result<WorkflowNodeType, WorkflowBridgeError>)
    ensures
        match kind_named(kind@) {
            Some(t) => r matches Ok(x) && x == t,
            None => r matches Err(e) && e.code == WorkflowBridgeErrorCode::InvalidInput && e.message@
                == "unsupported workflow node type"@,
        },
{
    if same_text(kind, "agent") {
        Ok(WorkflowNodeType::Agent)
    } else if same_text(kind, "condition") {
        Ok(WorkflowNodeType::Condition)
    } else if same_text(kind, "approval") {
        Ok(WorkflowNodeType::Approval)
    } else if same_text(kind, "tool") {
        Ok(WorkflowNodeType::Tool)
    } else {
        Err(invalid("unsupported workflow node type"))
    }
}

/// The name of a node kind.
pub fn node_kind(node: WorkflowNodeType) -> (r: &'static str)
    ensures
        r@ == kind_name(node),
{
    match node {
        WorkflowNodeType::Agent => "agent",
        WorkflowNodeType::Condition => "condition",
        WorkflowNodeType::Approval => "approval",
        WorkflowNodeType::Tool => "tool",
        WorkflowNodeType::Python => "python",
        WorkflowNodeType::Parallel => "parallel",
        WorkflowNodeType::Delay => "delay",
        WorkflowNodeType::SubWorkflow => "sub_workflow",
    }
}

/// An identity is refused when blank, too long, holding a control
/// character, a slash, a backslash or a parent step.
pub open spec fn identity_bad(s: Seq<char>) -> bool {
    ||| is_blank(s)
    ||| utf8_len(s) > MAX_EDITOR_ID_BYTES
    ||| has_control(s)
    ||| has_char(s, '/')
    ||| has_char(s, '\\')
    ||| contains_bytes(vstd::utf8::encode_utf8(s), vstd::utf8::encode_utf8(".."@))
}

/// A label is refused when blank, too long or holding a control character.
pub open spec fn label_bad(s: Seq<char>) -> bool {
    is_blank(s) || utf8_len(s) > MAX_EDITOR_LABEL_BYTES || has_control(s)
}

pub fn validate_identifier(value: &str) -> (r: Result<(), WorkflowBridgeError>)
    ensures
        !identity_bad(value@) ==> r is Ok,
        identity_bad(value@) ==> (r matches Err(e) && e.code == WorkflowBridgeErrorCode::InvalidInput
            && e.message@ == "invalid workflow identity"@),
{
    proof {
        reveal_strlit("..");
    }
    if blank(value) || text_len(value) > MAX_EDITOR_ID_BYTES || contains_control(value)
        || contains_char(value, '/') || contains_char(value, '\\') || contains_marker(value, "..") {
        return Err(invalid("invalid workflow identity"));
    }
    Ok(())
}

pub fn validate_label(value: &str) -> (r: Result<(), WorkflowBridgeError>)
    ensures
        !label_bad(value@) ==> r is Ok,
        label_bad(value@) ==> (r matches Err(e) && e.code == WorkflowBridgeErrorCode::InvalidInput
            && e.message@ == "invalid workflow label"@),
{
    if blank(value) || text_len(value) > MAX_EDITOR_LABEL_BYTES || contains_control(value) {
        return Err(invalid("invalid workflow label"));
    }
    Ok(())
}

/// Why a node is refused, if it is: its identity, then its label, then its
/// kind.
pub open spec fn node_fault(n: WorkflowNodeInput) -> Option<Seq<char>> {
    if identity_bad(n.id@) {
        Some("invalid workflow identity"@)
    } else if label_bad(n.label@) {
        Some("invalid workflow label"@)
    } else if kind_named(n.kind@) is None {
        Some("unsupported workflow node type"@)
    } else {
        None
    }
}

/// Why the first refused node of `ns` is refused, if one is.
pub open spec fn first_node_fault(ns: Seq<WorkflowNodeInput>) -> Option<Seq<char>>
    decreases ns.len(),
{
    if ns.len() == 0 {
        None
    } else if node_fault(ns[0]) is Some {
        node_fault(ns[0])
    } else {
        first_node_fault(ns.drop_first())
    }
}

/// Some edge of `es` has a refused endpoint.
pub open spec fn edge_refused(es: Seq<WorkflowEdgeInput>) -> bool {
    exists|i: int|
        0 <= i < es.len() && (identity_bad((#[trigger] es[i]).source@) || identity_bad(es[i].target@))
}

/// Why a draft is refused before its graph is built, if it is: the editor's
/// bounds, then its nodes in order, then its edges.
pub open spec fn draft_fault(d: WorkflowDraftInput) -> Option<Seq<char>> {
    if d.nodes@.len() > MAX_EDITOR_NODES || d.edges@.len() > MAX_EDITOR_EDGES {
        Some("workflow graph exceeds editor bounds"@)
    } else if first_node_fault(d.nodes@) is Some {
        first_node_fault(d.nodes@)
    } else if edge_refused(d.edges@) {
        Some("invalid workflow identity"@)
    } else {
        None
    }
}

/// Checks a draft as the bridge does before building its graph, and
/// returns the kind of each node in order.
pub fn check_draft(draft: &WorkflowDraftInput) -> (r: Result<Vec<WorkflowNodeType>, WorkflowBridgeError>)
    ensures
        match draft_fault(*draft) {
            Some(m) => r matches Err(e) && e.code == WorkflowBridgeErrorCode::InvalidInput && e.message@
                == m,
            None => r matches Ok(kinds) && kinds@.len() == draft.nodes@.len() && forall|i: int|
                0 <= i < kinds@.len() ==> kind_named(draft.nodes@[i].kind@) == Some(
                    #[trigger] kinds@[i],
                ),
        },
{
    if draft.nodes.len() > MAX_EDITOR_NODES || draft.edges.len() > MAX_EDITOR_EDGES {
        return Err(invalid("workflow graph exceeds editor bounds"));
    }
    let ghost ns = draft.nodes@;
    let mut kinds: Vec<WorkflowNodeType> = Vec::new();
    let mut i: usize = 0;
    assert(ns.skip(0) =~= ns);
    while i < draft.nodes.len()
        invariant
            ns == draft.nodes@,
            ns.len() <= MAX_EDITOR_NODES,
            draft.edges@.len() <= MAX_EDITOR_EDGES,
            i <= ns.len(),
            first_node_fault(ns) == first_node_fault(ns.skip(i as int)),
            kinds@.len() == i,
            forall|k: int| 0 <= k < i ==> kind_named(ns[k].kind@) == Some(#[trigger] kinds@[k]),
        decreases ns.len() - i,
    {
        let node = &draft.nodes[i];
        assert(ns.skip(i as int)[0] == ns[i as int]);
        assert(ns.skip(i as int).drop_first() =~= ns.skip(i + 1));
        validate_identifier(node.id.as_str())?;
        validate_label(node.label.as_str())?;
        let kind = node_type(node.kind.as_str())?;
        kinds.push(kind);
        i = i + 1;
    }
    assert(ns.skip(i as int) =~= Seq::<WorkflowNodeInput>::empty());
    let mut j: usize = 0;
    while j < draft.edges.len()
        invariant
            ns == draft.nodes@,
            first_node_fault(ns) is None,
            draft.nodes@.len() <= MAX_EDITOR_NODES,
            draft.edges@.len() <= MAX_EDITOR_EDGES,
            j <= draft.edges@.len(),
            forall|k: int|
                0 <= k < j ==> !identity_bad((#[trigger] draft.edges@[k]).source@) && !identity_bad(
                    draft.edges@[k].target@,
                ),
        decreases draft.edges@.len() - j,
    {
        let edge = &draft.edges[j];
        if validate_identifier(edge.source.as_str()).is_err() || validate_identifier(
            edge.target.as_str(),
        ).is_err() {
            assert(edge_refused(draft.edges@));
            return Err(invalid("invalid workflow identity"));
        }
        j = j + 1;
    }
    Ok(kinds)
}

/// Reads a workflow identifier; an unreadable one is refused as input.
pub fn parse_workflow_id(value: &str) -> (r: Result<WorkflowId, WorkflowBridgeError>)
    ensures
        match prefixed_value(value@, "wf-"@) {
            Some(v) => r matches Ok(id) && id == WorkflowId(v),
            None => r matches Err(e) && e.code == WorkflowBridgeErrorCode::InvalidInput && e.message@
                == "invalid workflow id"@,
        },
{
    match WorkflowId::parse(value) {
        Some(id) => Ok(id),
        None => Err(invalid("invalid workflow id")),
    }
}

/// Reads a project identifier; an unreadable one is refused as input.
pub fn parse_project_id(value: &str) -> (r: Result<ProjectId, WorkflowBridgeError>)
    ensures
        match prefixed_value(value@, "proj-"@) {
            Some(v) => r matches Ok(id) && id == ProjectId(v),
            None => r matches Err(e) && e.code == WorkflowBridgeErrorCode::InvalidInput && e.message@
                == "invalid project id"@,
        },
{
    match ProjectId::parse(value) {
        Some(id) => Ok(id),
        None => Err(invalid("invalid project id")),
    }
}

/// A draft belongs to the command's project and workflow, or the caller is
/// refused.
pub fn check_draft_scope(input: &WorkflowCommandInput) -> (r: Result<(), WorkflowBridgeError>)
    ensures
        r is Ok <==> (input.draft.project_id@ == input.project_id@ && input.draft.workflow_id@
            == input.workflow_id@),
        r matches Err(e) ==> e.code == WorkflowBridgeErrorCode::Unauthorized && e.message@
            == "workflow scope does not match project"@,
{
    if !same_text(input.draft.project_id.as_str(), input.project_id.as_str()) || !same_text(
        input.draft.workflow_id.as_str(),
        input.workflow_id.as_str(),
    ) {
        return Err(
            WorkflowBridgeError::new(
                WorkflowBridgeErrorCode::Unauthorized,
                "workflow scope does not match project",
            ),
        );
    }
    Ok(())
}

/// The version a save writes and the version it expects to replace. A
/// command expecting version zero creates the workflow, which must not
/// exist yet; any other names the stored version it replaces, which must
/// exist. `stored` says whether the store holds the workflow (for zero) or
/// that version of it (otherwise).
pub fn plan_version(expected_version: u32, stored: bool) -> (r: Result<
    (u32, Option<u32>),
    WorkflowBridgeError,
>)
    ensures
        r is Ok <==> (stored == (expected_version != 0)),
        r matches Err(e) ==> e.code == WorkflowBridgeErrorCode::Conflict && e.message@
            == "workflow version is stale"@,
        r matches Ok((next, expected)) ==> next == (if expected_version == u32::MAX {
            u32::MAX as int
        } else {
            expected_version + 1
        }) && expected == (if expected_version == 0 {
            None
        } else {
            Some(expected_version)
        }),
{
    if (expected_version == 0) == stored {
        return Err(
            WorkflowBridgeError::new(WorkflowBridgeErrorCode::Conflict, "workflow version is stale"),
        );
    }
    let expected = if expected_version == 0 {
        None
    } else {
        Some(expected_version)
    };
    Ok((expected_version.saturating_add(1), expected))
}

/// How the workflow store failed.
#[derive(Debug, Clone, Copy, PartialEq, Eq, Structural)]
pub enum WorkflowPersistenceError {
    InvalidGraph,
    Serialization,
    ConcurrencyConflict,
    NotFound,
    Query,
}

/// The bridge error of a store failure: a bad definition is invalid input,
/// a concurrent write a stale version, a missing workflow not found, and a
/// failed query an unavailable store.
pub fn map_persistence_error(error: WorkflowPersistenceError) -> (r: WorkflowBridgeError)
    ensures
        (r.code, r.message@) == (match error {
            WorkflowPersistenceError::InvalidGraph | WorkflowPersistenceError::Serialization => (
                WorkflowBridgeErrorCode::InvalidInput,
                "invalid workflow definition"@,
            ),
            WorkflowPersistenceError::ConcurrencyConflict => (
                WorkflowBridgeErrorCode::Conflict,
                "workflow version is stale"@,
            ),
            WorkflowPersistenceError::NotFound => (
                WorkflowBridgeErrorCode::NotFound,
                "workflow not found"@,
            ),
            WorkflowPersistenceError::Query => (
                WorkflowBridgeErrorCode::Internal,
                "workflow persistence is unavailable"@,
            ),
        }),
{
    match error {
        WorkflowPersistenceError::InvalidGraph | WorkflowPersistenceError::Serialization => {
            WorkflowBridgeError::new(WorkflowBridgeErrorCode::InvalidInput, "invalid workflow definition")
        },
        WorkflowPersistenceError::ConcurrencyConflict => WorkflowBridgeError::new(
            WorkflowBridgeErrorCode::Conflict,
            "workflow version is stale",
        ),
        WorkflowPersistenceError::NotFound => WorkflowBridgeError::new(
            WorkflowBridgeErrorCode::NotFound,
            "workflow not found",
        ),
        WorkflowPersistenceError::Query => WorkflowBridgeError::new(
            WorkflowBridgeErrorCode::Internal,
            "workflow persistence is unavailable",
        ),
    }
}

/// The answer to a validation request, from how preparing the save went:
/// a prepared save is valid; a refusal of the input, the project or the
/// version is an invalid workflow with its reason; anything else is an
/// error.
pub fn validation_output(prepared: Result<(), WorkflowBridgeError>) -> (r: Result<
    WorkflowValidationOutput,
    WorkflowBridgeError,
>)
    ensures
        prepared is Ok ==> (r matches Ok(o) && o.valid && o.reason is None),
        prepared is Err && prepared->Err_0.code != WorkflowBridgeErrorCode::Internal ==> ({
            &&& r matches Ok(o)
            &&& !o.valid
            &&& o.reason matches Some(reason)
            &&& reason@ == (match prepared->Err_0.code {
                WorkflowBridgeErrorCode::InvalidInput => "invalid_workflow"@,
                WorkflowBridgeErrorCode::Unauthorized => "unauthorized_project"@,
                _ => "stale_version"@,
            })
        }),
        prepared is Err && prepared->Err_0.code == WorkflowBridgeErrorCode::Internal ==> ({
            &&& r matches Err(f)
            &&& f.code == WorkflowBridgeErrorCode::Internal
            &&& f.message@ == prepared->Err_0.message@
        }),
{
    match prepared {
        Ok(()) => Ok(WorkflowValidationOutput { valid: true, reason: None }),
        Err(error) => {
            if error.code == WorkflowBridgeErrorCode::Internal {
                Err(error)
            } else {
                let reason = error.reason().to_string();
                Ok(WorkflowValidationOutput { valid: false, reason: Some(reason) })
            }
        },
    }
}

/// The label a snapshot shows for a node: its stored label, or its id.
pub fn node_label(label: Option<&str>, node_id: &str) -> (r: String)
    ensures
        r@ == (match label {
            Some(l) => l@,
            None => node_id@,
        }),
{
    match label {
        Some(l) => l.to_string(),
        None => node_id.to_string(),
    }
}

} // verus!
