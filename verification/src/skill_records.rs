//! What the skill bridge decides about stored skills: whether a binding may
//! be rolled back, whether a record may be opened in the editor, and how an
//! editor document is rendered and bounded.
use crate::error::DomainErrorCode;
use crate::ids::{ProjectId, SkillId, TraceId};
use crate::skill_bridge::{
    SkillBridgeError, SkillScope, MAX_EDITOR_DOCUMENT_BYTES, MAX_EDITOR_FILES,
    MAX_EDITOR_FILE_BYTES,
};
use crate::text::{has_prefix, starts_with_text, text_len, utf8_len, same_text};
use vstd::prelude::*;
use vstd::string::StringExecFns;

verus! {

/// The prefix of the import reference a global binding must carry.
pub const PROJECT_IMPORT_PREFIX: &'static str = "project-import:";

/// Where a skill came from.
#[derive(Debug, Clone, Copy, PartialEq, Eq, Structural)]
pub enum SkillSourceKind {
    BuiltIn,
    Local,
    Git,
    Registry,
    Imported,
}

pub open spec fn source_label(kind: SkillSourceKind) -> Seq<char> {
    match kind {
        SkillSourceKind::BuiltIn => "built_in"@,
        SkillSourceKind::Local => "local"@,
        SkillSourceKind::Git => "git"@,
        SkillSourceKind::Registry => "registry"@,
        SkillSourceKind::Imported => "imported"@,
    }
}

/// The name a skill summary shows for its source kind.
pub fn source_kind(kind: SkillSourceKind) -> (r: String)
    ensures
        r@ == source_label(kind),
{
    let s = match kind {
        SkillSourceKind::BuiltIn => "built_in",
        SkillSourceKind::Local => "local",
        SkillSourceKind::Git => "git",
        SkillSourceKind::Registry => "registry",
        SkillSourceKind::Imported => "imported",
    };
    s.to_string()
}

/// A project's binding of a skill, as a rollback reads it.
#[derive(Debug, Clone)]
pub struct RollbackBinding {
    pub project_id: ProjectId,
    pub scope: SkillScope,
    pub current_version: String,
    pub import_reference: Option<String>,
    pub enabled: bool,
    pub approval_id: Option<String>,
    pub trace_id: TraceId,
}

/// The stored skill a binding points at, as a rollback reads it.
#[derive(Debug, Clone)]
pub struct RollbackRecord {
    pub version: String,
    pub scope: SkillScope,
    pub project_id: Option<ProjectId>,
}

pub open spec fn text_of(o: Option<String>) -> Option<Seq<char>> {
    match o {
        Some(s) => Some(s@),
        None => None,
    }
}

pub open spec fn rejected(code: DomainErrorCode) -> SkillBridgeError {
    SkillBridgeError::MutationRejected { code }
}

/// Why a binding may not be rolled back to its previous version, if it may
/// not: it must be enabled and on the record's version; the record must be
/// of the binding's scope and, for a project binding, of its project (a
/// global one of none); a project binding must not come from an import,
/// and a global one must come from a project import, carry an approval and
/// be rolled back under that same approval.
pub open spec fn rollback_binding_fault(
    binding: RollbackBinding,
    record: RollbackRecord,
    approval_id: Option<Seq<char>>,
) -> Option<SkillBridgeError> {
    if !binding.enabled || binding.current_version@ != record.version@ {
        Some(rejected(DomainErrorCode::InvalidStateTransition))
    } else if record.scope != binding.scope || (binding.scope == SkillScope::Project
        && record.project_id != Some(binding.project_id)) || (binding.scope == SkillScope::Global
        && record.project_id is Some) {
        Some(rejected(DomainErrorCode::PermissionDenied))
    } else if binding.scope == SkillScope::Project {
        if binding.import_reference is Some {
            Some(rejected(DomainErrorCode::InvariantViolation))
        } else {
            None
        }
    } else if !(text_of(binding.import_reference) matches Some(r) && starts_with_text(
        r,
        PROJECT_IMPORT_PREFIX@,
    )) || binding.approval_id is None || approval_id != text_of(binding.approval_id) {
        Some(rejected(DomainErrorCode::PermissionDenied))
    } else {
        None
    }
}

fn same_option_text(a: Option<&str>, b: &Option<String>) -> (r: bool)
    ensures
        r == (match a {
            Some(x) => Some(x@),
            None => None::<Seq<char>>,
        } == text_of(*b)),
{
    match (a, b) {
        (Some(x), Some(y)) => same_text(x, y.as_str()),
        (None, None) => true,
        _ => false,
    }
}

pub open spec fn text_ref(a: Option<&str>) -> Option<Seq<char>> {
    match a {
        Some(x) => Some(x@),
        None => None,
    }
}

/// Checks that a binding may be rolled back, under the approval the request
/// carries.
pub fn validate_binding_for_rollback(
    binding: &RollbackBinding,
    record: &RollbackRecord,
    approval_id: Option<&str>,
) -> (r: Result<(), SkillBridgeError>)
    ensures
        match rollback_binding_fault(*binding, *record, text_ref(approval_id)) {
            None => r is Ok,
            Some(e) => r == Err::<(), SkillBridgeError>(e),
        },
{
    if !binding.enabled || !same_text(binding.current_version.as_str(), record.version.as_str()) {
        return Err(SkillBridgeError::MutationRejected { code: DomainErrorCode::InvalidStateTransition });
    }
    let wrong_project = match binding.scope {
        SkillScope::Project => match record.project_id {
            Some(p) => p != binding.project_id,
            None => true,
        },
        SkillScope::Global => record.project_id.is_some(),
    };
    if record.scope != binding.scope || wrong_project {
        return Err(SkillBridgeError::MutationRejected { code: DomainErrorCode::PermissionDenied });
    }
    match binding.scope {
        SkillScope::Project => {
            if binding.import_reference.is_some() {
                Err(SkillBridgeError::MutationRejected { code: DomainErrorCode::InvariantViolation })
            } else {
                Ok(())
            }
        },
        SkillScope::Global => {
            let imported = match &binding.import_reference {
                Some(reference) => has_prefix(reference.as_str(), PROJECT_IMPORT_PREFIX),
                None => false,
            };
            if !imported || binding.approval_id.is_none() || !same_option_text(
                approval_id,
                &binding.approval_id,
            ) {
                Err(SkillBridgeError::MutationRejected { code: DomainErrorCode::PermissionDenied })
            } else {
                Ok(())
            }
        },
    }
}

/// Whether a rollback may reach its binding: the binding and its record
/// must exist, the request must carry the binding's trace, and the binding
/// must pass its own checks.
pub fn check_rollback_target(
    binding: Option<&RollbackBinding>,
    record: Option<&RollbackRecord>,
    trace_id: TraceId,
    approval_id: Option<&str>,
) -> (r: Result<(), SkillBridgeError>)
    ensures
        binding is None ==> r == Err::<(), SkillBridgeError>(rejected(DomainErrorCode::NotFound)),
        binding is Some && record is None ==> r == Err::<(), SkillBridgeError>(
            rejected(DomainErrorCode::NotFound),
        ),
        binding matches Some(b) && record is Some && b.trace_id != trace_id ==> r == Err::<
            (),
            SkillBridgeError,
        >(rejected(DomainErrorCode::PermissionDenied)),
        binding is Some && record is Some && binding.unwrap().trace_id == trace_id ==> (match rollback_binding_fault(
            *binding.unwrap(),
            *record.unwrap(),
            text_ref(approval_id),
        ) {
            None => r is Ok,
            Some(e) => r == Err::<(), SkillBridgeError>(e),
        }),
{
    let b = match binding {
        Some(b) => b,
        None => {
            return Err(SkillBridgeError::MutationRejected { code: DomainErrorCode::NotFound });
        },
    };
    let c = match record {
        Some(c) => c,
        None => {
            return Err(SkillBridgeError::MutationRejected { code: DomainErrorCode::NotFound });
        },
    };
    if b.trace_id != trace_id {
        return Err(SkillBridgeError::MutationRejected { code: DomainErrorCode::PermissionDenied });
    }
    validate_binding_for_rollback(b, c, approval_id)
}

/// Whether a stored record may be opened in the editor for a project's
/// skill: it must be that skill, of project scope, of that project, and
/// neither archived nor blocked.
pub fn validate_editor_record(
    record_skill: SkillId,
    record_scope: SkillScope,
    record_project: Option<ProjectId>,
    archived_or_blocked: bool,
    project_id: ProjectId,
    skill_id: SkillId,
) -> (r: Result<(), SkillBridgeError>)
    ensures
        r is Ok <==> (record_skill == skill_id && record_scope == SkillScope::Project
            && record_project == Some(project_id) && !archived_or_blocked),
        r matches Err(e) ==> e == rejected(DomainErrorCode::PermissionDenied),
{
    let same_project = match record_project {
        Some(p) => p == project_id,
        None => false,
    };
    if record_skill != skill_id || record_scope != SkillScope::Project || !same_project
        || archived_or_blocked {
        return Err(SkillBridgeError::MutationRejected { code: DomainErrorCode::PermissionDenied });
    }
    Ok(())
}

/// One instruction section of a skill.
#[derive(Debug, Clone)]
pub struct InstructionSection {
    pub level: u8,
    pub heading: String,
    pub content: String,
}

pub open spec fn hashes(n: nat) -> Seq<char>
    decreases n,
{
    if n == 0 {
        Seq::empty()
    } else {
        hashes((n - 1) as nat) + "#"@
    }
}

/// A section as markdown: its level in `#`s, a space and its heading, then
/// its content on the next line.
pub open spec fn section_markdown(s: InstructionSection) -> Seq<char> {
    hashes(s.level as nat) + " "@ + s.heading@ + "\n"@ + s.content@
}

/// Sections as markdown, separated by blank lines.
pub open spec fn sections_markdown(v: Seq<InstructionSection>) -> Seq<char>
    decreases v.len(),
{
    if v.len() == 0 {
        Seq::empty()
    } else if v.len() == 1 {
        section_markdown(v[0])
    } else {
        sections_markdown(v.drop_last()) + "\n\n"@ + section_markdown(v.last())
    }
}

/// The markdown of a skill's instructions.
pub fn render_instructions(sections: &Vec<InstructionSection>) -> (r: String)
    ensures
        r@ == sections_markdown(sections@),
{
    let mut out = String::new();
    let mut i: usize = 0;
    while i < sections.len()
        invariant
            i <= sections@.len(),
            out@ == sections_markdown(sections@.take(i as int)),
        decreases sections@.len() - i,
    {
        let s = &sections[i];
        if i > 0 {
            out.append("\n\n");
        }
        let mut j: u8 = 0;
        let ghost before = out@;
        while j < s.level
            invariant
                j <= s.level,
                out@ == before + hashes(j as nat),
            decreases s.level - j,
        {
            out.append("#");
            j = j + 1;
        }
        out.append(" ");
        out.append(s.heading.as_str());
        out.append("\n");
        out.append(s.content.as_str());
        proof {
            let t = sections@.take(i + 1);
            assert(t.drop_last() =~= sections@.take(i as int));
            assert(t.last() == sections@[i as int]);
            if i == 0 {
                assert(sections@.take(0) =~= Seq::<InstructionSection>::empty());
            }
        }
        i = i + 1;
    }
    proof {
        assert(sections@.take(sections@.len() as int) =~= sections@);
    }
    out
}

/// A file of an editor document.
#[derive(Debug, Clone)]
pub struct SkillEditorFileOutput {
    pub path: String,
    pub role: String,
    pub content: String,
}

/// Whether an editor document fits: manifest and markdown together within
/// the document bound, and its files within their count and size bounds.
pub open spec fn document_fits(
    manifest_json: Seq<char>,
    markdown: Seq<char>,
    files: Seq<SkillEditorFileOutput>,
) -> bool {
    &&& utf8_len(manifest_json) + utf8_len(markdown) <= MAX_EDITOR_DOCUMENT_BYTES
    &&& files.len() <= MAX_EDITOR_FILES
    &&& forall|k: int| 0 <= k < files.len() ==> utf8_len(#[trigger] files[k].content@) <= MAX_EDITOR_FILE_BYTES
}

/// Checks that an editor document fits its bounds.
pub fn check_editor_document(
    manifest_json: &str,
    markdown: &str,
    files: &[SkillEditorFileOutput],
) -> (r: Result<(), SkillBridgeError>)
    ensures
        r is Ok <==> document_fits(manifest_json@, markdown@, files@),
        r matches Err(e) ==> e == SkillBridgeError::InvalidInput,
{
    let a = text_len(manifest_json);
    let b = text_len(markdown);
    if a > MAX_EDITOR_DOCUMENT_BYTES || b > MAX_EDITOR_DOCUMENT_BYTES - a || files.len() > MAX_EDITOR_FILES {
        return Err(SkillBridgeError::InvalidInput);
    }
    let mut k: usize = 0;
    while k < files.len()
        invariant
            k <= files@.len(),
            forall|m: int| 0 <= m < k ==> utf8_len(#[trigger] files@[m].content@) <= MAX_EDITOR_FILE_BYTES,
        decreases files@.len() - k,
    {
        if text_len(files[k].content.as_str()) > MAX_EDITOR_FILE_BYTES {
            return Err(SkillBridgeError::InvalidInput);
        }
        k = k + 1;
    }
    Ok(())
}

} // verus!
