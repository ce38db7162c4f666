//! Versioned claim and evidence facts with a fail-closed state machine.
//!
//! A claim stores only bounded digests and resolver-produced evidence
//! records. Its state changes only through a resolution whose selected
//! evidence matches the claim's identity and requirements.
use crate::ids::{ProjectId, RunId, TraceId};
use crate::text::{
    all_hex, all_hex_bytes, contains_ci, contains_control, contains_marker_ci, has_control,
    same_text, text_len, utf8_len,
};
use vstd::prelude::*;
use vstd::string::StringSliceAdditionalSpecFns;

verus! {

pub const CLAIM_EVIDENCE_SCHEMA_VERSION: u32 = 1;

pub const MAX_CLAIM_ID_LEN: usize = 128;

pub const MAX_RESOLVER_ID_LEN: usize = 128;

pub const MAX_REVISION_LEN: usize = 128;

pub const MAX_REASON_LEN: usize = 256;

pub const MAX_REQUIRED_EVIDENCE: usize = 8;

pub const MAX_CLAIM_EVIDENCE_REFERENCES: usize = 16;

pub const MAX_EVIDENCE_RECORDS: usize = 128;

pub const DIGEST_LEN: usize = 64;

pub const MAX_REASONABLE_SHA_LEN: usize = 64;

pub const MIN_SHA_LEN: usize = 40;

#[derive(Debug, Clone, Copy, PartialEq, Eq, Hash, PartialOrd, Ord, Structural)]
pub enum ClaimClass {
    PlanFinding,
    RepositoryState,
    CodeChange,
    TestResult,
    ExternalFact,
}

#[derive(Debug, Clone, Copy, PartialEq, Eq, Hash, PartialOrd, Ord, Structural)]
pub enum ClaimEvidenceKind {
    Commit,
    Tree,
    Policy,
    Schema,
    Test,
    Artifact,
}

/// Fact states are data only. `Verified` is reached only through a
/// resolution carrying matching resolver evidence.
#[derive(Debug, Clone, Copy, PartialEq, Eq, Hash, PartialOrd, Ord, Structural)]
pub enum FactState {
    Verified,
    Unverified,
    Conflicting,
    Stale,
    NoProof,
}

/// Name used by callers that speak of claim states.
pub type ClaimState = FactState;

#[derive(Debug, Clone, Copy, PartialEq, Eq, Hash, PartialOrd, Ord, Structural)]
pub enum EvidenceStatus {
    Verified,
    Unverified,
    Conflicting,
    Stale,
    NoProof,
}

#[derive(Debug, Clone, Copy, PartialEq, Eq, Structural)]
pub enum ClaimEvidenceError {
    UnsupportedSchemaVersion,
    BoundsExceeded,
    InvalidShape,
    InvalidDigest,
    SensitiveValue,
    IdentityMismatch,
    ClaimMismatch,
    DuplicateEvidence,
    MissingEvidence,
    MissingRequiredEvidence,
    MissingStateEvidence,
    InvalidEvidenceStatus,
    InvalidEvidence,
    InvalidTransition { from: FactState, to: FactState },
}

/// Short name following the domain-wide error naming.
pub type ClaimError = ClaimEvidenceError;

#[derive(Debug, Clone, Copy, PartialEq, Eq, Structural)]
pub enum ResolutionOutcome {
    Applied,
    Idempotent,
}

#[derive(Debug, Clone)]
pub struct EvidenceScope {
    pub project_id: ProjectId,
    pub run_id: RunId,
    pub trace_id: TraceId,
    pub identity_digest: String,
    pub head_sha: Option<String>,
    pub tree_sha: Option<String>,
    pub policy_revision: Option<String>,
    pub schema_revision: Option<String>,
}

#[derive(Debug, Clone)]
pub struct EvidenceRecord {
    schema_version: u32,
    evidence_id: String,
    claim_id: String,
    kind: ClaimEvidenceKind,
    scope: EvidenceScope,
    evidence_digest: String,
    resolver_id: String,
    status: EvidenceStatus,
    reason: String,
}

#[derive(Debug, Clone)]
pub struct ClaimResolution {
    state: FactState,
    evidence_ids: Vec<String>,
    reason: String,
}

#[derive(Debug, Clone)]
pub struct Claim {
    schema_version: u32,
    claim_id: String,
    project_id: ProjectId,
    run_id: RunId,
    trace_id: TraceId,
    claim_class: ClaimClass,
    claim_digest: String,
    required_evidence: Vec<ClaimEvidenceKind>,
    expected_identity: EvidenceScope,
    state: FactState,
    evidence_ids: Vec<String>,
}

// ---------------------------------------------------------------------------
// Specification
// ---------------------------------------------------------------------------
/// The character views of a list of strings.
pub open spec fn views(v: Seq<String>) -> Seq<Seq<char>> {
    v.map_values(|s: String| s@)
}

pub open spec fn opt_view(o: Option<String>) -> Option<Seq<char>> {
    match o {
        Some(s) => Some(s@),
        None => None,
    }
}

/// The first error of two checks run in order.
pub open spec fn and_then(a: Result<(), ClaimEvidenceError>, b: Result<(), ClaimEvidenceError>) -> Result<(), ClaimEvidenceError> {
    if a is Err {
        a
    } else {
        b
    }
}

/// Credential-looking fragments that metadata may not carry (ASCII case is
/// ignored).
pub open spec fn sensitive(s: Seq<char>) -> bool {
    let b = vstd::utf8::encode_utf8(s);
    ||| contains_ci(b, "token=".spec_bytes())
    ||| contains_ci(b, "secret=".spec_bytes())
    ||| contains_ci(b, "api_key=".spec_bytes())
    ||| contains_ci(b, "password=".spec_bytes())
    ||| contains_ci(b, "authorization:".spec_bytes())
    ||| contains_ci(b, "bearer ".spec_bytes())
}

/// Bounded metadata text: non-empty, at most `max` bytes, no control
/// character, no credential-looking fragment.
pub open spec fn text_check(s: Seq<char>, max: nat) -> Result<(), ClaimEvidenceError> {
    if s.len() == 0 || utf8_len(s) > max || has_control(s) {
        Err(ClaimEvidenceError::BoundsExceeded)
    } else if sensitive(s) {
        Err(ClaimEvidenceError::SensitiveValue)
    } else {
        Ok(())
    }
}

pub open spec fn optional_text_check(o: Option<Seq<char>>, max: nat) -> Result<(), ClaimEvidenceError> {
    match o {
        Some(s) => text_check(s, max),
        None => Ok(()),
    }
}

/// A digest is exactly 64 hexadecimal digits.
pub open spec fn digest_check(s: Seq<char>) -> Result<(), ClaimEvidenceError> {
    let b = vstd::utf8::encode_utf8(s);
    if b.len() != DIGEST_LEN || !all_hex(b) {
        Err(ClaimEvidenceError::InvalidDigest)
    } else {
        Ok(())
    }
}

/// A commit or tree hash is 40 to 64 hexadecimal digits.
pub open spec fn optional_sha_check(o: Option<Seq<char>>) -> Result<(), ClaimEvidenceError> {
    match o {
        Some(s) => {
            let b = vstd::utf8::encode_utf8(s);
            if !(MIN_SHA_LEN <= b.len() <= MAX_REASONABLE_SHA_LEN) || !all_hex(b) {
                Err(ClaimEvidenceError::InvalidDigest)
            } else {
                Ok(())
            }
        },
        None => Ok(()),
    }
}

pub open spec fn scope_check(s: EvidenceScope) -> Result<(), ClaimEvidenceError> {
    and_then(
        digest_check(s.identity_digest@),
        and_then(
            optional_sha_check(opt_view(s.head_sha)),
            and_then(
                optional_sha_check(opt_view(s.tree_sha)),
                and_then(
                    optional_text_check(opt_view(s.policy_revision), MAX_REVISION_LEN as nat),
                    optional_text_check(opt_view(s.schema_revision), MAX_REVISION_LEN as nat),
                ),
            ),
        ),
    )
}

/// Two scopes name the same identity, field by field.
pub open spec fn same_scope(a: EvidenceScope, b: EvidenceScope) -> bool {
    &&& a.project_id == b.project_id
    &&& a.run_id == b.run_id
    &&& a.trace_id == b.trace_id
    &&& a.identity_digest@ == b.identity_digest@
    &&& opt_view(a.head_sha) == opt_view(b.head_sha)
    &&& opt_view(a.tree_sha) == opt_view(b.tree_sha)
    &&& opt_view(a.policy_revision) == opt_view(b.policy_revision)
    &&& opt_view(a.schema_revision) == opt_view(b.schema_revision)
}

/// Scanning evidence ids in order: at most 16, each bounded text, none
/// repeated. The first failure is reported.
pub open spec fn ids_check(ids: Seq<Seq<char>>) -> Result<(), ClaimEvidenceError> {
    if ids.len() > MAX_CLAIM_EVIDENCE_REFERENCES {
        Err(ClaimEvidenceError::BoundsExceeded)
    } else {
        ids_scan(ids)
    }
}

pub open spec fn ids_scan(ids: Seq<Seq<char>>) -> Result<(), ClaimEvidenceError>
    decreases ids.len(),
{
    if ids.len() == 0 {
        Ok(())
    } else {
        let prev = ids_scan(ids.drop_last());
        if prev is Err {
            prev
        } else {
            let t = text_check(ids.last(), MAX_CLAIM_ID_LEN as nat);
            if t is Err {
                t
            } else if ids.drop_last().contains(ids.last()) {
                Err(ClaimEvidenceError::DuplicateEvidence)
            } else {
                Ok(())
            }
        }
    }
}

pub open spec fn has_duplicate<T>(s: Seq<T>) -> bool {
    exists|i: int, j: int| 0 <= i < j < s.len() && s[i] == s[j]
}

/// One to eight required evidence kinds, none repeated.
pub open spec fn required_check(r: Seq<ClaimEvidenceKind>) -> Result<(), ClaimEvidenceError> {
    if r.len() == 0 || r.len() > MAX_REQUIRED_EVIDENCE {
        Err(ClaimEvidenceError::BoundsExceeded)
    } else if has_duplicate(r) {
        Err(ClaimEvidenceError::DuplicateEvidence)
    } else {
        Ok(())
    }
}

/// `Verified` needs evidence; `NoProof` admits none.
pub open spec fn state_ids_check(state: FactState, n: nat) -> Result<(), ClaimEvidenceError> {
    if state == FactState::Verified && n == 0 {
        Err(ClaimEvidenceError::MissingEvidence)
    } else if state == FactState::NoProof && n != 0 {
        Err(ClaimEvidenceError::InvalidEvidence)
    } else {
        Ok(())
    }
}

/// The lifecycle admits every transition except a silent downgrade from
/// `Verified` to `Unverified`; replaying a state is always allowed.
pub open spec fn can_transition(from: FactState, to: FactState) -> bool {
    !(from == FactState::Verified && to == FactState::Unverified)
}

impl EvidenceRecord {
    pub closed spec fn schema_version_of(&self) -> u32 {
        self.schema_version
    }

    pub closed spec fn evidence_id_of(&self) -> Seq<char> {
        self.evidence_id@
    }

    pub closed spec fn claim_id_of(&self) -> Seq<char> {
        self.claim_id@
    }

    pub closed spec fn kind_of(&self) -> ClaimEvidenceKind {
        self.kind
    }

    pub closed spec fn scope_of(&self) -> EvidenceScope {
        self.scope
    }

    pub closed spec fn evidence_digest_of(&self) -> Seq<char> {
        self.evidence_digest@
    }

    pub closed spec fn resolver_id_of(&self) -> Seq<char> {
        self.resolver_id@
    }

    pub closed spec fn status_of(&self) -> EvidenceStatus {
        self.status
    }

    pub closed spec fn reason_of(&self) -> Seq<char> {
        self.reason@
    }
}

pub open spec fn record_check(r: EvidenceRecord) -> Result<(), ClaimEvidenceError> {
    if r.schema_version_of() != CLAIM_EVIDENCE_SCHEMA_VERSION {
        Err(ClaimEvidenceError::UnsupportedSchemaVersion)
    } else {
        and_then(
            text_check(r.evidence_id_of(), MAX_CLAIM_ID_LEN as nat),
            and_then(
                text_check(r.claim_id_of(), MAX_CLAIM_ID_LEN as nat),
                and_then(
                    digest_check(r.evidence_digest_of()),
                    and_then(
                        text_check(r.resolver_id_of(), MAX_RESOLVER_ID_LEN as nat),
                        and_then(
                            text_check(r.reason_of(), MAX_REASON_LEN as nat),
                            scope_check(r.scope_of()),
                        ),
                    ),
                ),
            ),
        )
    }
}

impl ClaimResolution {
    pub closed spec fn state_of(&self) -> FactState {
        self.state
    }

    pub closed spec fn ids_of(&self) -> Seq<Seq<char>> {
        views(self.evidence_ids@)
    }

    pub closed spec fn reason_of(&self) -> Seq<char> {
        self.reason@
    }
}

pub open spec fn resolution_check(r: ClaimResolution) -> Result<(), ClaimEvidenceError> {
    and_then(
        ids_check(r.ids_of()),
        and_then(
            text_check(r.reason_of(), MAX_REASON_LEN as nat),
            state_ids_check(r.state_of(), r.ids_of().len()),
        ),
    )
}

impl Claim {
    pub closed spec fn schema_version_of(&self) -> u32 {
        self.schema_version
    }

    pub closed spec fn claim_id_of(&self) -> Seq<char> {
        self.claim_id@
    }

    pub closed spec fn project_id_of(&self) -> ProjectId {
        self.project_id
    }

    pub closed spec fn run_id_of(&self) -> RunId {
        self.run_id
    }

    pub closed spec fn trace_id_of(&self) -> TraceId {
        self.trace_id
    }

    pub closed spec fn claim_class_of(&self) -> ClaimClass {
        self.claim_class
    }

    pub closed spec fn claim_digest_of(&self) -> Seq<char> {
        self.claim_digest@
    }

    pub closed spec fn required_of(&self) -> Seq<ClaimEvidenceKind> {
        self.required_evidence@
    }

    pub closed spec fn identity_of(&self) -> EvidenceScope {
        self.expected_identity
    }

    pub closed spec fn state_of(&self) -> FactState {
        self.state
    }

    pub closed spec fn ids_of(&self) -> Seq<Seq<char>> {
        views(self.evidence_ids@)
    }

    /// The claim after a resolution took effect: its state and evidence
    /// references are the resolution's, everything else is kept.
    pub closed spec fn resolved(self, r: ClaimResolution) -> Claim {
        Claim { state: r.state, evidence_ids: r.evidence_ids, ..self }
    }

    pub broadcast proof fn lemma_resolved(self, r: ClaimResolution)
        ensures
            #![trigger self.resolved(r)]
            self.resolved(r).state_of() == r.state_of(),
            self.resolved(r).ids_of() == r.ids_of(),
            self.resolved(r).schema_version_of() == self.schema_version_of(),
            self.resolved(r).claim_id_of() == self.claim_id_of(),
            self.resolved(r).project_id_of() == self.project_id_of(),
            self.resolved(r).run_id_of() == self.run_id_of(),
            self.resolved(r).trace_id_of() == self.trace_id_of(),
            self.resolved(r).claim_class_of() == self.claim_class_of(),
            self.resolved(r).claim_digest_of() == self.claim_digest_of(),
            self.resolved(r).required_of() == self.required_of(),
            self.resolved(r).identity_of() == self.identity_of(),
    {
    }
}

pub open spec fn identity_matches(c: Claim) -> bool {
    &&& c.identity_of().project_id == c.project_id_of()
    &&& c.identity_of().run_id == c.run_id_of()
    &&& c.identity_of().trace_id == c.trace_id_of()
}

pub open spec fn claim_check(c: Claim) -> Result<(), ClaimEvidenceError> {
    if c.schema_version_of() != CLAIM_EVIDENCE_SCHEMA_VERSION {
        Err(ClaimEvidenceError::UnsupportedSchemaVersion)
    } else {
        and_then(
            text_check(c.claim_id_of(), MAX_CLAIM_ID_LEN as nat),
            and_then(
                digest_check(c.claim_digest_of()),
                and_then(
                    scope_check(c.identity_of()),
                    if !identity_matches(c) {
                        Err(ClaimEvidenceError::IdentityMismatch)
                    } else {
                        and_then(
                            required_check(c.required_of()),
                            and_then(
                                ids_check(c.ids_of()),
                                state_ids_check(c.state_of(), c.ids_of().len()),
                            ),
                        )
                    },
                ),
            ),
        )
    }
}

/// Number of records carrying evidence id `id`.
pub open spec fn count_id(recs: Seq<EvidenceRecord>, id: Seq<char>) -> nat
    decreases recs.len(),
{
    if recs.len() == 0 {
        0
    } else {
        count_id(recs.drop_last(), id) + if recs.last().evidence_id_of() == id {
            1nat
        } else {
            0nat
        }
    }
}

/// Index of the first record carrying evidence id `id`, or -1.
pub open spec fn first_id(recs: Seq<EvidenceRecord>, id: Seq<char>) -> int
    decreases recs.len(),
{
    if recs.len() == 0 {
        -1
    } else {
        let p = first_id(recs.drop_last(), id);
        if p >= 0 {
            p
        } else if recs.last().evidence_id_of() == id {
            recs.len() - 1
        } else {
            -1
        }
    }
}

/// The record selected for evidence id `id`.
pub open spec fn picked(recs: Seq<EvidenceRecord>, id: Seq<char>) -> EvidenceRecord {
    recs[first_id(recs, id)]
}

/// The evidence id must name exactly one record, which must be valid, about
/// this claim and within its expected identity.
pub open spec fn pick_check(c: Claim, id: Seq<char>, recs: Seq<EvidenceRecord>) -> Result<(), ClaimEvidenceError> {
    let n = count_id(recs, id);
    if n == 0 {
        Err(ClaimEvidenceError::MissingEvidence)
    } else if n >= 2 {
        Err(ClaimEvidenceError::DuplicateEvidence)
    } else {
        let rec = picked(recs, id);
        let rc = record_check(rec);
        if rc is Err {
            rc
        } else if rec.claim_id_of() != c.claim_id_of() {
            Err(ClaimEvidenceError::ClaimMismatch)
        } else if !same_scope(rec.scope_of(), c.identity_of()) {
            Err(ClaimEvidenceError::IdentityMismatch)
        } else {
            Ok(())
        }
    }
}

pub open spec fn select_scan(c: Claim, ids: Seq<Seq<char>>, recs: Seq<EvidenceRecord>) -> Result<(), ClaimEvidenceError>
    decreases ids.len(),
{
    if ids.len() == 0 {
        Ok(())
    } else {
        let prev = select_scan(c, ids.drop_last(), recs);
        if prev is Err {
            prev
        } else {
            pick_check(c, ids.last(), recs)
        }
    }
}

pub open spec fn picked_status(recs: Seq<EvidenceRecord>, ids: Seq<Seq<char>>, k: int) -> EvidenceStatus {
    picked(recs, ids[k]).status_of()
}

pub open spec fn some_picked_has(
    recs: Seq<EvidenceRecord>,
    ids: Seq<Seq<char>>,
    st: EvidenceStatus,
) -> bool {
    exists|k: int| 0 <= k < ids.len() && #[trigger] picked_status(recs, ids, k) == st
}

pub open spec fn all_picked_verified(recs: Seq<EvidenceRecord>, ids: Seq<Seq<char>>) -> bool {
    forall|k: int| 0 <= k < ids.len() ==> #[trigger] picked_status(recs, ids, k) == EvidenceStatus::Verified
}

pub open spec fn all_picked_unverified(recs: Seq<EvidenceRecord>, ids: Seq<Seq<char>>) -> bool {
    forall|k: int|
        0 <= k < ids.len() ==> (#[trigger] picked_status(recs, ids, k) == EvidenceStatus::Unverified
            || picked_status(recs, ids, k) == EvidenceStatus::NoProof)
}

pub open spec fn kind_picked(
    recs: Seq<EvidenceRecord>,
    ids: Seq<Seq<char>>,
    kind: ClaimEvidenceKind,
) -> bool {
    exists|k: int| 0 <= k < ids.len() && #[trigger] picked(recs, ids[k]).kind_of() == kind
}

pub open spec fn all_required_picked(
    recs: Seq<EvidenceRecord>,
    ids: Seq<Seq<char>>,
    req: Seq<ClaimEvidenceKind>,
) -> bool {
    forall|q: int| 0 <= q < req.len() ==> kind_picked(recs, ids, #[trigger] req[q])
}

/// What the selected evidence must show for each target state.
pub open spec fn evidence_rule(
    c: Claim,
    state: FactState,
    ids: Seq<Seq<char>>,
    recs: Seq<EvidenceRecord>,
) -> Result<(), ClaimEvidenceError> {
    match state {
        FactState::NoProof => if ids.len() != 0 {
            Err(ClaimEvidenceError::InvalidEvidence)
        } else {
            Ok(())
        },
        FactState::Verified => if ids.len() == 0 {
            Err(ClaimEvidenceError::MissingEvidence)
        } else if !all_picked_verified(recs, ids) {
            Err(ClaimEvidenceError::InvalidEvidenceStatus)
        } else if !all_required_picked(recs, ids, c.required_of()) {
            Err(ClaimEvidenceError::MissingRequiredEvidence)
        } else {
            Ok(())
        },
        FactState::Unverified => if !all_picked_unverified(recs, ids) {
            Err(ClaimEvidenceError::InvalidEvidenceStatus)
        } else {
            Ok(())
        },
        FactState::Stale => if !some_picked_has(recs, ids, EvidenceStatus::Stale) {
            Err(ClaimEvidenceError::MissingStateEvidence)
        } else {
            Ok(())
        },
        FactState::Conflicting => if !some_picked_has(recs, ids, EvidenceStatus::Conflicting) {
            Err(ClaimEvidenceError::MissingStateEvidence)
        } else {
            Ok(())
        },
    }
}

pub open spec fn lift(r: Result<(), ClaimEvidenceError>) -> Result<ResolutionOutcome, ClaimEvidenceError> {
    match r {
        Ok(_) => Ok(ResolutionOutcome::Applied),
        Err(e) => Err(e),
    }
}

/// The outcome of applying `res` to `c` with the records `recs`.
pub open spec fn apply_result(c: Claim, res: ClaimResolution, recs: Seq<EvidenceRecord>) -> Result<ResolutionOutcome, ClaimEvidenceError> {
    let pre = and_then(claim_check(c), resolution_check(res));
    if pre is Err {
        lift(pre)
    } else if !can_transition(c.state_of(), res.state_of()) {
        Err(ClaimEvidenceError::InvalidTransition { from: c.state_of(), to: res.state_of() })
    } else if recs.len() > MAX_EVIDENCE_RECORDS {
        Err(ClaimEvidenceError::BoundsExceeded)
    } else {
        let sel = and_then(
            select_scan(c, res.ids_of(), recs),
            evidence_rule(c, res.state_of(), res.ids_of(), recs),
        );
        if sel is Err {
            lift(sel)
        } else if c.state_of() == res.state_of() && c.ids_of() == res.ids_of() {
            Ok(ResolutionOutcome::Idempotent)
        } else {
            Ok(ResolutionOutcome::Applied)
        }
    }
}

// ---------------------------------------------------------------------------
// Text checks
// ---------------------------------------------------------------------------
fn contains_sensitive_marker(value: &str) -> (r: bool)
    ensures
        r == sensitive(value@),
{
    contains_marker_ci(value, "token=") || contains_marker_ci(value, "secret=")
        || contains_marker_ci(value, "api_key=") || contains_marker_ci(value, "password=")
        || contains_marker_ci(value, "authorization:") || contains_marker_ci(value, "bearer ")
}

fn validate_text(value: &str, max_len: usize) -> (r: Result<(), ClaimEvidenceError>)
    ensures
        r == text_check(value@, max_len as nat),
{
    if value.is_empty() || text_len(value) > max_len || contains_control(value) {
        return Err(ClaimEvidenceError::BoundsExceeded);
    }
    if contains_sensitive_marker(value) {
        return Err(ClaimEvidenceError::SensitiveValue);
    }
    Ok(())
}

fn validate_optional_text(value: &Option<String>, max_len: usize) -> (r: Result<(), ClaimEvidenceError>)
    ensures
        r == optional_text_check(opt_view(*value), max_len as nat),
{
    match value {
        Some(v) => validate_text(v.as_str(), max_len),
        None => Ok(()),
    }
}

fn validate_digest(value: &str) -> (r: Result<(), ClaimEvidenceError>)
    ensures
        r == digest_check(value@),
{
    let b = value.as_bytes();
    if b.len() != DIGEST_LEN || !all_hex_bytes(b) {
        return Err(ClaimEvidenceError::InvalidDigest);
    }
    Ok(())
}

fn validate_optional_sha(value: &Option<String>) -> (r: Result<(), ClaimEvidenceError>)
    ensures
        r == optional_sha_check(opt_view(*value)),
{
    match value {
        Some(v) => {
            let b = v.as_str().as_bytes();
            if b.len() < MIN_SHA_LEN || b.len() > MAX_REASONABLE_SHA_LEN || !all_hex_bytes(b) {
                return Err(ClaimEvidenceError::InvalidDigest);
            }
            Ok(())
        },
        None => Ok(()),
    }
}

fn same_optional_text(a: &Option<String>, b: &Option<String>) -> (r: bool)
    ensures
        r == (opt_view(*a) == opt_view(*b)),
{
    match (a, b) {
        (Some(x), Some(y)) => same_text(x.as_str(), y.as_str()),
        (None, None) => true,
        _ => false,
    }
}

fn validate_evidence_ids(ids: &Vec<String>) -> (r: Result<(), ClaimEvidenceError>)
    ensures
        r == ids_check(views(ids@)),
{
    if ids.len() > MAX_CLAIM_EVIDENCE_REFERENCES {
        return Err(ClaimEvidenceError::BoundsExceeded);
    }
    let ghost all = views(ids@);
    let mut i: usize = 0;
    while i < ids.len()
        invariant
            all == views(ids@),
            ids@.len() <= MAX_CLAIM_EVIDENCE_REFERENCES,
            i <= ids@.len(),
            ids_scan(all.take(i as int)) is Ok,
        decreases ids@.len() - i,
    {
        let ghost pre = all.take(i as int);
        assert(all.take(i + 1).drop_last() =~= pre);
        assert(all.take(i + 1).last() == ids@[i as int]@);
        match validate_text(ids[i].as_str(), MAX_CLAIM_ID_LEN) {
            Err(e) => {
                assert(ids_scan(all.take(i + 1)) == Err::<(), _>(e));
                proof { lemma_ids_scan_prefix_err(all, (i + 1) as int); }
                assert(all.take(all.len() as int) =~= all);
                assert(ids_scan(all) == Err::<(), _>(e));
                return Err(e);
            },
            Ok(_) => {},
        }
        let mut j: usize = 0;
        while j < i
            invariant
                all == views(ids@),
                ids@.len() <= MAX_CLAIM_EVIDENCE_REFERENCES,
                j <= i < ids@.len(),
                pre == all.take(i as int),
                ids_scan(pre) is Ok,
                text_check(all[i as int], MAX_CLAIM_ID_LEN as nat) is Ok,
                all.take(i + 1).drop_last() == pre,
                all.take(i + 1).last() == all[i as int],
                forall|k: int| 0 <= k < j ==> pre[k] != all[i as int],
            decreases i - j,
        {
            if same_text(ids[j].as_str(), ids[i].as_str()) {
                assert(pre[j as int] == all[i as int]);
                assert(pre.contains(all[i as int]));
                assert(ids_scan(all.take(i + 1)) == Err::<(), _>(
                    ClaimEvidenceError::DuplicateEvidence,
                ));
                proof { lemma_ids_scan_prefix_err(all, (i + 1) as int); }
                assert(all.take(all.len() as int) =~= all);
                assert(ids_scan(all) == Err::<(), _>(ClaimEvidenceError::DuplicateEvidence));
                return Err(ClaimEvidenceError::DuplicateEvidence);
            }
            j = j + 1;
        }
        assert(!pre.contains(all[i as int]));
        i = i + 1;
    }
    assert(all.take(ids@.len() as int) =~= all);
    Ok(())
}

/// Once a prefix of the ids fails, every longer prefix fails the same way.
proof fn lemma_ids_scan_prefix_err(all: Seq<Seq<char>>, i: int)
    requires
        0 <= i <= all.len(),
        ids_scan(all.take(i)) is Err,
    ensures
        ids_scan(all.take(all.len() as int)) == ids_scan(all.take(i)),
    decreases all.len() - i,
{
    if i < all.len() {
        assert(all.take(i + 1).drop_last() =~= all.take(i));
        lemma_ids_scan_prefix_err(all, i + 1);
    }
}

fn validate_required_evidence(required: &Vec<ClaimEvidenceKind>) -> (r: Result<(), ClaimEvidenceError>)
    ensures
        r == required_check(required@),
{
    if required.len() == 0 || required.len() > MAX_REQUIRED_EVIDENCE {
        return Err(ClaimEvidenceError::BoundsExceeded);
    }
    let mut j: usize = 1;
    while j < required.len()
        invariant
            1 <= j <= required@.len() <= MAX_REQUIRED_EVIDENCE,
            forall|a: int, b: int| 0 <= a < b < j ==> required@[a] != required@[b],
        decreases required@.len() - j,
    {
        let mut i: usize = 0;
        while i < j
            invariant
                1 <= j < required@.len() <= MAX_REQUIRED_EVIDENCE,
                i <= j,
                forall|a: int, b: int| 0 <= a < b < j ==> required@[a] != required@[b],
                forall|a: int| 0 <= a < i ==> required@[a] != required@[j as int],
            decreases j - i,
        {
            if required[i] == required[j] {
                assert(0 <= i < j < required@.len() && required@[i as int] == required@[j as int]);
                assert(has_duplicate(required@));
                return Err(ClaimEvidenceError::DuplicateEvidence);
            }
            i = i + 1;
        }
        j = j + 1;
    }
    Ok(())
}

// ---------------------------------------------------------------------------
// Fact states
// ---------------------------------------------------------------------------
impl FactState {
    /// Whether the bounded lifecycle permits moving to `next`. Replays are
    /// allowed; `Verified` cannot be silently downgraded to `Unverified`.
    pub fn can_transition_to(self, next: FactState) -> (r: bool)
        ensures
            r == can_transition(self, next),
    {
        !(self == FactState::Verified && next == FactState::Unverified)
    }

    pub fn default_reason(self) -> (r: &'static str)
        ensures
            r@ == fact_reason(self),
    {
        match self {
            FactState::Verified => "resolver evidence matched claim",
            FactState::Unverified => "resolver evidence is insufficient",
            FactState::Conflicting => "resolver evidence conflicts",
            FactState::Stale => "resolver evidence is stale",
            FactState::NoProof => "no resolver evidence is available",
        }
    }
}

pub open spec fn fact_reason(s: FactState) -> Seq<char> {
    match s {
        FactState::Verified => "resolver evidence matched claim"@,
        FactState::Unverified => "resolver evidence is insufficient"@,
        FactState::Conflicting => "resolver evidence conflicts"@,
        FactState::Stale => "resolver evidence is stale"@,
        FactState::NoProof => "no resolver evidence is available"@,
    }
}

pub open spec fn status_reason(s: EvidenceStatus) -> Seq<char> {
    match s {
        EvidenceStatus::Verified => "resolver evidence verified"@,
        EvidenceStatus::Unverified => "resolver evidence did not verify"@,
        EvidenceStatus::Conflicting => "resolver evidence conflicts"@,
        EvidenceStatus::Stale => "resolver evidence is stale"@,
        EvidenceStatus::NoProof => "resolver returned no proof"@,
    }
}

impl EvidenceStatus {
    pub fn default_reason(self) -> (r: &'static str)
        ensures
            r@ == status_reason(self),
    {
        match self {
            EvidenceStatus::Verified => "resolver evidence verified",
            EvidenceStatus::Unverified => "resolver evidence did not verify",
            EvidenceStatus::Conflicting => "resolver evidence conflicts",
            EvidenceStatus::Stale => "resolver evidence is stale",
            EvidenceStatus::NoProof => "resolver returned no proof",
        }
    }
}


// ---------------------------------------------------------------------------
// Scopes, records and resolutions
// ---------------------------------------------------------------------------
fn opt_str(o: &Option<String>) -> (r: Option<&str>)
    ensures
        r is Some <==> o is Some,
        r matches Some(x) ==> x@ == o->Some_0@,
{
    match o {
        Some(s) => Some(s.as_str()),
        None => None,
    }
}

fn same_scope_exec(a: &EvidenceScope, b: &EvidenceScope) -> (r: bool)
    ensures
        r == same_scope(*a, *b),
{
    a.project_id == b.project_id && a.run_id == b.run_id && a.trace_id == b.trace_id
        && same_text(a.identity_digest.as_str(), b.identity_digest.as_str())
        && same_optional_text(&a.head_sha, &b.head_sha) && same_optional_text(
        &a.tree_sha,
        &b.tree_sha,
    ) && same_optional_text(&a.policy_revision, &b.policy_revision) && same_optional_text(
        &a.schema_revision,
        &b.schema_revision,
    )
}

fn same_ids(a: &Vec<String>, b: &Vec<String>) -> (r: bool)
    ensures
        r == (views(a@) == views(b@)),
{
    if a.len() != b.len() {
        assert(views(a@).len() != views(b@).len());
        return false;
    }
    let mut i: usize = 0;
    while i < a.len()
        invariant
            a@.len() == b@.len(),
            i <= a@.len(),
            forall|k: int| 0 <= k < i ==> #[trigger] a@[k]@ == b@[k]@,
        decreases a@.len() - i,
    {
        if !same_text(a[i].as_str(), b[i].as_str()) {
            assert(views(a@)[i as int] != views(b@)[i as int]);
            return false;
        }
        i = i + 1;
    }
    assert(views(a@) =~= views(b@));
    true
}

impl EvidenceScope {
    #[allow(clippy::too_many_arguments)]
    pub fn new(
        project_id: ProjectId,
        run_id: RunId,
        trace_id: TraceId,
        identity_digest: String,
        head_sha: Option<String>,
        tree_sha: Option<String>,
        policy_revision: Option<String>,
        schema_revision: Option<String>,
    ) -> (r: Result<Self, ClaimEvidenceError>)
        ensures
            ({
                let s = EvidenceScope {
                    project_id,
                    run_id,
                    trace_id,
                    identity_digest,
                    head_sha,
                    tree_sha,
                    policy_revision,
                    schema_revision,
                };
                match scope_check(s) {
                    Ok(_) => r == Ok::<_, ClaimEvidenceError>(s),
                    Err(e) => r == Err::<EvidenceScope, _>(e),
                }
            }),
    {
        let scope = EvidenceScope {
            project_id,
            run_id,
            trace_id,
            identity_digest,
            head_sha,
            tree_sha,
            policy_revision,
            schema_revision,
        };
        match scope.validate() {
            Ok(_) => Ok(scope),
            Err(e) => Err(e),
        }
    }

    pub fn head_sha(&self) -> (r: Option<&str>)
        ensures
            r is Some <==> self.head_sha is Some,
            r matches Some(x) ==> x@ == self.head_sha->Some_0@,
    {
        opt_str(&self.head_sha)
    }

    pub fn identity_digest(&self) -> (r: &str)
        ensures
            r@ == self.identity_digest@,
    {
        self.identity_digest.as_str()
    }

    pub fn tree_sha(&self) -> (r: Option<&str>)
        ensures
            r is Some <==> self.tree_sha is Some,
            r matches Some(x) ==> x@ == self.tree_sha->Some_0@,
    {
        opt_str(&self.tree_sha)
    }

    pub fn policy_revision(&self) -> (r: Option<&str>)
        ensures
            r is Some <==> self.policy_revision is Some,
            r matches Some(x) ==> x@ == self.policy_revision->Some_0@,
    {
        opt_str(&self.policy_revision)
    }

    pub fn schema_revision(&self) -> (r: Option<&str>)
        ensures
            r is Some <==> self.schema_revision is Some,
            r matches Some(x) ==> x@ == self.schema_revision->Some_0@,
    {
        opt_str(&self.schema_revision)
    }

    /// The identity digest must be 64 hex digits, hashes 40 to 64 hex
    /// digits, revisions bounded text; the first failure is reported.
    pub fn validate(&self) -> (r: Result<(), ClaimEvidenceError>)
        ensures
            r == scope_check(*self),
    {
        validate_digest(self.identity_digest.as_str())?;
        validate_optional_sha(&self.head_sha)?;
        validate_optional_sha(&self.tree_sha)?;
        validate_optional_text(&self.policy_revision, MAX_REVISION_LEN)?;
        validate_optional_text(&self.schema_revision, MAX_REVISION_LEN)?;
        Ok(())
    }
}

impl EvidenceRecord {
    /// A record with the current schema version and the status's default
    /// reason, kept only if it validates.
    #[allow(clippy::too_many_arguments)]
    pub fn new(
        claim_id: String,
        evidence_id: String,
        kind: ClaimEvidenceKind,
        scope: EvidenceScope,
        evidence_digest: String,
        resolver_id: String,
        status: EvidenceStatus,
    ) -> (r: Result<Self, ClaimEvidenceError>)
        ensures
            r matches Ok(rec) ==> {
                &&& rec.schema_version_of() == CLAIM_EVIDENCE_SCHEMA_VERSION
                &&& rec.evidence_id_of() == evidence_id@
                &&& rec.claim_id_of() == claim_id@
                &&& rec.kind_of() == kind
                &&& rec.scope_of() == scope
                &&& rec.evidence_digest_of() == evidence_digest@
                &&& rec.resolver_id_of() == resolver_id@
                &&& rec.status_of() == status
                &&& rec.reason_of() == status_reason(status)
                &&& record_check(rec) is Ok
            },
            r matches Err(e) ==> {
                let checks = and_then(
                    text_check(evidence_id@, MAX_CLAIM_ID_LEN as nat),
                    and_then(
                        text_check(claim_id@, MAX_CLAIM_ID_LEN as nat),
                        and_then(
                            digest_check(evidence_digest@),
                            and_then(
                                text_check(resolver_id@, MAX_RESOLVER_ID_LEN as nat),
                                and_then(
                                    text_check(status_reason(status), MAX_REASON_LEN as nat),
                                    scope_check(scope),
                                ),
                            ),
                        ),
                    ),
                );
                checks == Err::<(), _>(e)
            },
            r is Ok <==> and_then(
                text_check(evidence_id@, MAX_CLAIM_ID_LEN as nat),
                and_then(
                    text_check(claim_id@, MAX_CLAIM_ID_LEN as nat),
                    and_then(
                        digest_check(evidence_digest@),
                        and_then(
                            text_check(resolver_id@, MAX_RESOLVER_ID_LEN as nat),
                            and_then(
                                text_check(status_reason(status), MAX_REASON_LEN as nat),
                                scope_check(scope),
                            ),
                        ),
                    ),
                ),
            ) is Ok,
    {
        let record = EvidenceRecord {
            schema_version: CLAIM_EVIDENCE_SCHEMA_VERSION,
            evidence_id,
            claim_id,
            kind,
            scope,
            evidence_digest,
            resolver_id,
            status,
            reason: status.default_reason().to_owned(),
        };
        match record.validate() {
            Ok(_) => Ok(record),
            Err(e) => Err(e),
        }
    }

    pub fn schema_version(&self) -> (r: u32)
        ensures
            r == self.schema_version_of(),
    {
        self.schema_version
    }

    pub fn evidence_id(&self) -> (r: &str)
        ensures
            r@ == self.evidence_id_of(),
    {
        self.evidence_id.as_str()
    }

    pub fn claim_id(&self) -> (r: &str)
        ensures
            r@ == self.claim_id_of(),
    {
        self.claim_id.as_str()
    }

    pub fn kind(&self) -> (r: ClaimEvidenceKind)
        ensures
            r == self.kind_of(),
    {
        self.kind
    }

    pub fn scope(&self) -> (r: &EvidenceScope)
        ensures
            *r == self.scope_of(),
    {
        &self.scope
    }

    pub fn evidence_digest(&self) -> (r: &str)
        ensures
            r@ == self.evidence_digest_of(),
    {
        self.evidence_digest.as_str()
    }

    pub fn resolver_id(&self) -> (r: &str)
        ensures
            r@ == self.resolver_id_of(),
    {
        self.resolver_id.as_str()
    }

    pub fn status(&self) -> (r: EvidenceStatus)
        ensures
            r == self.status_of(),
    {
        self.status
    }

    pub fn reason(&self) -> (r: &str)
        ensures
            r@ == self.reason_of(),
    {
        self.reason.as_str()
    }

    /// Replaces the reason, keeping the record only if it still validates.
    pub fn with_reason(self, reason: String) -> (r: Result<Self, ClaimEvidenceError>)
        ensures
            ({
                let next = self.with_reason_spec(reason);
                match record_check(next) {
                    Ok(_) => r == Ok::<_, ClaimEvidenceError>(next),
                    Err(e) => r == Err::<EvidenceRecord, _>(e),
                }
            }),
    {
        let mut next = self;
        next.reason = reason;
        match next.validate() {
            Ok(_) => Ok(next),
            Err(e) => Err(e),
        }
    }

    pub closed spec fn with_reason_spec(self, reason: String) -> EvidenceRecord {
        EvidenceRecord { reason, ..self }
    }

    /// Schema version, bounded ids and reason, a 64-digit evidence digest and
    /// a valid scope; the first failure is reported.
    pub fn validate(&self) -> (r: Result<(), ClaimEvidenceError>)
        ensures
            r == record_check(*self),
    {
        if self.schema_version != CLAIM_EVIDENCE_SCHEMA_VERSION {
            return Err(ClaimEvidenceError::UnsupportedSchemaVersion);
        }
        validate_text(self.evidence_id.as_str(), MAX_CLAIM_ID_LEN)?;
        validate_text(self.claim_id.as_str(), MAX_CLAIM_ID_LEN)?;
        validate_digest(self.evidence_digest.as_str())?;
        validate_text(self.resolver_id.as_str(), MAX_RESOLVER_ID_LEN)?;
        validate_text(self.reason.as_str(), MAX_REASON_LEN)?;
        self.scope.validate()
    }
}

impl ClaimResolution {
    /// A resolution to `state` citing `evidence_ids`, with the state's
    /// default reason.
    pub fn new(state: FactState, evidence_ids: Vec<String>) -> (r: Self)
        ensures
            r.state_of() == state,
            r.ids_of() == views(evidence_ids@),
            r.reason_of() == fact_reason(state),
    {
        ClaimResolution { state, evidence_ids, reason: state.default_reason().to_owned() }
    }

    pub fn verified(evidence_ids: Vec<String>) -> (r: Self)
        ensures
            r.state_of() == FactState::Verified,
            r.ids_of() == views(evidence_ids@),
            r.reason_of() == fact_reason(FactState::Verified),
    {
        ClaimResolution::new(FactState::Verified, evidence_ids)
    }

    pub fn unverified(evidence_ids: Vec<String>) -> (r: Self)
        ensures
            r.state_of() == FactState::Unverified,
            r.ids_of() == views(evidence_ids@),
            r.reason_of() == fact_reason(FactState::Unverified),
    {
        ClaimResolution::new(FactState::Unverified, evidence_ids)
    }

    pub fn conflicting(evidence_ids: Vec<String>) -> (r: Self)
        ensures
            r.state_of() == FactState::Conflicting,
            r.ids_of() == views(evidence_ids@),
            r.reason_of() == fact_reason(FactState::Conflicting),
    {
        ClaimResolution::new(FactState::Conflicting, evidence_ids)
    }

    pub fn stale(evidence_ids: Vec<String>) -> (r: Self)
        ensures
            r.state_of() == FactState::Stale,
            r.ids_of() == views(evidence_ids@),
            r.reason_of() == fact_reason(FactState::Stale),
    {
        ClaimResolution::new(FactState::Stale, evidence_ids)
    }

    pub fn no_proof() -> (r: Self)
        ensures
            r.state_of() == FactState::NoProof,
            r.ids_of().len() == 0,
            r.reason_of() == fact_reason(FactState::NoProof),
    {
        let r = ClaimResolution::new(FactState::NoProof, Vec::new());
        assert(r.ids_of() =~= Seq::<Seq<char>>::empty());
        r
    }

    pub fn state(&self) -> (r: FactState)
        ensures
            r == self.state_of(),
    {
        self.state
    }

    pub fn evidence_ids(&self) -> (r: &[String])
        ensures
            views(r@) == self.ids_of(),
    {
        self.evidence_ids.as_slice()
    }

    pub fn reason(&self) -> (r: &str)
        ensures
            r@ == self.reason_of(),
    {
        self.reason.as_str()
    }

    /// Replaces the reason, keeping the resolution only if it validates.
    pub fn with_reason(self, reason: String) -> (r: Result<Self, ClaimEvidenceError>)
        ensures
            ({
                let next = self.with_reason_spec(reason);
                match resolution_check(next) {
                    Ok(_) => r == Ok::<_, ClaimEvidenceError>(next),
                    Err(e) => r == Err::<ClaimResolution, _>(e),
                }
            }),
    {
        let mut next = self;
        next.reason = reason;
        match next.validate() {
            Ok(_) => Ok(next),
            Err(e) => Err(e),
        }
    }

    pub closed spec fn with_reason_spec(self, reason: String) -> ClaimResolution {
        ClaimResolution { reason, ..self }
    }

    /// Bounded distinct evidence ids, a bounded reason, evidence for
    /// `Verified` and none for `NoProof`.
    pub fn validate(&self) -> (r: Result<(), ClaimEvidenceError>)
        ensures
            r == resolution_check(*self),
    {
        validate_evidence_ids(&self.evidence_ids)?;
        validate_text(self.reason.as_str(), MAX_REASON_LEN)?;
        if self.state == FactState::Verified && self.evidence_ids.len() == 0 {
            return Err(ClaimEvidenceError::MissingEvidence);
        }
        if self.state == FactState::NoProof && self.evidence_ids.len() != 0 {
            return Err(ClaimEvidenceError::InvalidEvidence);
        }
        Ok(())
    }
}


// ---------------------------------------------------------------------------
// Selection of evidence
// ---------------------------------------------------------------------------
/// Counts the records carrying `id` and finds the first of them.
fn find_records(records: &[EvidenceRecord], id: &str) -> (r: (usize, usize))
    ensures
        r.0 == count_id(records@, id@),
        r.0 > 0 ==> r.1 as int == first_id(records@, id@) && r.1 < records@.len(),
        r.0 == 0 ==> first_id(records@, id@) == -1,
{
    let mut count: usize = 0;
    let mut first: usize = 0;
    let mut i: usize = 0;
    while i < records.len()
        invariant
            i <= records@.len(),
            count <= i,
            count == count_id(records@.take(i as int), id@),
            count > 0 ==> first as int == first_id(records@.take(i as int), id@) && first < i,
            count == 0 ==> first_id(records@.take(i as int), id@) == -1,
        decreases records@.len() - i,
    {
        assert(records@.take(i + 1).drop_last() =~= records@.take(i as int));
        assert(records@.take(i + 1).last() == records@[i as int]);
        if same_text(records[i].evidence_id(), id) {
            if count == 0 {
                first = i;
            }
            count = count + 1;
        }
        i = i + 1;
    }
    assert(records@.take(records@.len() as int) =~= records@);
    (count, first)
}

proof fn lemma_select_scan_prefix_err(
    c: Claim,
    all: Seq<Seq<char>>,
    recs: Seq<EvidenceRecord>,
    i: int,
)
    requires
        0 <= i <= all.len(),
        select_scan(c, all.take(i), recs) is Err,
    ensures
        select_scan(c, all.take(all.len() as int), recs) == select_scan(c, all.take(i), recs),
    decreases all.len() - i,
{
    if i < all.len() {
        assert(all.take(i + 1).drop_last() =~= all.take(i));
        lemma_select_scan_prefix_err(c, all, recs, i + 1);
    }
}

/// A passing selection passes each id's pick check.
proof fn lemma_select_scan_ok(c: Claim, ids: Seq<Seq<char>>, recs: Seq<EvidenceRecord>)
    requires
        select_scan(c, ids, recs) is Ok,
    ensures
        forall|k: int| 0 <= k < ids.len() ==> #[trigger] pick_check(c, ids[k], recs) is Ok,
    decreases ids.len(),
{
    if ids.len() > 0 {
        lemma_select_scan_ok(c, ids.drop_last(), recs);
        assert forall|k: int| 0 <= k < ids.len() implies #[trigger] pick_check(c, ids[k], recs) is Ok by {
            if k < ids.len() - 1 {
                assert(ids.drop_last()[k] == ids[k]);
            }
        }
    }
}

/// The selection depends on the claim only through its id and identity.
proof fn lemma_select_scan_same(c1: Claim, c2: Claim, ids: Seq<Seq<char>>, recs: Seq<EvidenceRecord>)
    requires
        c1.claim_id_of() == c2.claim_id_of(),
        c1.identity_of() == c2.identity_of(),
    ensures
        select_scan(c1, ids, recs) == select_scan(c2, ids, recs),
    decreases ids.len(),
{
    if ids.len() > 0 {
        lemma_select_scan_same(c1, c2, ids.drop_last(), recs);
    }
}

pub open spec fn selection_matches(
    idx: Seq<usize>,
    ids: Seq<Seq<char>>,
    recs: Seq<EvidenceRecord>,
) -> bool {
    &&& idx.len() == ids.len()
    &&& forall|k: int|
        0 <= k < idx.len() ==> #[trigger] idx[k] as int == first_id(recs, ids[k]) && idx[k]
            < recs.len()
}

impl Claim {
    /// Picks, for each evidence id in order, the single record carrying it,
    /// checking that it is valid, about this claim and within its identity.
    fn select_evidence(&self, evidence_ids: &Vec<String>, records: &[EvidenceRecord]) -> (r:
        Result<Vec<usize>, ClaimEvidenceError>)
        ensures
            r matches Err(e) ==> select_scan(*self, views(evidence_ids@), records@) == Err::<
                (),
                _,
            >(e),
            r matches Ok(idx) ==> select_scan(*self, views(evidence_ids@), records@) is Ok
                && selection_matches(idx@, views(evidence_ids@), records@),
    {
        let ghost all = views(evidence_ids@);
        let mut selected: Vec<usize> = Vec::new();
        let mut i: usize = 0;
        while i < evidence_ids.len()
            invariant
                all == views(evidence_ids@),
                i <= evidence_ids@.len(),
                select_scan(*self, all.take(i as int), records@) is Ok,
                selected@.len() == i,
                forall|k: int|
                    0 <= k < i ==> #[trigger] selected@[k] as int == first_id(records@, all[k])
                        && selected@[k] < records@.len(),
            decreases evidence_ids@.len() - i,
        {
            let ghost id = all[i as int];
            assert(all.take(i + 1).drop_last() =~= all.take(i as int));
            assert(all.take(i + 1).last() == id);
            let (count, first) = find_records(records, evidence_ids[i].as_str());
            let step: Result<(), ClaimEvidenceError> = if count == 0 {
                Err(ClaimEvidenceError::MissingEvidence)
            } else if count >= 2 {
                Err(ClaimEvidenceError::DuplicateEvidence)
            } else {
                let record = &records[first];
                match record.validate() {
                    Err(e) => Err(e),
                    Ok(_) => {
                        if !same_text(record.claim_id(), self.claim_id.as_str()) {
                            Err(ClaimEvidenceError::ClaimMismatch)
                        } else if !same_scope_exec(record.scope(), &self.expected_identity) {
                            Err(ClaimEvidenceError::IdentityMismatch)
                        } else {
                            Ok(())
                        }
                    },
                }
            };
            assert(step == pick_check(*self, id, records@));
            match step {
                Err(e) => {
                    proof {
                        lemma_select_scan_prefix_err(*self, all, records@, (i + 1) as int);
                    }
                    assert(all.take(all.len() as int) =~= all);
                    return Err(e);
                },
                Ok(_) => {},
            }
            selected.push(first);
            i = i + 1;
        }
        assert(all.take(all.len() as int) =~= all);
        Ok(selected)
    }

    /// What the selected evidence must show for the target state.
    #[verifier::loop_isolation(false)]
    fn validate_resolution_evidence(
        &self,
        state: FactState,
        evidence_ids: &Vec<String>,
        records: &[EvidenceRecord],
        selected: &Vec<usize>,
    ) -> (r: Result<(), ClaimEvidenceError>)
        requires
            selection_matches(selected@, views(evidence_ids@), records@),
        ensures
            r == evidence_rule(*self, state, views(evidence_ids@), records@),
    {
        let ghost ids = views(evidence_ids@);
        let ghost recs = records@;
        if state == FactState::NoProof {
            if evidence_ids.len() != 0 {
                return Err(ClaimEvidenceError::InvalidEvidence);
            }
            return Ok(());
        }
        let n = selected.len();
        match state {
            FactState::Verified => {
                if n == 0 {
                    return Err(ClaimEvidenceError::MissingEvidence);
                }
                let mut k: usize = 0;
                while k < n
                    invariant
                        n == selected@.len(),
                        selection_matches(selected@, ids, recs),
                        k <= n,
                        forall|j: int|
                            0 <= j < k ==> #[trigger] picked_status(recs, ids, j)
                                == EvidenceStatus::Verified,
                    decreases n - k,
                {
                    if records[selected[k]].status() != EvidenceStatus::Verified {
                        assert(picked_status(recs, ids, k as int) != EvidenceStatus::Verified);
                        return Err(ClaimEvidenceError::InvalidEvidenceStatus);
                    }
                    k = k + 1;
                }
                let m = self.required_evidence.len();
                let mut q: usize = 0;
                while q < m
                    invariant
                        n == selected@.len(),
                        m == self.required_of().len(),
                        selection_matches(selected@, ids, recs),
                        all_picked_verified(recs, ids),
                        q <= m,
                        forall|j: int|
                            0 <= j < q ==> kind_picked(recs, ids, #[trigger] self.required_of()[j]),
                    decreases m - q,
                {
                    let want = self.required_evidence[q];
                    let mut found = false;
                    let mut k: usize = 0;
                    while k < n
                        invariant
                            n == selected@.len(),
                            selection_matches(selected@, ids, recs),
                            k <= n,
                            want == self.required_of()[q as int],
                            found ==> kind_picked(recs, ids, want),
                            !found ==> forall|j: int|
                                0 <= j < k ==> #[trigger] picked(recs, ids[j]).kind_of() != want,
                        decreases n - k,
                    {
                        if records[selected[k]].kind() == want {
                            assert(picked(recs, ids[k as int]).kind_of() == want);
                            found = true;
                        }
                        k = k + 1;
                    }
                    if !found {
                        assert(!kind_picked(recs, ids, want));
                        return Err(ClaimEvidenceError::MissingRequiredEvidence);
                    }
                    q = q + 1;
                }
                Ok(())
            },
            FactState::Unverified => {
                let mut k: usize = 0;
                while k < n
                    invariant
                        n == selected@.len(),
                        selection_matches(selected@, ids, recs),
                        k <= n,
                        forall|j: int|
                            0 <= j < k ==> (#[trigger] picked_status(recs, ids, j)
                                == EvidenceStatus::Unverified || picked_status(recs, ids, j)
                                == EvidenceStatus::NoProof),
                    decreases n - k,
                {
                    let st = records[selected[k]].status();
                    if st != EvidenceStatus::Unverified && st != EvidenceStatus::NoProof {
                        assert(picked_status(recs, ids, k as int) == st);
                        return Err(ClaimEvidenceError::InvalidEvidenceStatus);
                    }
                    k = k + 1;
                }
                Ok(())
            },
            _ => {
                let want = if state == FactState::Stale {
                    EvidenceStatus::Stale
                } else {
                    EvidenceStatus::Conflicting
                };
                let mut k: usize = 0;
                while k < n
                    invariant
                        n == selected@.len(),
                        selection_matches(selected@, ids, recs),
                        k <= n,
                        forall|j: int| 0 <= j < k ==> #[trigger] picked_status(recs, ids, j) != want,
                    decreases n - k,
                {
                    if records[selected[k]].status() == want {
                        assert(picked_status(recs, ids, k as int) == want);
                        return Ok(());
                    }
                    k = k + 1;
                }
                Err(ClaimEvidenceError::MissingStateEvidence)
            },
        }
    }
}

// ---------------------------------------------------------------------------
// Claims
// ---------------------------------------------------------------------------
impl Claim {
    /// A claim without proof, bound to `expected_identity`, kept only if it
    /// validates.
    #[allow(clippy::too_many_arguments)]
    pub fn new(
        project_id: ProjectId,
        run_id: RunId,
        trace_id: TraceId,
        claim_id: String,
        claim_class: ClaimClass,
        claim_digest: String,
        required_evidence: Vec<ClaimEvidenceKind>,
        expected_identity: EvidenceScope,
    ) -> (r: Result<Self, ClaimEvidenceError>)
        ensures
            r matches Ok(c) ==> {
                &&& c.schema_version_of() == CLAIM_EVIDENCE_SCHEMA_VERSION
                &&& c.claim_id_of() == claim_id@
                &&& c.project_id_of() == project_id
                &&& c.run_id_of() == run_id
                &&& c.trace_id_of() == trace_id
                &&& c.claim_class_of() == claim_class
                &&& c.claim_digest_of() == claim_digest@
                &&& c.required_of() == required_evidence@
                &&& c.identity_of() == expected_identity
                &&& c.state_of() == FactState::NoProof
                &&& c.ids_of().len() == 0
                &&& claim_check(c) is Ok
            },
            ({
                let checks = and_then(
                    text_check(claim_id@, MAX_CLAIM_ID_LEN as nat),
                    and_then(
                        digest_check(claim_digest@),
                        and_then(
                            scope_check(expected_identity),
                            if !(expected_identity.project_id == project_id
                                && expected_identity.run_id == run_id
                                && expected_identity.trace_id == trace_id) {
                                Err(ClaimEvidenceError::IdentityMismatch)
                            } else {
                                required_check(required_evidence@)
                            },
                        ),
                    ),
                );
                &&& r is Ok <==> checks is Ok
                &&& r matches Err(e) ==> checks == Err::<(), _>(e)
            }),
    {
        let claim = Claim {
            schema_version: CLAIM_EVIDENCE_SCHEMA_VERSION,
            claim_id,
            project_id,
            run_id,
            trace_id,
            claim_class,
            claim_digest,
            required_evidence,
            expected_identity,
            state: FactState::NoProof,
            evidence_ids: Vec::new(),
        };
        assert(claim.ids_of() =~= Seq::<Seq<char>>::empty());
        match claim.validate() {
            Ok(_) => Ok(claim),
            Err(e) => Err(e),
        }
    }

    pub fn schema_version(&self) -> (r: u32)
        ensures
            r == self.schema_version_of(),
    {
        self.schema_version
    }

    pub fn claim_id(&self) -> (r: &str)
        ensures
            r@ == self.claim_id_of(),
    {
        self.claim_id.as_str()
    }

    pub fn project_id(&self) -> (r: ProjectId)
        ensures
            r == self.project_id_of(),
    {
        self.project_id
    }

    pub fn run_id(&self) -> (r: RunId)
        ensures
            r == self.run_id_of(),
    {
        self.run_id
    }

    pub fn trace_id(&self) -> (r: TraceId)
        ensures
            r == self.trace_id_of(),
    {
        self.trace_id
    }

    pub fn claim_class(&self) -> (r: ClaimClass)
        ensures
            r == self.claim_class_of(),
    {
        self.claim_class
    }

    pub fn claim_digest(&self) -> (r: &str)
        ensures
            r@ == self.claim_digest_of(),
    {
        self.claim_digest.as_str()
    }

    pub fn required_evidence(&self) -> (r: &[ClaimEvidenceKind])
        ensures
            r@ == self.required_of(),
    {
        self.required_evidence.as_slice()
    }

    pub fn expected_identity(&self) -> (r: &EvidenceScope)
        ensures
            *r == self.identity_of(),
    {
        &self.expected_identity
    }

    pub fn state(&self) -> (r: FactState)
        ensures
            r == self.state_of(),
    {
        self.state
    }

    pub fn evidence_ids(&self) -> (r: &[String])
        ensures
            views(r@) == self.ids_of(),
    {
        self.evidence_ids.as_slice()
    }

    /// Applies a resolver-produced state decision after validating every
    /// selected evidence record against the claim identity and requirements.
    /// On any error, or on an idempotent replay, the claim is unchanged.
    pub fn apply_resolution(&mut self, resolution: ClaimResolution, records: &[EvidenceRecord]) -> (r:
        Result<ResolutionOutcome, ClaimEvidenceError>)
        ensures
            r == apply_result(*old(self), resolution, records@),
            r matches Ok(ResolutionOutcome::Applied) ==> *final(self) == old(self).resolved(
                resolution,
            ),
            !(r matches Ok(ResolutionOutcome::Applied)) ==> *final(self) == *old(self),
    {
        self.validate()?;
        resolution.validate()?;
        if !self.state.can_transition_to(resolution.state) {
            return Err(
                ClaimEvidenceError::InvalidTransition { from: self.state, to: resolution.state },
            );
        }
        if records.len() > MAX_EVIDENCE_RECORDS {
            return Err(ClaimEvidenceError::BoundsExceeded);
        }
        let selected = self.select_evidence(&resolution.evidence_ids, records)?;
        self.validate_resolution_evidence(
            resolution.state,
            &resolution.evidence_ids,
            records,
            &selected,
        )?;
        if self.state == resolution.state && same_ids(&self.evidence_ids, &resolution.evidence_ids) {
            return Ok(ResolutionOutcome::Idempotent);
        }
        self.state = resolution.state;
        self.evidence_ids = resolution.evidence_ids;
        Ok(ResolutionOutcome::Applied)
    }

    /// Claims are not authority: execution cannot be inferred from a fact.
    pub fn can_execute(&self) -> (r: bool)
        ensures
            !r,
    {
        false
    }

    pub fn can_approve(&self) -> (r: bool)
        ensures
            !r,
    {
        false
    }

    pub fn can_merge(&self) -> (r: bool)
        ensures
            !r,
    {
        false
    }

    /// Schema version, bounded id, 64-digit digest, a valid identity that
    /// matches the claim's project, run and trace, one to eight distinct
    /// required kinds, valid evidence references consistent with the state.
    pub fn validate(&self) -> (r: Result<(), ClaimEvidenceError>)
        ensures
            r == claim_check(*self),
    {
        if self.schema_version != CLAIM_EVIDENCE_SCHEMA_VERSION {
            return Err(ClaimEvidenceError::UnsupportedSchemaVersion);
        }
        validate_text(self.claim_id.as_str(), MAX_CLAIM_ID_LEN)?;
        validate_digest(self.claim_digest.as_str())?;
        self.expected_identity.validate()?;
        if self.expected_identity.project_id != self.project_id || self.expected_identity.run_id
            != self.run_id || self.expected_identity.trace_id != self.trace_id {
            return Err(ClaimEvidenceError::IdentityMismatch);
        }
        validate_required_evidence(&self.required_evidence)?;
        validate_evidence_ids(&self.evidence_ids)?;
        if self.state == FactState::Verified && self.evidence_ids.len() == 0 {
            return Err(ClaimEvidenceError::MissingEvidence);
        }
        if self.state == FactState::NoProof && self.evidence_ids.len() != 0 {
            return Err(ClaimEvidenceError::InvalidEvidence);
        }
        Ok(())
    }
}


// ---------------------------------------------------------------------------
// Laws
// ---------------------------------------------------------------------------
/// Replaying a state is always allowed; a verified fact can be marked stale,
/// conflicting or without proof but never silently downgraded to
/// unverified; every other state may move anywhere.
pub proof fn law_fact_lifecycle(s: FactState, t: FactState)
    ensures
        can_transition(s, s),
        !can_transition(FactState::Verified, FactState::Unverified),
        s != FactState::Verified ==> can_transition(s, t),
        t != FactState::Unverified ==> can_transition(s, t),
{
}

/// A claim that accepted a resolution is still a valid claim afterwards.
pub proof fn law_resolution_keeps_claim_valid(
    c: Claim,
    res: ClaimResolution,
    recs: Seq<EvidenceRecord>,
)
    requires
        apply_result(c, res, recs) is Ok,
    ensures
        claim_check(c.resolved(res)) is Ok,
{
    c.lemma_resolved(res);
}

/// Applying the same resolution again, with the same records, is an
/// idempotent replay that leaves the claim as it is.
pub proof fn law_replay_is_idempotent(c: Claim, res: ClaimResolution, recs: Seq<EvidenceRecord>)
    requires
        apply_result(c, res, recs) is Ok,
    ensures
        apply_result(c.resolved(res), res, recs) == Ok::<_, ClaimEvidenceError>(
            ResolutionOutcome::Idempotent,
        ),
{
    c.lemma_resolved(res);
    law_resolution_keeps_claim_valid(c, res, recs);
    lemma_select_scan_same(c.resolved(res), c, res.ids_of(), recs);
}

/// A claim becomes verified only when each cited id names exactly one
/// record about this claim, in its expected identity, with a verified
/// status, and the cited records cover every required evidence kind.
pub proof fn law_verified_needs_matching_evidence(
    c: Claim,
    res: ClaimResolution,
    recs: Seq<EvidenceRecord>,
)
    requires
        apply_result(c, res, recs) is Ok,
        res.state_of() == FactState::Verified,
    ensures
        res.ids_of().len() > 0,
        forall|k: int|
            0 <= k < res.ids_of().len() ==> {
                let rec = #[trigger] picked(recs, res.ids_of()[k]);
                &&& count_id(recs, res.ids_of()[k]) == 1
                &&& record_check(rec) is Ok
                &&& rec.claim_id_of() == c.claim_id_of()
                &&& same_scope(rec.scope_of(), c.identity_of())
                &&& rec.status_of() == EvidenceStatus::Verified
            },
        all_required_picked(recs, res.ids_of(), c.required_of()),
{
    lemma_select_scan_ok(c, res.ids_of(), recs);
    assert forall|k: int| 0 <= k < res.ids_of().len() implies {
        let rec = #[trigger] picked(recs, res.ids_of()[k]);
        &&& count_id(recs, res.ids_of()[k]) == 1
        &&& record_check(rec) is Ok
        &&& rec.claim_id_of() == c.claim_id_of()
        &&& same_scope(rec.scope_of(), c.identity_of())
        &&& rec.status_of() == EvidenceStatus::Verified
    } by {
        assert(pick_check(c, res.ids_of()[k], recs) is Ok);
        assert(picked_status(recs, res.ids_of(), k) == EvidenceStatus::Verified);
    }
}

/// A stale or a conflicting resolution stands on evidence that shows it:
/// the evidence rule accepts it exactly when one of the cited records has
/// that very status (stale for stale, conflicting for conflicting), and
/// otherwise refuses it for missing state evidence.
pub proof fn law_stale_and_conflicting_need_matching_evidence(
    c: Claim,
    ids: Seq<Seq<char>>,
    recs: Seq<EvidenceRecord>,
)
    ensures
        evidence_rule(c, FactState::Stale, ids, recs) is Ok <==> exists|k: int|
            0 <= k < ids.len() && #[trigger] picked(recs, ids[k]).status_of()
                == EvidenceStatus::Stale,
        evidence_rule(c, FactState::Conflicting, ids, recs) is Ok <==> exists|k: int|
            0 <= k < ids.len() && #[trigger] picked(recs, ids[k]).status_of()
                == EvidenceStatus::Conflicting,
        evidence_rule(c, FactState::Stale, ids, recs) is Err ==> evidence_rule(
            c,
            FactState::Stale,
            ids,
            recs,
        ) == Err::<(), ClaimEvidenceError>(ClaimEvidenceError::MissingStateEvidence),
        evidence_rule(c, FactState::Conflicting, ids, recs) is Err ==> evidence_rule(
            c,
            FactState::Conflicting,
            ids,
            recs,
        ) == Err::<(), ClaimEvidenceError>(ClaimEvidenceError::MissingStateEvidence),
{
    assert forall|k: int| 0 <= k < ids.len() implies #[trigger] picked(recs, ids[k]).status_of()
        == picked_status(recs, ids, k) by {}
}

/// A resolution to unverified passes the evidence rule exactly when no
/// cited record shows more than that: each is unverified or without proof.
pub proof fn law_unverified_evidence(
    c: Claim,
    ids: Seq<Seq<char>>,
    recs: Seq<EvidenceRecord>,
)
    ensures
        evidence_rule(c, FactState::Unverified, ids, recs) is Ok <==> forall|k: int|
            0 <= k < ids.len() ==> (#[trigger] picked(recs, ids[k]).status_of()
                == EvidenceStatus::Unverified || picked(recs, ids[k]).status_of()
                == EvidenceStatus::NoProof),
{
    assert forall|k: int| 0 <= k < ids.len() implies #[trigger] picked(recs, ids[k]).status_of()
        == picked_status(recs, ids, k) by {}
}

/// Only a valid claim and a valid resolution can take effect, and never
/// one whose transition the lifecycle forbids.
pub proof fn law_rejections_fail_closed(c: Claim, res: ClaimResolution, recs: Seq<EvidenceRecord>)
    ensures
        claim_check(c) is Err ==> apply_result(c, res, recs) is Err,
        resolution_check(res) is Err ==> apply_result(c, res, recs) is Err,
        !can_transition(c.state_of(), res.state_of()) ==> apply_result(c, res, recs) is Err,
        recs.len() > MAX_EVIDENCE_RECORDS ==> apply_result(c, res, recs) is Err,
{
}

} // verus!
