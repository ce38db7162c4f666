//! Proposals of agent configuration changes; the active configuration is
//! never changed here.
use crate::digest::{fingerprint, fingerprint_of};
use crate::text::{contains_bytes, contains_marker, is_sized_value, sized_value, text_len, utf8_len};
use vstd::prelude::*;
use vstd::string::StringSliceAdditionalSpecFns;

verus! {

/// The longest value, in bytes.
pub const MAX_TEXT: usize = 512;

/// The most changes one proposal may carry.
pub const MAX_CHANGES: usize = 64;

#[derive(Debug, Clone, Copy, PartialEq, Eq, Structural)]
pub enum ConfigField {
    Model,
    Personality,
    UserInstruction,
    SystemInstruction,
    SecurityInstruction,
    Tool,
    Memory,
    Autonomy,
    Budget,
}

pub open spec fn field_name(f: ConfigField) -> Seq<char> {
    match f {
        ConfigField::Model => "Model"@,
        ConfigField::Personality => "Personality"@,
        ConfigField::UserInstruction => "UserInstruction"@,
        ConfigField::SystemInstruction => "SystemInstruction"@,
        ConfigField::SecurityInstruction => "SecurityInstruction"@,
        ConfigField::Tool => "Tool"@,
        ConfigField::Memory => "Memory"@,
        ConfigField::Autonomy => "Autonomy"@,
        ConfigField::Budget => "Budget"@,
    }
}

fn field_text(f: ConfigField) -> (r: &'static str)
    ensures
        r@ == field_name(f),
{
    match f {
        ConfigField::Model => "Model",
        ConfigField::Personality => "Personality",
        ConfigField::UserInstruction => "UserInstruction",
        ConfigField::SystemInstruction => "SystemInstruction",
        ConfigField::SecurityInstruction => "SecurityInstruction",
        ConfigField::Tool => "Tool",
        ConfigField::Memory => "Memory",
        ConfigField::Autonomy => "Autonomy",
        ConfigField::Budget => "Budget",
    }
}

/// System and security instructions belong to the platform.
pub open spec fn immutable_field(f: ConfigField) -> bool {
    f == ConfigField::SystemInstruction || f == ConfigField::SecurityInstruction
}

#[derive(Debug, Clone, PartialEq, Eq)]
pub struct ConfigChange {
    pub field: ConfigField,
    pub from: String,
    pub to: String,
}

impl ConfigChange {
    pub fn new(field: ConfigField, from: &str, to: &str) -> (r: Self)
        ensures
            r.field == field,
            r.from@ == from@,
            r.to@ == to@,
    {
        ConfigChange { field, from: from.to_string(), to: to.to_string() }
    }
}

#[derive(Debug, Clone, Copy, PartialEq, Eq, Structural)]
pub enum PrecedenceClass {
    Agent,
}

#[derive(Debug, Clone, Copy, PartialEq, Eq, Structural)]
pub enum ProposalStatus {
    Draft,
}

#[derive(Debug, Clone, Copy, PartialEq, Eq, Structural)]
pub enum ConfigProposalError {
    InvalidIdentity,
    ImmutablePolicy,
    PolicyRequired,
    TooLarge,
}

pub open spec fn proposal_message(e: ConfigProposalError) -> Seq<char> {
    match e {
        ConfigProposalError::InvalidIdentity => "configuration proposal identity is invalid"@,
        ConfigProposalError::ImmutablePolicy => "system or security policy is immutable"@,
        ConfigProposalError::PolicyRequired => "configuration policy approval is required"@,
        ConfigProposalError::TooLarge => "configuration proposal is oversized"@,
    }
}

impl ConfigProposalError {
    /// The human-readable description of the error.
    pub fn message(&self) -> (r: &'static str)
        ensures
            r@ == proposal_message(*self),
    {
        match self {
            ConfigProposalError::InvalidIdentity => "configuration proposal identity is invalid",
            ConfigProposalError::ImmutablePolicy => "system or security policy is immutable",
            ConfigProposalError::PolicyRequired => "configuration policy approval is required",
            ConfigProposalError::TooLarge => "configuration proposal is oversized",
        }
    }
}

#[derive(Debug, Clone, PartialEq, Eq)]
pub struct ConfigProposalRequest {
    pub agent_id: String,
    pub active_version: String,
    pub candidate_id: String,
    pub policy_id: String,
    pub changes: Vec<ConfigChange>,
    pub capability_delta: bool,
    pub autonomy_delta: bool,
    pub budget_delta: bool,
    pub approved: bool,
}

impl ConfigProposalRequest {
    /// A request; the agent, version, candidate and policy must be
    /// non-empty and bounded.
    #[allow(clippy::too_many_arguments)]
    pub fn new(
        agent: &str,
        version: &str,
        candidate: &str,
        policy: &str,
        changes: Vec<ConfigChange>,
        capability: bool,
        autonomy: bool,
        budget: bool,
        approved: bool,
    ) -> (r: Result<Self, ConfigProposalError>)
        ensures
            r is Ok <==> sized_value(agent@, MAX_TEXT as nat) && sized_value(version@, MAX_TEXT as nat)
                && sized_value(candidate@, MAX_TEXT as nat) && sized_value(policy@, MAX_TEXT as nat),
            r matches Err(e) ==> e == ConfigProposalError::InvalidIdentity,
            r matches Ok(q) ==> {
                &&& q.agent_id@ == agent@
                &&& q.active_version@ == version@
                &&& q.candidate_id@ == candidate@
                &&& q.policy_id@ == policy@
                &&& q.changes == changes
                &&& q.capability_delta == capability
                &&& q.autonomy_delta == autonomy
                &&& q.budget_delta == budget
                &&& q.approved == approved
            },
    {
        if !is_sized_value(agent, MAX_TEXT) || !is_sized_value(version, MAX_TEXT) || !is_sized_value(
            candidate,
            MAX_TEXT,
        ) || !is_sized_value(policy, MAX_TEXT) {
            return Err(ConfigProposalError::InvalidIdentity);
        }
        Ok(
            ConfigProposalRequest {
                agent_id: agent.to_string(),
                active_version: version.to_string(),
                candidate_id: candidate.to_string(),
                policy_id: policy.to_string(),
                changes,
                capability_delta: capability,
                autonomy_delta: autonomy,
                budget_delta: budget,
                approved,
            },
        )
    }
}

/// The text std's `Debug` formatting gives for a string: the string in
/// double quotes, with std's escapes.
pub uninterp spec fn debug_quoted(s: Seq<char>) -> Seq<char>;

/// Formats `s` with std's `Debug` for `str`. Its result depends on the
/// string alone; what it is for a given string is left to std.
#[verifier::external_body]
fn quoted(s: &str) -> (r: String)
    ensures
        r@ == debug_quoted(s@),
{
    format!("{:?}", s)
}

/// The `Debug` text of one change.
pub open spec fn change_text(c: ConfigChange) -> Seq<char> {
    "ConfigChange { field: "@ + field_name(c.field) + ", from: "@ + debug_quoted(c.from@) + ", to: "@
        + debug_quoted(c.to@) + " }"@
}

/// The `Debug` text of the first `n` changes, separated by commas.
pub open spec fn changes_items(cs: Seq<ConfigChange>, n: int) -> Seq<char>
    decreases n,
{
    if n <= 0 {
        seq![]
    } else if n == 1 {
        change_text(cs[0])
    } else {
        changes_items(cs, n - 1) + ", "@ + change_text(cs[n - 1])
    }
}

/// The text a proposal's fingerprint is computed over.
pub open spec fn proposal_text(q: ConfigProposalRequest) -> Seq<char> {
    q.agent_id@ + "|"@ + q.active_version@ + "|"@ + q.candidate_id@ + "|"@ + q.policy_id@ + "|"@
        + "["@ + changes_items(q.changes@, q.changes@.len() as int) + "]"@
}

/// A change whose text is oversized or carries a token.
pub open spec fn change_bad(c: ConfigChange) -> bool {
    ||| utf8_len(c.from@) > MAX_TEXT
    ||| utf8_len(c.to@) > MAX_TEXT
    ||| contains_bytes(vstd::utf8::encode_utf8(c.from@), "token=".spec_bytes())
    ||| contains_bytes(vstd::utf8::encode_utf8(c.to@), "token=".spec_bytes())
}

pub open spec fn some_immutable(cs: Seq<ConfigChange>) -> bool {
    exists|k: int| 0 <= k < cs.len() && #[trigger] immutable_field(cs[k].field)
}

pub open spec fn some_bad(cs: Seq<ConfigChange>) -> bool {
    exists|k: int| 0 <= k < cs.len() && #[trigger] change_bad(cs[k])
}

pub open spec fn needs_approval(q: ConfigProposalRequest) -> bool {
    q.capability_delta || q.autonomy_delta || q.budget_delta
}

/// Why no proposal can be made from a request, if none can.
pub open spec fn proposal_fault(q: ConfigProposalRequest) -> Option<ConfigProposalError> {
    let cs = q.changes@;
    if cs.len() == 0 || cs.len() > MAX_CHANGES {
        Some(ConfigProposalError::TooLarge)
    } else if some_immutable(cs) {
        Some(ConfigProposalError::ImmutablePolicy)
    } else if needs_approval(q) && !q.approved {
        Some(ConfigProposalError::PolicyRequired)
    } else if some_bad(cs) {
        Some(ConfigProposalError::InvalidIdentity)
    } else {
        None
    }
}

#[derive(Debug, Clone, PartialEq, Eq)]
pub struct AgentConfigurationProposal {
    active_version: String,
    precedence: PrecedenceClass,
    status: ProposalStatus,
    fingerprint: String,
}

fn any_immutable(cs: &Vec<ConfigChange>) -> (r: bool)
    ensures
        r == some_immutable(cs@),
{
    let mut i: usize = 0;
    while i < cs.len()
        invariant
            i <= cs@.len(),
            forall|k: int| 0 <= k < i ==> !#[trigger] immutable_field(cs@[k].field),
        decreases cs@.len() - i,
    {
        match cs[i].field {
            ConfigField::SystemInstruction | ConfigField::SecurityInstruction => {
                assert(immutable_field(cs@[i as int].field));
                return true;
            },
            _ => {},
        }
        i = i + 1;
    }
    false
}

fn any_bad(cs: &Vec<ConfigChange>) -> (r: bool)
    ensures
        r == some_bad(cs@),
{
    let mut i: usize = 0;
    while i < cs.len()
        invariant
            i <= cs@.len(),
            forall|k: int| 0 <= k < i ==> !#[trigger] change_bad(cs@[k]),
        decreases cs@.len() - i,
    {
        let c = &cs[i];
        if text_len(c.from.as_str()) > MAX_TEXT || text_len(c.to.as_str()) > MAX_TEXT
            || contains_marker(c.from.as_str(), "token=") || contains_marker(
            c.to.as_str(),
            "token=",
        ) {
            assert(change_bad(cs@[i as int]));
            return true;
        }
        i = i + 1;
    }
    false
}

fn proposal_material(q: &ConfigProposalRequest) -> (r: String)
    ensures
        r@ == proposal_text(*q),
{
    let mut text = String::new();
    text.append(q.agent_id.as_str());
    text.append("|");
    text.append(q.active_version.as_str());
    text.append("|");
    text.append(q.candidate_id.as_str());
    text.append("|");
    text.append(q.policy_id.as_str());
    text.append("|");
    text.append("[");
    let ghost head = text@;
    let mut i: usize = 0;
    while i < q.changes.len()
        invariant
            i <= q.changes@.len(),
            text@ == head + changes_items(q.changes@, i as int),
        decreases q.changes@.len() - i,
    {
        let c = &q.changes[i];
        if i > 0 {
            text.append(", ");
        }
        text.append("ConfigChange { field: ");
        text.append(field_text(c.field));
        text.append(", from: ");
        let from = quoted(c.from.as_str());
        text.append(from.as_str());
        text.append(", to: ");
        let to = quoted(c.to.as_str());
        text.append(to.as_str());
        text.append(" }");
        proof {
            if i == 0 {
                assert(changes_items(q.changes@, 0) =~= Seq::<char>::empty());
            }
        }
        assert(text@ =~= head + changes_items(q.changes@, i + 1));
        i = i + 1;
    }
    text.append("]");
    text
}

impl AgentConfigurationProposal {
    pub closed spec fn active_version_of(&self) -> Seq<char> {
        self.active_version@
    }

    pub closed spec fn precedence_of(&self) -> PrecedenceClass {
        self.precedence
    }

    pub closed spec fn status_of(&self) -> ProposalStatus {
        self.status
    }

    pub closed spec fn fingerprint_of(&self) -> Seq<char> {
        self.fingerprint@
    }

    /// A draft proposal at agent precedence; system and security
    /// instructions are refused, capability, autonomy and budget changes
    /// need approval, and changes must be bounded and token-free.
    pub fn create(request: ConfigProposalRequest) -> (r: Result<Self, ConfigProposalError>)
        ensures
            match proposal_fault(request) {
                Some(e) => r == Err::<Self, ConfigProposalError>(e),
                None => r matches Ok(p) && {
                    &&& p.active_version_of() == request.active_version@
                    &&& p.precedence_of() == PrecedenceClass::Agent
                    &&& p.status_of() == ProposalStatus::Draft
                    &&& p.fingerprint_of() == fingerprint_of(
                        vstd::utf8::encode_utf8(proposal_text(request)),
                    )
                },
            },
    {
        if request.changes.len() == 0 || request.changes.len() > MAX_CHANGES {
            return Err(ConfigProposalError::TooLarge);
        }
        if any_immutable(&request.changes) {
            return Err(ConfigProposalError::ImmutablePolicy);
        }
        if (request.capability_delta || request.autonomy_delta || request.budget_delta)
            && !request.approved {
            return Err(ConfigProposalError::PolicyRequired);
        }
        if any_bad(&request.changes) {
            return Err(ConfigProposalError::InvalidIdentity);
        }
        let material = proposal_material(&request);
        let fp = fingerprint(material.as_str());
        Ok(
            AgentConfigurationProposal {
                active_version: request.active_version,
                precedence: PrecedenceClass::Agent,
                status: ProposalStatus::Draft,
                fingerprint: fp,
            },
        )
    }

    pub fn active_version(&self) -> (r: &str)
        ensures
            r@ == self.active_version_of(),
    {
        self.active_version.as_str()
    }

    pub fn precedence(&self) -> (r: PrecedenceClass)
        ensures
            r == self.precedence_of(),
    {
        self.precedence
    }

    pub fn status(&self) -> (r: ProposalStatus)
        ensures
            r == self.status_of(),
    {
        self.status
    }

    pub fn fingerprint(&self) -> (r: &str)
        ensures
            r@ == self.fingerprint_of(),
    {
        self.fingerprint.as_str()
    }

    /// A proposal never activates itself.
    pub fn can_activate(&self) -> (r: bool)
        ensures
            !r,
    {
        false
    }
}

/// Every proposal that can be made leaves system and security
/// instructions alone, carries capability, autonomy or budget changes only
/// with approval, and holds between one and sixty-four bounded,
/// token-free changes.
pub proof fn law_proposals_respect_platform_policy(q: ConfigProposalRequest)
    requires
        proposal_fault(q) is None,
    ensures
        forall|k: int| 0 <= k < q.changes@.len() ==> !#[trigger] immutable_field(q.changes@[k].field),
        forall|k: int| 0 <= k < q.changes@.len() ==> !#[trigger] change_bad(q.changes@[k]),
        needs_approval(q) ==> q.approved,
        1 <= q.changes@.len() <= MAX_CHANGES,
{
}

} // verus!
