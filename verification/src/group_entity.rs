//! Project-scoped, non-executable groups of agents.
use crate::budget::{limits_valid, BudgetLimits, ResetPeriod};
use crate::error::{validation_error, DomainError};
use crate::ids::{is_v4, random_id_value, AgentId, ProjectId, TraceId};
use crate::text::{
    blank, contains_bytes, contains_marker, has_prefix, is_blank, starts_with_text, text_len,
    utf8_len,
};
use vstd::prelude::*;
use vstd::string::StringSliceAdditionalSpecFns;

verus! {

pub const AGENT_GROUP_SCHEMA_VERSION: u32 = 1;

pub const MAX_GROUP_NAME_BYTES: usize = 64;

pub const MAX_GROUP_MEMBERS: usize = 32;

pub const MAX_CONTEXT_REFS: usize = 64;

pub const MAX_CONTEXT_REF_BYTES: usize = 256;

pub const MAX_GROUP_ROUNDS: u32 = 100;

pub const MAX_GROUP_DEPTH: u16 = 16;

#[derive(Debug, Clone, Copy, PartialEq, Eq, Structural)]
pub enum AgentGroupLifecycle {
    Draft,
    Active,
    Archived,
}

#[derive(Debug, Clone, Copy, PartialEq, Eq, Structural)]
pub enum AgentGroupError {
    MemberProjectUnknown,
    InvalidLimits,
    InvalidContextReference,
    MissingPinnedVersion,
    InvalidName,
    InvalidTrace,
    InvalidProject,
}

pub open spec fn group_error_message(e: AgentGroupError) -> Seq<char> {
    match e {
        AgentGroupError::MemberProjectUnknown => "group member project is unknown at entity boundary"@,
        AgentGroupError::InvalidLimits => "group limits are invalid"@,
        AgentGroupError::InvalidContextReference => "shared context reference is invalid"@,
        AgentGroupError::MissingPinnedVersion => "group must pin a version before activation"@,
        AgentGroupError::InvalidName => "group name is invalid"@,
        AgentGroupError::InvalidTrace => "group trace is invalid"@,
        AgentGroupError::InvalidProject => "group project identity is invalid"@,
    }
}

impl AgentGroupError {
    /// The human-readable description of the error.
    pub fn message(&self) -> (r: &'static str)
        ensures
            r@ == group_error_message(*self),
    {
        match self {
            AgentGroupError::MemberProjectUnknown => "group member project is unknown at entity boundary",
            AgentGroupError::InvalidLimits => "group limits are invalid",
            AgentGroupError::InvalidContextReference => "shared context reference is invalid",
            AgentGroupError::MissingPinnedVersion => "group must pin a version before activation",
            AgentGroupError::InvalidName => "group name is invalid",
            AgentGroupError::InvalidTrace => "group trace is invalid",
            AgentGroupError::InvalidProject => "group project identity is invalid",
        }
    }
}

/// A group of agents of one project, with its moderator, limits and shared
/// context. The group is identified by its identifier's value.
#[derive(Debug, Clone)]
pub struct AgentGroup {
    pub schema_version: u32,
    pub id: u128,
    pub project_id: ProjectId,
    pub name: String,
    pub owner_id: AgentId,
    pub members: Vec<AgentId>,
    pub member_projects: Vec<(AgentId, ProjectId)>,
    pub moderator_id: Option<AgentId>,
    pub max_rounds: u32,
    pub max_depth: u16,
    pub allow_cycles: bool,
    pub budget: BudgetLimits,
    pub context_refs: Vec<String>,
    pub lifecycle: AgentGroupLifecycle,
    pub pinned_version: Option<String>,
    pub trace_id: TraceId,
}

/// A shared context reference must be short, inside the project and free of
/// parent steps.
pub open spec fn context_ref_bad(r: Seq<char>) -> bool {
    ||| utf8_len(r) > MAX_CONTEXT_REF_BYTES
    ||| !starts_with_text(r, "project://"@)
    ||| contains_bytes(vstd::utf8::encode_utf8(r), vstd::utf8::encode_utf8(".."@))
}

/// Some membership names a non-member or another project.
pub open spec fn foreign_membership(g: AgentGroup) -> bool {
    exists|i: int|
        0 <= i < g.member_projects@.len() && {
            let (m, p) = #[trigger] g.member_projects@[i];
            !g.members@.contains(m) || p != g.project_id
        }
}

/// The members are unique, each has exactly one membership in the group's
/// project, and the moderator, if any, is a member.
pub open spec fn members_consistent(g: AgentGroup) -> bool {
    &&& g.members@.no_duplicates()
    &&& g.member_projects@.len() == g.members@.len()
    &&& !foreign_membership(g)
    &&& (g.moderator_id matches Some(id) ==> g.members@.contains(id))
}

/// Why a group is malformed, if it is.
pub open spec fn group_fault(g: AgentGroup) -> Option<AgentGroupError> {
    if g.schema_version != AGENT_GROUP_SCHEMA_VERSION {
        Some(AgentGroupError::InvalidProject)
    } else if is_blank(g.name@) || utf8_len(g.name@) > MAX_GROUP_NAME_BYTES {
        Some(AgentGroupError::InvalidName)
    } else if g.trace_id.0 == 0 {
        Some(AgentGroupError::InvalidTrace)
    } else if g.members@.len() == 0 || g.members@.len() > MAX_GROUP_MEMBERS {
        Some(AgentGroupError::InvalidLimits)
    } else if !members_consistent(g) {
        Some(AgentGroupError::MemberProjectUnknown)
    } else if g.max_rounds == 0 || g.max_rounds > MAX_GROUP_ROUNDS || g.max_depth == 0 || g.max_depth
        > MAX_GROUP_DEPTH || !limits_valid(g.budget) {
        Some(AgentGroupError::InvalidLimits)
    } else if g.context_refs@.len() > MAX_CONTEXT_REFS || exists|i: int|
        0 <= i < g.context_refs@.len() && #[trigger] context_ref_bad(g.context_refs@[i]@) {
        Some(AgentGroupError::InvalidContextReference)
    } else if g.lifecycle == AgentGroupLifecycle::Active && g.pinned_version is None {
        Some(AgentGroupError::MissingPinnedVersion)
    } else {
        None
    }
}

/// The group `g` with another lifecycle.
pub open spec fn with_lifecycle(g: AgentGroup, lifecycle: AgentGroupLifecycle) -> AgentGroup {
    AgentGroup { lifecycle, ..g }
}

fn contains_agent(v: &Vec<AgentId>, id: AgentId) -> (r: bool)
    ensures
        r == v@.contains(id),
{
    let mut i: usize = 0;
    while i < v.len()
        invariant
            i <= v@.len(),
            forall|k: int| 0 <= k < i ==> v@[k] != id,
        decreases v@.len() - i,
    {
        if v[i] == id {
            assert(v@[i as int] == id);
            return true;
        }
        i = i + 1;
    }
    false
}

fn unique_agents(v: &Vec<AgentId>) -> (r: bool)
    ensures
        r == v@.no_duplicates(),
{
    let mut j: usize = 0;
    while j < v.len()
        invariant
            j <= v@.len(),
            forall|a: int, b: int| 0 <= a < b < j ==> v@[a] != v@[b],
        decreases v@.len() - j,
    {
        let mut i: usize = 0;
        while i < j
            invariant
                j < v@.len(),
                i <= j,
                forall|a: int| 0 <= a < i ==> v@[a] != v@[j as int],
            decreases j - i,
        {
            if v[i] == v[j] {
                return false;
            }
            i = i + 1;
        }
        j = j + 1;
    }
    true
}

fn consistent_members(g: &AgentGroup) -> (r: bool)
    ensures
        r == members_consistent(*g),
{
    if !unique_agents(&g.members) || g.member_projects.len() != g.members.len() {
        return false;
    }
    let mut i: usize = 0;
    while i < g.member_projects.len()
        invariant
            i <= g.member_projects@.len(),
            forall|k: int|
                0 <= k < i ==> {
                    let (m, p) = #[trigger] g.member_projects@[k];
                    g.members@.contains(m) && p == g.project_id
                },
        decreases g.member_projects@.len() - i,
    {
        let (m, p) = g.member_projects[i];
        if !contains_agent(&g.members, m) || p != g.project_id {
            assert(foreign_membership(*g));
            return false;
        }
        i = i + 1;
    }
    match g.moderator_id {
        Some(id) => contains_agent(&g.members, id),
        None => true,
    }
}

fn context_ref_ok(r: &String) -> (ok: bool)
    ensures
        ok == !context_ref_bad(r@),
{
    let s = r.as_str();
    proof {
        reveal_strlit("project://");
        reveal_strlit("..");
    }
    !(text_len(s) > MAX_CONTEXT_REF_BYTES || !has_prefix(s, "project://") || contains_marker(s, ".."))
}

impl AgentGroup {
    /// A draft group of one project whose owner is its only member and
    /// moderator, with default limits and budget.
    pub fn new(project_id: ProjectId, name: String, owner_id: AgentId, trace_id: TraceId) -> (r: Self)
        ensures
            r.schema_version == AGENT_GROUP_SCHEMA_VERSION,
            r.project_id == project_id,
            r.name == name,
            r.owner_id == owner_id,
            r.members@ == seq![owner_id],
            r.member_projects@ == seq![(owner_id, project_id)],
            r.moderator_id == Some(owner_id),
            r.max_rounds == 20,
            r.max_depth == 8,
            !r.allow_cycles,
            r.budget == (BudgetLimits {
                max_tokens: 1_000_000,
                max_cost_micro_usd: 10_000_000,
                max_parallel_invocations: 4,
                max_wall_time_seconds: 300,
                reset_period: ResetPeriod::Never,
            }),
            r.context_refs@.len() == 0,
            r.lifecycle == AgentGroupLifecycle::Draft,
            r.pinned_version is None,
            r.trace_id == trace_id,
            is_v4(r.id),
    {
        AgentGroup {
            schema_version: AGENT_GROUP_SCHEMA_VERSION,
            id: random_id_value(),
            project_id,
            name,
            owner_id,
            members: vec![owner_id],
            member_projects: vec![(owner_id, project_id)],
            moderator_id: Some(owner_id),
            max_rounds: 20,
            max_depth: 8,
            allow_cycles: false,
            budget: BudgetLimits::default(),
            context_refs: Vec::new(),
            lifecycle: AgentGroupLifecycle::Draft,
            pinned_version: None,
            trace_id,
        }
    }

    /// Checks, in order: the schema, the name, the trace, the member count,
    /// unique members whose memberships all lie in the group's project with
    /// a member as moderator, the round, depth and budget limits, the shared
    /// context references, and a pinned version once active.
    pub fn validate(&self) -> (r: Result<(), AgentGroupError>)
        ensures
            match group_fault(*self) {
                Some(e) => r == Err::<(), AgentGroupError>(e),
                None => r is Ok,
            },
    {
        if self.schema_version != AGENT_GROUP_SCHEMA_VERSION {
            return Err(AgentGroupError::InvalidProject);
        }
        if blank(self.name.as_str()) || text_len(self.name.as_str()) > MAX_GROUP_NAME_BYTES {
            return Err(AgentGroupError::InvalidName);
        }
        if self.trace_id.0 == 0 {
            return Err(AgentGroupError::InvalidTrace);
        }
        if self.members.len() == 0 || self.members.len() > MAX_GROUP_MEMBERS {
            return Err(AgentGroupError::InvalidLimits);
        }
        if !consistent_members(self) {
            return Err(AgentGroupError::MemberProjectUnknown);
        }
        if self.max_rounds == 0 || self.max_rounds > MAX_GROUP_ROUNDS || self.max_depth == 0
            || self.max_depth > MAX_GROUP_DEPTH {
            return Err(AgentGroupError::InvalidLimits);
        }
        if self.budget.validate().is_err() {
            return Err(AgentGroupError::InvalidLimits);
        }
        if self.context_refs.len() > MAX_CONTEXT_REFS {
            return Err(AgentGroupError::InvalidContextReference);
        }
        let mut i: usize = 0;
        while i < self.context_refs.len()
            invariant
                i <= self.context_refs@.len() <= MAX_CONTEXT_REFS,
                forall|k: int| 0 <= k < i ==> !#[trigger] context_ref_bad(self.context_refs@[k]@),
                group_fault(*self) is None || group_fault(*self) == Some(
                    AgentGroupError::InvalidContextReference,
                ) || group_fault(*self) == Some(AgentGroupError::MissingPinnedVersion),
            decreases self.context_refs@.len() - i,
        {
            if !context_ref_ok(&self.context_refs[i]) {
                assert(context_ref_bad(self.context_refs@[i as int]@));
                return Err(AgentGroupError::InvalidContextReference);
            }
            i = i + 1;
        }
        if self.lifecycle == AgentGroupLifecycle::Active && self.pinned_version.is_none() {
            return Err(AgentGroupError::MissingPinnedVersion);
        }
        Ok(())
    }

    /// Activates a group that has pinned a version and is valid.
    pub fn activate(&mut self) -> (r: Result<(), AgentGroupError>)
        ensures
            old(self).pinned_version is None ==> r == Err::<(), AgentGroupError>(
                AgentGroupError::MissingPinnedVersion,
            ) && *final(self) == *old(self),
            old(self).pinned_version is Some ==> match group_fault(*old(self)) {
                Some(e) => r == Err::<(), AgentGroupError>(e) && *final(self) == *old(self),
                None => r is Ok && *final(self) == with_lifecycle(*old(self), AgentGroupLifecycle::Active),
            },
    {
        if self.pinned_version.is_none() {
            return Err(AgentGroupError::MissingPinnedVersion);
        }
        self.validate()?;
        self.lifecycle = AgentGroupLifecycle::Active;
        Ok(())
    }

    /// Archives a valid group; `false` when it already was archived.
    pub fn archive(&mut self) -> (r: Result<bool, AgentGroupError>)
        ensures
            match group_fault(*old(self)) {
                Some(e) => r == Err::<bool, AgentGroupError>(e) && *final(self) == *old(self),
                None => if old(self).lifecycle == AgentGroupLifecycle::Archived {
                    r == Ok::<bool, AgentGroupError>(false) && *final(self) == *old(self)
                } else {
                    r == Ok::<bool, AgentGroupError>(true) && *final(self) == with_lifecycle(
                        *old(self),
                        AgentGroupLifecycle::Archived,
                    )
                },
            },
    {
        self.validate()?;
        if self.lifecycle == AgentGroupLifecycle::Archived {
            return Ok(false);
        }
        self.lifecycle = AgentGroupLifecycle::Archived;
        Ok(true)
    }

    /// The group's validation as a domain error carrying the message.
    pub fn domain_error(&self) -> (r: Result<(), DomainError>)
        ensures
            match group_fault(*self) {
                Some(e) => r matches Err(DomainError::Validation(m)) && m@ == group_error_message(e),
                None => r is Ok,
            },
    {
        match self.validate() {
            Ok(()) => Ok(()),
            Err(e) => Err(validation_error(e.message())),
        }
    }
}

/// A valid group has between one and the maximum number of members, all
/// distinct, each with one membership in the group's own project; its
/// moderator is one of them, and an active group has pinned its version.
pub proof fn law_valid_groups_are_closed_over_their_project(g: AgentGroup)
    requires
        group_fault(g) is None,
    ensures
        1 <= g.members@.len() <= MAX_GROUP_MEMBERS,
        g.members@.no_duplicates(),
        g.member_projects@.len() == g.members@.len(),
        forall|i: int|
            0 <= i < g.member_projects@.len() ==> g.members@.contains(
                (#[trigger] g.member_projects@[i]).0,
            ) && g.member_projects@[i].1 == g.project_id,
        g.moderator_id matches Some(id) ==> g.members@.contains(id),
        g.lifecycle == AgentGroupLifecycle::Active ==> g.pinned_version is Some,
{
    assert forall|i: int|
        0 <= i < g.member_projects@.len() implies g.members@.contains(
        (#[trigger] g.member_projects@[i]).0,
    ) && g.member_projects@[i].1 == g.project_id by {
        if !(g.members@.contains(g.member_projects@[i].0) && g.member_projects@[i].1 == g.project_id) {
            assert(foreign_membership(g));
        }
    }
}

/// Activation and archiving change nothing but the lifecycle, and only of a
/// valid group; archiving twice leaves the group as the first archive did.
pub proof fn law_lifecycle_changes_keep_the_group(g: AgentGroup)
    requires
        group_fault(g) is None,
        g.lifecycle != AgentGroupLifecycle::Archived,
    ensures
        group_fault(with_lifecycle(g, AgentGroupLifecycle::Archived)) is None,
        with_lifecycle(with_lifecycle(g, AgentGroupLifecycle::Archived), AgentGroupLifecycle::Archived)
            == with_lifecycle(g, AgentGroupLifecycle::Archived),
        g.pinned_version is Some ==> group_fault(with_lifecycle(g, AgentGroupLifecycle::Active)) is None,
{
    let a = with_lifecycle(g, AgentGroupLifecycle::Archived);
    assert(foreign_membership(a) == foreign_membership(g));
    let b = with_lifecycle(g, AgentGroupLifecycle::Active);
    assert(foreign_membership(b) == foreign_membership(g));
}

} // verus!
