//! Project- and agent-scoped memory policies, resolved deterministically
//! and fail-closed across their layers.
use crate::autonomy::AutonomyLevel;
use crate::ids::{is_v4, AgentId, ProjectId};
use crate::memory::MemoryType;
use vstd::prelude::*;

verus! {

pub const MEMORY_POLICY_SCHEMA_VERSION: u32 = 1;

pub const MAX_ALLOWED_TYPES: usize = 6;

pub const MAX_TOKENS: u32 = 1_000_000;

pub const MAX_COST_MICROS: u64 = 100_000_000;

pub const MAX_RETENTION_DAYS: u32 = 36_500;

#[derive(Debug, Clone, Copy, PartialEq, Eq, Structural)]
pub enum MemoryApprovalMode {
    Always,
    CandidateOnly,
    HumanForApproved,
}

#[derive(Debug, Clone, Copy, PartialEq, Eq, Structural)]
pub enum MemoryPolicyLayer {
    System,
    Security,
    Project,
    Agent,
}

/// System policies outrank security ones, which outrank project ones,
/// which outrank agent ones.
pub open spec fn precedence(l: MemoryPolicyLayer) -> u8 {
    match l {
        MemoryPolicyLayer::System => 4,
        MemoryPolicyLayer::Security => 3,
        MemoryPolicyLayer::Project => 2,
        MemoryPolicyLayer::Agent => 1,
    }
}

impl MemoryPolicyLayer {
    fn precedence(self) -> (r: u8)
        ensures
            r == precedence(self),
    {
        match self {
            MemoryPolicyLayer::System => 4,
            MemoryPolicyLayer::Security => 3,
            MemoryPolicyLayer::Project => 2,
            MemoryPolicyLayer::Agent => 1,
        }
    }
}

#[derive(Debug, Clone)]
pub struct MemoryPolicy {
    pub schema_version: u32,
    pub project_id: ProjectId,
    pub agent_id: AgentId,
    pub version: u64,
    pub read: bool,
    pub write: bool,
    pub learn: bool,
    pub allowed_types: Vec<MemoryType>,
    pub max_tokens: u32,
    pub max_cost_micros: u64,
    pub retention_days: u32,
    pub approval_mode: MemoryApprovalMode,
    pub autonomy_level: AutonomyLevel,
    pub allow_rollback: bool,
}

impl Default for MemoryPolicy {
    /// A policy for fresh identities that allows nothing.
    fn default() -> (r: Self)
        ensures
            r.schema_version == MEMORY_POLICY_SCHEMA_VERSION,
            r.version == 1,
            !r.read && !r.write && !r.learn,
            r.allowed_types@.len() == 0,
            r.max_tokens == 0,
            r.max_cost_micros == 0,
            r.retention_days == 0,
            r.approval_mode == MemoryApprovalMode::HumanForApproved,
            r.autonomy_level == AutonomyLevel::L0None,
            !r.allow_rollback,
            is_v4(r.project_id.0),
            is_v4(r.agent_id.0),
    {
        MemoryPolicy {
            schema_version: MEMORY_POLICY_SCHEMA_VERSION,
            project_id: ProjectId::new(),
            agent_id: AgentId::new(),
            version: 1,
            read: false,
            write: false,
            learn: false,
            allowed_types: Vec::new(),
            max_tokens: 0,
            max_cost_micros: 0,
            retention_days: 0,
            approval_mode: MemoryApprovalMode::HumanForApproved,
            autonomy_level: AutonomyLevel::L0None,
            allow_rollback: false,
        }
    }
}

pub open spec fn has_dup_types(s: Seq<MemoryType>) -> bool {
    exists|i: int, j: int| 0 <= i < j < s.len() && s[i] == s[j]
}

/// Why a policy is malformed, if it is.
pub open spec fn policy_fault(p: MemoryPolicy) -> Option<Seq<char>> {
    if p.schema_version != MEMORY_POLICY_SCHEMA_VERSION {
        Some("unsupported memory policy schema"@)
    } else if p.version == 0 || p.max_tokens > MAX_TOKENS {
        Some("memory policy version or token limit is invalid"@)
    } else if p.max_cost_micros > MAX_COST_MICROS || p.retention_days > MAX_RETENTION_DAYS {
        Some("memory policy cost or retention limit is invalid"@)
    } else if p.allowed_types@.len() > MAX_ALLOWED_TYPES {
        Some("memory policy contains too many memory types"@)
    } else if has_dup_types(p.allowed_types@) {
        Some("memory policy contains duplicate memory types"@)
    } else if p.write && p.max_tokens == 0 {
        Some("memory writes require a positive token budget"@)
    } else if p.learn && !p.write {
        Some("memory learning requires write permission"@)
    } else {
        None
    }
}

fn duplicate_types(s: &Vec<MemoryType>) -> (r: bool)
    ensures
        r == has_dup_types(s@),
{
    let mut j: usize = 0;
    while j < s.len()
        invariant
            j <= s@.len(),
            forall|a: int, b: int| 0 <= a < b < j ==> s@[a] != s@[b],
        decreases s@.len() - j,
    {
        let mut i: usize = 0;
        while i < j
            invariant
                j < s@.len(),
                i <= j,
                forall|a: int| 0 <= a < i ==> s@[a] != s@[j as int],
            decreases j - i,
        {
            if s[i] == s[j] {
                return true;
            }
            i = i + 1;
        }
        j = j + 1;
    }
    false
}

impl MemoryPolicy {
    /// Checks the schema, the version, token, cost and retention bounds, a
    /// short duplicate-free type list, and that writing has a budget and
    /// learning implies writing.
    pub fn validate(&self) -> (r: Result<(), String>)
        ensures
            match policy_fault(*self) {
                Some(m) => r matches Err(x) && x@ == m,
                None => r is Ok,
            },
    {
        if self.schema_version != MEMORY_POLICY_SCHEMA_VERSION {
            return Err("unsupported memory policy schema".to_string());
        }
        if self.version == 0 || self.max_tokens > MAX_TOKENS {
            return Err("memory policy version or token limit is invalid".to_string());
        }
        if self.max_cost_micros > MAX_COST_MICROS || self.retention_days > MAX_RETENTION_DAYS {
            return Err("memory policy cost or retention limit is invalid".to_string());
        }
        if self.allowed_types.len() > MAX_ALLOWED_TYPES {
            return Err("memory policy contains too many memory types".to_string());
        }
        if duplicate_types(&self.allowed_types) {
            return Err("memory policy contains duplicate memory types".to_string());
        }
        if self.write && self.max_tokens == 0 {
            return Err("memory writes require a positive token budget".to_string());
        }
        if self.learn && !self.write {
            return Err("memory learning requires write permission".to_string());
        }
        Ok(())
    }

    pub fn allows_type(&self, memory_type: MemoryType) -> (r: bool)
        ensures
            r == self.allowed_types@.contains(memory_type),
    {
        let mut i: usize = 0;
        while i < self.allowed_types.len()
            invariant
                i <= self.allowed_types@.len(),
                forall|k: int| 0 <= k < i ==> self.allowed_types@[k] != memory_type,
            decreases self.allowed_types@.len() - i,
        {
            if self.allowed_types[i] == memory_type {
                assert(self.allowed_types@[i as int] == memory_type);
                return true;
            }
            i = i + 1;
        }
        false
    }
}

#[derive(Debug, Clone)]
pub struct MemoryPolicyEntry {
    pub layer: MemoryPolicyLayer,
    pub policy: MemoryPolicy,
}

#[derive(Debug, Clone, Copy, PartialEq, Eq, Structural)]
pub enum MemoryPolicyAction {
    Read,
    Write,
    Learn,
}

#[derive(Debug, Clone, Copy)]
pub struct MemoryPolicyRequest {
    pub project_id: ProjectId,
    pub agent_id: AgentId,
    pub action: MemoryPolicyAction,
    pub memory_type: MemoryType,
    pub requested_tokens: u32,
    pub requested_cost_micros: u64,
}

#[derive(Debug, Clone, Copy, PartialEq, Eq)]
pub struct MemoryPolicyDecision {
    pub allowed: bool,
    pub reason: &'static str,
    pub policy_version: Option<u64>,
    pub layer: Option<MemoryPolicyLayer>,
}

pub open spec fn action_allowed(p: MemoryPolicy, action: MemoryPolicyAction) -> bool {
    match action {
        MemoryPolicyAction::Read => p.read,
        MemoryPolicyAction::Write => p.write,
        MemoryPolicyAction::Learn => p.learn,
    }
}

/// The entry speaks for the request's project and agent.
pub open spec fn applies(e: MemoryPolicyEntry, q: MemoryPolicyRequest) -> bool {
    e.policy.project_id == q.project_id && e.policy.agent_id == q.agent_id
}

/// The entry's policy refuses the request's action, type or bounds.
pub open spec fn denies(e: MemoryPolicyEntry, q: MemoryPolicyRequest) -> bool {
    ||| !e.policy.allowed_types@.contains(q.memory_type)
    ||| q.requested_tokens > e.policy.max_tokens
    ||| q.requested_cost_micros > e.policy.max_cost_micros
    ||| !action_allowed(e.policy, q.action)
}

/// Entry `i` is the first applicable entry of the highest layer.
pub open spec fn is_highest(es: Seq<MemoryPolicyEntry>, q: MemoryPolicyRequest, i: int) -> bool {
    &&& 0 <= i < es.len()
    &&& applies(es[i], q)
    &&& forall|j: int|
        0 <= j < es.len() && applies(es[j], q) ==> precedence(#[trigger] es[j].layer) <= precedence(
            es[i].layer,
        )
    &&& forall|j: int|
        0 <= j < i && applies(es[j], q) ==> precedence(#[trigger] es[j].layer) < precedence(es[i].layer)
}

pub open spec fn highest(es: Seq<MemoryPolicyEntry>, q: MemoryPolicyRequest) -> int {
    choose|i: int| is_highest(es, q, i)
}

/// The decision for a request: missing or invalid policies deny without a
/// source; any applicable policy that refuses denies on behalf of the
/// highest layer; otherwise the highest layer allows.
pub open spec fn decision_for(es: Seq<MemoryPolicyEntry>, q: MemoryPolicyRequest) -> (
    bool,
    Seq<char>,
    Option<u64>,
    Option<MemoryPolicyLayer>,
) {
    if !(exists|i: int| 0 <= i < es.len() && #[trigger] applies(es[i], q)) {
        (false, "missing memory policy"@, None, None)
    } else if exists|i: int|
        0 <= i < es.len() && applies(es[i], q) && #[trigger] policy_fault(es[i].policy) is Some {
        (false, "invalid memory policy"@, None, None)
    } else {
        let h = es[highest(es, q)];
        if exists|i: int| 0 <= i < es.len() && applies(es[i], q) && #[trigger] denies(es[i], q) {
            (false, "memory policy denied action or bound"@, Some(h.policy.version), Some(h.layer))
        } else {
            (true, "memory policy allowed"@, Some(h.policy.version), Some(h.layer))
        }
    }
}

proof fn lemma_highest(es: Seq<MemoryPolicyEntry>, q: MemoryPolicyRequest, i: int)
    requires
        is_highest(es, q, i),
    ensures
        highest(es, q) == i,
{
    let h = highest(es, q);
    assert(is_highest(es, q, h));
    if h < i {
        assert(precedence(es[h].layer) < precedence(es[i].layer));
        assert(precedence(es[i].layer) <= precedence(es[h].layer));
    } else if i < h {
        assert(precedence(es[i].layer) < precedence(es[h].layer));
        assert(precedence(es[h].layer) <= precedence(es[i].layer));
    }
}

pub struct MemoryPolicyResolver;

impl MemoryPolicyResolver {
    /// Resolves a request against every entry for its project and agent;
    /// it is allowed only if every such policy is valid and allows it.
    pub fn resolve(request: &MemoryPolicyRequest, entries: &[MemoryPolicyEntry]) -> (r:
        MemoryPolicyDecision)
        ensures
            ({
                let d = decision_for(entries@, *request);
                &&& r.allowed == d.0
                &&& r.reason@ == d.1
                &&& r.policy_version == d.2
                &&& r.layer == d.3
            }),
    {
        let ghost es = entries@;
        let q = request;
        let mut best: Option<usize> = None;
        let mut invalid = false;
        let mut denied = false;
        let mut k: usize = 0;
        while k < entries.len()
            invariant
                es == entries@,
                k <= es.len(),
                match best {
                    Some(b) => b < k && is_highest(es.take(k as int), *q, b as int),
                    None => forall|j: int| 0 <= j < k ==> !#[trigger] applies(es[j], *q),
                },
                invalid == exists|j: int|
                    0 <= j < k && applies(es[j], *q) && #[trigger] policy_fault(es[j].policy) is Some,
                denied == exists|j: int| 0 <= j < k && applies(es[j], *q) && #[trigger] denies(es[j], *q),
            decreases es.len() - k,
        {
            let e = &entries[k];
            if e.policy.project_id == q.project_id && e.policy.agent_id == q.agent_id {
                let better = match best {
                    None => true,
                    Some(b) => entries[b].layer.precedence() < e.layer.precedence(),
                };
                if better {
                    best = Some(k);
                }
                if e.policy.validate().is_err() {
                    invalid = true;
                }
                let permitted = match q.action {
                    MemoryPolicyAction::Read => e.policy.read,
                    MemoryPolicyAction::Write => e.policy.write,
                    MemoryPolicyAction::Learn => e.policy.learn,
                };
                let refuses = !e.policy.allows_type(q.memory_type) || q.requested_tokens
                    > e.policy.max_tokens || q.requested_cost_micros > e.policy.max_cost_micros
                    || !permitted;
                assert(refuses == denies(es[k as int], *q));
                if refuses {
                    denied = true;
                }
            }
            proof {
                let t = es.take(k + 1);
                assert forall|j: int| 0 <= j < k + 1 implies #[trigger] t[j] == es[j] by {}
                match best {
                    Some(b) => {
                        assert(is_highest(t, *q, b as int));
                    },
                    None => {},
                }
            }
            k = k + 1;
        }
        assert(es.take(k as int) =~= es);
        match best {
            None => MemoryPolicyDecision {
                allowed: false,
                reason: "missing memory policy",
                policy_version: None,
                layer: None,
            },
            Some(b) => {
                proof {
                    lemma_highest(es, *q, b as int);
                }
                if invalid {
                    MemoryPolicyDecision {
                        allowed: false,
                        reason: "invalid memory policy",
                        policy_version: None,
                        layer: None,
                    }
                } else if denied {
                    MemoryPolicyDecision {
                        allowed: false,
                        reason: "memory policy denied action or bound",
                        policy_version: Some(entries[b].policy.version),
                        layer: Some(entries[b].layer),
                    }
                } else {
                    MemoryPolicyDecision {
                        allowed: true,
                        reason: "memory policy allowed",
                        policy_version: Some(entries[b].policy.version),
                        layer: Some(entries[b].layer),
                    }
                }
            },
        }
    }
}

/// Memory policy resolution fails closed: a request is allowed only when
/// some policy speaks for its project and agent, and every policy that
/// does is valid and allows the action, the memory type and the requested
/// tokens and cost.
pub proof fn law_memory_policies_fail_closed(es: Seq<MemoryPolicyEntry>, q: MemoryPolicyRequest, k: int)
    requires
        decision_for(es, q).0,
        0 <= k < es.len(),
        applies(es[k], q),
    ensures
        policy_fault(es[k].policy) is None,
        es[k].policy.allowed_types@.contains(q.memory_type),
        q.requested_tokens <= es[k].policy.max_tokens,
        q.requested_cost_micros <= es[k].policy.max_cost_micros,
        action_allowed(es[k].policy, q.action),
{
    if policy_fault(es[k].policy) is Some {
        assert(exists|i: int|
            0 <= i < es.len() && applies(es[i], q) && #[trigger] policy_fault(es[i].policy) is Some);
    }
    if denies(es[k], q) {
        assert(exists|i: int| 0 <= i < es.len() && applies(es[i], q) && #[trigger] denies(es[i], q));
    }
}

} // verus!
