//! Agents of a project: their personality, its validation, and the
//! agent's own state and skills.
use crate::error::{validation_error, DomainError};
use crate::group_budget::now_millis;
use crate::ids::{is_v4, AgentId, ProjectId, SkillId};
use crate::text::{blank, contains_ci, contains_marker_ci, is_blank, text_len, trim_text, trimmed, utf8_len};
use vstd::prelude::*;
use vstd::string::StringSliceAdditionalSpecFns;

verus! {

/// State of an agent.
#[derive(Debug, Clone, Copy, PartialEq, Eq, Structural)]
pub enum AgentStatus {
    Active,
    Inactive,
    Suspended,
}

#[derive(Debug, Clone, Copy, PartialEq, Eq, Structural)]
pub enum CommunicationStyle {
    Formal,
    Casual,
    Technical,
    Concise,
    Verbose,
}

/// Personality of an agent.
#[derive(Debug, Clone)]
pub struct Personality {
    pub name: String,
    pub description: Option<String>,
    pub traits: Vec<String>,
    pub communication_style: CommunicationStyle,
}

pub const MAX_PERSONALITY_NAME_LEN: usize = 120;

pub const MAX_PERSONALITY_DESCRIPTION_LEN: usize = 4_000;

pub const MAX_PERSONALITY_TRAITS: usize = 32;

pub const MAX_PERSONALITY_TRAIT_LEN: usize = 80;

/// Secrets and injected instructions that a description may not carry,
/// matched case-insensitively.
pub open spec fn forbidden_content(s: Seq<char>) -> bool {
    let b = vstd::utf8::encode_utf8(s);
    ||| contains_ci(b, "api_key".spec_bytes())
    ||| contains_ci(b, "authorization:".spec_bytes())
    ||| contains_ci(b, "password".spec_bytes())
    ||| contains_ci(b, "ignore previous instructions".spec_bytes())
}

pub open spec fn trait_ok(t: Seq<char>) -> bool {
    !is_blank(t) && utf8_len(t) <= MAX_PERSONALITY_TRAIT_LEN
}

pub open spec fn name_ok(p: Personality) -> bool {
    !is_blank(p.name@) && utf8_len(p.name@) <= MAX_PERSONALITY_NAME_LEN
}

pub open spec fn description_ok(p: Personality) -> bool {
    match p.description {
        None => true,
        Some(d) => utf8_len(d@) <= MAX_PERSONALITY_DESCRIPTION_LEN && !forbidden_content(d@),
    }
}

pub open spec fn traits_ok(p: Personality) -> bool {
    &&& p.traits@.len() <= MAX_PERSONALITY_TRAITS
    &&& forall|i: int| 0 <= i < p.traits@.len() ==> trait_ok(#[trigger] p.traits@[i]@)
}

pub open spec fn personality_valid(p: Personality) -> bool {
    name_ok(p) && description_ok(p) && traits_ok(p)
}

/// Whether a text mentions a secret or an injected instruction.
pub fn contains_forbidden_content(value: &str) -> (r: bool)
    ensures
        r == forbidden_content(value@),
{
    contains_marker_ci(value, "api_key") || contains_marker_ci(value, "authorization:")
        || contains_marker_ci(value, "password") || contains_marker_ci(
        value,
        "ignore previous instructions",
    )
}

impl Default for Personality {
    fn default() -> (r: Self)
        ensures
            r.name@ == "Default"@,
            r.description is None,
            r.traits@.len() == 2,
            r.traits@[0]@ == "helpful"@,
            r.traits@[1]@ == "accurate"@,
            r.communication_style == CommunicationStyle::Technical,
    {
        Personality {
            name: "Default".to_owned(),
            description: None,
            traits: vec!["helpful".to_owned(), "accurate".to_owned()],
            communication_style: CommunicationStyle::Technical,
        }
    }
}

impl Personality {
    /// The name must be non-blank and at most 120 bytes; a description at
    /// most 4000 bytes and free of secrets or injected instructions; at most
    /// 32 traits, each non-blank and at most 80 bytes.
    pub fn validate(&self) -> (r: Result<(), DomainError>)
        ensures
            r is Ok <==> personality_valid(*self),
            r matches Err(e) ==> e is Validation,
    {
        if blank(self.name.as_str()) || text_len(self.name.as_str()) > MAX_PERSONALITY_NAME_LEN {
            return Err(validation_error("personality name is empty or oversized"));
        }
        if let Some(description) = &self.description {
            if text_len(description.as_str()) > MAX_PERSONALITY_DESCRIPTION_LEN
                || contains_forbidden_content(description.as_str()) {
                return Err(validation_error("personality description is invalid or oversized"));
            }
        }
        if self.traits.len() > MAX_PERSONALITY_TRAITS {
            return Err(validation_error("personality traits are invalid or oversized"));
        }
        let mut i: usize = 0;
        while i < self.traits.len()
            invariant
                i <= self.traits@.len(),
                forall|k: int| 0 <= k < i ==> trait_ok(#[trigger] self.traits@[k]@),
            decreases self.traits@.len() - i,
        {
            let t = self.traits[i].as_str();
            if blank(t) || text_len(t) > MAX_PERSONALITY_TRAIT_LEN {
                return Err(validation_error("personality traits are invalid or oversized"));
            }
            i = i + 1;
        }
        Ok(())
    }
}

/// An agent of a project. Times are milliseconds since the Unix epoch;
/// the skills are the agent's skill set.
#[derive(Debug, Clone)]
pub struct Agent {
    pub id: AgentId,
    pub project_id: ProjectId,
    pub name: String,
    pub description: Option<String>,
    pub status: AgentStatus,
    pub personality: Personality,
    pub skills: Vec<SkillId>,
    pub created_at: i64,
    pub updated_at: i64,
}

pub const MAX_AGENT_NAME_LEN: usize = 120;

/// An agent's name, once trimmed, is non-empty and at most 120 bytes.
pub open spec fn agent_name_ok(name: Seq<char>) -> bool {
    trimmed(name).len() > 0 && utf8_len(trimmed(name)) <= MAX_AGENT_NAME_LEN
}

/// Whether a skill list names each skill once.
pub open spec fn distinct_skills(skills: Seq<SkillId>) -> bool {
    forall|i: int, j: int| 0 <= i < j < skills.len() ==> skills[i] != skills[j]
}

impl Agent {
    /// The agent's skills as a set.
    pub open spec fn skill_set(&self) -> Set<SkillId> {
        self.skills@.to_set()
    }

    /// Checks the name, then the personality.
    pub fn validate(&self) -> (r: Result<(), DomainError>)
        ensures
            r is Ok <==> agent_name_ok(self.name@) && personality_valid(self.personality),
            r matches Err(e) ==> (e matches DomainError::Validation(m) && m@ == (if !agent_name_ok(
                self.name@,
            ) {
                "agent name is empty or oversized"@
            } else {
                "agent personality is invalid"@
            })),
    {
        let name = trim_text(self.name.as_str());
        if name.unicode_len() == 0 || text_len(name) > MAX_AGENT_NAME_LEN {
            return Err(validation_error("agent name is empty or oversized"));
        }
        if self.personality.validate().is_err() {
            return Err(validation_error("agent personality is invalid"));
        }
        Ok(())
    }

    /// A new active agent of the project, with a fresh id, the default
    /// personality, no description and no skills, created now.
    pub fn new(project_id: ProjectId, name: String) -> (r: Self)
        ensures
            r.project_id == project_id,
            r.name == name,
            r.description is None,
            r.status == AgentStatus::Active,
            r.personality.name@ == "Default"@,
            r.personality.description is None,
            r.personality.traits@.len() == 2,
            r.personality.traits@[0]@ == "helpful"@,
            r.personality.traits@[1]@ == "accurate"@,
            r.personality.communication_style == CommunicationStyle::Technical,
            r.skills@ == Seq::<SkillId>::empty(),
            r.created_at == r.updated_at,
            is_v4(r.id.0),
    {
        let now = now_millis();
        Agent {
            id: AgentId::new(),
            project_id,
            name,
            description: None,
            status: AgentStatus::Active,
            personality: Personality::default(),
            skills: Vec::new(),
            created_at: now,
            updated_at: now,
        }
    }

    /// Makes the agent active; an agent already active is refused and left
    /// as it was.
    pub fn activate(&mut self) -> (r: Result<(), DomainError>)
        ensures
            old(self).status == AgentStatus::Active ==> (r matches Err(
                DomainError::InvalidStateTransition { from, to },
            ) && from@ == "Active"@ && to@ == "Active"@) && *final(self) == *old(self),
            old(self).status != AgentStatus::Active ==> r is Ok && final(self).status
                == AgentStatus::Active,
            final(self).id == old(self).id,
            final(self).project_id == old(self).project_id,
            final(self).name == old(self).name,
            final(self).description == old(self).description,
            final(self).personality == old(self).personality,
            final(self).skills == old(self).skills,
            final(self).created_at == old(self).created_at,
    {
        if self.status == AgentStatus::Active {
            return Err(
                DomainError::InvalidStateTransition { from: "Active".to_owned(), to: "Active".to_owned() },
            );
        }
        self.status = AgentStatus::Active;
        self.updated_at = now_millis();
        Ok(())
    }

    /// Suspends the agent, whatever its state.
    pub fn suspend(&mut self, _reason: String)
        ensures
            final(self).status == AgentStatus::Suspended,
            final(self).id == old(self).id,
            final(self).project_id == old(self).project_id,
            final(self).name == old(self).name,
            final(self).description == old(self).description,
            final(self).personality == old(self).personality,
            final(self).skills == old(self).skills,
            final(self).created_at == old(self).created_at,
    {
        self.status = AgentStatus::Suspended;
        self.updated_at = now_millis();
    }

    /// Adds a skill to the agent's set; a skill it has already stays once.
    pub fn add_skill(&mut self, skill_id: SkillId)
        ensures
            final(self).skill_set() == old(self).skill_set().insert(skill_id),
            distinct_skills(old(self).skills@) ==> distinct_skills(final(self).skills@),
            final(self).status == old(self).status,
            final(self).id == old(self).id,
            final(self).project_id == old(self).project_id,
            final(self).name == old(self).name,
            final(self).description == old(self).description,
            final(self).personality == old(self).personality,
            final(self).created_at == old(self).created_at,
    {
        let mut i: usize = 0;
        while i < self.skills.len()
            invariant
                *self == *old(self),
                i <= self.skills@.len(),
                forall|k: int| 0 <= k < i ==> self.skills@[k] != skill_id,
            decreases self.skills@.len() - i,
        {
            if self.skills[i] == skill_id {
                proof {
                    assert(self.skills@.to_set().insert(skill_id) =~= self.skills@.to_set()) by {
                        assert(self.skills@.contains(skill_id));
                    }
                }
                self.updated_at = now_millis();
                return;
            }
            i = i + 1;
        }
        let ghost before = self.skills@;
        self.skills.push(skill_id);
        proof {
            before.lemma_push_to_set_commute(skill_id);
        }
        self.updated_at = now_millis();
    }

    /// Removes a skill from the agent's set; whether the agent had it. The
    /// update time moves only when something was removed.
    pub fn remove_skill(&mut self, skill_id: &SkillId) -> (r: bool)
        ensures
            r == old(self).skill_set().contains(*skill_id),
            final(self).skill_set() == old(self).skill_set().remove(*skill_id),
            distinct_skills(old(self).skills@) ==> distinct_skills(final(self).skills@),
            !r ==> *final(self) == *old(self),
            final(self).status == old(self).status,
            final(self).id == old(self).id,
            final(self).project_id == old(self).project_id,
            final(self).name == old(self).name,
            final(self).description == old(self).description,
            final(self).personality == old(self).personality,
            final(self).created_at == old(self).created_at,
    {
        let ghost before = self.skills@;
        let mut kept: Vec<SkillId> = Vec::new();
        let mut removed = false;
        let mut i: usize = 0;
        while i < self.skills.len()
            invariant
                i <= before.len(),
                self.skills@ == before,
                removed <==> exists|k: int| 0 <= k < i && before[k] == *skill_id,
                forall|x: SkillId|
                    kept@.contains(x) <==> (x != *skill_id && exists|k: int|
                        0 <= k < i && before[k] == x),
                forall|a: int|
                    0 <= a < kept@.len() ==> exists|k: int| 0 <= k < i && before[k] == #[trigger] kept@[a],
                distinct_skills(before) ==> distinct_skills(kept@),
                distinct_skills(before) ==> forall|a: int, k: int|
                    0 <= a < kept@.len() && i <= k < before.len() ==> kept@[a] != before[k],
            decreases before.len() - i,
        {
            let s = self.skills[i];
            if s == *skill_id {
                removed = true;
            } else {
                let ghost old_kept = kept@;
                kept.push(s);
                proof {
                    assert forall|x: SkillId| kept@.contains(x) implies (x != *skill_id && exists|
                        k: int,
                    | 0 <= k < i + 1 && before[k] == x) by {
                        let a = choose|a: int| 0 <= a < kept@.len() && kept@[a] == x;
                        if a < old_kept.len() {
                            assert(old_kept[a] == x);
                            assert(old_kept.contains(x));
                        } else {
                            assert(before[i as int] == x);
                        }
                    }
                    assert forall|x: SkillId|
                        (x != *skill_id && exists|k: int| 0 <= k < i + 1 && before[k] == x) implies kept@.contains(x) by {
                        let k = choose|k: int| 0 <= k < i + 1 && before[k] == x;
                        if k < i {
                            assert(old_kept.contains(x));
                            let a = choose|a: int| 0 <= a < old_kept.len() && old_kept[a] == x;
                            assert(kept@[a] == x);
                        } else {
                            assert(kept@[old_kept.len() as int] == x);
                        }
                    }
                    assert forall|a: int| 0 <= a < kept@.len() implies exists|k: int|
                        0 <= k < i + 1 && before[k] == #[trigger] kept@[a] by {
                        if a < old_kept.len() {
                            assert(kept@[a] == old_kept[a]);
                        } else {
                            assert(before[i as int] == kept@[a]);
                        }
                    }
                }
            }
            i = i + 1;
        }
        if !removed {
            proof {
                assert(!before.contains(*skill_id));
                assert(before.to_set().remove(*skill_id) =~= before.to_set());
            }
            return false;
        }
        proof {
            assert(kept@.to_set() =~= before.to_set().remove(*skill_id)) by {
                assert forall|x: SkillId| kept@.contains(x) <==> (before.contains(x) && x != *skill_id) by {
                    if before.contains(x) && x != *skill_id {
                        let k = choose|k: int| 0 <= k < before.len() && before[k] == x;
                    }
                }
            }
        }
        self.skills = kept;
        self.updated_at = now_millis();
        true
    }
}

} // verus!
