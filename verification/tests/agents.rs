use agent_core::agent::{Agent, AgentStatus};
use agent_core::error::DomainError;
use agent_core::ids::{ProjectId, SkillId};

#[test]
fn agent_validation_accepts_project_bound_defaults() {
    let agent = Agent::new(ProjectId::new(), "worker".into());
    agent.validate().unwrap();
}

#[test]
fn agent_validation_rejects_invalid_personality() {
    let mut agent = Agent::new(ProjectId::new(), "worker".into());
    agent.personality.description = Some("password: secret".into());
    assert!(agent.validate().is_err());
}

#[test]
fn agent_validation_rejects_empty_or_oversized_identity() {
    let mut agent = Agent::new(ProjectId::new(), "worker".into());
    agent.name = " ".into();
    assert!(agent.validate().is_err());
    agent.name = "x".repeat(121);
    assert!(agent.validate().is_err());
}

#[test]
fn agent_validation_bounds_personality_traits() {
    let mut agent = Agent::new(ProjectId::new(), "worker".into());
    agent.personality.traits = vec!["trait".into(); 33];
    assert!(agent.validate().is_err());
}

#[test]
fn agent_name_is_measured_after_trimming() {
    let mut agent = Agent::new(ProjectId(3), "worker".into());
    agent.name = format!("  {}  ", "x".repeat(120));
    agent.validate().unwrap();
    agent.name = " ".into();
    match agent.validate() {
        Err(DomainError::Validation(m)) => assert_eq!(m, "agent name is empty or oversized"),
        other => panic!("unexpected {other:?}"),
    }
}

#[test]
fn agent_state_and_skills() {
    let mut agent = Agent::new(ProjectId(3), "worker".into());
    assert_eq!(agent.status, AgentStatus::Active);
    assert_eq!(agent.created_at, agent.updated_at);
    match agent.activate() {
        Err(DomainError::InvalidStateTransition { from, to }) => {
            assert_eq!(from, "Active");
            assert_eq!(to, "Active");
        }
        other => panic!("unexpected {other:?}"),
    }
    agent.suspend("maintenance".into());
    assert_eq!(agent.status, AgentStatus::Suspended);
    agent.activate().unwrap();
    assert_eq!(agent.status, AgentStatus::Active);
    agent.add_skill(SkillId(1));
    agent.add_skill(SkillId(1));
    agent.add_skill(SkillId(2));
    assert_eq!(agent.skills, vec![SkillId(1), SkillId(2)]);
    assert!(agent.remove_skill(&SkillId(1)));
    assert!(!agent.remove_skill(&SkillId(1)));
    assert_eq!(agent.skills, vec![SkillId(2)]);
}
