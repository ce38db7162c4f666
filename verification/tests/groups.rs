use agent_core::budget::BudgetLimits;
use agent_core::dedupe::{DedupeDecision, DedupeEntry, DedupeError, DedupeIndex, DedupeInput};
use agent_core::error::DomainError;
use agent_core::group_entity::{AgentGroup, AgentGroupError, AgentGroupLifecycle};
use agent_core::group_session::{
    AgentGroupMembership, AgentGroupSession, AgentGroupSessionError, AgentGroupSessionStatus,
};
use agent_core::ids::{AgentId, ProjectId, TraceId};
use agent_core::memory::MemoryKind;
use agent_core::mention_parser::{MentionError, MentionParser, MentionTarget};
use agent_core::words::{normalize, split_words};

const OWNER: u128 = 0x0000_0000_0000_4000_8000_0000_0000_0001;
const OTHER: u128 = 0x0000_0000_0000_4000_8000_0000_0000_0002;

fn group() -> AgentGroup {
    AgentGroup::new(
        ProjectId::from_u128(7),
        "research team".into(),
        AgentId::from_u128(OWNER),
        TraceId::from_u128(5),
    )
}

#[test]
fn new_groups_are_valid_drafts_moderated_by_their_owner() {
    let g = group();
    assert!(g.validate().is_ok());
    assert_eq!(g.lifecycle, AgentGroupLifecycle::Draft);
    assert_eq!(g.members, vec![AgentId::from_u128(OWNER)]);
    assert_eq!(g.moderator_id, Some(AgentId::from_u128(OWNER)));
    assert_eq!((g.max_rounds, g.max_depth), (20, 8));
}

#[test]
fn group_validation_names_each_fault() {
    let mut g = group();
    g.name = "   ".into();
    assert_eq!(g.validate(), Err(AgentGroupError::InvalidName));
    g.name = "x".repeat(65);
    assert_eq!(g.validate(), Err(AgentGroupError::InvalidName));
    let mut g = group();
    g.trace_id = TraceId::from_u128(0);
    assert_eq!(g.validate(), Err(AgentGroupError::InvalidTrace));
    let mut g = group();
    g.members.push(AgentId::from_u128(OWNER));
    g.member_projects.push((AgentId::from_u128(OWNER), ProjectId::from_u128(7)));
    assert_eq!(g.validate(), Err(AgentGroupError::MemberProjectUnknown));
    let mut g = group();
    g.members.push(AgentId::from_u128(OTHER));
    g.member_projects.push((AgentId::from_u128(OTHER), ProjectId::from_u128(8)));
    assert_eq!(g.validate(), Err(AgentGroupError::MemberProjectUnknown));
    let mut g = group();
    g.moderator_id = Some(AgentId::from_u128(OTHER));
    assert_eq!(g.validate(), Err(AgentGroupError::MemberProjectUnknown));
    let mut g = group();
    g.max_rounds = 101;
    assert_eq!(g.validate(), Err(AgentGroupError::InvalidLimits));
    let mut g = group();
    g.budget = BudgetLimits { max_tokens: 0, ..BudgetLimits::default() };
    assert_eq!(g.validate(), Err(AgentGroupError::InvalidLimits));
    let mut g = group();
    g.context_refs = vec!["project://docs/plan.md".into()];
    assert!(g.validate().is_ok());
    g.context_refs.push("file:///etc/passwd".into());
    assert_eq!(g.validate(), Err(AgentGroupError::InvalidContextReference));
    g.context_refs = vec!["project://docs/../secrets".into()];
    assert_eq!(g.validate(), Err(AgentGroupError::InvalidContextReference));
    let mut g = group();
    g.schema_version = 2;
    assert_eq!(g.validate(), Err(AgentGroupError::InvalidProject));
}

#[test]
fn groups_activate_only_with_a_pinned_version_and_archive_once() {
    let mut g = group();
    assert_eq!(g.activate(), Err(AgentGroupError::MissingPinnedVersion));
    assert_eq!(g.lifecycle, AgentGroupLifecycle::Draft);
    g.pinned_version = Some("v1".into());
    assert!(g.activate().is_ok());
    assert_eq!(g.lifecycle, AgentGroupLifecycle::Active);
    assert_eq!(g.archive(), Ok(true));
    assert_eq!(g.archive(), Ok(false));
    assert_eq!(g.lifecycle, AgentGroupLifecycle::Archived);
    g.name = String::new();
    assert_eq!(g.archive(), Err(AgentGroupError::InvalidName));
    match g.domain_error() {
        Err(DomainError::Validation(message)) => assert_eq!(message, "group name is invalid"),
        other => panic!("unexpected {other:?}"),
    }
    assert_eq!(
        AgentGroupError::MissingPinnedVersion.message(),
        "group must pin a version before activation"
    );
}

#[test]
fn sessions_snapshot_valid_groups_and_follow_their_lifecycle() {
    let mut invalid = group();
    invalid.trace_id = TraceId::from_u128(0);
    assert_eq!(
        AgentGroupSession::from_group(&invalid).unwrap_err(),
        AgentGroupSessionError::InvalidMembershipSnapshot
    );
    let mut s = AgentGroupSession::from_group(&group()).unwrap();
    assert_eq!(s.status, AgentGroupSessionStatus::Created);
    assert_eq!(
        s.memberships,
        vec![AgentGroupMembership {
            agent_id: AgentId::from_u128(OWNER),
            project_id: ProjectId::from_u128(7)
        }]
    );
    assert_eq!(s.begin_round(), Err(AgentGroupSessionError::Terminal));
    assert_eq!(s.finish_round(1), Err(AgentGroupSessionError::RoundNotActive));
    assert!(s.start().is_ok());
    assert_eq!(s.start(), Err(AgentGroupSessionError::InvalidTransition));
    assert!(s.begin_round().is_ok());
    assert_eq!(s.current_round, 1);
    assert!(s.finish_round(100).is_ok());
    assert_eq!(s.finish_round(2_000_000), Err(AgentGroupSessionError::BudgetLimit));
    assert_eq!(s.used_tokens, 2_000_100);
    assert_eq!(s.begin_round(), Err(AgentGroupSessionError::BudgetLimit));
    assert_eq!(s.cancel(), Ok(true));
    assert_eq!(s.cancel(), Ok(false));
    assert_eq!(s.close(), Err(AgentGroupSessionError::Terminal));
    assert_eq!(s.start(), Err(AgentGroupSessionError::InvalidTransition));
}

#[test]
fn sessions_close_only_when_active_and_stop_at_the_round_limit() {
    let mut g = group();
    g.max_rounds = 1;
    let mut s = AgentGroupSession::from_group(&g).unwrap();
    assert_eq!(s.close(), Err(AgentGroupSessionError::InvalidTransition));
    s.start().unwrap();
    s.begin_round().unwrap();
    assert_eq!(s.begin_round(), Err(AgentGroupSessionError::RoundLimit));
    assert!(s.close().is_ok());
    assert!(s.close().is_ok());
    assert_eq!(s.status, AgentGroupSessionStatus::Closed);
    assert_eq!(s.cancel(), Err(AgentGroupSessionError::Terminal));
    assert_eq!(
        AgentGroupSessionError::RoundLimit.message(),
        "session round limit reached"
    );
}

#[test]
fn text_is_split_into_words_and_normalized() {
    assert_eq!(split_words("  Hello\tWORLD \n x "), vec!["Hello", "WORLD", "x"]);
    assert!(split_words(" \t ").is_empty());
    assert_eq!(normalize("  Hello\tWORLD \n x "), "hello world x");
    assert_eq!(normalize("Ünïcode  ÄBC"), "Ünïcode Äbc");
    assert_eq!(normalize(""), "");
}

fn dedupe_input(key: &str, content: &str) -> DedupeInput {
    DedupeInput {
        project_id: ProjectId::from_u128(1),
        agent_id: Some("agent-a".into()),
        kind: MemoryKind(3),
        canonical_key: key.into(),
        content: content.into(),
        trace_id: "trace-1".into(),
    }
}

#[test]
fn dedupe_finds_duplicates_and_conflicts_by_normalized_key() {
    let mut index = DedupeIndex::default();
    let input = dedupe_input("  User  Name ", "Prefers   DARK mode");
    assert_eq!(index.decide(&input), Ok(DedupeDecision::New));
    let entry = DedupeEntry::from_input("m-1".into(), &input);
    assert_eq!(entry.canonical_key, "user name");
    assert_eq!(entry.normalized_content, "prefers dark mode");
    index.commit(entry).unwrap();
    assert_eq!(
        index.decide(&dedupe_input("user name", "prefers dark MODE")),
        Ok(DedupeDecision::Duplicate { existing_id: "m-1".into() })
    );
    assert_eq!(
        index.decide(&dedupe_input("USER NAME", "prefers light mode")),
        Ok(DedupeDecision::Conflict { existing_id: "m-1".into() })
    );
    let mut other_kind = dedupe_input("user name", "anything");
    other_kind.kind = MemoryKind(4);
    assert_eq!(index.decide(&other_kind), Ok(DedupeDecision::New));
    let mut other_agent = dedupe_input("user name", "anything");
    other_agent.agent_id = None;
    assert_eq!(index.decide(&other_agent), Ok(DedupeDecision::New));
}

#[test]
fn dedupe_refuses_invalid_entries_and_duplicate_identities() {
    let mut index = DedupeIndex::default();
    assert_eq!(index.decide(&dedupe_input("  ", "x")), Err(DedupeError::InvalidEntry));
    let mut no_trace = dedupe_input("k", "x");
    no_trace.trace_id = String::new();
    assert_eq!(index.decide(&no_trace), Err(DedupeError::InvalidEntry));
    assert_eq!(
        index.decide(&dedupe_input("k", &"x".repeat(16 * 1024 + 1))),
        Err(DedupeError::InvalidEntry)
    );
    let entry = DedupeEntry::from_input(String::new(), &dedupe_input("k", "x"));
    assert_eq!(index.commit(entry), Err(DedupeError::InvalidEntry));
    index.commit(DedupeEntry::from_input("m-1".into(), &dedupe_input("k", "x"))).unwrap();
    assert_eq!(
        index.commit(DedupeEntry::from_input("m-1".into(), &dedupe_input("j", "y"))),
        Err(DedupeError::DuplicateIdentity)
    );
    assert_eq!(index.rollback("m-2"), Err(DedupeError::NotFound));
    assert!(index.rollback("m-1").is_ok());
    assert_eq!(index.decide(&dedupe_input("k", "x")), Ok(DedupeDecision::New));
    assert_eq!(index.rollback("m-1"), Err(DedupeError::NotFound));
    assert_eq!(DedupeError::NotFound.message(), "dedupe entry is not found");
}

const OWNER_TEXT: &str = "agent-00000000-0000-4000-8000-000000000001";
const OTHER_TEXT: &str = "agent-00000000-0000-4000-8000-000000000002";

fn parser() -> MentionParser {
    MentionParser::new(
        ProjectId::from_u128(7),
        vec![
            AgentGroupMembership {
                agent_id: AgentId::from_u128(OWNER),
                project_id: ProjectId::from_u128(7),
            },
            AgentGroupMembership {
                agent_id: AgentId::from_u128(OTHER),
                project_id: ProjectId::from_u128(8),
            },
        ],
    )
}

#[test]
fn mentions_name_each_member_once_in_order() {
    let text = format!("hi @agent:{OWNER_TEXT}, again (@agent:{OWNER_TEXT}!) and agent:{OTHER_TEXT}");
    let result = parser().parse(&text).unwrap();
    assert_eq!(
        result.targets,
        vec![MentionTarget {
            agent_id: AgentId::from_u128(OWNER),
            project_id: ProjectId::from_u128(7)
        }]
    );
    assert!(!result.invocation_requested);
    assert!(parser().parse("no mentions here").unwrap().targets.is_empty());
    assert_eq!(
        AgentId::parse(OWNER_TEXT),
        Some(AgentId::from_u128(OWNER))
    );
}

#[test]
fn mentions_fail_closed_on_unknown_foreign_or_oversized_input() {
    assert_eq!(parser().parse("@agent:nobody"), Err(MentionError::UnknownMention));
    assert_eq!(
        parser().parse("@agent:agent-00000000-0000-4000-8000-000000000009"),
        Err(MentionError::UnknownMention)
    );
    assert_eq!(
        parser().parse(&format!("@agent:{OTHER_TEXT}")),
        Err(MentionError::CrossProjectMention)
    );
    assert_eq!(
        parser().parse(&"x".repeat(8 * 1024 + 1)),
        Err(MentionError::InputTooLarge)
    );
    let memberships: Vec<AgentGroupMembership> = (1..=33u128)
        .map(|n| AgentGroupMembership {
            agent_id: AgentId::from_u128(n),
            project_id: ProjectId::from_u128(7),
        })
        .collect();
    let text: Vec<String> = (1..=33u128)
        .map(|n| format!("@agent:agent-00000000-0000-0000-0000-{n:012x}"))
        .collect();
    let many = MentionParser::new(ProjectId::from_u128(7), memberships);
    assert_eq!(many.parse(&text.join(" ")), Err(MentionError::TargetLimit));
    assert_eq!(many.parse(&text[..32].join(" ")).unwrap().targets.len(), 32);
    assert_eq!(
        MentionError::CrossProjectMention.message(),
        "mention target is outside the parser project scope"
    );
}
