use agent_core::error::{DomainError, DomainErrorCode};
use agent_core::ids::{MemoryId, ProjectId};
use agent_core::memory::{MemoryStatus, MemoryType};
use agent_core::memory_bridge::{
    check_mutation, matches_filter, memory_page_limit, parse_memory_id, parse_project_id,
    ListMemoriesInput, MemoryBridgeError, MEMORY_CAPABILITY,
};

#[test]
fn memory_mutations_need_confirmation_then_the_write_capability() {
    assert_eq!(
        check_mutation(false, MEMORY_CAPABILITY),
        Err(MemoryBridgeError::ConfirmationRequired)
    );
    assert_eq!(
        check_mutation(false, "memory.read"),
        Err(MemoryBridgeError::ConfirmationRequired)
    );
    assert_eq!(
        check_mutation(true, "memory.read"),
        Err(MemoryBridgeError::MutationRejected { code: DomainErrorCode::PermissionDenied })
    );
    assert!(check_mutation(true, "memory.write").is_ok());
}

#[test]
fn memory_bridge_errors_describe_themselves() {
    assert_eq!(MemoryBridgeError::ConfirmationRequired.message(), "confirm memory mutation");
    assert_eq!(MemoryBridgeError::InvalidInput.message(), "invalid memory mutation input");
    let rejected = MemoryBridgeError::from(DomainError::NotFound("memory".into()));
    assert_eq!(rejected, MemoryBridgeError::MutationRejected { code: DomainErrorCode::NotFound });
    assert_eq!(rejected.message(), "memory mutation rejected: NotFound");
}

#[test]
fn memory_listings_are_bounded_and_filtered_by_wire_names() {
    assert_eq!(memory_page_limit(None), 100);
    assert_eq!(memory_page_limit(Some(0)), 1);
    assert_eq!(memory_page_limit(Some(7)), 7);
    assert_eq!(memory_page_limit(Some(1000)), 100);
    let mut input = ListMemoriesInput {
        project_id: "proj-00000000-0000-4000-8000-000000000301".into(),
        status: None,
        memory_type: None,
        limit: None,
    };
    assert!(matches_filter(MemoryStatus::Candidate, MemoryType::Working, &input));
    input.status = Some("approved".into());
    input.memory_type = Some("short_term".into());
    assert!(matches_filter(MemoryStatus::Approved, MemoryType::ShortTerm, &input));
    assert!(!matches_filter(MemoryStatus::Rejected, MemoryType::ShortTerm, &input));
    assert!(!matches_filter(MemoryStatus::Approved, MemoryType::LongTerm, &input));
    input.status = Some("Approved".into());
    assert!(!matches_filter(MemoryStatus::Approved, MemoryType::ShortTerm, &input));
}

#[test]
fn memory_identifiers_are_parsed_or_refused() {
    assert_eq!(
        parse_project_id("proj-00000000-0000-4000-8000-000000000301"),
        Ok(ProjectId::from_u128(0x0000_0000_0000_4000_8000_0000_0000_0301))
    );
    assert_eq!(
        parse_memory_id("mem-00000000-0000-4000-8000-000000000302"),
        Ok(MemoryId::from_u128(0x0000_0000_0000_4000_8000_0000_0000_0302))
    );
    assert_eq!(parse_memory_id("proj-00000000-0000-4000-8000-000000000302"), Err(MemoryBridgeError::InvalidInput));
    assert_eq!(parse_project_id(""), Err(MemoryBridgeError::InvalidInput));
}

#[test]
fn bridge_rejects_unconfirmed_and_wrong_capability_before_service_dispatch() {
    // The fixture request: confirmed, with the write capability.
    assert!(check_mutation(true, MEMORY_CAPABILITY).is_ok());
    assert!(matches!(
        check_mutation(false, MEMORY_CAPABILITY),
        Err(MemoryBridgeError::ConfirmationRequired)
    ));
    assert!(matches!(
        check_mutation(true, "memory.read"),
        Err(MemoryBridgeError::MutationRejected { code: DomainErrorCode::PermissionDenied })
    ));
}
