use agent_core::confirmation_bridge::ConfirmationEvent;
use agent_core::ids::{
    AgentId, ProjectId, ReservationId, RunId, SessionId, TaskId, TraceId, WorkflowId,
};

const SHAPE_MASK: u128 = 0xF000_C000_0000_0000_0000;
const SHAPE: u128 = 0x4000_8000_0000_0000_0000;

fn random_shaped(v: u128) -> bool {
    v & SHAPE_MASK == SHAPE
}

#[test]
fn fresh_ids_have_the_version_four_shape() {
    for _ in 0..16 {
        assert!(random_shaped(ProjectId::new().0));
        assert!(random_shaped(RunId::new().0));
        assert!(random_shaped(TraceId::new().0));
        assert!(random_shaped(TaskId::new().0));
        assert!(random_shaped(AgentId::new().0));
        assert!(random_shaped(SessionId::new().0));
        assert!(random_shaped(WorkflowId::new().0));
        assert!(random_shaped(ReservationId::new().0));
        assert!(random_shaped(ConfirmationEvent::request_submitted(1, 0).event_id));
    }
    assert!(!random_shaped(0));
}

#[test]
fn fresh_ids_read_back_as_version_four_uuids() {
    let id = uuid::Uuid::from_u128(ReservationId::new().0);
    assert_eq!(id.get_version_num(), 4);
    assert_eq!(id.get_variant(), uuid::Variant::RFC4122);
}
