use agent_core::scheduler_bridge::{
    job_page, missed_run_policy_name, scheduler_error, target_parts, trigger_parts,
    MissedRunPolicyInput, TargetInput, TriggerInput,
};

#[test]
fn job_listings_are_bounded() {
    assert_eq!(job_page(None, None), (50, 0));
    assert_eq!(job_page(Some(500), Some(7)), (100, 7));
    assert_eq!(job_page(Some(0), None), (0, 0));
}

#[test]
fn jobs_are_shown_by_kind_and_value() {
    assert_eq!(
        trigger_parts(&TriggerInput::OneShot { at_ms: 1_700_000_000_123 }),
        ("one_shot".to_string(), "1700000000123".to_string())
    );
    assert_eq!(
        trigger_parts(&TriggerInput::Interval { seconds: 60 }),
        ("interval".to_string(), "60".to_string())
    );
    assert_eq!(
        trigger_parts(&TriggerInput::Cron { expression: "0 * * * *".into() }),
        ("cron".to_string(), "0 * * * *".to_string())
    );
    assert_eq!(
        trigger_parts(&TriggerInput::Dependency { job_id: "job-1".into() }).0,
        "dependency"
    );
    assert_eq!(
        target_parts(&TargetInput::Agent { id: "agent-1".into(), version: 3 }),
        ("agent".to_string(), "agent-1".to_string(), 3)
    );
    assert_eq!(missed_run_policy_name(MissedRunPolicyInput::CatchUp), "catch_up");
    let error = scheduler_error("SCHEDULER_UNAUTHORIZED", "owner is not authorized for this project");
    assert_eq!(error.code, "SCHEDULER_UNAUTHORIZED");
    assert_eq!(error.message, "owner is not authorized for this project");
}
