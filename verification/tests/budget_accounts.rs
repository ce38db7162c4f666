use agent_core::budget::{
    BudgetAccount, BudgetHierarchyTracker, BudgetLimits, BudgetScope, ResetPeriod,
};
use agent_core::error::DomainError;
use agent_core::ids::{AgentId, ProjectId, ReservationId};

fn millis(t: chrono::DateTime<chrono::Utc>) -> i64 {
    t.timestamp_millis()
}

#[test]
fn reservation_commit_and_refund_lifecycle() {
    let now = millis(chrono::Utc::now());
    let mut account = BudgetAccount::new(
        BudgetScope::Agent(AgentId::new()),
        BudgetLimits {
            max_tokens: 10_000,
            max_cost_micro_usd: 1_000_000,
            max_parallel_invocations: 2,
            ..Default::default()
        },
        now,
    );

    let r1 = account.reserve(4_000, 400_000, now).expect("reserve r1");
    assert_eq!(account.reserved_tokens, 4_000);
    assert_eq!(account.active_invocations, 1);

    let r2 = account.reserve(5_000, 500_000, now).expect("reserve r2");
    assert_eq!(account.reserved_tokens, 9_000);
    assert_eq!(account.active_invocations, 2);

    assert!(account.reserve(500, 50_000, now).is_err());

    account.commit(r1, 3_000, 300_000, now).expect("commit r1");
    assert_eq!(account.used_tokens, 3_000);
    assert_eq!(account.reserved_tokens, 5_000);
    assert_eq!(account.active_invocations, 1);

    account.refund(r2, now).expect("refund r2");
    assert_eq!(account.used_tokens, 3_000);
    assert_eq!(account.reserved_tokens, 0);
    assert_eq!(account.active_invocations, 0);
}

#[test]
fn exceeded_tokens_or_cost_fails_closed() {
    let now = millis(chrono::Utc::now());
    let mut account = BudgetAccount::new(
        BudgetScope::Project(ProjectId::new()),
        BudgetLimits {
            max_tokens: 1_000,
            max_cost_micro_usd: 100_000,
            ..Default::default()
        },
        now,
    );

    assert!(account.direct_consume(1_001, 10_000, now).is_err());
    assert!(account.direct_consume(500, 100_001, now).is_err());
    assert!(account.direct_consume(600, 50_000, now).is_ok());
    assert!(account.direct_consume(500, 10_000, now).is_err());
}

#[test]
fn periodic_reset_clears_used_accumulators() {
    let past = millis(chrono::Utc::now() - chrono::Duration::days(2));
    let now = millis(chrono::Utc::now());
    let mut account = BudgetAccount::new(
        BudgetScope::Project(ProjectId::new()),
        BudgetLimits {
            max_tokens: 1_000,
            max_cost_micro_usd: 100_000,
            reset_period: ResetPeriod::Daily,
            ..Default::default()
        },
        past,
    );

    account.direct_consume(900, 90_000, past).expect("consume past");
    assert_eq!(account.used_tokens, 900);

    account.direct_consume(500, 50_000, now).expect("consume after reset");
    assert_eq!(account.used_tokens, 500);
}

#[test]
fn hierarchy_tracker_evaluates_multi_scope_limits() {
    let now = millis(chrono::Utc::now());
    let mut tracker = BudgetHierarchyTracker::new();

    let project_id = ProjectId::new();
    let agent_id = AgentId::new();
    let project_scope = BudgetScope::Project(project_id);
    let agent_scope = BudgetScope::Agent(agent_id);

    tracker.get_or_create(
        project_scope.clone(),
        BudgetLimits {
            max_tokens: 10_000,
            ..Default::default()
        },
        now,
    );

    tracker.get_or_create(
        agent_scope.clone(),
        BudgetLimits {
            max_tokens: 2_000,
            ..Default::default()
        },
        now,
    );

    assert!(tracker
        .check_hierarchy(&[project_scope.clone(), agent_scope.clone()], 1_500, 10_000)
        .is_ok());
    assert!(tracker
        .check_hierarchy(&[project_scope.clone(), agent_scope.clone()], 3_000, 10_000)
        .is_err());
}

#[test]
fn refund_restores_the_account_exactly() {
    let now = 1_700_000_000_000;
    let mut account = BudgetAccount::new(
        BudgetScope::Project(ProjectId::from_u128(7)),
        BudgetLimits::default(),
        now,
    );
    account.direct_consume(100, 1_000, now).unwrap();
    let id = account.reserve(2_000, 20_000, now).unwrap();
    assert_eq!(account.reservations.len(), 1);
    account.refund(id, now + 5).unwrap();
    assert_eq!(account.used_tokens, 100);
    assert_eq!(account.used_cost_micro_usd, 1_000);
    assert_eq!(account.reserved_tokens, 0);
    assert_eq!(account.reserved_cost_micro_usd, 0);
    assert_eq!(account.active_invocations, 0);
    assert!(account.reservations.is_empty());
    assert_eq!(account.updated_at, now + 5);
}

#[test]
fn unknown_reservation_is_not_found_and_changes_nothing() {
    let now = 1_700_000_000_000;
    let mut account = BudgetAccount::new(
        BudgetScope::Project(ProjectId::from_u128(7)),
        BudgetLimits::default(),
        now,
    );
    match account.commit(ReservationId::from_u128(42), 10, 10, now + 1) {
        Err(DomainError::NotFound(message)) => assert_eq!(message, "active reservation not found"),
        other => panic!("unexpected {other:?}"),
    }
    assert!(account.refund(ReservationId::from_u128(42), now + 1).is_err());
    assert_eq!(account.updated_at, now);
}

#[test]
fn exceeded_error_reports_type_limit_and_total() {
    let now = 1_700_000_000_000;
    let mut account = BudgetAccount::new(
        BudgetScope::Project(ProjectId::from_u128(1)),
        BudgetLimits {
            max_tokens: 1_000,
            ..Default::default()
        },
        now,
    );
    account.direct_consume(400, 0, now).unwrap();
    match account.check_availability(700, 0) {
        Err(DomainError::BudgetExceeded { budget_type, limit, used }) => {
            assert_eq!(budget_type, "tokens");
            assert_eq!(limit, "1000");
            assert_eq!(used, "1100");
        }
        other => panic!("unexpected {other:?}"),
    }
    account.used_tokens = u64::MAX;
    match account.check_availability(1, 0) {
        Err(DomainError::BudgetExceeded { budget_type, used, .. }) => {
            assert_eq!(budget_type, "tokens_overflow");
            assert_eq!(used, "overflow");
        }
        other => panic!("unexpected {other:?}"),
    }
}

#[test]
fn parallel_limit_reports_the_attempted_count() {
    let now = 1_700_000_000_000;
    let mut account = BudgetAccount::new(
        BudgetScope::Project(ProjectId::from_u128(1)),
        BudgetLimits {
            max_parallel_invocations: 1,
            ..Default::default()
        },
        now,
    );
    account.reserve(1, 1, now).unwrap();
    match account.reserve(1, 1, now) {
        Err(DomainError::BudgetExceeded { budget_type, limit, used }) => {
            assert_eq!(budget_type, "parallel_invocations");
            assert_eq!(limit, "1");
            assert_eq!(used, "2");
        }
        other => panic!("unexpected {other:?}"),
    }
}

#[test]
fn weekly_and_monthly_resets_follow_the_calendar() {
    // 2024-01-01T00:00:00Z is a Monday.
    let monday = 1_704_067_200_000;
    let day = 86_400_000;
    let mut account = BudgetAccount::new(
        BudgetScope::Project(ProjectId::from_u128(1)),
        BudgetLimits {
            reset_period: ResetPeriod::Weekly,
            ..Default::default()
        },
        monday,
    );
    assert!(!account.reset_if_needed(monday + 6 * day));
    assert!(account.reset_if_needed(monday + 7 * day));

    let mut monthly = BudgetAccount::new(
        BudgetScope::Project(ProjectId::from_u128(1)),
        BudgetLimits {
            reset_period: ResetPeriod::Monthly,
            ..Default::default()
        },
        monday,
    );
    assert!(!monthly.reset_if_needed(monday + 30 * day));
    assert!(monthly.reset_if_needed(monday + 31 * day));
    assert_eq!(monthly.last_reset_at, monday + 31 * day);
}

#[test]
fn second_get_or_create_returns_the_existing_account() {
    let mut tracker = BudgetHierarchyTracker::default();
    let scope = BudgetScope::Project(ProjectId::from_u128(9));
    tracker
        .get_or_create(scope, BudgetLimits::default(), 1)
        .direct_consume(10, 10, 1)
        .unwrap();
    let again = tracker.get_or_create(
        scope,
        BudgetLimits {
            max_tokens: 5,
            ..Default::default()
        },
        2,
    );
    assert_eq!(again.used_tokens, 10);
    assert_eq!(again.limits.max_tokens, 1_000_000);
}
