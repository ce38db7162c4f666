use agent_core::budget::{BudgetLimits, ResetPeriod};
use agent_core::group_budget::{GroupBudget, GroupBudgetError};
use agent_core::ids::ProjectId;

fn limits(max_tokens: u64, parallel: u32) -> BudgetLimits {
    BudgetLimits {
        max_tokens,
        max_cost_micro_usd: 1_000,
        max_parallel_invocations: parallel,
        max_wall_time_seconds: 60,
        reset_period: ResetPeriod::Never,
    }
}

#[test]
fn group_budget_refuses_invalid_limits() {
    let result = GroupBudget::new(ProjectId::from_u128(1), 2, limits(0, 1));
    assert_eq!(result.unwrap_err(), GroupBudgetError::InvalidBudget);
    assert_eq!(
        GroupBudgetError::InvalidBudget.message(),
        "group budget configuration is invalid"
    );
}

#[test]
fn group_budget_reserves_once_per_invocation_and_commits_actual_usage() {
    let mut budget = GroupBudget::new_at(ProjectId::from_u128(1), 2, limits(100, 4), 0).unwrap();
    assert_eq!(budget.available_tokens(), 100);
    budget.reserve_at(10, 40, 5, 1).unwrap();
    assert_eq!(budget.available_tokens(), 60);
    assert_eq!(
        budget.reserve_at(10, 1, 1, 2),
        Err(GroupBudgetError::DuplicateInvocation)
    );
    assert_eq!(budget.reserve_at(11, 61, 1, 2), Err(GroupBudgetError::BudgetExceeded));
    budget.commit_at(10, 25, 3, 3).unwrap();
    assert_eq!(budget.used_tokens(), 25);
    assert_eq!(budget.available_tokens(), 75);
    assert_eq!(budget.commit_at(10, 1, 1, 4), Err(GroupBudgetError::UnknownReservation));
    assert_eq!(budget.project_id(), ProjectId::from_u128(1));
    assert_eq!(budget.group_id(), 2);
}

#[test]
fn group_budget_refund_gives_the_reservation_back() {
    let mut budget = GroupBudget::new(ProjectId::from_u128(1), 2, limits(100, 1)).unwrap();
    budget.reserve(7, 90, 10).unwrap();
    assert_eq!(budget.available_tokens(), 10);
    assert_eq!(budget.reserve(8, 1, 1), Err(GroupBudgetError::BudgetExceeded));
    budget.refund(7).unwrap();
    assert_eq!(budget.available_tokens(), 100);
    assert_eq!(budget.used_tokens(), 0);
    assert_eq!(budget.refund(7), Err(GroupBudgetError::UnknownReservation));
    budget.reserve(8, 1, 1).unwrap();
    budget.commit(8, 2, 2).unwrap();
    assert_eq!(budget.used_tokens(), 2);
}
