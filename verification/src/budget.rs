//! Budget policies: strict numeric limits, reservations made before work
//! starts, committed or refunded consumption, and periodic resets.
//!
//! Instants are milliseconds since the Unix epoch, in UTC.
use crate::digest::{decimal, to_decimal_u64};
use crate::error::{validation_error, DomainError};
use chrono::Datelike;
use std::collections::HashMap;
use crate::ids::{is_v4, AgentId, ProjectId, ReservationId, SessionId, TaskId, WorkflowId};
use vstd::prelude::*;

verus! {

pub const BUDGET_POLICY_SCHEMA_VERSION: u32 = 1;

pub const MAX_TOKENS_LIMIT: u64 = 1_000_000_000;

/// $100,000.00 in micro-dollars.
pub const MAX_COST_MICRO_USD_LIMIT: u64 = 100_000_000_000;

pub const MAX_PARALLEL_INVOCATIONS_LIMIT: u32 = 64;

/// Seven days.
pub const MAX_WALL_TIME_SECONDS_LIMIT: u64 = 604_800;

/// Period after which consumption is renewed.
#[derive(Debug, Clone, Copy, PartialEq, Eq, Hash, Structural)]
pub enum ResetPeriod {
    Never,
    Daily,
    Weekly,
    Monthly,
}

impl Default for ResetPeriod {
    fn default() -> (r: Self)
        ensures
            r == ResetPeriod::Never,
    {
        ResetPeriod::Never
    }
}

/// Granularity of a budget.
#[derive(Debug, Clone, Copy, PartialEq, Eq, Hash, Structural)]
pub enum BudgetScope {
    Project(ProjectId),
    Agent(AgentId),
    Session(SessionId),
    Workflow(WorkflowId),
    Task(TaskId),
}

/// Strict numeric limits of a budget.
#[derive(Debug, Clone, Copy, PartialEq, Eq, Structural)]
pub struct BudgetLimits {
    pub max_tokens: u64,
    pub max_cost_micro_usd: u64,
    pub max_parallel_invocations: u32,
    pub max_wall_time_seconds: u64,
    pub reset_period: ResetPeriod,
}

pub open spec fn limits_valid(l: BudgetLimits) -> bool {
    &&& 1 <= l.max_tokens <= MAX_TOKENS_LIMIT
    &&& 1 <= l.max_cost_micro_usd <= MAX_COST_MICRO_USD_LIMIT
    &&& 1 <= l.max_parallel_invocations <= MAX_PARALLEL_INVOCATIONS_LIMIT
    &&& 1 <= l.max_wall_time_seconds <= MAX_WALL_TIME_SECONDS_LIMIT
}

impl Default for BudgetLimits {
    fn default() -> (r: Self)
        ensures
            r.max_tokens == 1_000_000,
            r.max_cost_micro_usd == 10_000_000,
            r.max_parallel_invocations == 4,
            r.max_wall_time_seconds == 300,
            r.reset_period == ResetPeriod::Never,
            limits_valid(r),
    {
        BudgetLimits {
            max_tokens: 1_000_000,
            max_cost_micro_usd: 10_000_000,
            max_parallel_invocations: 4,
            max_wall_time_seconds: 300,
            reset_period: ResetPeriod::Never,
        }
    }
}

impl BudgetLimits {
    /// Every limit must be positive and at most its global ceiling; each
    /// failure is a validation error.
    pub fn validate(&self) -> (r: Result<(), DomainError>)
        ensures
            r is Ok <==> limits_valid(*self),
            r matches Err(e) ==> e is Validation,
    {
        if self.max_tokens == 0 || self.max_tokens > MAX_TOKENS_LIMIT {
            return Err(validation_error("max_tokens out of valid range (1..=1000000000)"));
        }
        if self.max_cost_micro_usd == 0 || self.max_cost_micro_usd > MAX_COST_MICRO_USD_LIMIT {
            return Err(validation_error("max_cost_micro_usd out of valid range (1..=100000000000)"));
        }
        if self.max_parallel_invocations == 0 || self.max_parallel_invocations
            > MAX_PARALLEL_INVOCATIONS_LIMIT {
            return Err(validation_error("max_parallel_invocations out of valid range (1..=64)"));
        }
        if self.max_wall_time_seconds == 0 || self.max_wall_time_seconds
            > MAX_WALL_TIME_SECONDS_LIMIT {
            return Err(validation_error("max_wall_time_seconds out of valid range (1..=604800)"));
        }
        Ok(())
    }
}

// ---------------------------------------------------------------------------
// Calendar
// ---------------------------------------------------------------------------
/// The UTC calendar day of an instant, counted from the first day of year 1
/// as chrono counts it, if chrono can represent the instant.
pub uninterp spec fn utc_day_number(millis: i64) -> Option<i32>;

/// The ISO year and week of an instant in UTC, as chrono computes them.
pub uninterp spec fn utc_iso_week(millis: i64) -> Option<(i32, u32)>;

/// The year and month of an instant in UTC, as chrono computes them.
pub uninterp spec fn utc_year_month(millis: i64) -> Option<(i32, u32)>;

/// Calls chrono's `DateTime::from_timestamp_millis` and
/// `NaiveDate::num_days_from_ce` on the instant's UTC date. chrono counts
/// the day as the whole days since the Unix epoch plus the epoch's own
/// day number, 719163; that is stated here for instants within some
/// thirty thousand years of the epoch, far inside chrono's range. Beyond,
/// the result is only named.
#[verifier::external_body]
fn day_number(millis: i64) -> (r: Option<i32>)
    ensures
        r == utc_day_number(millis),
        -1_000_000_000_000_000 <= millis <= 1_000_000_000_000_000 ==> r == Some(
            (millis / 86_400_000 + 719_163) as i32,
        ),
{
    match chrono::DateTime::from_timestamp_millis(millis) {
        Some(t) => Some(t.date_naive().num_days_from_ce()),
        None => None,
    }
}

/// Calls chrono's `DateTime::from_timestamp_millis` and `iso_week` on the
/// instant, reading back the ISO year and week number.
#[verifier::external_body]
fn iso_week(millis: i64) -> (r: Option<(i32, u32)>)
    ensures
        r == utc_iso_week(millis),
{
    match chrono::DateTime::from_timestamp_millis(millis) {
        Some(t) => Some((t.iso_week().year(), t.iso_week().week())),
        None => None,
    }
}

/// Calls chrono's `DateTime::from_timestamp_millis`, `year` and `month` on
/// the instant.
#[verifier::external_body]
fn year_month(millis: i64) -> (r: Option<(i32, u32)>)
    ensures
        r == utc_year_month(millis),
{
    match chrono::DateTime::from_timestamp_millis(millis) {
        Some(t) => Some((t.year(), t.month())),
        None => None,
    }
}

/// Whether a budget last reset at `last` renews at `now`: daily on a later
/// UTC date, weekly after seven days or in another ISO week, monthly in a
/// later year or month. Instants chrono cannot represent never renew.
pub open spec fn reset_due(period: ResetPeriod, last: i64, now: i64) -> bool {
    match period {
        ResetPeriod::Never => false,
        ResetPeriod::Daily => match (utc_day_number(now), utc_day_number(last)) {
            (Some(n), Some(l)) => n > l,
            _ => false,
        },
        ResetPeriod::Weekly => match (utc_day_number(now), utc_day_number(last)) {
            (Some(n), Some(l)) => n - l >= 7 || match (utc_iso_week(now), utc_iso_week(last)) {
                (Some(a), Some(b)) => a != b,
                _ => false,
            },
            _ => false,
        },
        ResetPeriod::Monthly => match (utc_year_month(now), utc_year_month(last)) {
            (Some(a), Some(b)) => a.0 > b.0 || a.1 > b.1,
            _ => false,
        },
    }
}

/// A daily budget renews exactly on a later UTC day: whenever chrono gives
/// the day numbers `l` of the last reset and `n` of now, a reset is due
/// just when `n > l`, so the very next day already renews.
pub proof fn law_daily_reset_on_a_later_day(last: i64, now: i64, l: i32, n: i32)
    requires
        utc_day_number(last) == Some(l),
        utc_day_number(now) == Some(n),
    ensures
        reset_due(ResetPeriod::Daily, last, now) <==> n > l,
        n == l + 1 ==> reset_due(ResetPeriod::Daily, last, now),
{
}

/// A weekly budget renews once seven UTC days have passed since the last
/// reset, or as soon as now lies in another ISO week than the last reset.
pub proof fn law_weekly_reset(
    last: i64,
    now: i64,
    l: i32,
    n: i32,
    wl: (i32, u32),
    wn: (i32, u32),
)
    requires
        utc_day_number(last) == Some(l),
        utc_day_number(now) == Some(n),
        utc_iso_week(last) == Some(wl),
        utc_iso_week(now) == Some(wn),
    ensures
        reset_due(ResetPeriod::Weekly, last, now) <==> (n - l >= 7 || wn != wl),
{
}

/// A monthly budget renews in a later year, or in a later month number
/// than the last reset's.
pub proof fn law_monthly_reset(last: i64, now: i64, yl: i32, ml: u32, yn: i32, mn: u32)
    requires
        utc_year_month(last) == Some((yl, ml)),
        utc_year_month(now) == Some((yn, mn)),
    ensures
        reset_due(ResetPeriod::Monthly, last, now) <==> (yn > yl || mn > ml),
{
}

/// A budget without a reset period never renews.
pub proof fn law_never_resets(last: i64, now: i64)
    ensures
        !reset_due(ResetPeriod::Never, last, now),
{
}

/// Whether a budget renews; for a daily period on instants within some
/// thirty thousand years of the epoch, exactly when `now` falls on a later
/// UTC day (a later whole count of 86 400 000 ms) than `last`.
fn reset_due_exec(period: ResetPeriod, last: i64, now: i64) -> (r: bool)
    ensures
        r == reset_due(period, last, now),
        period == ResetPeriod::Daily && -1_000_000_000_000_000 <= last <= 1_000_000_000_000_000
            && -1_000_000_000_000_000 <= now <= 1_000_000_000_000_000 ==> (r <==> now / 86_400_000
            > last / 86_400_000),
{
    match period {
        ResetPeriod::Never => false,
        ResetPeriod::Daily => match (day_number(now), day_number(last)) {
            (Some(n), Some(l)) => n > l,
            _ => false,
        },
        ResetPeriod::Weekly => match (day_number(now), day_number(last)) {
            (Some(n), Some(l)) => {
                if n as i64 - l as i64 >= 7 {
                    true
                } else {
                    match (iso_week(now), iso_week(last)) {
                        (Some(a), Some(b)) => a.0 != b.0 || a.1 != b.1,
                        _ => false,
                    }
                }
            },
            _ => false,
        },
        ResetPeriod::Monthly => match (year_month(now), year_month(last)) {
            (Some(a), Some(b)) => a.0 > b.0 || a.1 > b.1,
            _ => false,
        },
    }
}

// ---------------------------------------------------------------------------
// Accounts
// ---------------------------------------------------------------------------
#[derive(Debug, Clone, Copy, PartialEq, Eq, Structural)]
pub struct ActiveReservation {
    pub reserved_tokens: u64,
    pub reserved_cost_micro_usd: u64,
    pub created_at: i64,
}

/// An active budget account: consumption, reservations in flight and
/// periodic resets. Reservations are keyed by their identifier's value.
#[derive(Debug, Clone)]
pub struct BudgetAccount {
    pub schema_version: u32,
    pub scope: BudgetScope,
    pub limits: BudgetLimits,
    pub used_tokens: u64,
    pub reserved_tokens: u64,
    pub used_cost_micro_usd: u64,
    pub reserved_cost_micro_usd: u64,
    pub active_invocations: u32,
    pub reservations: HashMap<u128, ActiveReservation>,
    pub last_reset_at: i64,
    pub updated_at: i64,
}

/// What an account holds.
pub struct AccountView {
    pub schema_version: u32,
    pub scope: BudgetScope,
    pub limits: BudgetLimits,
    pub used_tokens: u64,
    pub reserved_tokens: u64,
    pub used_cost: u64,
    pub reserved_cost: u64,
    pub active: u32,
    pub reservations: Map<u128, ActiveReservation>,
    pub last_reset_at: i64,
    pub updated_at: i64,
}

impl View for BudgetAccount {
    type V = AccountView;

    open spec fn view(&self) -> AccountView {
        AccountView {
            schema_version: self.schema_version,
            scope: self.scope,
            limits: self.limits,
            used_tokens: self.used_tokens,
            reserved_tokens: self.reserved_tokens,
            used_cost: self.used_cost_micro_usd,
            reserved_cost: self.reserved_cost_micro_usd,
            active: self.active_invocations,
            reservations: self.reservations@,
            last_reset_at: self.last_reset_at,
            updated_at: self.updated_at,
        }
    }
}

/// The account after the periodic reset that `now` may bring.
pub open spec fn after_reset(a: AccountView, now: i64) -> AccountView {
    if reset_due(a.limits.reset_period, a.last_reset_at, now) {
        AccountView { used_tokens: 0, used_cost: 0, last_reset_at: now, updated_at: now, ..a }
    } else {
        a
    }
}

/// Why `tokens` and `cost` more do not fit, as the budget type, limit and
/// amount the error reports.
pub open spec fn availability_fault(a: AccountView, tokens: u64, cost: u64) -> Option<
    (Seq<char>, Seq<char>, Seq<char>),
> {
    let total_tokens = a.used_tokens + a.reserved_tokens + tokens;
    let total_cost = a.used_cost + a.reserved_cost + cost;
    if total_tokens > u64::MAX {
        Some(("tokens_overflow"@, decimal(a.limits.max_tokens as nat), "overflow"@))
    } else if total_tokens > a.limits.max_tokens {
        Some(("tokens"@, decimal(a.limits.max_tokens as nat), decimal(total_tokens as nat)))
    } else if total_cost > u64::MAX {
        Some(("cost_overflow"@, decimal(a.limits.max_cost_micro_usd as nat), "overflow"@))
    } else if total_cost > a.limits.max_cost_micro_usd {
        Some(("cost_micro_usd"@, decimal(a.limits.max_cost_micro_usd as nat), decimal(total_cost as nat)))
    } else {
        None
    }
}

/// `e` is the budget error described by `f`.
pub open spec fn exceeded(e: DomainError, f: (Seq<char>, Seq<char>, Seq<char>)) -> bool {
    e matches DomainError::BudgetExceeded { budget_type, limit, used } && budget_type@ == f.0
        && limit@ == f.1 && used@ == f.2
}

pub open spec fn sat_add(x: u64, y: u64) -> u64 {
    if x + y > u64::MAX {
        u64::MAX
    } else {
        (x + y) as u64
    }
}

pub open spec fn sat_sub(x: u64, y: u64) -> u64 {
    if x < y {
        0
    } else {
        (x - y) as u64
    }
}

/// The account `b` after reserving `tokens` and `cost` under identifier
/// `id` in account `a`.
pub open spec fn reserved_from(a: AccountView, b: AccountView, tokens: u64, cost: u64, id: u128, now: i64) -> bool {
    b == AccountView {
        reserved_tokens: sat_add(a.reserved_tokens, tokens),
        reserved_cost: sat_add(a.reserved_cost, cost),
        active: if a.active == u32::MAX {
            u32::MAX
        } else {
            (a.active + 1) as u32
        },
        reservations: a.reservations.insert(
            id,
            ActiveReservation { reserved_tokens: tokens, reserved_cost_micro_usd: cost, created_at: now },
        ),
        updated_at: now,
        ..a
    }
}

/// The account `b` after releasing reservation `id` of account `a`,
/// charging `tokens` and `cost` as used.
pub open spec fn released_from(a: AccountView, b: AccountView, id: u128, tokens: u64, cost: u64, now: i64) -> bool {
    let r = a.reservations[id];
    b == AccountView {
        reserved_tokens: sat_sub(a.reserved_tokens, r.reserved_tokens),
        reserved_cost: sat_sub(a.reserved_cost, r.reserved_cost_micro_usd),
        active: if a.active == 0 {
            0
        } else {
            (a.active - 1) as u32
        },
        used_tokens: sat_add(a.used_tokens, tokens),
        used_cost: sat_add(a.used_cost, cost),
        reservations: a.reservations.remove(id),
        updated_at: now,
        ..a
    }
}

fn budget_exceeded(budget_type: &str, limit: String, used: String) -> (r: DomainError)
    ensures
        exceeded(r, (budget_type@, limit@, used@)),
{
    DomainError::BudgetExceeded { budget_type: budget_type.to_string(), limit, used }
}

fn reservation_not_found() -> (r: DomainError)
    ensures
        r matches DomainError::NotFound(m) && m@ == "active reservation not found"@,
{
    DomainError::NotFound("active reservation not found".to_string())
}

impl BudgetAccount {
    /// A fresh account with nothing used or reserved.
    pub fn new(scope: BudgetScope, limits: BudgetLimits, now: i64) -> (r: Self)
        ensures
            r@ == (AccountView {
                schema_version: BUDGET_POLICY_SCHEMA_VERSION,
                scope,
                limits,
                used_tokens: 0,
                reserved_tokens: 0,
                used_cost: 0,
                reserved_cost: 0,
                active: 0,
                reservations: Map::empty(),
                last_reset_at: now,
                updated_at: now,
            }),
    {
        BudgetAccount {
            schema_version: BUDGET_POLICY_SCHEMA_VERSION,
            scope,
            limits,
            used_tokens: 0,
            reserved_tokens: 0,
            used_cost_micro_usd: 0,
            reserved_cost_micro_usd: 0,
            active_invocations: 0,
            reservations: HashMap::new(),
            last_reset_at: now,
            updated_at: now,
        }
    }

    /// The schema must be current and the limits valid.
    pub fn validate(&self) -> (r: Result<(), DomainError>)
        ensures
            r is Ok <==> self.schema_version == BUDGET_POLICY_SCHEMA_VERSION && limits_valid(self.limits),
            r matches Err(e) ==> e is Validation,
    {
        if self.schema_version != BUDGET_POLICY_SCHEMA_VERSION {
            return Err(validation_error("unsupported budget policy schema version"));
        }
        self.limits.validate()?;
        Ok(())
    }

    /// Renews consumption when the reset period has elapsed; says whether it
    /// did.
    pub fn reset_if_needed(&mut self, now: i64) -> (r: bool)
        ensures
            r == reset_due(old(self).limits.reset_period, old(self).last_reset_at, now),
            final(self)@ == after_reset(old(self)@, now),
    {
        let due = reset_due_exec(self.limits.reset_period, self.last_reset_at, now);
        if due {
            self.used_tokens = 0;
            self.used_cost_micro_usd = 0;
            self.last_reset_at = now;
            self.updated_at = now;
        }
        due
    }

    /// Whether `tokens` and `cost_micro_usd` more fit beside what is used
    /// and reserved, without allocating anything.
    pub fn check_availability(&self, tokens: u64, cost_micro_usd: u64) -> (r: Result<(), DomainError>)
        ensures
            match availability_fault(self@, tokens, cost_micro_usd) {
                Some(f) => r matches Err(e) && exceeded(e, f),
                None => r is Ok,
            },
    {
        let total_tokens = match self.used_tokens.checked_add(self.reserved_tokens) {
            Some(sum) => sum.checked_add(tokens),
            None => None,
        };
        let total_tokens = match total_tokens {
            Some(t) => t,
            None => {
                return Err(
                    budget_exceeded(
                        "tokens_overflow",
                        to_decimal_u64(self.limits.max_tokens),
                        "overflow".to_string(),
                    ),
                );
            },
        };
        if total_tokens > self.limits.max_tokens {
            return Err(
                budget_exceeded(
                    "tokens",
                    to_decimal_u64(self.limits.max_tokens),
                    to_decimal_u64(total_tokens),
                ),
            );
        }
        let total_cost = match self.used_cost_micro_usd.checked_add(self.reserved_cost_micro_usd) {
            Some(sum) => sum.checked_add(cost_micro_usd),
            None => None,
        };
        let total_cost = match total_cost {
            Some(t) => t,
            None => {
                return Err(
                    budget_exceeded(
                        "cost_overflow",
                        to_decimal_u64(self.limits.max_cost_micro_usd),
                        "overflow".to_string(),
                    ),
                );
            },
        };
        if total_cost > self.limits.max_cost_micro_usd {
            return Err(
                budget_exceeded(
                    "cost_micro_usd",
                    to_decimal_u64(self.limits.max_cost_micro_usd),
                    to_decimal_u64(total_cost),
                ),
            );
        }
        Ok(())
    }

    /// Reserves budget before asynchronous work starts, after any periodic
    /// reset; refused when it does not fit or every parallel slot is taken.
    pub fn reserve(&mut self, tokens: u64, cost_micro_usd: u64, now: i64) -> (r: Result<
        ReservationId,
        DomainError,
    >)
        ensures
            ({
                let a = after_reset(old(self)@, now);
                match availability_fault(a, tokens, cost_micro_usd) {
                    Some(f) => r matches Err(e) && exceeded(e, f) && final(self)@ == a,
                    None => if a.active >= a.limits.max_parallel_invocations {
                        &&& r matches Err(e) && exceeded(
                            e,
                            (
                                "parallel_invocations"@,
                                decimal(a.limits.max_parallel_invocations as nat),
                                decimal((a.active + 1) as nat),
                            ),
                        )
                        &&& final(self)@ == a
                    } else {
                        r matches Ok(id) && reserved_from(a, final(self)@, tokens, cost_micro_usd, id.0, now)
                            && is_v4(id.0)
                    },
                }
            }),
    {
        broadcast use vstd::std_specs::hash::group_hash_axioms;
        self.reset_if_needed(now);
        self.check_availability(tokens, cost_micro_usd)?;
        if self.active_invocations >= self.limits.max_parallel_invocations {
            return Err(
                budget_exceeded(
                    "parallel_invocations",
                    to_decimal_u64(self.limits.max_parallel_invocations as u64),
                    to_decimal_u64(self.active_invocations as u64 + 1),
                ),
            );
        }
        let reservation_id = ReservationId::new();
        self.reserved_tokens = self.reserved_tokens.saturating_add(tokens);
        self.reserved_cost_micro_usd = self.reserved_cost_micro_usd.saturating_add(cost_micro_usd);
        self.active_invocations = self.active_invocations.saturating_add(1);
        self.reservations.insert(
            reservation_id.0,
            ActiveReservation {
                reserved_tokens: tokens,
                reserved_cost_micro_usd: cost_micro_usd,
                created_at: now,
            },
        );
        self.updated_at = now;
        Ok(reservation_id)
    }

    /// Charges the actual consumption of a reservation and releases it.
    pub fn commit(
        &mut self,
        reservation_id: ReservationId,
        actual_tokens: u64,
        actual_cost_micro_usd: u64,
        now: i64,
    ) -> (r: Result<(), DomainError>)
        ensures
            old(self)@.reservations.contains_key(reservation_id.0) ==> r is Ok && released_from(
                old(self)@,
                final(self)@,
                reservation_id.0,
                actual_tokens,
                actual_cost_micro_usd,
                now,
            ),
            !old(self)@.reservations.contains_key(reservation_id.0) ==> (r matches Err(e)
                && e matches DomainError::NotFound(m) && m@ == "active reservation not found"@)
                && final(self)@ == old(self)@,
    {
        broadcast use vstd::std_specs::hash::group_hash_axioms;
        let reservation = match self.reservations.remove(&reservation_id.0) {
            Some(x) => x,
            None => {
                assert(self.reservations@ =~= old(self).reservations@);
                return Err(reservation_not_found());
            },
        };
        self.reserved_tokens = self.reserved_tokens.saturating_sub(reservation.reserved_tokens);
        self.reserved_cost_micro_usd = self.reserved_cost_micro_usd.saturating_sub(
            reservation.reserved_cost_micro_usd,
        );
        self.active_invocations = self.active_invocations.saturating_sub(1);
        self.used_tokens = self.used_tokens.saturating_add(actual_tokens);
        self.used_cost_micro_usd = self.used_cost_micro_usd.saturating_add(actual_cost_micro_usd);
        self.updated_at = now;
        Ok(())
    }

    /// Returns a reservation in full after a cancellation or failure.
    pub fn refund(&mut self, reservation_id: ReservationId, now: i64) -> (r: Result<(), DomainError>)
        ensures
            old(self)@.reservations.contains_key(reservation_id.0) ==> r is Ok && released_from(
                old(self)@,
                final(self)@,
                reservation_id.0,
                0,
                0,
                now,
            ),
            !old(self)@.reservations.contains_key(reservation_id.0) ==> (r matches Err(e)
                && e matches DomainError::NotFound(m) && m@ == "active reservation not found"@)
                && final(self)@ == old(self)@,
    {
        broadcast use vstd::std_specs::hash::group_hash_axioms;
        let reservation = match self.reservations.remove(&reservation_id.0) {
            Some(x) => x,
            None => {
                assert(self.reservations@ =~= old(self).reservations@);
                return Err(reservation_not_found());
            },
        };
        self.reserved_tokens = self.reserved_tokens.saturating_sub(reservation.reserved_tokens);
        self.reserved_cost_micro_usd = self.reserved_cost_micro_usd.saturating_sub(
            reservation.reserved_cost_micro_usd,
        );
        self.active_invocations = self.active_invocations.saturating_sub(1);
        self.updated_at = now;
        proof {
            assert(sat_add(old(self).used_tokens, 0) == old(self).used_tokens);
        }
        Ok(())
    }

    /// Consumes budget directly, without a reservation, after any periodic
    /// reset; refused when it does not fit.
    pub fn direct_consume(&mut self, tokens: u64, cost_micro_usd: u64, now: i64) -> (r: Result<
        (),
        DomainError,
    >)
        ensures
            ({
                let a = after_reset(old(self)@, now);
                match availability_fault(a, tokens, cost_micro_usd) {
                    Some(f) => r matches Err(e) && exceeded(e, f) && final(self)@ == a,
                    None => r is Ok && final(self)@ == AccountView {
                        used_tokens: sat_add(a.used_tokens, tokens),
                        used_cost: sat_add(a.used_cost, cost_micro_usd),
                        updated_at: now,
                        ..a
                    },
                }
            }),
    {
        self.reset_if_needed(now);
        self.check_availability(tokens, cost_micro_usd)?;
        self.used_tokens = self.used_tokens.saturating_add(tokens);
        self.used_cost_micro_usd = self.used_cost_micro_usd.saturating_add(cost_micro_usd);
        self.updated_at = now;
        Ok(())
    }
}

/// Refunding a reservation right after making it restores the account:
/// what was reserved, the parallel slot and the set of reservations come
/// back exactly, and nothing is charged as used.
pub proof fn law_refund_undoes_reserve(
    a: AccountView,
    b: AccountView,
    c: AccountView,
    id: u128,
    tokens: u64,
    cost: u64,
    now: i64,
    later: i64,
)
    requires
        availability_fault(a, tokens, cost) is None,
        a.active < a.limits.max_parallel_invocations,
        !a.reservations.contains_key(id),
        reserved_from(a, b, tokens, cost, id, now),
        released_from(b, c, id, 0, 0, later),
    ensures
        c == (AccountView { updated_at: later, ..a }),
{
    assert(b.reservations.contains_key(id));
    assert(c.reservations =~= a.reservations);
}

/// Committing a reservation right after making it charges exactly the
/// actual consumption: the reservation is released in full and the
/// actual amounts are added to what is used.
pub proof fn law_commit_charges_actual_usage(
    a: AccountView,
    b: AccountView,
    c: AccountView,
    id: u128,
    tokens: u64,
    cost: u64,
    actual_tokens: u64,
    actual_cost: u64,
    now: i64,
    later: i64,
)
    requires
        availability_fault(a, tokens, cost) is None,
        a.active < a.limits.max_parallel_invocations,
        !a.reservations.contains_key(id),
        reserved_from(a, b, tokens, cost, id, now),
        released_from(b, c, id, actual_tokens, actual_cost, later),
    ensures
        c == (AccountView {
            used_tokens: sat_add(a.used_tokens, actual_tokens),
            used_cost: sat_add(a.used_cost, actual_cost),
            updated_at: later,
            ..a
        }),
{
    assert(b.reservations.contains_key(id));
    assert(c.reservations =~= a.reservations);
}

/// A successful reservation never takes an account past its limits: used
/// and reserved tokens and cost stay within their maxima, and the active
/// invocations within the parallel limit.
pub proof fn law_reservations_stay_within_limits(
    a: AccountView,
    b: AccountView,
    tokens: u64,
    cost: u64,
    id: u128,
    now: i64,
)
    requires
        availability_fault(a, tokens, cost) is None,
        a.active < a.limits.max_parallel_invocations,
        reserved_from(a, b, tokens, cost, id, now),
    ensures
        b.used_tokens + b.reserved_tokens <= b.limits.max_tokens,
        b.used_cost + b.reserved_cost <= b.limits.max_cost_micro_usd,
        b.active <= b.limits.max_parallel_invocations,
{
}

/// Direct consumption that is accepted keeps used and reserved amounts
/// within the limits.
pub proof fn law_consumption_stays_within_limits(a: AccountView, tokens: u64, cost: u64)
    requires
        availability_fault(a, tokens, cost) is None,
    ensures
        sat_add(a.used_tokens, tokens) + a.reserved_tokens <= a.limits.max_tokens,
        sat_add(a.used_cost, cost) + a.reserved_cost <= a.limits.max_cost_micro_usd,
{
}

// ---------------------------------------------------------------------------
// Hierarchies
// ---------------------------------------------------------------------------
/// Budget accounts across several scopes (project, agent, session, ...),
/// one account per scope, in the order they were created.
#[derive(Debug, Clone)]
pub struct BudgetHierarchyTracker {
    accounts: Vec<BudgetAccount>,
}

pub open spec fn has_scope(s: Seq<BudgetAccount>, scope: BudgetScope) -> bool {
    exists|i: int| 0 <= i < s.len() && #[trigger] s[i].scope == scope
}

pub open spec fn is_first_with(s: Seq<BudgetAccount>, scope: BudgetScope, i: int) -> bool {
    0 <= i < s.len() && s[i].scope == scope && forall|k: int| 0 <= k < i ==> #[trigger] s[k].scope != scope
}

/// The position of the account of `scope`.
pub open spec fn scope_position(s: Seq<BudgetAccount>, scope: BudgetScope) -> int {
    choose|i: int| is_first_with(s, scope, i)
}

proof fn lemma_first_with(s: Seq<BudgetAccount>, scope: BudgetScope, i: int)
    requires
        is_first_with(s, scope, i),
    ensures
        scope_position(s, scope) == i,
        has_scope(s, scope),
{
    let j = scope_position(s, scope);
    assert(is_first_with(s, scope, j));
    if j < i {
        assert(s[j].scope != scope);
    } else if i < j {
        assert(s[i].scope != scope);
    }
}

/// Why `tokens` and `cost` more do not fit in the account of `scope`, if
/// it has one.
pub open spec fn scope_fault(s: Seq<BudgetAccount>, scope: BudgetScope, tokens: u64, cost: u64) -> Option<
    (Seq<char>, Seq<char>, Seq<char>),
> {
    if has_scope(s, scope) {
        availability_fault(s[scope_position(s, scope)]@, tokens, cost)
    } else {
        None
    }
}

/// The first fault among the first `n` scopes.
pub open spec fn hierarchy_fault(
    s: Seq<BudgetAccount>,
    scopes: Seq<BudgetScope>,
    tokens: u64,
    cost: u64,
    n: int,
) -> Option<(Seq<char>, Seq<char>, Seq<char>)>
    decreases n,
{
    if n <= 0 {
        None
    } else {
        let prev = hierarchy_fault(s, scopes, tokens, cost, n - 1);
        if prev is Some {
            prev
        } else {
            scope_fault(s, scopes[n - 1], tokens, cost)
        }
    }
}

proof fn lemma_hierarchy_fault_stable(
    s: Seq<BudgetAccount>,
    scopes: Seq<BudgetScope>,
    tokens: u64,
    cost: u64,
    i: int,
    n: int,
)
    requires
        0 <= i <= n,
        hierarchy_fault(s, scopes, tokens, cost, i) is Some,
    ensures
        hierarchy_fault(s, scopes, tokens, cost, n) == hierarchy_fault(s, scopes, tokens, cost, i),
    decreases n - i,
{
    if i < n {
        lemma_hierarchy_fault_stable(s, scopes, tokens, cost, i, n - 1);
    }
}

impl BudgetHierarchyTracker {
    pub closed spec fn accounts_of(&self) -> Seq<BudgetAccount> {
        self.accounts@
    }

    /// A tracker without accounts.
    pub fn new() -> (r: Self)
        ensures
            r.accounts_of().len() == 0,
    {
        BudgetHierarchyTracker { accounts: Vec::new() }
    }

    fn position(&self, scope: &BudgetScope) -> (r: Option<usize>)
        ensures
            match r {
                Some(i) => is_first_with(self.accounts@, *scope, i as int),
                None => !has_scope(self.accounts@, *scope),
            },
    {
        let mut i: usize = 0;
        while i < self.accounts.len()
            invariant
                i <= self.accounts@.len(),
                forall|k: int| 0 <= k < i ==> #[trigger] self.accounts@[k].scope != *scope,
            decreases self.accounts@.len() - i,
        {
            if self.accounts[i].scope == *scope {
                return Some(i);
            }
            i = i + 1;
        }
        None
    }

    /// The account of `scope`, created with `limits` at `now` when the scope
    /// has none yet.
    pub fn get_or_create(&mut self, scope: BudgetScope, limits: BudgetLimits, now: i64) -> (r:
        &mut BudgetAccount)
        ensures
            has_scope(old(self).accounts_of(), scope) ==> {
                let i = scope_position(old(self).accounts_of(), scope);
                &&& *r == old(self).accounts_of()[i]
                &&& final(self).accounts_of() == old(self).accounts_of().update(i, *final(r))
            },
            !has_scope(old(self).accounts_of(), scope) ==> {
                let i = old(self).accounts_of().len() as int;
                &&& (*r)@ == BudgetAccount::new_view(scope, limits, now)
                &&& final(self).accounts_of().len() == i + 1
                &&& final(self).accounts_of().take(i) == old(self).accounts_of()
                &&& final(self).accounts_of()[i] == *final(r)
            },
    {
        match self.position(&scope) {
            Some(i) => {
                proof {
                    lemma_first_with(self.accounts@, scope, i as int);
                }
                &mut self.accounts[i]
            },
            None => {
                let account = BudgetAccount::new(scope, limits, now);
                self.accounts.push(account);
                let last = self.accounts.len() - 1;
                &mut self.accounts[last]
            },
        }
    }

    /// Whether `tokens` and `cost_micro_usd` fit in every listed scope that
    /// has an account; the first scope that refuses decides the error.
    pub fn check_hierarchy(&self, scopes: &[BudgetScope], tokens: u64, cost_micro_usd: u64) -> (r:
        Result<(), DomainError>)
        ensures
            match hierarchy_fault(self.accounts_of(), scopes@, tokens, cost_micro_usd, scopes@.len() as int) {
                Some(f) => r matches Err(e) && exceeded(e, f),
                None => r is Ok,
            },
    {
        let mut k: usize = 0;
        while k < scopes.len()
            invariant
                k <= scopes@.len(),
                hierarchy_fault(self.accounts@, scopes@, tokens, cost_micro_usd, k as int) is None,
            decreases scopes@.len() - k,
        {
            match self.position(&scopes[k]) {
                Some(i) => {
                    proof {
                        lemma_first_with(self.accounts@, scopes@[k as int], i as int);
                    }
                    match self.accounts[i].check_availability(tokens, cost_micro_usd) {
                        Ok(()) => {},
                        Err(e) => {
                            proof {
                                lemma_hierarchy_fault_stable(
                                    self.accounts@,
                                    scopes@,
                                    tokens,
                                    cost_micro_usd,
                                    k + 1,
                                    scopes@.len() as int,
                                );
                            }
                            return Err(e);
                        },
                    }
                },
                None => {},
            }
            k = k + 1;
        }
        Ok(())
    }
}

impl Default for BudgetHierarchyTracker {
    fn default() -> (r: Self)
        ensures
            r.accounts_of().len() == 0,
    {
        BudgetHierarchyTracker::new()
    }
}

impl BudgetAccount {
    /// The view of a freshly created account.
    pub open spec fn new_view(scope: BudgetScope, limits: BudgetLimits, now: i64) -> AccountView {
        AccountView {
            schema_version: BUDGET_POLICY_SCHEMA_VERSION,
            scope,
            limits,
            used_tokens: 0,
            reserved_tokens: 0,
            used_cost: 0,
            reserved_cost: 0,
            active: 0,
            reservations: Map::empty(),
            last_reset_at: now,
            updated_at: now,
        }
    }
}

} // verus!
