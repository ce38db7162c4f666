//! The scheduler bridge's boundary shapes: job inputs, bounded listings,
//! and the names and values a job is shown with.
use crate::digest::{decimal, to_decimal_u64};
use vstd::prelude::*;
use vstd::string::StringExecFns;

verus! {

/// Most jobs a listing returns.
pub const MAX_JOB_PAGE: u32 = 100;

/// Jobs a listing returns when it does not say.
pub const DEFAULT_JOB_PAGE: u32 = 50;

/// A scheduler error as the desktop shell receives it.
#[derive(Debug, Clone)]
pub struct SchedulerBridgeError {
    pub code: &'static str,
    pub message: String,
}

/// A scheduler error with a stable code and a message.
pub fn scheduler_error(code: &'static str, message: &str) -> (r: SchedulerBridgeError)
    ensures
        r.code == code,
        r.message@ == message@,
{
    SchedulerBridgeError { code, message: message.to_string() }
}

#[derive(Debug, Clone, PartialEq, Eq)]
pub enum TriggerInput {
    OneShot { at_ms: u64 },
    Interval { seconds: u64 },
    Cron { expression: String },
    Event { name: String },
    Dependency { job_id: String },
}

#[derive(Debug, Clone, PartialEq, Eq)]
pub enum TargetInput {
    Workflow { id: String, version: u32 },
    Agent { id: String, version: u32 },
    Tool { id: String, version: u32 },
}

#[derive(Debug, Clone, Copy, PartialEq, Eq, Structural)]
pub enum MissedRunPolicyInput {
    Skip,
    CatchUp,
    Pause,
}

#[derive(Debug, Clone)]
pub struct ScheduledJobInput {
    pub project_id: String,
    pub owner_id: String,
    pub job_id: String,
    pub trigger: TriggerInput,
    pub target: TargetInput,
    pub timezone: String,
    pub concurrency_limit: u32,
    pub missed_run_policy: MissedRunPolicyInput,
    pub enabled: Option<bool>,
    pub lifecycle: Option<String>,
    pub expires_at_ms: Option<u64>,
}

#[derive(Debug, Clone)]
pub struct ListScheduledJobsInput {
    pub project_id: String,
    pub owner_id: String,
    pub limit: Option<u32>,
    pub offset: Option<u32>,
}

#[derive(Debug, Clone)]
pub struct UpdateScheduledJobInput {
    pub job: ScheduledJobInput,
    pub expected_revision: u64,
}

#[derive(Debug, Clone)]
pub struct ScheduledJobView {
    pub project_id: String,
    pub job_id: String,
    pub owner_id: String,
    pub trigger_kind: String,
    pub trigger_value: String,
    pub target_kind: String,
    pub target_id: String,
    pub target_version: u32,
    pub timezone: String,
    pub concurrency_limit: u32,
    pub missed_run_policy: String,
    pub enabled: bool,
    pub lifecycle: String,
    pub revision: u64,
    pub expires_at_ms: Option<u64>,
}

/// The page size and offset of a job listing: fifty by default, at most a
/// hundred, from offset zero by default.
pub fn job_page(limit: Option<u32>, offset: Option<u32>) -> (r: (u32, u32))
    ensures
        r.0 == (match limit {
            None => DEFAULT_JOB_PAGE,
            Some(l) => if l > MAX_JOB_PAGE {
                MAX_JOB_PAGE
            } else {
                l
            },
        }),
        r.1 == (match offset {
            None => 0,
            Some(o) => o,
        }),
{
    let l = match limit {
        None => DEFAULT_JOB_PAGE,
        Some(l) => l,
    };
    let o = match offset {
        None => 0,
        Some(o) => o,
    };
    (if l > MAX_JOB_PAGE {
        MAX_JOB_PAGE
    } else {
        l
    }, o)
}

/// The kind and value a trigger is shown with.
pub open spec fn trigger_shown(t: TriggerInput) -> (Seq<char>, Seq<char>) {
    match t {
        TriggerInput::OneShot { at_ms } => ("one_shot"@, decimal(at_ms as nat)),
        TriggerInput::Interval { seconds } => ("interval"@, decimal(seconds as nat)),
        TriggerInput::Cron { expression } => ("cron"@, expression@),
        TriggerInput::Event { name } => ("event"@, name@),
        TriggerInput::Dependency { job_id } => ("dependency"@, job_id@),
    }
}

pub fn trigger_parts(trigger: &TriggerInput) -> (r: (String, String))
    ensures
        (r.0@, r.1@) == trigger_shown(*trigger),
{
    match trigger {
        TriggerInput::OneShot { at_ms } => ("one_shot".to_string(), to_decimal_u64(*at_ms)),
        TriggerInput::Interval { seconds } => ("interval".to_string(), to_decimal_u64(*seconds)),
        TriggerInput::Cron { expression } => ("cron".to_string(), expression.clone()),
        TriggerInput::Event { name } => ("event".to_string(), name.clone()),
        TriggerInput::Dependency { job_id } => ("dependency".to_string(), job_id.clone()),
    }
}

/// The kind, identifier and version a target is shown with.
pub open spec fn target_shown(t: TargetInput) -> (Seq<char>, Seq<char>, u32) {
    match t {
        TargetInput::Workflow { id, version } => ("workflow"@, id@, version),
        TargetInput::Agent { id, version } => ("agent"@, id@, version),
        TargetInput::Tool { id, version } => ("tool"@, id@, version),
    }
}

pub fn target_parts(target: &TargetInput) -> (r: (String, String, u32))
    ensures
        (r.0@, r.1@, r.2) == target_shown(*target),
{
    match target {
        TargetInput::Workflow { id, version } => ("workflow".to_string(), id.clone(), *version),
        TargetInput::Agent { id, version } => ("agent".to_string(), id.clone(), *version),
        TargetInput::Tool { id, version } => ("tool".to_string(), id.clone(), *version),
    }
}

/// The name a missed-run policy is shown with.
pub fn missed_run_policy_name(policy: MissedRunPolicyInput) -> (r: &'static str)
    ensures
        r@ == (match policy {
            MissedRunPolicyInput::Skip => "skip"@,
            MissedRunPolicyInput::CatchUp => "catch_up"@,
            MissedRunPolicyInput::Pause => "pause"@,
        }),
{
    match policy {
        MissedRunPolicyInput::Skip => "skip",
        MissedRunPolicyInput::CatchUp => "catch_up",
        MissedRunPolicyInput::Pause => "pause",
    }
}

} // verus!
