//! A pure, bounded decision to roll back to the last known good version.
use crate::digest::{fingerprint, fingerprint_of};
use crate::text::{same_text, sized_value, is_sized_value};
use vstd::prelude::*;
use vstd::string::StrSliceExecFns;

verus! {

/// The longest identity value, in bytes.
pub const MAX_TEXT: usize = 256;

#[derive(Debug, Clone, Copy, PartialEq, Eq, Structural)]
pub enum RollbackTrigger {
    Crash,
    Regression,
    PermissionRevoked,
}

pub open spec fn trigger_name(t: RollbackTrigger) -> Seq<char> {
    match t {
        RollbackTrigger::Crash => "Crash"@,
        RollbackTrigger::Regression => "Regression"@,
        RollbackTrigger::PermissionRevoked => "PermissionRevoked"@,
    }
}

fn trigger_text(t: RollbackTrigger) -> (r: &'static str)
    ensures
        r@ == trigger_name(t),
{
    match t {
        RollbackTrigger::Crash => "Crash",
        RollbackTrigger::Regression => "Regression",
        RollbackTrigger::PermissionRevoked => "PermissionRevoked",
    }
}

#[derive(Debug, Clone, Copy, PartialEq, Eq, Structural)]
pub enum RollbackError {
    InvalidIdentity,
    NoLastKnownGood,
    PolicyMismatch,
}

pub open spec fn rollback_message(e: RollbackError) -> Seq<char> {
    match e {
        RollbackError::InvalidIdentity => "rollback identity is invalid"@,
        RollbackError::NoLastKnownGood => "no last-known-good version exists"@,
        RollbackError::PolicyMismatch => "rollback policy revision does not match"@,
    }
}

impl RollbackError {
    /// The human-readable description of the error.
    pub fn message(&self) -> (r: &'static str)
        ensures
            r@ == rollback_message(*self),
    {
        match self {
            RollbackError::InvalidIdentity => "rollback identity is invalid",
            RollbackError::NoLastKnownGood => "no last-known-good version exists",
            RollbackError::PolicyMismatch => "rollback policy revision does not match",
        }
    }
}

#[derive(Debug, Clone, PartialEq, Eq)]
pub struct RollbackRequest {
    pub active_version: String,
    pub previous_version: String,
    pub policy_revision: String,
    pub trigger: RollbackTrigger,
}

/// Why a rollback request is refused, if it is.
pub open spec fn request_fault(active: Seq<char>, previous: Seq<char>, policy: Seq<char>) -> Option<
    RollbackError,
> {
    if !sized_value(active, MAX_TEXT as nat) {
        Some(RollbackError::InvalidIdentity)
    } else if previous.len() == 0 {
        Some(RollbackError::NoLastKnownGood)
    } else if !sized_value(policy, MAX_TEXT as nat) {
        Some(RollbackError::InvalidIdentity)
    } else {
        None
    }
}

impl RollbackRequest {
    /// A request to leave `active` for the last known good `previous`.
    pub fn new(active: &str, previous: &str, policy: &str, trigger: RollbackTrigger) -> (r: Result<
        Self,
        RollbackError,
    >)
        ensures
            match request_fault(active@, previous@, policy@) {
                Some(e) => r == Err::<Self, RollbackError>(e),
                None => r matches Ok(q) && q.active_version@ == active@ && q.previous_version@
                    == previous@ && q.policy_revision@ == policy@ && q.trigger == trigger,
            },
    {
        if !is_sized_value(active, MAX_TEXT) {
            return Err(RollbackError::InvalidIdentity);
        }
        if previous.unicode_len() == 0 {
            return Err(RollbackError::NoLastKnownGood);
        }
        if !is_sized_value(policy, MAX_TEXT) {
            return Err(RollbackError::InvalidIdentity);
        }
        Ok(
            RollbackRequest {
                active_version: active.to_string(),
                previous_version: previous.to_string(),
                policy_revision: policy.to_string(),
                trigger,
            },
        )
    }
}

#[derive(Debug, Clone, Copy, PartialEq, Eq, Structural)]
pub enum RollbackStatus {
    Recovered,
    Blocked,
}

#[derive(Debug, Clone, PartialEq, Eq)]
pub struct Rollback {
    status: RollbackStatus,
    previous_version: String,
    rollback_id: String,
    quarantined: bool,
}

/// The text a rollback's identity is computed over.
pub open spec fn rollback_text(q: RollbackRequest) -> Seq<char> {
    q.active_version@ + "|"@ + q.previous_version@ + "|"@ + q.policy_revision@ + "|"@
        + trigger_name(q.trigger)
}

impl Rollback {
    pub closed spec fn status_of(&self) -> RollbackStatus {
        self.status
    }

    pub closed spec fn previous_of(&self) -> Seq<char> {
        self.previous_version@
    }

    pub closed spec fn id_of(&self) -> Seq<char> {
        self.rollback_id@
    }

    pub closed spec fn quarantined_of(&self) -> bool {
        self.quarantined
    }

    /// Recovers to the previous version under the current policy and
    /// quarantines the active one.
    pub fn execute(request: RollbackRequest) -> (r: Result<Self, RollbackError>)
        ensures
            r is Err <==> request.policy_revision@ != "policy-1"@,
            r matches Err(e) ==> e == RollbackError::PolicyMismatch,
            r matches Ok(b) ==> {
                &&& b.status_of() == RollbackStatus::Recovered
                &&& b.previous_of() == request.previous_version@
                &&& b.id_of() == fingerprint_of(vstd::utf8::encode_utf8(rollback_text(request)))
                &&& b.quarantined_of()
            },
    {
        if !same_text(request.policy_revision.as_str(), "policy-1") {
            return Err(RollbackError::PolicyMismatch);
        }
        let mut material = String::new();
        material.append(request.active_version.as_str());
        material.append("|");
        material.append(request.previous_version.as_str());
        material.append("|");
        material.append(request.policy_revision.as_str());
        material.append("|");
        material.append(trigger_text(request.trigger));
        assert(material@ =~= rollback_text(request));
        let id = fingerprint(material.as_str());
        Ok(
            Rollback {
                status: RollbackStatus::Recovered,
                previous_version: request.previous_version,
                rollback_id: id,
                quarantined: true,
            },
        )
    }

    pub fn status(&self) -> (r: RollbackStatus)
        ensures
            r == self.status_of(),
    {
        self.status
    }

    pub fn previous_version(&self) -> (r: &str)
        ensures
            r@ == self.previous_of(),
    {
        self.previous_version.as_str()
    }

    pub fn rollback_id(&self) -> (r: &str)
        ensures
            r@ == self.id_of(),
    {
        self.rollback_id.as_str()
    }

    pub fn quarantined(&self) -> (r: bool)
        ensures
            r == self.quarantined_of(),
    {
        self.quarantined
    }

    /// A rollback never activates anything itself.
    pub fn can_activate(&self) -> (r: bool)
        ensures
            !r,
    {
        false
    }
}

} // verus!
