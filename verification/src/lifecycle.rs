//! Ordered desktop boot milestones. `ApplicationReady` is reachable only after
//! every earlier stage, in order, and only while no failure was recorded.
use vstd::prelude::*;
use vstd::string::StringExecFns;

verus! {

pub const MAIN_WINDOW_LABEL: &'static str = "main";

#[derive(Debug, Clone, Copy, PartialEq, Eq, Structural)]
pub enum StartupStage {
    Booting,
    StorageReady,
    RuntimeReady,
    WindowCreated,
    WebviewReady,
    FrontendReady,
    ApplicationReady,
}

#[derive(Debug, Clone, Copy, PartialEq, Eq, Structural)]
pub enum StartupErrorCode {
    InvalidTransition,
    StorageInitialization,
    RuntimeInitialization,
    WindowCreation,
    WebviewInitialization,
    FrontendHandshake,
    StartupTimeout,
}

/// Bounded, structured startup failure.
#[derive(Debug, Clone, PartialEq, Eq)]
pub struct StartupFailure {
    pub stage: StartupStage,
    pub code: StartupErrorCode,
    pub cause: String,
}

#[derive(Debug, Clone, PartialEq, Eq)]
pub struct StartupSnapshot {
    pub stage: StartupStage,
    pub ready_emitted: bool,
    pub failure: Option<StartupFailure>,
}

/// Lifecycle state shared by setup, WebView callbacks and the frontend
/// handshake.
#[derive(Debug)]
pub struct StartupState {
    stage: StartupStage,
    ready_emitted: bool,
    failure: Option<StartupFailure>,
}

#[derive(Debug, Clone)]
pub struct FrontendReadyResponse {
    pub stage: StartupStage,
}

/// Position of a stage in the boot order.
pub open spec fn stage_index(s: StartupStage) -> int {
    match s {
        StartupStage::Booting => 0,
        StartupStage::StorageReady => 1,
        StartupStage::RuntimeReady => 2,
        StartupStage::WindowCreated => 3,
        StartupStage::WebviewReady => 4,
        StartupStage::FrontendReady => 5,
        StartupStage::ApplicationReady => 6,
    }
}

pub open spec fn next_stage(s: StartupStage) -> Option<StartupStage> {
    match s {
        StartupStage::Booting => Some(StartupStage::StorageReady),
        StartupStage::StorageReady => Some(StartupStage::RuntimeReady),
        StartupStage::RuntimeReady => Some(StartupStage::WindowCreated),
        StartupStage::WindowCreated => Some(StartupStage::WebviewReady),
        StartupStage::WebviewReady => Some(StartupStage::FrontendReady),
        StartupStage::FrontendReady => Some(StartupStage::ApplicationReady),
        StartupStage::ApplicationReady => None,
    }
}

/// The variant name of a stage, as its debug form prints it.
pub open spec fn stage_name(s: StartupStage) -> Seq<char> {
    match s {
        StartupStage::Booting => "Booting"@,
        StartupStage::StorageReady => "StorageReady"@,
        StartupStage::RuntimeReady => "RuntimeReady"@,
        StartupStage::WindowCreated => "WindowCreated"@,
        StartupStage::WebviewReady => "WebviewReady"@,
        StartupStage::FrontendReady => "FrontendReady"@,
        StartupStage::ApplicationReady => "ApplicationReady"@,
    }
}

pub open spec fn optional_stage_name(s: Option<StartupStage>) -> Seq<char> {
    match s {
        Some(x) => "Some("@ + stage_name(x) + ")"@,
        None => "None"@,
    }
}

/// The cause recorded when `attempted` does not follow `current`.
pub open spec fn transition_cause(current: StartupStage, attempted: StartupStage) -> Seq<char> {
    "expected "@ + optional_stage_name(next_stage(current)) + ", attempted "@ + stage_name(
        attempted,
    )
}

pub open spec fn transition_failure_ok(
    f: StartupFailure,
    current: StartupStage,
    attempted: StartupStage,
) -> bool {
    &&& f.stage == current
    &&& f.code == StartupErrorCode::InvalidTransition
    &&& f.cause@ == transition_cause(current, attempted)
}

pub open spec fn stage_external_name(s: StartupStage) -> Seq<char> {
    match s {
                StartupStage::Booting => "BOOTING"@,
                StartupStage::StorageReady => "STORAGE_READY"@,
                StartupStage::RuntimeReady => "RUNTIME_READY"@,
                StartupStage::WindowCreated => "WINDOW_CREATED"@,
                StartupStage::WebviewReady => "WEBVIEW_READY"@,
                StartupStage::FrontendReady => "FRONTEND_READY"@,
                StartupStage::ApplicationReady => "APPLICATION_READY"@,
            }
}

pub open spec fn code_external_name(s: StartupErrorCode) -> Seq<char> {
    match s {
                StartupErrorCode::InvalidTransition => "INVALID_TRANSITION"@,
                StartupErrorCode::StorageInitialization => "STORAGE_INITIALIZATION"@,
                StartupErrorCode::RuntimeInitialization => "RUNTIME_INITIALIZATION"@,
                StartupErrorCode::WindowCreation => "WINDOW_CREATION"@,
                StartupErrorCode::WebviewInitialization => "WEBVIEW_INITIALIZATION"@,
                StartupErrorCode::FrontendHandshake => "FRONTEND_HANDSHAKE"@,
                StartupErrorCode::StartupTimeout => "STARTUP_TIMEOUT"@,
            }
}

impl StartupStage {
    /// The stage that follows this one, if any.
    pub fn next(self) -> (r: Option<StartupStage>)
        ensures
            r == next_stage(self),
    {
        match self {
            StartupStage::Booting => Some(StartupStage::StorageReady),
            StartupStage::StorageReady => Some(StartupStage::RuntimeReady),
            StartupStage::RuntimeReady => Some(StartupStage::WindowCreated),
            StartupStage::WindowCreated => Some(StartupStage::WebviewReady),
            StartupStage::WebviewReady => Some(StartupStage::FrontendReady),
            StartupStage::FrontendReady => Some(StartupStage::ApplicationReady),
            StartupStage::ApplicationReady => None,
        }
    }

    /// The debug name of the stage.
    pub fn debug_name(self) -> (r: &'static str)
        ensures
            r@ == stage_name(self),
    {
        match self {
            StartupStage::Booting => "Booting",
            StartupStage::StorageReady => "StorageReady",
            StartupStage::RuntimeReady => "RuntimeReady",
            StartupStage::WindowCreated => "WindowCreated",
            StartupStage::WebviewReady => "WebviewReady",
            StartupStage::FrontendReady => "FrontendReady",
            StartupStage::ApplicationReady => "ApplicationReady",
        }
    }

    /// The external (screaming snake case) name of the stage.
    pub fn as_str(self) -> (r: &'static str)
        ensures
            r@ == stage_external_name(self),
    {
        match self {
            StartupStage::Booting => "BOOTING",
            StartupStage::StorageReady => "STORAGE_READY",
            StartupStage::RuntimeReady => "RUNTIME_READY",
            StartupStage::WindowCreated => "WINDOW_CREATED",
            StartupStage::WebviewReady => "WEBVIEW_READY",
            StartupStage::FrontendReady => "FRONTEND_READY",
            StartupStage::ApplicationReady => "APPLICATION_READY",
        }
    }
}

impl StartupErrorCode {
    /// The external (screaming snake case) name of the code.
    pub fn as_str(self) -> (r: &'static str)
        ensures
            r@ == code_external_name(self),
    {
        match self {
            StartupErrorCode::InvalidTransition => "INVALID_TRANSITION",
            StartupErrorCode::StorageInitialization => "STORAGE_INITIALIZATION",
            StartupErrorCode::RuntimeInitialization => "RUNTIME_INITIALIZATION",
            StartupErrorCode::WindowCreation => "WINDOW_CREATION",
            StartupErrorCode::WebviewInitialization => "WEBVIEW_INITIALIZATION",
            StartupErrorCode::FrontendHandshake => "FRONTEND_HANDSHAKE",
            StartupErrorCode::StartupTimeout => "STARTUP_TIMEOUT",
        }
    }
}

impl StartupFailure {
    /// An equal copy of the failure.
    pub fn duplicate(&self) -> (r: Self)
        ensures
            r == *self,
    {
        StartupFailure { stage: self.stage, code: self.code, cause: self.cause.clone() }
    }

    /// "startup failed at STAGE (CODE)".
    pub fn message(&self) -> (r: String)
        ensures
            r@ == "startup failed at "@ + stage_external_name(self.stage) + " ("@
                + code_external_name(self.code) + ")"@,
    {
        let mut out = String::from_str("startup failed at ");
        out.append(self.stage.as_str());
        out.append(" (");
        out.append(self.code.as_str());
        out.append(")");
        out
    }
}

fn duplicate_failure(f: &Option<StartupFailure>) -> (r: Option<StartupFailure>)
    ensures
        r == *f,
{
    match f {
        Some(x) => Some(x.duplicate()),
        None => None,
    }
}

fn transition_failure(current: StartupStage, attempted: StartupStage) -> (r: StartupFailure)
    ensures
        transition_failure_ok(r, current, attempted),
{
    let mut cause = String::from_str("expected ");
    match current.next() {
        Some(s) => {
            cause.append("Some(");
            cause.append(s.debug_name());
            cause.append(")");
        },
        None => {
            cause.append("None");
        },
    }
    cause.append(", attempted ");
    cause.append(attempted.debug_name());
    assert(cause@ =~= transition_cause(current, attempted));
    StartupFailure { stage: current, code: StartupErrorCode::InvalidTransition, cause }
}

impl StartupState {
    pub closed spec fn stage_of(&self) -> StartupStage {
        self.stage
    }

    pub closed spec fn ready_of(&self) -> bool {
        self.ready_emitted
    }

    pub closed spec fn failure_of(&self) -> Option<StartupFailure> {
        self.failure
    }

    /// Readiness is only ever emitted at the last stage; every state keeps
    /// this.
    #[verifier::type_invariant]
    pub open spec fn wf(&self) -> bool {
        self.ready_of() ==> self.stage_of() == StartupStage::ApplicationReady
    }

    pub open spec fn snapshot_of(&self) -> StartupSnapshot {
        StartupSnapshot {
            stage: self.stage_of(),
            ready_emitted: self.ready_of(),
            failure: self.failure_of(),
        }
    }

    pub fn new() -> (r: Self)
        ensures
            r.stage_of() == StartupStage::Booting,
            !r.ready_of(),
            r.failure_of() is None,
    {
        StartupState { stage: StartupStage::Booting, ready_emitted: false, failure: None }
    }

    pub fn snapshot(&self) -> (r: StartupSnapshot)
        ensures
            r == self.snapshot_of(),
    {
        StartupSnapshot {
            stage: self.stage,
            ready_emitted: self.ready_emitted,
            failure: duplicate_failure(&self.failure),
        }
    }

    pub fn current_stage(&self) -> (r: StartupStage)
        ensures
            r == self.stage_of(),
    {
        self.stage
    }

    /// Moves to `next` when it directly follows the current stage. A recorded
    /// failure is returned unchanged; an out-of-order stage records and
    /// returns an invalid-transition failure.
    pub fn advance(&mut self, next: StartupStage) -> (r: Result<StartupSnapshot, StartupFailure>)
        ensures
            old(self).failure_of() matches Some(f) ==> r == Err::<StartupSnapshot, _>(f)
                && *final(self) == *old(self),
            old(self).failure_of() is None && next_stage(old(self).stage_of()) != Some(next) ==> {
                &&& r matches Err(f) && transition_failure_ok(f, old(self).stage_of(), next)
                &&& final(self).failure_of() == Some(r->Err_0)
                &&& final(self).stage_of() == old(self).stage_of()
                &&& final(self).ready_of() == old(self).ready_of()
            },
            old(self).failure_of() is None && next_stage(old(self).stage_of()) == Some(next) ==> {
                &&& final(self).stage_of() == next
                &&& final(self).ready_of() == (next == StartupStage::ApplicationReady)
                &&& final(self).failure_of() is None
                &&& r == Ok::<_, StartupFailure>(final(self).snapshot_of())
            },
    {
        proof {
            use_type_invariant(&*self);
        }
        if let Some(f) = &self.failure {
            return Err(f.duplicate());
        }
        if self.stage.next() != Some(next) {
            let failure = transition_failure(self.stage, next);
            self.failure = Some(failure.duplicate());
            return Err(failure);
        }
        self.stage = next;
        self.ready_emitted = next == StartupStage::ApplicationReady;
        Ok(StartupSnapshot { stage: self.stage, ready_emitted: self.ready_emitted, failure: None })
    }

    /// Records the WebView as ready; a no-op once it, or a later stage, was
    /// reached.
    pub fn mark_webview_ready(&mut self) -> (r: Result<StartupSnapshot, StartupFailure>)
        ensures
            old(self).failure_of() matches Some(f) ==> r == Err::<StartupSnapshot, _>(f)
                && *final(self) == *old(self),
            old(self).failure_of() is None && stage_index(old(self).stage_of()) >= 4 ==> r
                == Ok::<_, StartupFailure>(old(self).snapshot_of()) && *final(self)
                == *old(self),
            old(self).failure_of() is None && old(self).stage_of()
                == StartupStage::WindowCreated ==> {
                &&& final(self).stage_of() == StartupStage::WebviewReady
                &&& !final(self).ready_of()
                &&& final(self).failure_of() is None
                &&& r == Ok::<_, StartupFailure>(final(self).snapshot_of())
            },
            old(self).failure_of() is None && stage_index(old(self).stage_of()) < 3 ==> {
                &&& r matches Err(f) && transition_failure_ok(
                    f,
                    old(self).stage_of(),
                    StartupStage::WebviewReady,
                )
                &&& final(self).failure_of() == Some(r->Err_0)
                &&& final(self).stage_of() == old(self).stage_of()
            },
    {
        proof {
            use_type_invariant(&*self);
        }
        if let Some(f) = &self.failure {
            return Err(f.duplicate());
        }
        match self.stage {
            StartupStage::WebviewReady | StartupStage::FrontendReady
            | StartupStage::ApplicationReady => {
                return Ok(self.snapshot());
            },
            _ => {},
        }
        self.advance(StartupStage::WebviewReady)
    }

    /// Completes the frontend handshake. A successful typed IPC call proves
    /// the WebView loaded, so from `WindowCreated` the WebView stage is taken
    /// on the way; from `WebviewReady` the state reaches `ApplicationReady`.
    pub fn acknowledge_frontend(&mut self) -> (r: Result<StartupSnapshot, StartupFailure>)
        ensures
            old(self).failure_of() matches Some(f) ==> r == Err::<StartupSnapshot, _>(f)
                && *final(self) == *old(self),
            old(self).failure_of() is None && old(self).stage_of()
                == StartupStage::ApplicationReady ==> r == Ok::<_, StartupFailure>(
                old(self).snapshot_of(),
            ) && *final(self) == *old(self),
            old(self).failure_of() is None && (old(self).stage_of() == StartupStage::WindowCreated
                || old(self).stage_of() == StartupStage::WebviewReady) ==> {
                &&& final(self).stage_of() == StartupStage::ApplicationReady
                &&& final(self).ready_of()
                &&& final(self).failure_of() is None
                &&& r == Ok::<_, StartupFailure>(final(self).snapshot_of())
            },
            old(self).failure_of() is None && (stage_index(old(self).stage_of()) < 3
                || old(self).stage_of() == StartupStage::FrontendReady) ==> {
                &&& r matches Err(f) && transition_failure_ok(
                    f,
                    old(self).stage_of(),
                    StartupStage::FrontendReady,
                )
                &&& final(self).failure_of() == Some(r->Err_0)
                &&& final(self).stage_of() == old(self).stage_of()
                &&& !final(self).ready_of()
            },
    {
        proof {
            use_type_invariant(&*self);
        }
        if let Some(f) = &self.failure {
            return Err(f.duplicate());
        }
        if self.stage == StartupStage::ApplicationReady {
            return Ok(self.snapshot());
        }
        if self.stage == StartupStage::WindowCreated {
            match self.advance(StartupStage::WebviewReady) {
                Ok(_) => {},
                Err(f) => {
                    return Err(f);
                },
            }
        }
        match self.advance(StartupStage::FrontendReady) {
            Ok(_) => {},
            Err(f) => {
                return Err(f);
            },
        }
        self.advance(StartupStage::ApplicationReady)
    }

    /// Records a failure unless one is already recorded, in which case the
    /// first one is kept and returned. Readiness is withdrawn.
    pub fn fail(&mut self, stage: StartupStage, code: StartupErrorCode, cause: String) -> (r:
        StartupFailure)
        ensures
            old(self).failure_of() matches Some(f) ==> r == f && *final(self) == *old(self),
            old(self).failure_of() is None ==> {
                &&& r == StartupFailure { stage, code, cause }
                &&& final(self).failure_of() == Some(r)
                &&& !final(self).ready_of()
                &&& final(self).stage_of() == old(self).stage_of()
            },
    {
        proof {
            use_type_invariant(&*self);
        }
        if let Some(f) = &self.failure {
            return f.duplicate();
        }
        let failure = StartupFailure { stage, code, cause };
        self.failure = Some(failure.duplicate());
        self.ready_emitted = false;
        failure
    }

    pub fn is_application_ready(&self) -> (r: bool)
        ensures
            r == (self.stage_of() == StartupStage::ApplicationReady && self.failure_of() is None
                && self.ready_of()),
    {
        self.stage == StartupStage::ApplicationReady && self.failure.is_none()
            && self.ready_emitted
    }
}

impl Default for StartupState {
    fn default() -> (r: Self)
        ensures
            r.stage_of() == StartupStage::Booting,
            !r.ready_of(),
            r.failure_of() is None,
    {
        StartupState::new()
    }
}

/// Stages follow one another strictly: each stage but the last has exactly
/// one successor, one position later.
pub proof fn law_stages_advance_one_at_a_time(s: StartupStage)
    ensures
        next_stage(s) matches Some(n) ==> stage_index(n) == stage_index(s) + 1,
        next_stage(s) is None <==> s == StartupStage::ApplicationReady,
{
}

/// A state that holds a failure is never application-ready, and its
/// snapshot reports that failure; the operations above keep the first
/// failure and return it unchanged.
pub proof fn law_failed_state_is_never_ready(st: StartupState, f: StartupFailure)
    requires
        st.failure_of() == Some(f),
    ensures
        st.snapshot_of().failure == Some(f),
        !(st.stage_of() == StartupStage::ApplicationReady && st.failure_of() is None
            && st.ready_of()),
{
}

/// The variable that points the database at a test directory.
pub const E2E_APP_DATA_ENV: &'static str = "HANK_E2E_APP_DATA_DIR";

/// The variable that lets a release test build use that directory.
pub const E2E_RELEASE_DATA_OPT_IN_ENV: &'static str = "HANK_E2E_ALLOW_RELEASE_DATA_DIR";

/// The database file's name inside its directory.
pub const DATABASE_FILE: &'static str = "hank.db";

/// Where the database lives.
#[derive(Debug, Clone, Copy, PartialEq, Eq, Structural)]
pub enum DataLocation {
    /// The platform's application data directory.
    AppData,
    /// The directory the test override names.
    Override,
}

/// Why the test override was refused.
#[derive(Debug, Clone, Copy, PartialEq, Eq, Structural)]
pub enum DataLocationError {
    /// A release build asked for the override without the explicit opt-in.
    PermissionDenied,
}

/// The message of a refused override.
pub fn data_location_message(e: DataLocationError) -> (r: &'static str)
    ensures
        r@ == "HANK_E2E_APP_DATA_DIR requires explicit E2E opt-in for release test builds"@,
{
    match e {
        DataLocationError::PermissionDenied => "HANK_E2E_APP_DATA_DIR requires explicit E2E opt-in for release test builds",
    }
}

/// Where the database lives: the override directory when one is named, which a
/// release build accepts only with the opt-in set to `1`; else the platform's
/// application data directory.
pub fn data_location(override_named: bool, debug_build: bool, release_opt_in: Option<&str>) -> (r:
    Result<DataLocation, DataLocationError>)
    ensures
        !override_named ==> r == Ok::<DataLocation, DataLocationError>(DataLocation::AppData),
        override_named && (debug_build || (release_opt_in matches Some(v) && v@ == "1"@)) ==> r
            == Ok::<DataLocation, DataLocationError>(DataLocation::Override),
        override_named && !(debug_build || (release_opt_in matches Some(v) && v@ == "1"@)) ==> r
            == Err::<DataLocation, DataLocationError>(DataLocationError::PermissionDenied),
{
    if !override_named {
        return Ok(DataLocation::AppData);
    }
    let opted_in = match release_opt_in {
        Some(v) => crate::text::same_text(v, "1"),
        None => false,
    };
    if !debug_build && !opted_in {
        return Err(DataLocationError::PermissionDenied);
    }
    Ok(DataLocation::Override)
}

} // verus!
