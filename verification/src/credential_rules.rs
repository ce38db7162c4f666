//! The rules of the durable provider-credential store: how stored account
//! states read back, which project a scope names in the database, how
//! secret-store failures surface, and what connect, status, resolve and
//! disconnect decide from what storage and the secret store answered.
use crate::platform_store::SecretStoreError;
use crate::provider_settings::CredentialServiceError;
use crate::text::{has_prefix, starts_with_text, same_text};
use vstd::prelude::*;
use vstd::string::StrSliceExecFns;

verus! {

pub const STATE_CONNECTED: &'static str = "connected";

pub const STATE_REVOKED: &'static str = "revoked";

pub const STATE_UNAVAILABLE: &'static str = "unavailable";

pub const STATE_ERROR: &'static str = "error";

/// The prefix of a project scope.
pub const SCOPE_PREFIX: &'static str = "project_";

/// The states of a provider account's credential.
#[derive(Debug, Clone, Copy, PartialEq, Eq, Structural)]
pub enum CredentialServiceState {
    Connected,
    Revoked,
    Unavailable,
}

/// The state a stored state text names: connected, revoked, or (for an
/// unavailable or failed account) unavailable; any other text is an
/// internal error.
pub open spec fn stored_state_of(text: Seq<char>) -> Result<CredentialServiceState, CredentialServiceError> {
    if text == STATE_CONNECTED@ {
        Ok(CredentialServiceState::Connected)
    } else if text == STATE_REVOKED@ {
        Ok(CredentialServiceState::Revoked)
    } else if text == STATE_UNAVAILABLE@ || text == STATE_ERROR@ {
        Ok(CredentialServiceState::Unavailable)
    } else {
        Err(CredentialServiceError::Internal)
    }
}

pub fn stored_state(text: &str) -> (r: Result<CredentialServiceState, CredentialServiceError>)
    ensures
        r == stored_state_of(text@),
{
    if same_text(text, STATE_CONNECTED) {
        Ok(CredentialServiceState::Connected)
    } else if same_text(text, STATE_REVOKED) {
        Ok(CredentialServiceState::Revoked)
    } else if same_text(text, STATE_UNAVAILABLE) || same_text(text, STATE_ERROR) {
        Ok(CredentialServiceState::Unavailable)
    } else {
        Err(CredentialServiceError::Internal)
    }
}

/// Whether secret material may be read for a stored account: only a
/// connected one; a revoked one is revoked, an unavailable one unavailable.
pub fn readable_state(text: &str) -> (r: Result<(), CredentialServiceError>)
    ensures
        r == (match stored_state_of(text@) {
            Ok(CredentialServiceState::Connected) => Ok(()),
            Ok(CredentialServiceState::Revoked) => Err(CredentialServiceError::Revoked),
            Ok(CredentialServiceState::Unavailable) => Err(CredentialServiceError::Unavailable),
            Err(e) => Err::<(), CredentialServiceError>(e),
        }),
{
    match stored_state(text) {
        Ok(CredentialServiceState::Connected) => Ok(()),
        Ok(CredentialServiceState::Revoked) => Err(CredentialServiceError::Revoked),
        Ok(CredentialServiceState::Unavailable) => Err(CredentialServiceError::Unavailable),
        Err(e) => Err(e),
    }
}

/// The text a state is stored as.
pub fn state_text(state: CredentialServiceState) -> (r: &'static str)
    ensures
        stored_state_of(r@) == Ok::<CredentialServiceState, CredentialServiceError>(state),
{
    proof {
        law_stored_states_read_back(state);
    }
    match state {
        CredentialServiceState::Connected => STATE_CONNECTED,
        CredentialServiceState::Revoked => STATE_REVOKED,
        CredentialServiceState::Unavailable => STATE_UNAVAILABLE,
    }
}

/// The project id a scope is stored under: the scope without its prefix,
/// which must be there and leave something.
pub fn database_project_id(scope: &str) -> (r: Result<String, CredentialServiceError>)
    ensures
        starts_with_text(scope@, SCOPE_PREFIX@) && scope@.len() > SCOPE_PREFIX@.len() ==> (r matches Ok(
            s,
        ) && s@ == scope@.skip(SCOPE_PREFIX@.len() as int)),
        !(starts_with_text(scope@, SCOPE_PREFIX@) && scope@.len() > SCOPE_PREFIX@.len()) ==> r
            == Err::<String, CredentialServiceError>(CredentialServiceError::InvalidIdentity),
{
    let n = SCOPE_PREFIX.unicode_len();
    let len = scope.unicode_len();
    if !has_prefix(scope, SCOPE_PREFIX) || len <= n {
        return Err(CredentialServiceError::InvalidIdentity);
    }
    let rest = scope.substring_char(n, len);
    proof {
        assert(rest@ =~= scope@.skip(n as int));
    }
    Ok(rest.to_string())
}

pub open spec fn secret_error_code(e: SecretStoreError) -> CredentialServiceError {
    match e {
        SecretStoreError::Unavailable => CredentialServiceError::Unavailable,
        SecretStoreError::Missing => CredentialServiceError::Missing,
        SecretStoreError::Unauthorized => CredentialServiceError::Unauthorized,
        SecretStoreError::Cancelled => CredentialServiceError::Cancelled,
        SecretStoreError::InvalidReference => CredentialServiceError::InvalidReference,
        SecretStoreError::InvalidMaterial | SecretStoreError::Backend => CredentialServiceError::Internal,
    }
}

/// The credential-service failure of a secret-store failure.
pub fn map_secret_error(error: SecretStoreError) -> (r: CredentialServiceError)
    ensures
        r == secret_error_code(error),
{
    match error {
        SecretStoreError::Unavailable => CredentialServiceError::Unavailable,
        SecretStoreError::Missing => CredentialServiceError::Missing,
        SecretStoreError::Unauthorized => CredentialServiceError::Unauthorized,
        SecretStoreError::Cancelled => CredentialServiceError::Cancelled,
        SecretStoreError::InvalidReference => CredentialServiceError::InvalidReference,
        SecretStoreError::InvalidMaterial | SecretStoreError::Backend => CredentialServiceError::Internal,
    }
}

/// An access is refused when it was cancelled, then when it comes from
/// another project than the account's.
pub fn validate_context(cancelled: bool, context_scope: &str, account_scope: &str) -> (r: Result<
    (),
    CredentialServiceError,
>)
    ensures
        cancelled ==> r == Err::<(), CredentialServiceError>(CredentialServiceError::Cancelled),
        !cancelled && context_scope@ != account_scope@ ==> r == Err::<(), CredentialServiceError>(
            CredentialServiceError::Unauthorized,
        ),
        !cancelled && context_scope@ == account_scope@ ==> r is Ok,
{
    if cancelled {
        return Err(CredentialServiceError::Cancelled);
    }
    if !same_text(context_scope, account_scope) {
        return Err(CredentialServiceError::Unauthorized);
    }
    Ok(())
}

/// Whether an account may be connected: the secret store must be available
/// and the account not already connected.
pub fn check_connect(backend_available: bool, cached: Option<CredentialServiceState>) -> (r: Result<
    (),
    CredentialServiceError,
>)
    ensures
        !backend_available ==> r == Err::<(), CredentialServiceError>(CredentialServiceError::Unavailable),
        backend_available && cached == Some(CredentialServiceState::Connected) ==> r == Err::<
            (),
            CredentialServiceError,
        >(CredentialServiceError::Conflict),
        backend_available && cached != Some(CredentialServiceState::Connected) ==> r is Ok,
{
    if !backend_available {
        return Err(CredentialServiceError::Unavailable);
    }
    match cached {
        Some(CredentialServiceState::Connected) => Err(CredentialServiceError::Conflict),
        _ => Ok(()),
    }
}

/// A credential's state and reference as the service reports them.
#[derive(Debug, Clone, Copy, PartialEq, Eq, Structural)]
pub struct CredentialView {
    pub state: CredentialServiceState,
    pub has_reference: bool,
}

/// The status of an account stored in `state`, with or without a
/// reference, where `probe` is how reading its secret went (asked only for
/// a connected account with a reference). A connected account whose secret
/// is gone or whose store is unavailable reads as unavailable; another
/// store failure is reported.
pub fn status_from_metadata(
    state: CredentialServiceState,
    has_reference: bool,
    probe: Result<(), SecretStoreError>,
) -> (r: Result<CredentialView, CredentialServiceError>)
    ensures
        r == (match state {
            CredentialServiceState::Revoked => Ok(
                CredentialView { state: CredentialServiceState::Revoked, has_reference: false },
            ),
            CredentialServiceState::Unavailable => Ok(
                CredentialView { state: CredentialServiceState::Unavailable, has_reference: false },
            ),
            CredentialServiceState::Connected => if !has_reference {
                Ok(CredentialView { state: CredentialServiceState::Unavailable, has_reference: false })
            } else {
                match probe {
                    Ok(()) => Ok(
                        CredentialView { state: CredentialServiceState::Connected, has_reference: true },
                    ),
                    Err(SecretStoreError::Missing) | Err(SecretStoreError::Unavailable) => Ok(
                        CredentialView { state: CredentialServiceState::Unavailable, has_reference: false },
                    ),
                    Err(e) => Err::<CredentialView, CredentialServiceError>(secret_error_code(e)),
                }
            },
        }),
{
    match state {
        CredentialServiceState::Revoked => Ok(
            CredentialView { state: CredentialServiceState::Revoked, has_reference: false },
        ),
        CredentialServiceState::Unavailable => Ok(
            CredentialView { state: CredentialServiceState::Unavailable, has_reference: false },
        ),
        CredentialServiceState::Connected => {
            if !has_reference {
                return Ok(
                    CredentialView { state: CredentialServiceState::Unavailable, has_reference: false },
                );
            }
            match probe {
                Ok(()) => Ok(CredentialView { state: CredentialServiceState::Connected, has_reference: true }),
                Err(SecretStoreError::Missing) | Err(SecretStoreError::Unavailable) => Ok(
                    CredentialView { state: CredentialServiceState::Unavailable, has_reference: false },
                ),
                Err(e) => Err(map_secret_error(e)),
            }
        },
    }
}

/// Whether a reference may be handed out for an account's status: only a
/// connected one with a reference; an unavailable one is unavailable, any
/// other is revoked.
pub fn reference_from_status(view: CredentialView) -> (r: Result<(), CredentialServiceError>)
    ensures
        r == (if view.state == CredentialServiceState::Connected && view.has_reference {
            Ok(())
        } else if view.state == CredentialServiceState::Unavailable {
            Err(CredentialServiceError::Unavailable)
        } else {
            Err::<(), CredentialServiceError>(CredentialServiceError::Revoked)
        }),
{
    if view.state == CredentialServiceState::Connected {
        if view.has_reference {
            Ok(())
        } else {
            Err(CredentialServiceError::Revoked)
        }
    } else if view.state == CredentialServiceState::Unavailable {
        Err(CredentialServiceError::Unavailable)
    } else {
        Err(CredentialServiceError::Revoked)
    }
}

/// Whether a disconnect goes on once the account's secret was deleted: a
/// secret already gone is fine; another store failure stops it.
pub fn secret_deleted(deleted: Result<(), SecretStoreError>) -> (r: Result<(), CredentialServiceError>)
    ensures
        r == (match deleted {
            Ok(()) | Err(SecretStoreError::Missing) => Ok(()),
            Err(e) => Err::<(), CredentialServiceError>(secret_error_code(e)),
        }),
{
    match deleted {
        Ok(()) => Ok(()),
        Err(SecretStoreError::Missing) => Ok(()),
        Err(e) => Err(map_secret_error(e)),
    }
}

/// What a state reads back as once it was written: the state itself.
pub proof fn law_stored_states_read_back(state: CredentialServiceState)
    ensures
        stored_state_of(
            match state {
                CredentialServiceState::Connected => STATE_CONNECTED@,
                CredentialServiceState::Revoked => STATE_REVOKED@,
                CredentialServiceState::Unavailable => STATE_UNAVAILABLE@,
            },
        ) == Ok::<CredentialServiceState, CredentialServiceError>(state),
{
    reveal_strlit("connected");
    reveal_strlit("revoked");
    reveal_strlit("unavailable");
    reveal_strlit("error");
    assert(STATE_CONNECTED@.len() == 9);
    assert(STATE_REVOKED@.len() == 7);
    assert(STATE_UNAVAILABLE@.len() == 11);
    assert(STATE_ERROR@.len() == 5);
}

} // verus!
