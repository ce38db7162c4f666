//! The provider-account bridge's boundary rules: only the fixture provider
//! and account are served, flow links carry public material only, and every
//! credential or OAuth failure crosses as a stable, redacted code.
use crate::text::same_text;
use vstd::prelude::*;
use vstd::string::StringExecFns;

verus! {

pub const MOCK_PROVIDER_ID: &'static str = "mock";

pub const MOCK_ACCOUNT_ID: &'static str = "account_mock";

pub const MOCK_AUTHORIZATION_URI: &'static str = "hank://oauth/authorize";

#[derive(Debug, Clone, Copy, PartialEq, Eq, Structural)]
pub enum ProviderAccountState {
    Connected,
    Pending,
    Revoked,
    Unavailable,
    Error,
}

#[derive(Debug, Clone)]
pub struct ProviderAccountStatus {
    pub provider_id: String,
    pub account_id: String,
    pub display_name: String,
    pub state: ProviderAccountState,
    pub has_credential_ref: bool,
    pub updated_at: String,
}

#[derive(Debug, Clone, Copy, PartialEq, Eq, Structural)]
pub enum OAuthFlowState {
    Pending,
    Connected,
    Invalid,
    Expired,
    Cancelled,
    Error,
}

#[derive(Debug, Clone, Copy, PartialEq, Eq, Structural)]
pub enum OAuthErrorCode {
    StateMismatch,
    RedirectMismatch,
    ProviderMismatch,
    AccountMismatch,
    Stale,
    Replay,
    Expired,
}

#[derive(Debug, Clone)]
pub struct OAuthStartResult {
    pub flow_id: String,
    pub state: OAuthFlowState,
    pub authorization_url: String,
}

#[derive(Debug, Clone)]
pub struct OAuthAccountStatus {
    pub status: ProviderAccountStatus,
    pub project_id: String,
}

#[derive(Debug, Clone)]
pub struct OAuthFlowStatus {
    pub flow_id: String,
    pub state: OAuthFlowState,
    pub error_code: Option<OAuthErrorCode>,
    pub account: Option<OAuthAccountStatus>,
}

#[derive(Debug, Clone)]
pub struct ListProviderAccountsInput {
    pub project_id: String,
}

#[derive(Debug, Clone)]
pub struct StartProviderOAuthInput {
    pub project_id: String,
    pub provider_id: String,
    pub account_id: String,
}

#[derive(Debug, Clone)]
pub struct OAuthStatusInput {
    pub project_id: String,
    pub flow_id: String,
}

#[derive(Debug, Clone)]
pub struct DisconnectProviderInput {
    pub project_id: String,
    pub provider_id: String,
    pub account_id: String,
}

#[derive(Debug, Clone)]
pub struct CompleteProviderOAuthInput {
    pub project_id: String,
    pub callback_url: String,
}

#[derive(Debug, Clone, Copy, PartialEq, Eq, Structural)]
pub enum ProviderSettingsErrorCode {
    InvalidInput,
    Unauthorized,
    Unavailable,
    NotFound,
    Conflict,
    StateMismatch,
    RedirectMismatch,
    ProviderMismatch,
    AccountMismatch,
    Replay,
    Expired,
    Stale,
    Internal,
}

/// A provider-settings error as the desktop shell receives it.
#[derive(Debug, Clone)]
pub struct ProviderSettingsBridgeError {
    pub code: ProviderSettingsErrorCode,
    pub message: String,
}

impl ProviderSettingsBridgeError {
    pub fn new(code: ProviderSettingsErrorCode, message: &str) -> (r: Self)
        ensures
            r.code == code,
            r.message@ == message@,
    {
        ProviderSettingsBridgeError { code, message: message.to_string() }
    }

    /// The message shown for the error.
    pub fn message(&self) -> (r: &str)
        ensures
            r@ == self.message@,
    {
        self.message.as_str()
    }
}

/// How an OAuth step failed, as the bridge tells the failures apart.
#[derive(Debug, Clone, Copy, PartialEq, Eq, Structural)]
pub enum OAuthError {
    StateMismatch,
    RedirectMismatch,
    Replay,
    Expired,
    NotFound,
    Cancelled,
    ExchangeFailed,
    MalformedToken,
}

/// How an OAuth callback failed.
#[derive(Debug, Clone, Copy, PartialEq, Eq, Structural)]
pub enum CallbackError {
    ProviderMismatch,
    AccountMismatch,
    Unauthorized,
    Cancelled,
    Malformed,
    OAuth(OAuthError),
}

/// How the credential service failed.
#[derive(Debug, Clone, Copy, PartialEq, Eq, Structural)]
pub enum CredentialServiceError {
    Unauthorized,
    Missing,
    Conflict,
    Unavailable,
    Revoked,
    Cancelled,
    InvalidIdentity,
    InvalidReference,
    Internal,
}

/// The bridge's answer when the fixture provider is not enabled.
pub fn ensure_enabled(enabled: bool) -> (r: Result<(), ProviderSettingsBridgeError>)
    ensures
        enabled ==> r is Ok,
        !enabled ==> (r matches Err(e) && e.code == ProviderSettingsErrorCode::Unavailable && e.message@
            == "provider credential service is unavailable"@),
{
    if enabled {
        Ok(())
    } else {
        Err(
            ProviderSettingsBridgeError::new(
                ProviderSettingsErrorCode::Unavailable,
                "provider credential service is unavailable",
            ),
        )
    }
}

/// Only the fixture provider, then only its fixture account, is served.
pub fn validate_fixture_account(provider_id: &str, account_id: &str) -> (r: Result<
    (),
    ProviderSettingsBridgeError,
>)
    ensures
        provider_id@ != MOCK_PROVIDER_ID@ ==> (r matches Err(e) && e.code
            == ProviderSettingsErrorCode::ProviderMismatch && e.message@ == "provider is not available"@),
        provider_id@ == MOCK_PROVIDER_ID@ && account_id@ != MOCK_ACCOUNT_ID@ ==> (r matches Err(e)
            && e.code == ProviderSettingsErrorCode::AccountMismatch && e.message@
            == "provider account is not available"@),
        provider_id@ == MOCK_PROVIDER_ID@ && account_id@ == MOCK_ACCOUNT_ID@ ==> r is Ok,
{
    if !same_text(provider_id, MOCK_PROVIDER_ID) {
        return Err(
            ProviderSettingsBridgeError::new(
                ProviderSettingsErrorCode::ProviderMismatch,
                "provider is not available",
            ),
        );
    }
    if !same_text(account_id, MOCK_ACCOUNT_ID) {
        return Err(
            ProviderSettingsBridgeError::new(
                ProviderSettingsErrorCode::AccountMismatch,
                "provider account is not available",
            ),
        );
    }
    Ok(())
}

/// The link that starts a fixture flow: the flow, the fixture provider and
/// account, the OAuth state and the code challenge, never the verifier.
pub open spec fn authorization_link(flow_id: Seq<char>, state: Seq<char>, challenge: Seq<char>) -> Seq<char> {
    MOCK_AUTHORIZATION_URI@ + "?flow="@ + flow_id + "&provider="@ + MOCK_PROVIDER_ID@ + "&account="@
        + MOCK_ACCOUNT_ID@ + "&state="@ + state + "&code_challenge="@ + challenge
}

pub fn authorization_url(flow_id: &str, state: &str, challenge: &str) -> (r: String)
    ensures
        r@ == authorization_link(flow_id@, state@, challenge@),
{
    let mut url = MOCK_AUTHORIZATION_URI.to_string();
    url.append("?flow=");
    url.append(flow_id);
    url.append("&provider=");
    url.append(MOCK_PROVIDER_ID);
    url.append("&account=");
    url.append(MOCK_ACCOUNT_ID);
    url.append("&state=");
    url.append(state);
    url.append("&code_challenge=");
    url.append(challenge);
    url
}

pub open spec fn credential_code(e: CredentialServiceError) -> ProviderSettingsErrorCode {
    match e {
        CredentialServiceError::Unauthorized => ProviderSettingsErrorCode::Unauthorized,
        CredentialServiceError::Missing => ProviderSettingsErrorCode::NotFound,
        CredentialServiceError::Conflict => ProviderSettingsErrorCode::Conflict,
        CredentialServiceError::Unavailable => ProviderSettingsErrorCode::Unavailable,
        CredentialServiceError::Revoked => ProviderSettingsErrorCode::Unauthorized,
        _ => ProviderSettingsErrorCode::Internal,
    }
}

/// A credential failure, with one redacted message.
pub fn map_credential_error(error: CredentialServiceError) -> (r: ProviderSettingsBridgeError)
    ensures
        r.code == credential_code(error),
        r.message@ == "provider credential operation failed"@,
{
    let code = match error {
        CredentialServiceError::Unauthorized => ProviderSettingsErrorCode::Unauthorized,
        CredentialServiceError::Missing => ProviderSettingsErrorCode::NotFound,
        CredentialServiceError::Conflict => ProviderSettingsErrorCode::Conflict,
        CredentialServiceError::Unavailable => ProviderSettingsErrorCode::Unavailable,
        CredentialServiceError::Revoked => ProviderSettingsErrorCode::Unauthorized,
        CredentialServiceError::Cancelled | CredentialServiceError::InvalidIdentity
        | CredentialServiceError::InvalidReference | CredentialServiceError::Internal => {
            ProviderSettingsErrorCode::Internal
        },
    };
    ProviderSettingsBridgeError::new(code, "provider credential operation failed")
}

pub open spec fn callback_code(e: CallbackError) -> ProviderSettingsErrorCode {
    match e {
        CallbackError::ProviderMismatch => ProviderSettingsErrorCode::ProviderMismatch,
        CallbackError::AccountMismatch => ProviderSettingsErrorCode::AccountMismatch,
        CallbackError::Unauthorized => ProviderSettingsErrorCode::Unauthorized,
        CallbackError::Cancelled => ProviderSettingsErrorCode::Unavailable,
        CallbackError::Malformed => ProviderSettingsErrorCode::InvalidInput,
        CallbackError::OAuth(o) => match o {
            OAuthError::StateMismatch => ProviderSettingsErrorCode::StateMismatch,
            OAuthError::RedirectMismatch => ProviderSettingsErrorCode::RedirectMismatch,
            OAuthError::Replay => ProviderSettingsErrorCode::Replay,
            OAuthError::Expired => ProviderSettingsErrorCode::Expired,
            OAuthError::NotFound => ProviderSettingsErrorCode::Stale,
            _ => ProviderSettingsErrorCode::Internal,
        },
    }
}

/// A callback failure, with one redacted message.
pub fn map_callback_error(error: CallbackError) -> (r: ProviderSettingsBridgeError)
    ensures
        r.code == callback_code(error),
        r.message@ == "OAuth provider operation failed"@,
{
    let code = match error {
        CallbackError::ProviderMismatch => ProviderSettingsErrorCode::ProviderMismatch,
        CallbackError::AccountMismatch => ProviderSettingsErrorCode::AccountMismatch,
        CallbackError::Unauthorized => ProviderSettingsErrorCode::Unauthorized,
        CallbackError::Cancelled => ProviderSettingsErrorCode::Unavailable,
        CallbackError::Malformed => ProviderSettingsErrorCode::InvalidInput,
        CallbackError::OAuth(oauth) => match oauth {
            OAuthError::StateMismatch => ProviderSettingsErrorCode::StateMismatch,
            OAuthError::RedirectMismatch => ProviderSettingsErrorCode::RedirectMismatch,
            OAuthError::Replay => ProviderSettingsErrorCode::Replay,
            OAuthError::Expired => ProviderSettingsErrorCode::Expired,
            OAuthError::NotFound => ProviderSettingsErrorCode::Stale,
            _ => ProviderSettingsErrorCode::Internal,
        },
    };
    ProviderSettingsBridgeError::new(code, "OAuth provider operation failed")
}

pub open spec fn oauth_flow_state(e: OAuthError) -> OAuthFlowState {
    match e {
        OAuthError::Expired => OAuthFlowState::Expired,
        OAuthError::Cancelled => OAuthFlowState::Cancelled,
        OAuthError::StateMismatch | OAuthError::RedirectMismatch | OAuthError::Replay
        | OAuthError::NotFound => OAuthFlowState::Invalid,
        _ => OAuthFlowState::Error,
    }
}

/// The state a flow is left in by an OAuth failure.
pub fn oauth_state_from_error(error: &OAuthError) -> (r: OAuthFlowState)
    ensures
        r == oauth_flow_state(*error),
{
    match error {
        OAuthError::Expired => OAuthFlowState::Expired,
        OAuthError::Cancelled => OAuthFlowState::Cancelled,
        OAuthError::StateMismatch | OAuthError::RedirectMismatch | OAuthError::Replay
        | OAuthError::NotFound => OAuthFlowState::Invalid,
        _ => OAuthFlowState::Error,
    }
}

/// The state a flow is left in by a callback failure.
pub fn flow_state_from_callback_error(error: &CallbackError) -> (r: OAuthFlowState)
    ensures
        r == (match *error {
            CallbackError::Cancelled => OAuthFlowState::Cancelled,
            CallbackError::OAuth(o) => oauth_flow_state(o),
            _ => OAuthFlowState::Invalid,
        }),
{
    match error {
        CallbackError::Cancelled => OAuthFlowState::Cancelled,
        CallbackError::OAuth(oauth) => oauth_state_from_error(oauth),
        _ => OAuthFlowState::Invalid,
    }
}

pub open spec fn oauth_code(e: OAuthError) -> Option<OAuthErrorCode> {
    match e {
        OAuthError::StateMismatch => Some(OAuthErrorCode::StateMismatch),
        OAuthError::RedirectMismatch => Some(OAuthErrorCode::RedirectMismatch),
        OAuthError::Replay => Some(OAuthErrorCode::Replay),
        OAuthError::Expired => Some(OAuthErrorCode::Expired),
        _ => None,
    }
}

/// The code an OAuth failure is reported with, if it has one.
pub fn oauth_error_code(error: &OAuthError) -> (r: Option<OAuthErrorCode>)
    ensures
        r == oauth_code(*error),
{
    match error {
        OAuthError::StateMismatch => Some(OAuthErrorCode::StateMismatch),
        OAuthError::RedirectMismatch => Some(OAuthErrorCode::RedirectMismatch),
        OAuthError::Replay => Some(OAuthErrorCode::Replay),
        OAuthError::Expired => Some(OAuthErrorCode::Expired),
        _ => None,
    }
}

/// The code a callback failure is reported with, if it has one.
pub fn flow_error_code(error: &CallbackError) -> (r: Option<OAuthErrorCode>)
    ensures
        r == (match *error {
            CallbackError::ProviderMismatch => Some(OAuthErrorCode::ProviderMismatch),
            CallbackError::AccountMismatch => Some(OAuthErrorCode::AccountMismatch),
            CallbackError::OAuth(o) => oauth_code(o),
            _ => None,
        }),
{
    match error {
        CallbackError::ProviderMismatch => Some(OAuthErrorCode::ProviderMismatch),
        CallbackError::AccountMismatch => Some(OAuthErrorCode::AccountMismatch),
        CallbackError::OAuth(oauth) => oauth_error_code(oauth),
        _ => None,
    }
}

} // verus!
