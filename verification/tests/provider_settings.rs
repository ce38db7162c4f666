use agent_core::provider_settings::{
    authorization_url, ensure_enabled, flow_error_code, flow_state_from_callback_error,
    map_callback_error, map_credential_error, oauth_error_code, oauth_state_from_error,
    validate_fixture_account, CallbackError, CredentialServiceError, OAuthError, OAuthErrorCode,
    OAuthFlowState, ProviderSettingsErrorCode, MOCK_ACCOUNT_ID, MOCK_PROVIDER_ID,
};
use base64::Engine;
use sha2::Digest;

#[test]
fn fixture_account_never_accepts_a_different_provider_or_account() {
    assert!(validate_fixture_account(MOCK_PROVIDER_ID, MOCK_ACCOUNT_ID).is_ok());
    assert_eq!(
        validate_fixture_account("openai", MOCK_ACCOUNT_ID).unwrap_err().code,
        ProviderSettingsErrorCode::ProviderMismatch
    );
    assert_eq!(
        validate_fixture_account(MOCK_PROVIDER_ID, "account_other").unwrap_err().code,
        ProviderSettingsErrorCode::AccountMismatch
    );
}

#[test]
fn fixture_authorization_url_contains_public_flow_material_only() {
    let state = "state_fixture";
    let verifier = "abcdefghijklmnopqrstuvwxyzABCDEFGHIJKLMNOPQRSTUVWXYZ0123456789-_~.";
    let challenge = base64::engine::general_purpose::URL_SAFE_NO_PAD
        .encode(sha2::Sha256::digest(verifier.as_bytes()));
    let url = authorization_url("flow_7", state, &challenge);

    assert!(url.starts_with("hank://oauth/authorize?"));
    assert!(url.contains("flow=flow_7"));
    assert!(url.contains("provider=mock"));
    assert!(url.contains("account=account_mock"));
    assert!(url.contains("state=state_fixture"));
    assert!(url.contains(&format!("code_challenge={}", challenge)));
    assert!(!url.contains(verifier));
    assert_eq!(
        url,
        format!(
            "hank://oauth/authorize?flow=flow_7&provider=mock&account=account_mock&state=state_fixture&code_challenge={challenge}"
        )
    );
}

#[test]
fn callback_errors_map_to_redacted_stable_codes() {
    let error = map_callback_error(CallbackError::OAuth(OAuthError::StateMismatch));
    assert_eq!(error.code, ProviderSettingsErrorCode::StateMismatch);
    assert!(!error.message.contains("state_"));
    assert_eq!(error.message, "OAuth provider operation failed");
    assert_eq!(
        map_callback_error(CallbackError::OAuth(OAuthError::NotFound)).code,
        ProviderSettingsErrorCode::Stale
    );
    assert_eq!(
        map_callback_error(CallbackError::OAuth(OAuthError::ExchangeFailed)).code,
        ProviderSettingsErrorCode::Internal
    );
    assert_eq!(
        map_callback_error(CallbackError::Cancelled).code,
        ProviderSettingsErrorCode::Unavailable
    );
}

#[test]
fn flow_states_and_codes_follow_the_failure() {
    assert_eq!(oauth_state_from_error(&OAuthError::Expired), OAuthFlowState::Expired);
    assert_eq!(oauth_state_from_error(&OAuthError::Replay), OAuthFlowState::Invalid);
    assert_eq!(oauth_state_from_error(&OAuthError::MalformedToken), OAuthFlowState::Error);
    assert_eq!(
        flow_state_from_callback_error(&CallbackError::Malformed),
        OAuthFlowState::Invalid
    );
    assert_eq!(
        flow_state_from_callback_error(&CallbackError::Cancelled),
        OAuthFlowState::Cancelled
    );
    assert_eq!(oauth_error_code(&OAuthError::NotFound), None);
    assert_eq!(
        flow_error_code(&CallbackError::AccountMismatch),
        Some(OAuthErrorCode::AccountMismatch)
    );
    assert_eq!(
        flow_error_code(&CallbackError::OAuth(OAuthError::RedirectMismatch)),
        Some(OAuthErrorCode::RedirectMismatch)
    );
    let credential = map_credential_error(CredentialServiceError::Revoked);
    assert_eq!(credential.code, ProviderSettingsErrorCode::Unauthorized);
    assert_eq!(credential.message, "provider credential operation failed");
    assert_eq!(
        map_credential_error(CredentialServiceError::InvalidReference).code,
        ProviderSettingsErrorCode::Internal
    );
    assert!(ensure_enabled(true).is_ok());
    assert_eq!(
        ensure_enabled(false).unwrap_err().code,
        ProviderSettingsErrorCode::Unavailable
    );
}
