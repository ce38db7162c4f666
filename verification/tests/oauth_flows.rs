use agent_core::oauth_ledger::{flow_deadline, OAuthLedger, OAUTH_TTL_MS};
use agent_core::provider_settings::{
    CallbackError, OAuthError, OAuthErrorCode, OAuthFlowState, ProviderAccountState,
    ProviderSettingsErrorCode,
};

#[test]
fn a_first_listing_shows_a_revoked_fixture_account() {
    let mut ledger = OAuthLedger::new();
    let status = ledger.list_account("project_a", "t0");
    assert_eq!(status.provider_id, "mock");
    assert_eq!(status.account_id, "account_mock");
    assert_eq!(status.display_name, "Mock Provider");
    assert_eq!(status.state, ProviderAccountState::Revoked);
    assert!(!status.has_credential_ref);
    assert_eq!(status.updated_at, "t0");
    // A second listing keeps the account as it was.
    assert_eq!(ledger.list_account("project_a", "t9").updated_at, "t0");
}

#[test]
fn a_full_flow_connects_once_and_replays_are_refused() {
    let mut ledger = OAuthLedger::new();
    assert!(ledger.check_start("project_a").is_ok());
    let started = ledger.record_start("project_a", "flow_1", "verifier".into(), 500, "t1", "state_x", "chal");
    assert_eq!(started.flow_id, "flow_1");
    assert_eq!(started.state, OAuthFlowState::Pending);
    assert_eq!(
        started.authorization_url,
        "hank://oauth/authorize?flow=flow_1&provider=mock&account=account_mock&state=state_x&code_challenge=chal"
    );
    assert_eq!(ledger.list_account("project_a", "t2").state, ProviderAccountState::Pending);
    let conflict = ledger.check_start("project_a").unwrap_err();
    assert_eq!(conflict.code, ProviderSettingsErrorCode::Conflict);

    let (verifier, deadline) = ledger.begin_complete("project_a", "flow_1").unwrap();
    assert_eq!(verifier, "verifier");
    assert_eq!(deadline, 500);
    let done = ledger.record_connected("project_a", "a", "flow_1", "cred_1".into(), "t3").unwrap();
    assert_eq!(done.state, OAuthFlowState::Connected);
    assert_eq!(done.error_code, None);
    let account = done.account.unwrap();
    assert_eq!(account.project_id, "a");
    assert_eq!(account.status.state, ProviderAccountState::Connected);
    assert!(account.status.has_credential_ref);

    let replay = ledger.begin_complete("project_a", "flow_1").unwrap_err();
    assert_eq!(replay.code, ProviderSettingsErrorCode::Replay);
    assert_eq!(replay.message, "OAuth flow was already completed");
    let status = ledger.flow_status("project_a", "a", "flow_1", 10_000).unwrap();
    assert_eq!(status.state, OAuthFlowState::Connected);
    assert!(status.account.is_some());
}

#[test]
fn flows_are_scoped_expire_and_record_refusals() {
    let mut ledger = OAuthLedger::new();
    ledger.record_start("project_a", "flow_1", "v".into(), 100, "t1", "s", "c");
    assert_eq!(ledger.begin_complete("project_a", "flow_9").unwrap_err().code, ProviderSettingsErrorCode::Stale);
    assert_eq!(ledger.begin_complete("project_b", "flow_1").unwrap_err().code, ProviderSettingsErrorCode::Unauthorized);
    assert_eq!(ledger.flow_status("project_b", "b", "flow_1", 0).unwrap_err().code, ProviderSettingsErrorCode::Unauthorized);

    let open = ledger.flow_status("project_a", "a", "flow_1", 99).unwrap();
    assert_eq!(open.state, OAuthFlowState::Pending);
    let expired = ledger.flow_status("project_a", "a", "flow_1", 100).unwrap();
    assert_eq!(expired.state, OAuthFlowState::Expired);
    assert_eq!(expired.error_code, Some(OAuthErrorCode::Expired));
    assert!(expired.account.is_none());

    let error = ledger.record_callback_failure("flow_1", CallbackError::OAuth(OAuthError::StateMismatch));
    assert_eq!(error.code, ProviderSettingsErrorCode::StateMismatch);
    assert_eq!(error.message, "OAuth provider operation failed");
    let status = ledger.flow_status("project_a", "a", "flow_1", 0).unwrap();
    assert_eq!(status.state, OAuthFlowState::Invalid);
    assert_eq!(status.error_code, Some(OAuthErrorCode::StateMismatch));
}

#[test]
fn disconnecting_revokes_and_allows_a_new_flow() {
    let mut ledger = OAuthLedger::new();
    assert_eq!(ledger.check_disconnect("project_a").unwrap_err().code, ProviderSettingsErrorCode::NotFound);
    assert_eq!(ledger.record_disconnected("project_a", "t").unwrap_err().message, "provider account not found");
    ledger.record_start("project_a", "flow_1", "v".into(), 100, "t1", "s", "c");
    ledger.record_connected("project_a", "a", "flow_1", "cred".into(), "t2").unwrap();
    assert_eq!(ledger.check_disconnect("project_a").unwrap(), true);
    let revoked = ledger.record_disconnected("project_a", "t3").unwrap();
    assert_eq!(revoked.state, ProviderAccountState::Revoked);
    assert!(!revoked.has_credential_ref);
    assert_eq!(revoked.updated_at, "t3");
    assert_eq!(ledger.check_disconnect("project_a").unwrap(), false);
    assert!(ledger.check_start("project_a").is_ok());
}

#[test]
fn connecting_without_an_account_is_an_internal_error() {
    let mut ledger = OAuthLedger::new();
    let error = ledger.record_connected("project_z", "z", "flow_1", "cred".into(), "t").unwrap_err();
    assert_eq!(error.code, ProviderSettingsErrorCode::Internal);
}

#[test]
fn flow_deadlines_are_five_minutes_out_and_saturate() {
    assert_eq!(OAUTH_TTL_MS, 300_000);
    assert_eq!(flow_deadline(1_000), 301_000);
    assert_eq!(flow_deadline(u64::MAX - 5), u64::MAX);
}
