use agent_core::credential_rules::{
    check_connect, database_project_id, map_secret_error, readable_state, reference_from_status,
    secret_deleted, state_text, status_from_metadata, stored_state, validate_context,
    CredentialServiceState, CredentialView,
};
use agent_core::platform_store::SecretStoreError;
use agent_core::provider_settings::CredentialServiceError;

#[test]
fn stored_states_read_back_and_unknown_text_is_internal() {
    for state in [CredentialServiceState::Connected, CredentialServiceState::Revoked, CredentialServiceState::Unavailable] {
        assert_eq!(stored_state(state_text(state)), Ok(state));
    }
    assert_eq!(stored_state("error"), Ok(CredentialServiceState::Unavailable));
    assert_eq!(stored_state("pending"), Err(CredentialServiceError::Internal));
    assert_eq!(readable_state("connected"), Ok(()));
    assert_eq!(readable_state("revoked"), Err(CredentialServiceError::Revoked));
    assert_eq!(readable_state("error"), Err(CredentialServiceError::Unavailable));
    assert_eq!(readable_state("bogus"), Err(CredentialServiceError::Internal));
}

#[test]
fn database_ids_drop_the_scope_prefix() {
    assert_eq!(database_project_id("project_abc").unwrap(), "abc");
    assert_eq!(database_project_id("project_"), Err(CredentialServiceError::InvalidIdentity));
    assert_eq!(database_project_id("proj_abc"), Err(CredentialServiceError::InvalidIdentity));
}

#[test]
fn secret_failures_and_contexts_map_to_service_failures() {
    assert_eq!(map_secret_error(SecretStoreError::Missing), CredentialServiceError::Missing);
    assert_eq!(map_secret_error(SecretStoreError::Backend), CredentialServiceError::Internal);
    assert_eq!(map_secret_error(SecretStoreError::InvalidMaterial), CredentialServiceError::Internal);
    assert_eq!(map_secret_error(SecretStoreError::InvalidReference), CredentialServiceError::InvalidReference);
    assert_eq!(validate_context(true, "project_a", "project_a"), Err(CredentialServiceError::Cancelled));
    assert_eq!(validate_context(false, "project_a", "project_b"), Err(CredentialServiceError::Unauthorized));
    assert_eq!(validate_context(false, "project_a", "project_a"), Ok(()));
}

#[test]
fn connecting_needs_a_store_and_no_live_connection() {
    assert_eq!(check_connect(false, None), Err(CredentialServiceError::Unavailable));
    assert_eq!(check_connect(true, Some(CredentialServiceState::Connected)), Err(CredentialServiceError::Conflict));
    assert_eq!(check_connect(true, Some(CredentialServiceState::Revoked)), Ok(()));
    assert_eq!(check_connect(true, None), Ok(()));
}

#[test]
fn connected_metadata_without_its_secret_reads_as_unavailable() {
    let connected = CredentialView { state: CredentialServiceState::Connected, has_reference: true };
    let unavailable = CredentialView { state: CredentialServiceState::Unavailable, has_reference: false };
    assert_eq!(status_from_metadata(CredentialServiceState::Connected, true, Ok(())), Ok(connected));
    assert_eq!(status_from_metadata(CredentialServiceState::Connected, true, Err(SecretStoreError::Unavailable)), Ok(unavailable));
    assert_eq!(status_from_metadata(CredentialServiceState::Connected, true, Err(SecretStoreError::Missing)), Ok(unavailable));
    assert_eq!(status_from_metadata(CredentialServiceState::Connected, false, Ok(())), Ok(unavailable));
    assert_eq!(
        status_from_metadata(CredentialServiceState::Connected, true, Err(SecretStoreError::Backend)),
        Err(CredentialServiceError::Internal)
    );
    assert_eq!(
        status_from_metadata(CredentialServiceState::Revoked, true, Ok(())),
        Ok(CredentialView { state: CredentialServiceState::Revoked, has_reference: false })
    );
    assert_eq!(reference_from_status(connected), Ok(()));
    assert_eq!(reference_from_status(unavailable), Err(CredentialServiceError::Unavailable));
    assert_eq!(
        reference_from_status(CredentialView { state: CredentialServiceState::Revoked, has_reference: false }),
        Err(CredentialServiceError::Revoked)
    );
}

#[test]
fn disconnect_tolerates_an_already_missing_secret() {
    assert_eq!(secret_deleted(Ok(())), Ok(()));
    assert_eq!(secret_deleted(Err(SecretStoreError::Missing)), Ok(()));
    assert_eq!(secret_deleted(Err(SecretStoreError::Unauthorized)), Err(CredentialServiceError::Unauthorized));
}
