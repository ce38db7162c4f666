use agent_core::platform_store::{
    backend_kind, backend_status, check_blob, check_material, native_failure, wipe, BackendKind,
    BackendStatus, FixtureSecretStore, PlatformSecretBackend, SecretStoreError,
};

#[test]
fn target_name_contains_only_bounded_opaque_identity() {
    let target =
        PlatformSecretBackend::target_name("project_test", "mock", "account_test", "cred_test")
            .unwrap();
    assert_eq!(target.last(), Some(&0));
    let text = String::from_utf16(&target[..target.len() - 1]).unwrap();
    assert_eq!(
        text,
        "Hank/credential/v1/project_test/mock/account_test/cred_test"
    );
    assert!(!text.contains("secret"));
}

#[test]
fn target_names_are_bounded_and_encoded_in_utf16() {
    let wide = PlatformSecretBackend::target_name("p", "m", "a", "ref😀").unwrap();
    let expected: Vec<u16> = "Hank/credential/v1/p/m/a/ref😀".encode_utf16().chain([0]).collect();
    assert_eq!(wide, expected);
    assert_eq!(
        PlatformSecretBackend::fixture_key("p", "m", "a", &"r".repeat(500)),
        Err(SecretStoreError::InvalidReference)
    );
    assert_eq!(
        PlatformSecretBackend::fixture_key("p", "m", "a\n", "r"),
        Err(SecretStoreError::InvalidReference)
    );
    assert_eq!(
        PlatformSecretBackend::fixture_key("p", "m", "a", "r").unwrap(),
        "Hank/credential/v1/p/m/a/r"
    );
}

#[test]
fn fixture_store_reads_back_what_was_written() {
    let mut store = FixtureSecretStore::new();
    assert_eq!(store.get("k1"), Err(SecretStoreError::Missing));
    store.put("k1", vec![1, 2, 3]);
    store.put("k2", vec![9]);
    assert_eq!(store.get("k1"), Ok(vec![1, 2, 3]));
    store.rotate("k1", vec![4]);
    assert_eq!(store.get("k1"), Ok(vec![4]));
    assert_eq!(store.get("k2"), Ok(vec![9]));
    assert_eq!(store.delete("k1"), Ok(()));
    assert_eq!(store.get("k1"), Err(SecretStoreError::Missing));
    assert_eq!(store.delete("k1"), Err(SecretStoreError::Missing));
    assert_eq!(store.get("k2"), Ok(vec![9]));
}

#[test]
fn backend_kind_and_status_fail_closed_without_native_store_or_fixture() {
    assert_eq!(backend_kind(false, true), BackendKind::Mock);
    assert_eq!(backend_kind(true, true), BackendKind::OsKeychain);
    assert_eq!(backend_kind(false, false), BackendKind::OsKeychain);
    assert_eq!(backend_status(false, false), BackendStatus::Unavailable);
    assert_eq!(backend_status(true, false), BackendStatus::Available);
    assert_eq!(backend_status(false, true), BackendStatus::Available);
}

#[test]
fn native_material_and_failures_are_bounded_and_classified() {
    assert_eq!(check_material(2_560), Ok(()));
    assert_eq!(check_material(2_561), Err(SecretStoreError::InvalidMaterial));
    assert_eq!(native_failure(Some(1168)), SecretStoreError::Missing);
    assert_eq!(native_failure(Some(5)), SecretStoreError::Backend);
    assert_eq!(native_failure(None), SecretStoreError::Backend);
    assert_eq!(check_blob(true, 10), Ok(()));
    assert_eq!(check_blob(true, 0), Err(SecretStoreError::Backend));
    assert_eq!(check_blob(false, 10), Err(SecretStoreError::Backend));
    assert_eq!(check_blob(true, 2_561), Err(SecretStoreError::Backend));
    let mut secret = vec![7u8, 8, 9];
    wipe(&mut secret);
    assert_eq!(secret, vec![0, 0, 0]);
}

#[test]
fn non_windows_backend_is_explicitly_unavailable() {
    // Off the native platform and without the fixture switch there is no store.
    assert_eq!(backend_status(false, false), BackendStatus::Unavailable);
}
