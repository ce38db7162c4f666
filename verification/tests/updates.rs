use agent_core::updater::{
    activation_plan, recovery_plan, recovery_result, rollback_check, ActivationPlan, RecoveryPlan,
    RecoveryResult,
    bridge_state, canonical_payload, digest, ArtifactIdentity, BuildIdentity, SignatureEnvelope, SignerIdentity,
    StageMarker, UpdateAttestation, UpdateBinding, UpdateBridgeError, UpdateBridgeErrorCode,
    UpdateError, UpdateManager, UpdateMetadata, UpdatePolicy, UpdaterBridgeState,
};
use base64::Engine;
use ring::signature::KeyPair;

fn keypair() -> ring::signature::Ed25519KeyPair {
    let rng = ring::rand::SystemRandom::new();
    let pkcs8 = ring::signature::Ed25519KeyPair::generate_pkcs8(&rng).unwrap();
    ring::signature::Ed25519KeyPair::from_pkcs8(pkcs8.as_ref()).unwrap()
}

fn policy(keypair: &ring::signature::Ed25519KeyPair) -> UpdatePolicy {
    let mut public_key_der = vec![
        0x30, 0x2a, 0x30, 0x05, 0x06, 0x03, 0x2b, 0x65, 0x70, 0x03, 0x21, 0x00,
    ];
    public_key_der.extend_from_slice(keypair.public_key().as_ref());
    UpdatePolicy {
        channel: "stable".into(),
        os: "windows".into(),
        arch: "x86_64".into(),
        current_version: 3,
        minimum_version: 3,
        max_bytes: 1024,
        now: 100,
        repository: "stoltembergg-png/hank".into(),
        event: "release".into(),
        workflow: "release.yml".into(),
        policy: "updater-v1".into(),
        trusted_key_id: "fixture-v1".into(),
        trusted_public_key_der_b64: base64::engine::general_purpose::STANDARD
            .encode(public_key_der),
    }
}

fn manager(keypair: &ring::signature::Ed25519KeyPair) -> UpdateManager {
    UpdateManager::new(
        std::path::PathBuf::from("updates"),
        policy(keypair),
    )
}

fn metadata(keypair: &ring::signature::Ed25519KeyPair) -> UpdateMetadata {
    let bytes = b"signed-update".to_vec();
    let artifact = ArtifactIdentity {
        name: "Hank.exe".into(),
        digest: digest(&bytes),
        size: bytes.len() as u64,
    };
    let identity = BuildIdentity {
        repository: "stoltembergg-png/hank".into(),
        event: "release".into(),
        ref_name: "refs/tags/v4".into(),
        commit: "a".repeat(40),
        tree: "b".repeat(40),
        workflow: "release.yml".into(),
        policy: "updater-v1".into(),
        channel: "stable".into(),
        os: "windows-x86_64".into(),
    };
    let signer = SignerIdentity {
        key_id: "fixture-v1".into(),
    };
    let update = Some(UpdateBinding {
        version: 4,
        expires_at: 200,
        os: "windows".into(),
        arch: "x86_64".into(),
    });
    let unsigned = UpdateAttestation {
        schema_version: 2,
        artifact,
        identity,
        signer,
        update,
        signature: SignatureEnvelope {
            algorithm: "ed25519".into(),
            value: String::new(),
        },
    };
    let signature = keypair.sign(&canonical_payload(&unsigned).unwrap());
    let mut attestation = unsigned;
    attestation.signature.value =
        base64::engine::general_purpose::STANDARD.encode(signature.as_ref());
    UpdateMetadata {
        schema_version: 1,
        version: 4,
        channel: "stable".into(),
        os: "windows".into(),
        arch: "x86_64".into(),
        size: bytes.len() as u64,
        expires_at: 200,
        bytes,
        attestation,
    }
}

#[test]
fn signed_update_validates_and_stages() {
    let key = keypair();
    let manager = manager(&key);
    let update = metadata(&key);
    assert_eq!(manager.validate(&update), Ok(()));
    let marker = manager.stage_marker(&update, true).unwrap();
    assert_eq!(marker.version, 4);
    assert_eq!(marker.digest, update.attestation.artifact.digest);
    assert_eq!(manager.check_staged(&marker, &update.bytes), Ok(()));
}

#[test]
fn tampered_bytes_are_a_digest_mismatch() {
    let key = keypair();
    let manager = manager(&key);
    let mut update = metadata(&key);
    update.bytes = b"tampered".to_vec();
    update.size = update.bytes.len() as u64;
    assert_eq!(manager.validate(&update), Err(UpdateError::DigestMismatch));
    let marker = StageMarker {
        schema_version: 1,
        version: 4,
        channel: "stable".into(),
        digest: digest(b"signed-update"),
        size: 13,
    };
    assert_eq!(
        manager.check_staged(&marker, b"tampered-after-stage"),
        Err(UpdateError::DigestMismatch)
    );
}

#[test]
fn consent_version_expiry_and_policy_fail_closed() {
    let key = keypair();
    let manager = manager(&key);
    let update = metadata(&key);
    assert_eq!(
        manager.stage_marker(&update, false),
        Err(UpdateError::ConsentRequired)
    );
    let mut old = update.clone();
    old.version = 3;
    assert_eq!(manager.validate(&old), Err(UpdateError::Downgrade));
    let mut expired = update.clone();
    expired.expires_at = 100;
    assert_eq!(manager.validate(&expired), Err(UpdateError::Expired));
    let mut beta = update.clone();
    beta.channel = "beta".into();
    assert_eq!(manager.validate(&beta), Err(UpdateError::PolicyMismatch));
    let mut big = update.clone();
    big.size = 14;
    assert_eq!(manager.validate(&big), Err(UpdateError::SizeLimit));
}

#[test]
fn altered_attestation_breaks_the_signature() {
    let key = keypair();
    let manager = manager(&key);
    let mut update = metadata(&key);
    update.attestation.identity.ref_name = "refs/tags/v5".into();
    assert_eq!(manager.validate(&update), Err(UpdateError::InvalidSignature));
    let mut garbled = metadata(&key);
    garbled.attestation.signature.value = "!!!".into();
    assert_eq!(manager.validate(&garbled), Err(UpdateError::InvalidSignature));
}

#[test]
fn unbound_schema_two_attestation_is_refused() {
    let key = keypair();
    let manager = manager(&key);
    let mut update = metadata(&key);
    update.attestation.update = None;
    assert_eq!(manager.validate(&update), Err(UpdateError::PolicyMismatch));
}

#[test]
fn untrusted_signer_key_is_refused() {
    let key = keypair();
    let update = metadata(&key);
    let garbled = UpdatePolicy {
        trusted_public_key_der_b64: "not base64!".into(),
        ..policy(&key)
    };
    let manager = UpdateManager::new(std::path::PathBuf::from("updates"), garbled);
    assert_eq!(manager.validate(&update), Err(UpdateError::UntrustedSigner));
    let short = UpdatePolicy {
        trusted_public_key_der_b64: base64::engine::general_purpose::STANDARD.encode([1u8; 16]),
        ..policy(&key)
    };
    let manager = UpdateManager::new(std::path::PathBuf::from("updates"), short);
    assert_eq!(manager.validate(&update), Err(UpdateError::UntrustedSigner));
}

#[test]
fn digest_is_labelled_lower_hex_sha256() {
    let d = digest(b"abc");
    assert_eq!(
        d,
        "sha256:ba7816bf8f01cfea414140de5dae2223b00361a396177a9cb410ff61f20015ad"
    );
}

#[test]
fn canonical_payload_is_compact_json_in_field_order() {
    let attestation = UpdateAttestation {
        schema_version: 1,
        artifact: ArtifactIdentity {
            name: "a\"b".into(),
            digest: "d".into(),
            size: 2,
        },
        identity: BuildIdentity {
            repository: "r".into(),
            event: "e".into(),
            ref_name: "f".into(),
            commit: "c".into(),
            tree: "t".into(),
            workflow: "w".into(),
            policy: "p".into(),
            channel: "ch".into(),
            os: "o".into(),
        },
        signer: SignerIdentity { key_id: "k".into() },
        update: Some(UpdateBinding {
            version: 1,
            expires_at: 2,
            os: "x".into(),
            arch: "y".into(),
        }),
        signature: SignatureEnvelope {
            algorithm: "ed25519".into(),
            value: "v".into(),
        },
    };
    let text = String::from_utf8(canonical_payload(&attestation).unwrap()).unwrap();
    assert_eq!(
        text,
        "{\"schemaVersion\":1,\"artifact\":{\"name\":\"a\\\"b\",\"digest\":\"d\",\"size\":2},\
         \"identity\":{\"repository\":\"r\",\"event\":\"e\",\"ref\":\"f\",\"commit\":\"c\",\
         \"tree\":\"t\",\"workflow\":\"w\",\"policy\":\"p\",\"channel\":\"ch\",\"os\":\"o\"},\
         \"signer\":{\"keyId\":\"k\"}}"
    );
}

#[test]
fn bridge_errors_carry_stable_codes_and_messages() {
    let e = UpdateBridgeError::of(UpdateError::ConsentRequired);
    assert_eq!(e.code, UpdateBridgeErrorCode::ConsentRequired);
    assert_eq!(e.message, "explicit update consent is required");
    let e = UpdateBridgeError::of(UpdateError::Filesystem);
    assert_eq!(e.message, "updater filesystem operation failed");
    assert_eq!(
        UpdateBridgeError::unavailable().code,
        UpdateBridgeErrorCode::Unavailable
    );
}

#[test]
fn pending_marker_names_the_policy_channel() {
    let keypair = keypair();
    let marker = manager(&keypair).pending_marker();
    assert_eq!(
        marker,
        StageMarker {
            schema_version: 1,
            version: 0,
            channel: "stable".into(),
            digest: "pending".into(),
            size: 0,
        }
    );
}

#[test]
fn unconfigured_updater_answers_every_command_as_unavailable() {
    let state = bridge_state(None);
    let e = state.manager().err().unwrap();
    assert_eq!(e.code, UpdateBridgeErrorCode::Unavailable);
    assert_eq!(e.message, "updater is unavailable");
}

#[test]
fn configured_updater_runs_commands_and_maps_their_errors() {
    let keypair = keypair();
    let state = UpdaterBridgeState::new(Some(manager(&keypair)));
    let m = state.manager().ok().unwrap();
    assert_eq!(m.root(), &std::path::PathBuf::from("updates"));
    let refused = UpdaterBridgeState::answer(m.stage_marker(&metadata(&keypair), false));
    let e = refused.err().unwrap();
    assert_eq!(e.code, UpdateBridgeErrorCode::ConsentRequired);
    assert_eq!(e.message, "explicit update consent is required");
    let staged = UpdaterBridgeState::answer(m.stage_marker(&metadata(&keypair), true)).unwrap();
    assert_eq!(staged.version, metadata(&keypair).version);
}

#[test]
fn canonical_payload_escapes_strings_as_json() {
    let attestation = UpdateAttestation {
        schema_version: 1,
        artifact: ArtifactIdentity {
            name: "q\"s\\n\nt\tc\u{1}e\u{7f}".into(),
            digest: "d".into(),
            size: 2,
        },
        identity: BuildIdentity {
            repository: "r".into(),
            event: "e".into(),
            ref_name: "f".into(),
            commit: "c".into(),
            tree: "t".into(),
            workflow: "w".into(),
            policy: "p".into(),
            channel: "ch".into(),
            os: "o".into(),
        },
        signer: SignerIdentity { key_id: "k".into() },
        update: None,
        signature: SignatureEnvelope {
            algorithm: "ed25519".into(),
            value: "v".into(),
        },
    };
    let text = String::from_utf8(canonical_payload(&attestation).unwrap()).unwrap();
    assert!(text.starts_with(
        "{\"schemaVersion\":1,\"artifact\":{\"name\":\"q\\\"s\\\\n\\nt\\tc\\u0001e\u{7f}\","
    ));
}

#[test]
fn slot_plans_follow_the_slots_found() {
    assert_eq!(recovery_plan(false, false, true), RecoveryPlan::Clean);
    assert_eq!(recovery_plan(true, false, true), RecoveryPlan::Restore { move_previous_back: true });
    assert_eq!(recovery_plan(true, true, true), RecoveryPlan::Restore { move_previous_back: false });
    assert_eq!(recovery_result(RecoveryPlan::Clean), RecoveryResult::Clean);
    assert_eq!(
        recovery_result(RecoveryPlan::Restore { move_previous_back: false }),
        RecoveryResult::RestoredPrevious
    );
    assert_eq!(activation_plan(true, false, true, true), Err(UpdateError::IncompleteStaging));
    assert_eq!(
        activation_plan(true, true, true, false),
        Ok(ActivationPlan { clear_previous: false, demote_current: true })
    );
    assert_eq!(rollback_check(true, true), Ok(()));
    assert_eq!(rollback_check(true, false), Err(UpdateError::ActivationUnavailable));
}

#[test]
fn manager_root_is_the_one_it_was_made_with() {
    let keypair = keypair();
    let m = manager(&keypair);
    assert_eq!(m.root(), &std::path::PathBuf::from("updates"));
    let _ = m.stage_marker(&metadata(&keypair), true);
    let _ = m.validate(&metadata(&keypair));
    let _ = m.check_staged(&m.pending_marker(), b"x");
    assert_eq!(m.root(), &std::path::PathBuf::from("updates"));
}
