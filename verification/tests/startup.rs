use agent_core::lifecycle::{StartupErrorCode, StartupStage, StartupState};

#[test]
fn application_ready_requires_every_stage_and_frontend_ipc() {
    let mut state = StartupState::new();

    for stage in [
        StartupStage::StorageReady,
        StartupStage::RuntimeReady,
        StartupStage::WindowCreated,
    ] {
        state.advance(stage).expect("mandatory stage must advance");
        assert!(!state.snapshot().ready_emitted);
    }

    state
        .mark_webview_ready()
        .expect("WebView page load must advance readiness");
    assert!(!state.snapshot().ready_emitted);

    state
        .acknowledge_frontend()
        .expect("frontend IPC handshake must advance readiness");
    let snapshot = state.snapshot();
    assert_eq!(snapshot.stage, StartupStage::ApplicationReady);
    assert!(snapshot.ready_emitted);
}

#[test]
fn webview_failure_is_fail_closed_and_never_emits_ready() {
    let mut state = StartupState::new();
    for stage in [
        StartupStage::StorageReady,
        StartupStage::RuntimeReady,
        StartupStage::WindowCreated,
    ] {
        state.advance(stage).expect("mandatory stage must advance");
    }

    let failure = state.fail(
        StartupStage::WindowCreated,
        StartupErrorCode::WebviewInitialization,
        "WebView2 returned HRESULT 0x800700AA".into(),
    );
    assert_eq!(failure.stage, StartupStage::WindowCreated);
    assert_eq!(failure.code, StartupErrorCode::WebviewInitialization);
    assert!(state.mark_webview_ready().is_err());
    assert!(state.acknowledge_frontend().is_err());
    assert!(!state.snapshot().ready_emitted);
    assert!(state.snapshot().failure.is_some());
}

#[test]
fn frontend_ipc_handshake_can_complete_before_page_load_callback() {
    let mut state = StartupState::new();
    for stage in [
        StartupStage::StorageReady,
        StartupStage::RuntimeReady,
        StartupStage::WindowCreated,
    ] {
        state.advance(stage).expect("mandatory stage must advance");
    }

    let snapshot = state
        .acknowledge_frontend()
        .expect("typed IPC proves the loaded WebView even before callback ordering settles");
    assert_eq!(snapshot.stage, StartupStage::ApplicationReady);
    assert!(snapshot.ready_emitted);
    assert!(state.mark_webview_ready().is_ok());
}

#[test]
fn skipping_a_stage_records_an_invalid_transition() {
    let mut state = StartupState::new();
    let failure = state.advance(StartupStage::WindowCreated).unwrap_err();
    assert_eq!(failure.stage, StartupStage::Booting);
    assert_eq!(failure.code, StartupErrorCode::InvalidTransition);
    assert_eq!(failure.cause, "expected Some(StorageReady), attempted WindowCreated");
    assert_eq!(state.advance(StartupStage::StorageReady).unwrap_err(), failure);
    assert!(!state.is_application_ready());
    assert_eq!(failure.message(), "startup failed at BOOTING (INVALID_TRANSITION)");
}

#[test]
fn first_failure_is_kept() {
    let mut state = StartupState::new();
    let first = state.fail(StartupStage::Booting, StartupErrorCode::StorageInitialization, "disk".into());
    let second = state.fail(StartupStage::RuntimeReady, StartupErrorCode::StartupTimeout, "late".into());
    assert_eq!(first, second);
    assert_eq!(state.current_stage(), StartupStage::Booting);
}

#[test]
fn ready_state_rejects_further_advances() {
    let mut state = StartupState::new();
    for stage in [
        StartupStage::StorageReady,
        StartupStage::RuntimeReady,
        StartupStage::WindowCreated,
        StartupStage::WebviewReady,
        StartupStage::FrontendReady,
        StartupStage::ApplicationReady,
    ] {
        state.advance(stage).unwrap();
    }
    assert!(state.is_application_ready());
    let failure = state.advance(StartupStage::ApplicationReady).unwrap_err();
    assert_eq!(failure.cause, "expected None, attempted ApplicationReady");
    assert!(!state.is_application_ready());
}

#[test]
fn e2e_data_override_is_explicitly_named_and_debug_only() {
    use_data_location();
}

fn use_data_location() {
    let locate = agent_core::lifecycle::data_location;
    assert_eq!(agent_core::lifecycle::E2E_APP_DATA_ENV, "HANK_E2E_APP_DATA_DIR");
    assert_eq!(agent_core::lifecycle::E2E_RELEASE_DATA_OPT_IN_ENV, "HANK_E2E_ALLOW_RELEASE_DATA_DIR");
    assert_eq!(locate(false, false, None), Ok(agent_core::lifecycle::DataLocation::AppData));
    assert_eq!(locate(true, true, None), Ok(agent_core::lifecycle::DataLocation::Override));
    assert_eq!(locate(true, false, Some("1")), Ok(agent_core::lifecycle::DataLocation::Override));
    let refused = locate(true, false, Some("yes")).unwrap_err();
    assert_eq!(refused, agent_core::lifecycle::DataLocationError::PermissionDenied);
    assert!(agent_core::lifecycle::data_location_message(refused).contains("explicit E2E opt-in"));
}
