use agent_core::notification_permission::{
    map_permission, permission_answer, PermissionState, PluginPermissionState,
};

#[test]
fn maps_plugin_permission_states_without_leaking_plugin_types() {
    assert_eq!(map_permission(PluginPermissionState::Granted), PermissionState::Granted);
    assert_eq!(map_permission(PluginPermissionState::Denied), PermissionState::Denied);
    assert_eq!(map_permission(PluginPermissionState::Prompt), PermissionState::Denied);
    assert_eq!(map_permission(PluginPermissionState::PromptWithRationale), PermissionState::Denied);
}

#[test]
fn an_unanswered_permission_query_is_unavailable() {
    assert_eq!(permission_answer(None), PermissionState::Unavailable);
    assert_eq!(permission_answer(Some(PluginPermissionState::Granted)), PermissionState::Granted);
    assert_eq!(permission_answer(Some(PluginPermissionState::Prompt)), PermissionState::Denied);
}
