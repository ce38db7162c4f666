//! How the desktop notification plugin's permission answers reach the
//! runtime: only an explicit grant allows notifications.
use vstd::prelude::*;

verus! {

/// The permission states the notification plugin reports.
#[derive(Debug, Clone, Copy, PartialEq, Eq, Structural)]
pub enum PluginPermissionState {
    Granted,
    Denied,
    Prompt,
    PromptWithRationale,
}

/// The permission states the runtime knows.
#[derive(Debug, Clone, Copy, PartialEq, Eq, Structural)]
pub enum PermissionState {
    Granted,
    Denied,
    Unavailable,
}

/// A plugin state as the runtime sees it: granted only when granted; a
/// pending prompt counts as denied.
pub fn map_permission(state: PluginPermissionState) -> (r: PermissionState)
    ensures
        r == (if state == PluginPermissionState::Granted {
            PermissionState::Granted
        } else {
            PermissionState::Denied
        }),
{
    match state {
        PluginPermissionState::Granted => PermissionState::Granted,
        PluginPermissionState::Denied
        | PluginPermissionState::Prompt
        | PluginPermissionState::PromptWithRationale => PermissionState::Denied,
    }
}

/// The answer to a permission query: the plugin's state as the runtime
/// sees it, or unavailable when the plugin could not answer.
pub fn permission_answer(answer: Option<PluginPermissionState>) -> (r: PermissionState)
    ensures
        r == (match answer {
            Some(PluginPermissionState::Granted) => PermissionState::Granted,
            Some(_) => PermissionState::Denied,
            None => PermissionState::Unavailable,
        }),
{
    match answer {
        Some(state) => map_permission(state),
        None => PermissionState::Unavailable,
    }
}

} // verus!
