//! The tray menu: what each item does, and the preference change the
//! window-mode item makes.

use vstd::prelude::*;
use crate::commands::PreferencesPatch;
use crate::text::str_eq;

verus! {

/// What a tray menu item does.
#[derive(Debug, Clone, Copy, PartialEq, Eq, Structural)]
pub enum TrayAction {
    /// Show (or reopen) the configuration window.
    ShowConfig,
    /// Show (or reopen) the settings window.
    ShowSettings,
    /// Switch between window mode and full-screen mode; `fullscreen` is
    /// the new full-screen setting.
    SetFullscreen { fullscreen: bool },
    /// Mark the application as quitting and exit.
    Quit,
    /// Not a known item.
    Ignore,
}

/// The action of the menu item `id`; `window_mode_checked` is the state
/// of the window-mode check item after the click.
pub open spec fn spec_tray_action(id: Seq<char>, window_mode_checked: bool) -> TrayAction {
    if id == "config"@ {
        TrayAction::ShowConfig
    } else if id == "settings"@ {
        TrayAction::ShowSettings
    } else if id == "window_mode"@ {
        TrayAction::SetFullscreen { fullscreen: !window_mode_checked }
    } else if id == "quit"@ {
        TrayAction::Quit
    } else {
        TrayAction::Ignore
    }
}

/// The action of the menu item `id`.
pub fn tray_action(id: &str, window_mode_checked: bool) -> (a: TrayAction)
    ensures
        a == spec_tray_action(id@, window_mode_checked),
{
    if str_eq(id, "config") {
        TrayAction::ShowConfig
    } else if str_eq(id, "settings") {
        TrayAction::ShowSettings
    } else if str_eq(id, "window_mode") {
        TrayAction::SetFullscreen { fullscreen: !window_mode_checked }
    } else if str_eq(id, "quit") {
        TrayAction::Quit
    } else {
        TrayAction::Ignore
    }
}

/// The preference change that sets full-screen mode and leaves every other
/// preference as it is.
pub fn fullscreen_patch(fullscreen: bool) -> (p: PreferencesPatch)
    ensures
        p.fullscreen_overlay == Some(fullscreen),
        p.locale is None && p.auto_switch_on_overlay is None && p.live_drag_preview is None,
        p.gpu_acceleration is None && p.update_channel is None && p.cn_mirror is None,
        p.mirror_url is None && p.antialiasing is None && p.renderer_backend is None,
        p.quick_colors is None && p.hotkey_bindings is None,
{
    PreferencesPatch {
        locale: None,
        auto_switch_on_overlay: None,
        fullscreen_overlay: Some(fullscreen),
        live_drag_preview: None,
        gpu_acceleration: None,
        update_channel: None,
        cn_mirror: None,
        mirror_url: None,
        antialiasing: None,
        renderer_backend: None,
        quick_colors: None,
        hotkey_bindings: None,
    }
}

} // verus!
