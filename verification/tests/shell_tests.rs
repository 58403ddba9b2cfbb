use peregrine::desktop_shell::{
    shell_initial, shell_step, ShellAction, ShellEvent, ShellState, TrayMenuItem, WindowRole,
};

fn started(title: &str, follows: bool) -> ShellState {
    let mut s = shell_initial(title.to_string(), follows);
    assert_eq!(shell_step(&mut s, ShellEvent::NewEvents { init: true }), vec![ShellAction::BuildTray]);
    assert_eq!(
        shell_step(&mut s, ShellEvent::Resumed),
        vec![ShellAction::OpenSettingsWindow, ShellAction::StartWatcher]
    );
    s
}

fn response(changed: bool, target: &str, start: bool, stop: bool) -> ShellEvent {
    ShellEvent::SettingsResponse { changed, target: target.to_string(), start_overlay: start, stop_overlay: stop }
}

#[test]
fn tray_and_settings_window_are_created_once() {
    let mut s = started("Game", true);
    assert!(shell_step(&mut s, ShellEvent::NewEvents { init: true }).is_empty());
    assert!(shell_step(&mut s, ShellEvent::NewEvents { init: false }).is_empty());
    assert!(shell_step(&mut s, ShellEvent::Resumed).is_empty());
    assert!(s.flags.tray_built && s.flags.settings_window && s.flags.watcher_running);
}

#[test]
fn start_button_opens_overlay_and_follower() {
    let mut s = started("Game", true);
    assert_eq!(
        shell_step(&mut s, response(false, "", true, false)),
        vec![ShellAction::OpenOverlay { follow: true }]
    );
    assert!(s.flags.pending.is_some());
    assert_eq!(
        shell_step(&mut s, ShellEvent::OverlayOpened { window_ok: true, follower_ok: true }),
        vec![ShellAction::RequestOverlayRedraw, ShellAction::RequestSettingsRedraw]
    );
    assert!(s.flags.overlay_active && s.flags.follower_running && s.flags.pending.is_none());
    // A second start does nothing more than redraw the panel.
    assert_eq!(shell_step(&mut s, response(false, "", true, false)), vec![ShellAction::RequestSettingsRedraw]);
}

#[test]
fn start_without_target_does_nothing() {
    let mut s = started("", true);
    assert_eq!(shell_step(&mut s, response(false, "", true, false)), vec![ShellAction::RequestSettingsRedraw]);
    assert!(!s.flags.overlay_active);
}

#[test]
fn follower_end_and_stop_button_destroy_overlay() {
    let mut s = started("Game", true);
    shell_step(&mut s, response(false, "", true, false));
    shell_step(&mut s, ShellEvent::OverlayOpened { window_ok: true, follower_ok: true });
    assert_eq!(
        shell_step(&mut s, ShellEvent::FollowerEnded),
        vec![ShellAction::StopFollower, ShellAction::DropOverlay]
    );
    assert!(!s.flags.overlay_active && !s.flags.follower_running);

    shell_step(&mut s, response(false, "", true, false));
    shell_step(&mut s, ShellEvent::OverlayOpened { window_ok: true, follower_ok: false });
    assert!(s.flags.overlay_active && !s.flags.follower_running);
    assert_eq!(
        shell_step(&mut s, response(false, "", false, true)),
        vec![ShellAction::DropOverlay, ShellAction::RequestSettingsRedraw]
    );
}

#[test]
fn failed_overlay_window_leaves_overlay_off() {
    let mut s = started("Game", false);
    assert_eq!(
        shell_step(&mut s, response(false, "", true, false)),
        vec![ShellAction::OpenOverlay { follow: false }]
    );
    assert_eq!(
        shell_step(&mut s, ShellEvent::OverlayOpened { window_ok: false, follower_ok: false }),
        vec![ShellAction::RequestSettingsRedraw]
    );
    assert!(!s.flags.overlay_active);
}

#[test]
fn new_target_recreates_running_overlay() {
    let mut s = started("Game", true);
    shell_step(&mut s, response(false, "", true, false));
    shell_step(&mut s, ShellEvent::OverlayOpened { window_ok: true, follower_ok: true });
    assert_eq!(
        shell_step(&mut s, response(true, "Other Game", false, true)),
        vec![
            ShellAction::SaveAndNotify,
            ShellAction::StopFollower,
            ShellAction::DropOverlay,
            ShellAction::OpenOverlay { follow: true },
        ]
    );
    assert_eq!(s.target_title, "Other Game");
    // The stop button of the same response is handled once the window opened.
    assert_eq!(
        shell_step(&mut s, ShellEvent::OverlayOpened { window_ok: true, follower_ok: true }),
        vec![
            ShellAction::RequestOverlayRedraw,
            ShellAction::StopFollower,
            ShellAction::DropOverlay,
            ShellAction::RequestSettingsRedraw,
        ]
    );
    assert!(!s.flags.overlay_active);
}

#[test]
fn same_target_change_only_saves() {
    let mut s = started("Game", true);
    assert_eq!(
        shell_step(&mut s, response(true, "Game", false, false)),
        vec![ShellAction::SaveAndNotify, ShellAction::RequestSettingsRedraw]
    );
}

#[test]
fn closing_or_escape_hides_settings_and_tray_restores_it() {
    let mut s = started("Game", true);
    assert_eq!(
        shell_step(&mut s, ShellEvent::CloseRequested(WindowRole::Settings)),
        vec![ShellAction::ForwardToSettingsUi, ShellAction::HideSettingsWindow]
    );
    assert!(s.flags.hidden);
    assert_eq!(shell_step(&mut s, ShellEvent::RedrawRequested(WindowRole::Settings)), vec![ShellAction::ForwardToSettingsUi]);
    assert!(shell_step(&mut s, ShellEvent::AboutToWait).is_empty());
    assert_eq!(
        shell_step(&mut s, ShellEvent::MenuClicked(TrayMenuItem::Settings)),
        vec![ShellAction::ShowSettingsWindow]
    );
    assert!(!s.flags.hidden);
    assert_eq!(
        shell_step(&mut s, ShellEvent::KeyPressed { window: WindowRole::Settings, escape: true }),
        vec![ShellAction::ForwardToSettingsUi, ShellAction::HideSettingsWindow]
    );
    assert_eq!(
        shell_step(&mut s, ShellEvent::KeyPressed { window: WindowRole::Settings, escape: false }),
        vec![ShellAction::ForwardToSettingsUi]
    );
}

#[test]
fn window_events_reach_their_renderers() {
    let mut s = started("Game", true);
    assert_eq!(
        shell_step(&mut s, ShellEvent::RedrawRequested(WindowRole::Settings)),
        vec![ShellAction::ForwardToSettingsUi, ShellAction::RenderSettings]
    );
    assert_eq!(
        shell_step(&mut s, ShellEvent::Resized { window: WindowRole::Settings, width: 960, height: 560 }),
        vec![ShellAction::ForwardToSettingsUi, ShellAction::ResizeSettings { width: 960, height: 560 }]
    );
    assert!(shell_step(&mut s, ShellEvent::Resized { window: WindowRole::Overlay, width: 1, height: 1 }).is_empty());
    shell_step(&mut s, response(false, "", true, false));
    shell_step(&mut s, ShellEvent::OverlayOpened { window_ok: true, follower_ok: true });
    assert_eq!(
        shell_step(&mut s, ShellEvent::Resized { window: WindowRole::Overlay, width: 800, height: 600 }),
        vec![ShellAction::ResizeOverlay { width: 800, height: 600 }]
    );
    assert_eq!(
        shell_step(&mut s, ShellEvent::AboutToWait),
        vec![ShellAction::RequestSettingsRedraw, ShellAction::RenderOverlay]
    );
    assert_eq!(shell_step(&mut s, ShellEvent::WindowOther(WindowRole::Settings)), vec![ShellAction::ForwardToSettingsUi]);
    assert!(shell_step(&mut s, ShellEvent::WindowOther(WindowRole::Overlay)).is_empty());
}

#[test]
fn quit_stops_everything() {
    let mut s = started("Game", true);
    shell_step(&mut s, response(false, "", true, false));
    shell_step(&mut s, ShellEvent::OverlayOpened { window_ok: true, follower_ok: true });
    assert_eq!(
        shell_step(&mut s, ShellEvent::MenuClicked(TrayMenuItem::Quit)),
        vec![
            ShellAction::StopWatcher,
            ShellAction::StopFollower,
            ShellAction::DropOverlay,
            ShellAction::DropTray,
            ShellAction::ExitLoop,
        ]
    );
    assert!(!s.flags.overlay_active && !s.flags.watcher_running && !s.flags.tray_built);
}
