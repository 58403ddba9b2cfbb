use peregrine::config::AppConfig;
use peregrine::overlay_loop::{
    active_target_title, animated, overlay_created, overlay_destroyed, overlay_initial, overlay_step, OverlayAction,
    OverlayCommand, OverlayEvent, FRAME_INTERVAL_NS,
};

fn start(title: &str) -> OverlayEvent {
    OverlayEvent::Command(OverlayCommand::Start(title.to_string()))
}

#[test]
fn start_needs_a_title_outside_fullscreen() {
    let mut config = AppConfig::default_config();
    assert!(config.settings.fullscreen_overlay);
    config.settings.fullscreen_overlay = false;
    let (_, actions) = overlay_step(overlay_initial(), &config, start(""));
    assert!(actions.is_empty());
    let (s, actions) = overlay_step(overlay_initial(), &config, start("Game"));
    assert_eq!(actions.len(), 1);
    assert!(matches!(&actions[0], OverlayAction::CreateWindow { fullscreen: false, title } if title == "Game"));
    let (s, actions) = overlay_created(s, "Game".to_string());
    assert!(s.has_window && s.overlay_active && s.needs_redraw);
    assert!(matches!(&actions[0], OverlayAction::StartFollower(t) if t == "Game"));
    assert!(matches!(actions[1], OverlayAction::RequestRedraw));
    let (s, actions) = overlay_step(s, &config, start("Game"));
    assert!(actions.is_empty());
    let (_, actions) = overlay_step(s, &config, start("Other"));
    assert_eq!(actions.len(), 2);
    assert!(matches!(actions[0], OverlayAction::DestroyWindow));
    assert!(matches!(&actions[1], OverlayAction::CreateWindow { title, .. } if title == "Other"));
}

#[test]
fn fullscreen_starts_without_a_title() {
    let config = AppConfig::default_config();
    let (_, actions) = overlay_step(overlay_initial(), &config, start(""));
    assert!(matches!(&actions[0], OverlayAction::CreateWindow { fullscreen: true, title } if title.is_empty()));
}

#[test]
fn toggle_hides_a_shown_overlay_and_shows_the_target() {
    let mut config = AppConfig::default_config();
    config.profiles[0].1.target_window = "Game".to_string();
    assert_eq!(active_target_title(&config), "Game");
    let (s, actions) = overlay_step(overlay_initial(), &config, OverlayEvent::Command(OverlayCommand::ToggleOverlay));
    assert!(matches!(&actions[0], OverlayAction::CreateWindow { title, .. } if title == "Game"));
    let (s, _) = overlay_created(s, "Game".to_string());
    let (s, actions) = overlay_step(s, &config, OverlayEvent::Command(OverlayCommand::ToggleOverlay));
    assert_eq!(actions.len(), 1);
    assert!(matches!(actions[0], OverlayAction::DestroyWindow));
    let s = overlay_destroyed(s);
    assert!(!s.has_window && !s.overlay_active && s.target_title.is_empty());
    let (_, actions) = overlay_step(s, &config, OverlayEvent::Command(OverlayCommand::Stop));
    assert!(actions.is_empty());
}

#[test]
fn config_updates_restart_the_follower_on_mode_changes() {
    let config = AppConfig::default_config();
    let (s, _) = overlay_created(overlay_initial(), "Game".to_string());
    let mut same = AppConfig::default_config();
    same.active_profile = "default".to_string();
    let (s, actions) = overlay_step(s, &config, OverlayEvent::Command(OverlayCommand::UpdateConfig(same)));
    assert_eq!(actions.len(), 1);
    assert!(matches!(actions[0], OverlayAction::ReplaceConfig(_)));
    assert!(s.needs_redraw);
    let mut changed = AppConfig::default_config();
    changed.settings.live_drag_preview = !config.settings.live_drag_preview;
    let (_, actions) = overlay_step(s, &config, OverlayEvent::Command(OverlayCommand::UpdateConfig(changed)));
    assert_eq!(actions.len(), 3);
    assert!(matches!(actions[1], OverlayAction::StopFollower));
    assert!(matches!(&actions[2], OverlayAction::StartFollower(t) if t == "Game"));
}

#[test]
fn frames_are_rate_limited() {
    let config = AppConfig::default_config();
    let (s, _) = overlay_created(overlay_initial(), "Game".to_string());
    let (s, actions) = overlay_step(s, &config, OverlayEvent::RedrawRequested { now_ns: 1_000_000_000 });
    assert!(matches!(actions[0], OverlayAction::Render));
    assert!(matches!(actions[1], OverlayAction::WaitUntil(t) if t == 1_000_000_000 + FRAME_INTERVAL_NS));
    assert_eq!(s.last_render_ns, Some(1_000_000_000));
    assert!(!s.needs_redraw);
    let (s, actions) = overlay_step(s, &config, OverlayEvent::RedrawRequested { now_ns: 1_010_000_000 });
    assert!(actions.is_empty());
    let (s, actions) = overlay_step(s, &config, OverlayEvent::AboutToWait { now_ns: 1_010_000_000, animated: true });
    assert!(matches!(actions[0], OverlayAction::WaitUntil(t) if t == 1_000_000_000 + FRAME_INTERVAL_NS));
    let (s, actions) = overlay_step(s, &config, OverlayEvent::AboutToWait { now_ns: 1_020_000_000, animated: true });
    assert!(matches!(actions[0], OverlayAction::RequestRedraw));
    let (s, actions) = overlay_step(s, &config, OverlayEvent::AboutToWait { now_ns: 1_020_000_000, animated: false });
    assert!(matches!(actions[0], OverlayAction::Wait));
    let (s, _) = overlay_step(s, &config, OverlayEvent::Resized);
    assert!(s.needs_redraw);
    assert!(!animated(&config));
}
