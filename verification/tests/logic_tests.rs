use peregrine::ui_labels::truncate_title;
use peregrine::registry::{builtin_id, user_material_id, MaterialRegistry};
use peregrine::watcher::{is_config_event, watch_initial, watch_step, FileEventKind, WatchAction, WatchEvent};
use peregrine::commands::{
    apply_preferences, cycle_color_index, execute_hotkey_action, locale_changed, set_crosshair_color, start_overlay,
    update_preferences, HotkeyEffect, PreferencesPatch,
};
use peregrine::config::AppConfig;
use peregrine::float_bits::F32;
use peregrine::layer::ParamValue;
use peregrine::locale::{current_locale, detect_locale, tr, BackendLocale};
use peregrine::material::{material_metadata, merge_params, DynamicContext};
use peregrine::schema::{HotkeyAction, RendererBackend};
use peregrine::settings::AppSettings;
use peregrine::storage::ConfigStorage;
use peregrine::ui_labels::{all_styles, anchor_display_name, border_frame_style_display_name, ring_style_display_name, style_display_name};
use peregrine::updates::{apply_mirror, manifest_source, prerelease_manifest_url, ManifestSource, ReleaseEntry};
use peregrine::window::{find_target_window, follow_initial, follow_step, list_window_titles, FollowEvent, OverlayError, ShowCommand, WinRect, WindowEntry};

fn f(x: f32) -> F32 {
    F32 { bits: x.to_bits() }
}

fn empty_patch() -> PreferencesPatch {
    PreferencesPatch {
        locale: None,
        auto_switch_on_overlay: None,
        fullscreen_overlay: None,
        live_drag_preview: None,
        gpu_acceleration: None,
        update_channel: None,
        cn_mirror: None,
        mirror_url: None,
        antialiasing: None,
        renderer_backend: None,
        quick_colors: None,
        hotkey_bindings: None,
    }
}

#[test]
fn start_overlay_needs_target_in_window_mode() {
    assert!(start_overlay(true, "", BackendLocale::En).is_ok());
    assert!(start_overlay(false, "Game", BackendLocale::En).is_ok());
    assert_eq!(start_overlay(false, "", BackendLocale::En).unwrap_err(), "No target window selected");
    assert_eq!(start_overlay(false, "", BackendLocale::ZhCN).unwrap_err(), "未选择目标窗口");
}

#[test]
fn locales_and_texts() {
    assert_eq!(BackendLocale::from_str("zh-CN"), BackendLocale::ZhCN);
    assert_eq!(BackendLocale::from_str("ZH_tw"), BackendLocale::ZhCN);
    assert_eq!(BackendLocale::from_str("en-US"), BackendLocale::En);
    assert_eq!(BackendLocale::detect(None), BackendLocale::En);
    assert_eq!(BackendLocale::detect(Some("zh_CN.UTF-8")), BackendLocale::ZhCN);
    assert_eq!(detect_locale(BackendLocale::ZhCN), "zh-CN");
    assert_eq!(detect_locale(BackendLocale::En), "en");
    assert_eq!(tr(BackendLocale::En, "tray.quit"), "Quit");
    assert_eq!(tr(BackendLocale::ZhCN, "tray.window_mode"), "窗口模式");
    assert_eq!(tr(BackendLocale::ZhCN, "png_filter"), "PNG 图片");
    assert_eq!(tr(BackendLocale::En, "unknown.key"), "unknown.key");
    assert_eq!(current_locale("en", BackendLocale::ZhCN), BackendLocale::En);
    assert_eq!(current_locale("zh-CN", BackendLocale::En), BackendLocale::ZhCN);
    assert_eq!(current_locale("auto", BackendLocale::ZhCN), BackendLocale::ZhCN);
    assert_eq!(current_locale("auto", BackendLocale::En), BackendLocale::En);
}

#[test]
fn color_cycle_indices() {
    assert_eq!(cycle_color_index(None, true), 0);
    assert_eq!(cycle_color_index(None, false), 4);
    assert_eq!(cycle_color_index(Some(4), true), 0);
    assert_eq!(cycle_color_index(Some(2), true), 3);
    assert_eq!(cycle_color_index(Some(0), false), 4);
    assert_eq!(cycle_color_index(Some(3), false), 2);
}

#[test]
fn hotkey_effects() {
    let mut cfg = AppConfig::default_config();
    cfg.profiles[0].1.target_window = "Game".to_string();
    assert!(matches!(execute_hotkey_action(HotkeyAction::ToggleOverlay, &cfg, None), HotkeyEffect::Toggle));
    assert!(matches!(execute_hotkey_action(HotkeyAction::StopOverlay, &cfg, None), HotkeyEffect::Stop));
    match execute_hotkey_action(HotkeyAction::StartOverlay, &cfg, None) {
        HotkeyEffect::Start(t) => assert_eq!(t, "Game"),
        other => panic!("unexpected {:?}", other),
    }
    match execute_hotkey_action(HotkeyAction::SetColor2, &cfg, None) {
        HotkeyEffect::SetColor(c) => assert_eq!(f32::from_bits(c[1].bits), 1.0),
        other => panic!("unexpected {:?}", other),
    }
    match execute_hotkey_action(HotkeyAction::CycleColorNext, &cfg, Some(0)) {
        HotkeyEffect::SetColor(c) => assert_eq!(f32::from_bits(c[0].bits), 0.0),
        other => panic!("unexpected {:?}", other),
    }
    cfg.active_profile = "none".to_string();
    match execute_hotkey_action(HotkeyAction::StartOverlay, &cfg, None) {
        HotkeyEffect::Start(t) => assert_eq!(t, ""),
        other => panic!("unexpected {:?}", other),
    }
}

#[test]
fn set_color_checks_channels_and_range() {
    let cfg = AppConfig::default_config();
    assert_eq!(set_crosshair_color(cfg, &vec![f(1.0)]).unwrap_err(), "color must have 4 channels");
    let cfg = AppConfig::default_config();
    let cfg = set_crosshair_color(cfg, &vec![f(1.0), f(0.0), f(0.0), f(1.0)]).unwrap();
    let ch = cfg.active_profile().unwrap().crosshair.as_ref().unwrap();
    assert_eq!(f32::from_bits(ch.color[1].bits), 0.0);
    let err = set_crosshair_color(cfg, &vec![f(2.0), f(0.0), f(0.0), f(1.0)]).unwrap_err();
    assert!(err.starts_with("validation error: profile 'default': validation error: color channel 0"));
}

#[test]
fn preferences_patch_applies_fields() {
    let s = AppSettings::default();
    let mut p = empty_patch();
    p.locale = Some("en".to_string());
    p.fullscreen_overlay = Some(false);
    p.renderer_backend = Some(RendererBackend::Svg);
    p.quick_colors = Some(vec![[f(0.0); 4]; 4]);
    let r = apply_preferences(s, p);
    assert_eq!(r.locale, "en");
    assert!(!r.fullscreen_overlay);
    assert_eq!(r.renderer_backend, RendererBackend::Svg);
    assert_eq!(f32::from_bits(r.quick_colors[0][0].bits), 1.0);
    assert_eq!(r.update_channel, "stable");

    let mut p = empty_patch();
    p.quick_colors = Some(vec![[f(0.5); 4]; 5]);
    let r = apply_preferences(AppSettings::default(), p);
    assert_eq!(f32::from_bits(r.quick_colors[4][3].bits), 0.5);
}

#[test]
fn preferences_update_outcome() {
    let mut p = empty_patch();
    p.locale = Some("en".to_string());
    p.fullscreen_overlay = Some(true);
    let o = update_preferences(AppConfig::default_config(), p, "auto").unwrap();
    assert!(o.locale_changed);
    assert_eq!(o.window_mode_checked, Some(false));
    assert!(!o.rebind_hotkeys);
    assert!(!locale_changed(&Some("en".to_string()), "en"));
    assert!(!locale_changed(&None, "en"));
}

#[test]
fn manifest_urls() {
    match manifest_source("stable").unwrap() {
        ManifestSource::Url(u) => assert_eq!(u, "https://github.com/Eeymoo/peregrine/releases/latest/download/stable.json"),
        other => panic!("unexpected {:?}", other),
    }
    match manifest_source("prerelease").unwrap() {
        ManifestSource::LatestPrerelease(u) => assert_eq!(u, "https://api.github.com/repos/Eeymoo/peregrine/releases"),
        other => panic!("unexpected {:?}", other),
    }
    assert_eq!(manifest_source("nightly").unwrap_err(), "未知的更新通道: nightly");
    let releases = vec![
        ReleaseEntry { prerelease: Some(false), tag_name: Some("v1.0.1".to_string()) },
        ReleaseEntry { prerelease: Some(true), tag_name: Some("v1.1.0-beta".to_string()) },
        ReleaseEntry { prerelease: Some(true), tag_name: Some("v1.0.0-beta".to_string()) },
    ];
    assert_eq!(
        prerelease_manifest_url(&Some(releases)).unwrap(),
        "https://github.com/Eeymoo/peregrine/releases/download/v1.1.0-beta/prerelease.json"
    );
    assert_eq!(prerelease_manifest_url(&None).unwrap_err(), "GitHub API 响应不是数组");
    assert_eq!(prerelease_manifest_url(&Some(vec![])).unwrap_err(), "未找到 GitHub prerelease");
    assert_eq!(
        prerelease_manifest_url(&Some(vec![ReleaseEntry { prerelease: Some(true), tag_name: None }])).unwrap_err(),
        "未找到 GitHub prerelease"
    );
    assert_eq!(apply_mirror("https://x/y", false, "https://m/"), "https://x/y");
    assert_eq!(apply_mirror("https://x/y", true, "https://m//"), "https://m/https://x/y");
    assert_eq!(apply_mirror("u", true, "https://v4.gh-proxy.org"), "https://v4.gh-proxy.org/u");
}

#[test]
fn storage_paths() {
    let expected = |dir: &str| {
        std::path::Path::new(dir).join("Peregrine").join("config.json").to_string_lossy().into_owned()
    };
    assert_eq!(ConfigStorage::default_path(Some("/home/u/.config".to_string())).unwrap(), expected("/home/u/.config"));
    assert_eq!(ConfigStorage::default_path(Some("/cfg/".to_string())).unwrap(), expected("/cfg/"));
    assert_eq!(
        ConfigStorage::default_path(Some("/cfg".to_string())).unwrap(),
        format!("/cfg{sep}Peregrine{sep}config.json", sep = std::path::MAIN_SEPARATOR)
    );
    assert!(ConfigStorage::default_path(None).is_err());
    let s = ConfigStorage::with_default_path(Some("/c".to_string())).unwrap();
    assert_eq!(s.path(), expected("/c"));
    assert_eq!(ConfigStorage::new("/x/config.json".to_string()).path(), "/x/config.json");
}

#[test]
fn ui_labels() {
    let styles = all_styles();
    assert_eq!(styles.len(), 13);
    assert_eq!(style_display_name(styles[0]), "卫生纸");
    assert_eq!(style_display_name(styles[11]), "箭头");
    assert_eq!(styles[12], peregrine::schema::CrosshairStyle::Grid);
    assert_eq!(style_display_name(styles[12]), "网格");
    assert_eq!(anchor_display_name(peregrine::schema::Anchor::Center), "居中");
    assert_eq!(ring_style_display_name(peregrine::schema::RingStyle::Double), "双环");
    assert_eq!(border_frame_style_display_name(peregrine::schema::BorderFrameStyle::Gap), "四边缺口");
}

#[test]
fn material_metadata_and_merge() {
    let m = material_metadata("builtin.cross".to_string(), "fn build() {}", None, Some(500));
    assert_eq!(m.display_name, "cross");
    assert!(!m.is_dynamic);
    assert_eq!(m.refresh_interval_ms, 500);
    let m = material_metadata("clock".to_string(), "// Name: 时钟\n", Some(true), Some(-1));
    assert_eq!(m.display_name, "时钟");
    assert!(m.is_dynamic);
    assert_eq!(m.refresh_interval_ms, 0);
    let m = material_metadata("a.b.".to_string(), "", None, Some(1 << 40));
    assert_eq!(m.display_name, "");
    assert_eq!(m.refresh_interval_ms, 0);

    let d = ParamValue::Object(vec![("size".to_string(), ParamValue::Int(1)), ("gap".to_string(), ParamValue::Int(2))]);
    let o = ParamValue::Object(vec![("gap".to_string(), ParamValue::Int(9)), ("new".to_string(), ParamValue::Bool(true))]);
    match merge_params(d, o) {
        ParamValue::Object(e) => {
            assert_eq!(e.len(), 3);
            assert_eq!(e[0].0, "size");
            assert!(matches!(e[1].1, ParamValue::Int(9)));
            assert_eq!(e[2].0, "new");
        },
        other => panic!("unexpected {:?}", other),
    }
    assert!(matches!(merge_params(ParamValue::Null, ParamValue::Int(3)), ParamValue::Int(3)));
    assert!(matches!(merge_params(ParamValue::Object(vec![]), ParamValue::Int(3)), ParamValue::Object(_)));
    assert!(matches!(merge_params(ParamValue::Int(1), ParamValue::Object(vec![])), ParamValue::Object(_)));
}

#[test]
fn static_context_has_zero_version() {
    let ctx = DynamicContext::static_context();
    assert_eq!(ctx.version, 0);
    assert_eq!(ctx.rng_seed, 1);
    assert_eq!(ctx.key_state.pressed_count(), 0);
}

#[test]
fn window_lookup() {
    let entries = vec![
        WindowEntry { hwnd: 1, title: "My Game - Launcher".to_string() },
        WindowEntry { hwnd: 2, title: "My Game".to_string() },
    ];
    assert_eq!(find_target_window(&entries, "My Game").unwrap(), 2);
    assert_eq!(find_target_window(&entries, "Launcher").unwrap(), 1);
    assert_eq!(find_target_window(&entries, "Other").unwrap_err(), OverlayError::TargetNotFound("Other".to_string()));
    assert_eq!(list_window_titles(&entries), vec!["My Game - Launcher".to_string(), "My Game".to_string()]);
}

#[test]
fn follow_hides_while_dragging_and_stops() {
    let s = follow_initial();
    let rect = WinRect { left: 10, top: 10, right: 110, bottom: 60 };
    let ev = FollowEvent::Target { exists: true, iconic: false, foreground: true, rect: Some(rect), exists_after_error: true, now_ms: 0 };
    let (s2, a) = follow_step(&s, &ev, false);
    assert_eq!(a.show, ShowCommand::Hide);
    assert!(!a.finish);
    let (_, a) = follow_step(&s2, &FollowEvent::Stop, false);
    assert!(a.finish);
    let (_, a) = follow_step(&s, &ev, true);
    assert_eq!(a.set_pos, Some((10, 10, 100, 50)));
}

#[test]
fn registry_replaces_user_materials() {
    let mut r: MaterialRegistry<u32> = MaterialRegistry::new();
    assert!(r.is_empty());
    r.insert(builtin_id("cross"), 1);
    r.insert("user.old".to_string(), 2);
    r.insert(builtin_id("cross"), 3);
    assert_eq!(r.len(), 2);
    assert_eq!(r.get("builtin.cross"), Some(&3));
    r.replace_user_materials(vec![("user.new".to_string(), 4)]);
    assert_eq!(r.get("user.old"), None);
    assert_eq!(r.get("user.new"), Some(&4));
    assert_eq!(r.get("builtin.cross"), Some(&3));
    assert_eq!(r.len(), 2);
    assert_eq!(user_material_id("glow.rhai"), Some("user.glow".to_string()));
    assert_eq!(user_material_id("a.b.rhai"), Some("user.a.b".to_string()));
    assert_eq!(user_material_id(".rhai"), None);
    assert_eq!(user_material_id("notes.txt"), None);
}

#[test]
fn config_events_and_debounce() {
    let paths = vec!["/c/other.json".to_string(), "/c//config.json".to_string()];
    assert!(is_config_event(FileEventKind::Modify, &paths, "/c/config.json"));
    assert!(!is_config_event(FileEventKind::Other, &paths, "/c/config.json"));
    assert!(!is_config_event(FileEventKind::Create, &vec!["/c/x".to_string()], "/c/config.json"));
    let s = watch_initial(0);
    let (s, a) = watch_step(s, WatchEvent::File { concerns_config: true });
    assert_eq!(a, WatchAction::RestartTimer);
    let (s2, a) = watch_step(s, WatchEvent::Tick { now_ms: 100 });
    assert_eq!(a, WatchAction::Idle);
    assert!(!s2.pending_reload);
    let (s3, a) = watch_step(s, WatchEvent::Tick { now_ms: 300 });
    assert_eq!(a, WatchAction::Reload);
    assert_eq!(s3.last_reload_ms, 300);
    let (_, a) = watch_step(s3, WatchEvent::Stop);
    assert_eq!(a, WatchAction::Exit);
}

#[test]
fn long_window_titles_are_cut_at_thirty_characters() {
    assert_eq!(truncate_title("Notepad"), "Notepad");
    let exact = "a".repeat(30);
    assert_eq!(truncate_title(&exact), exact);
    let long = "窗口".repeat(20);
    let shown = truncate_title(&long);
    assert_eq!(shown.chars().count(), 31);
    assert!(shown.ends_with('…'));
    assert_eq!(shown, format!("{}…", "窗口".repeat(15)));
}
