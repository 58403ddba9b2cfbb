use peregrine::config::{AppConfig, Profile};
use peregrine::crosshair::Crosshair;
use peregrine::error::ConfigError;
use peregrine::float_bits::F32;
use peregrine::layer::{Layer, LayerStyle, Transform2D};
use peregrine::schema::{
    BlendMode, BorderFrameStyle, CrosshairStyle, GridAlignment, HotkeyAction, MaterialRef, OrbPosition,
    RendererBackend, RingStyle, ORB_BOTTOM, ORB_LEFT, ORB_TOP,
};
use peregrine::settings::AppSettings;

fn f(x: f32) -> F32 {
    F32 { bits: x.to_bits() }
}

fn v(x: F32) -> f32 {
    f32::from_bits(x.bits)
}

fn rgba(c: [F32; 4]) -> [f32; 4] {
    [v(c[0]), v(c[1]), v(c[2]), v(c[3])]
}

fn active_anchor(cfg: &mut AppConfig) -> &mut Crosshair {
    cfg.active_profile_mut().unwrap().crosshair.as_mut().unwrap()
}

#[test]
fn default_config_validates() {
    let cfg = AppConfig::default_config();
    assert!(cfg.validate().is_ok());
    assert_eq!(cfg.active_profile, "default");
    let ch = cfg.active_profile().unwrap().crosshair.as_ref().unwrap();
    assert_eq!(ch.style, CrosshairStyle::EdgeRect);
    assert_eq!(v(ch.size), 180.0);
    assert_eq!(v(ch.secondary_size), 24.0);
    assert_eq!(v(ch.thickness), 4.0);
    assert_eq!(v(ch.margin), 16.0);
    assert_eq!(v(ch.corner_radius), 12.0);
}

#[test]
fn default_for_all_styles_validates() {
    for style in [
        CrosshairStyle::EdgeRect,
        CrosshairStyle::Cross,
        CrosshairStyle::LargeCross,
        CrosshairStyle::CornerDots4,
        CrosshairStyle::CornerDots6,
        CrosshairStyle::CornerDots8,
        CrosshairStyle::Ring,
        CrosshairStyle::CustomOrb,
        CrosshairStyle::RandomOrb,
        CrosshairStyle::BorderFrame,
        CrosshairStyle::EdgeArrows,
        CrosshairStyle::Grid,
    ] {
        let ch = Crosshair::default_for_style(style);
        assert_eq!(ch.style, style);
        assert!(ch.validate().is_ok(), "style {:?} defaults must validate", style);
    }
    let mut ch = Crosshair::default_for_style(CrosshairStyle::CustomImage);
    assert_eq!(ch.style, CrosshairStyle::CustomImage);
    assert!(ch.validate().is_err());
    ch.image_path = "/tmp/crosshair.png".to_string();
    assert!(ch.validate().is_ok());
}

#[test]
fn invalid_active_profile_fails() {
    let mut cfg = AppConfig::default_config();
    cfg.active_profile = "missing".to_string();
    assert!(cfg.validate().is_err());
}

#[test]
fn negative_size_fails() {
    let mut cfg = AppConfig::default_config();
    active_anchor(&mut cfg).size = f(-1.0);
    assert!(cfg.validate().is_err());
}

#[test]
fn opacity_out_of_range_fails() {
    let mut cfg = AppConfig::default_config();
    active_anchor(&mut cfg).opacity = f(1.5);
    assert!(cfg.validate().is_err());
}

#[test]
fn ring_radius_pct_default_and_validation() {
    let cfg = AppConfig::default_config();
    let ch = cfg.active_profile().unwrap().crosshair.as_ref().unwrap();
    assert_eq!(v(ch.ring_radius_pct), 0.05);
    assert!(ch.validate().is_ok());

    let mut cfg = AppConfig::default_config();
    active_anchor(&mut cfg).ring_radius_pct = f(0.02);
    assert!(cfg.validate().is_err());

    let mut cfg = AppConfig::default_config();
    active_anchor(&mut cfg).ring_radius_pct = f(0.09);
    assert!(cfg.validate().is_err());
}

#[test]
fn default_ring_style_is_solid() {
    let ch = Crosshair::default_for_style(CrosshairStyle::Ring);
    assert_eq!(v(ch.ring_radius_pct), 0.06);
    assert_eq!(v(ch.thickness), 2.0);
    assert_eq!(ch.ring_style, RingStyle::Solid);
    assert_eq!(v(ch.opacity), 0.8);
}

#[test]
fn default_cross_style_is_visible() {
    let ch = Crosshair::default_for_style(CrosshairStyle::Cross);
    assert_eq!(v(ch.size), 24.0);
    assert_eq!(v(ch.thickness), 2.0);
    assert_eq!(v(ch.gap), 4.0);
    assert_eq!(v(ch.opacity), 0.8);
}

#[test]
fn custom_orb_edge_counts_and_positions() {
    let mut ch = Crosshair::default_for_style(CrosshairStyle::CustomOrb);
    assert_eq!(v(ch.radius), 6.0);
    assert_eq!(v(ch.offset), 30.0);
    assert_eq!(ch.orb_positions, OrbPosition(ORB_TOP | ORB_BOTTOM));
    assert_eq!(ch.custom_orb_top_count, 3);
    assert_eq!(ch.custom_orb_bottom_count, 3);
    assert_eq!(v(ch.opacity), 0.7);
    assert!(ch.validate().is_ok());

    let screen = (1920.0f32, 1080.0f32);
    let top_positions = [
        (screen.0 / 4.0, v(ch.offset)),
        (screen.0 / 2.0, v(ch.offset)),
        (screen.0 * 3.0 / 4.0, v(ch.offset)),
    ];
    assert_eq!(top_positions[0].0, 480.0);
    assert_eq!(top_positions[1].0, 960.0);
    assert_eq!(top_positions[2].0, 1440.0);

    ch.orb_positions.insert(ORB_LEFT);
    ch.custom_orb_left_count = 2;
    assert!(ch.validate().is_ok());

    ch.custom_orb_top_count = 0;
    ch.custom_orb_bottom_count = 0;
    ch.custom_orb_left_count = 0;
    ch.custom_orb_right_count = 0;
    assert!(ch.validate().is_err());
}

#[test]
fn random_orb_range_validation() {
    let mut cfg = AppConfig::default_config();
    let ch = active_anchor(&mut cfg);
    ch.style = CrosshairStyle::RandomOrb;
    ch.random_radius_min = f(8.0);
    ch.random_radius_max = f(4.0);
    assert!(cfg.validate().is_err());

    let mut cfg = AppConfig::default_config();
    active_anchor(&mut cfg).random_radius_min = f(0.0);
    assert!(cfg.validate().is_err());

    let mut cfg = AppConfig::default_config();
    active_anchor(&mut cfg).random_orb_count = 0;
    assert!(cfg.validate().is_err());

    let mut cfg = AppConfig::default_config();
    active_anchor(&mut cfg).random_orb_jitter = f(-1.0);
    assert!(cfg.validate().is_err());
}

#[test]
fn border_frame_defaults() {
    let ch = Crosshair::default_for_style(CrosshairStyle::BorderFrame);
    assert!(!ch.border_inset);
    assert_eq!(ch.border_frame_style, BorderFrameStyle::Solid);
    assert_eq!(v(ch.thickness), 6.0);
    assert_eq!(v(ch.offset), 24.0);
    assert_eq!(v(ch.opacity), 0.5);
    assert!(ch.validate().is_ok());
}

#[test]
fn custom_image_validation() {
    let ch = Crosshair::default_crosshair();
    assert!(ch.image_path.is_empty());
    assert_eq!(v(ch.image_scale), 1.0);
    let mut ch = Crosshair::default_for_style(CrosshairStyle::CustomImage);
    assert!(ch.validate().is_err());
    ch.image_path = "/path/to/crosshair.png".to_string();
    ch.image_scale = f(0.5);
    assert!(ch.validate().is_ok());
    let mut ch = Crosshair::default_crosshair();
    ch.image_scale = f(0.0);
    assert!(ch.validate().is_err());
    ch.image_scale = f(-1.0);
    assert!(ch.validate().is_err());
}

#[test]
fn app_settings_defaults() {
    let s = AppSettings::default();
    assert_eq!(s.auto_switch_on_overlay, "ask");
    assert_eq!(s.locale, "auto");
    assert!(s.fullscreen_overlay);
    assert!(!s.live_drag_preview);
    assert!(!s.gpu_acceleration);
    assert_eq!(s.update_channel, "stable");
    assert!(!s.cn_mirror);
    assert_eq!(s.mirror_url, "https://v4.gh-proxy.org");
    assert!(s.antialiasing);
    assert_eq!(s.quick_colors.len(), 5);
    assert_eq!(rgba(s.quick_colors[0]), [1.0, 1.0, 1.0, 1.0]);
    assert_eq!(s.hotkey_bindings.len(), 1);
    assert_eq!(s.hotkey_bindings[0].0, HotkeyAction::ToggleOverlay);
    assert_eq!(s.renderer_backend, RendererBackend::Cpu);
}

#[test]
fn grid_style_defaults_and_validation() {
    let mut ch = Crosshair::default_for_style(CrosshairStyle::Grid);
    assert_eq!(v(ch.grid_size), 120.0);
    assert_eq!(v(ch.thickness), 2.0);
    assert_eq!(ch.grid_alignment, GridAlignment::Center);
    assert_eq!(v(ch.opacity), 0.35);
    assert!(ch.validate().is_ok());
    ch.grid_size = f(5.0);
    assert!(ch.validate().is_err());
    ch.grid_size = f(600.0);
    assert!(ch.validate().is_err());
    ch.grid_size = f(100.0);
    ch.grid_alignment = GridAlignment::Edge;
    assert!(ch.validate().is_ok());
}

#[test]
fn quick_colors_defaults() {
    let s = AppSettings::default();
    assert_eq!(s.quick_colors.len(), 5);
    assert_eq!(rgba(s.quick_colors[0]), [1.0, 1.0, 1.0, 1.0]);
    assert_eq!(rgba(s.quick_colors[1]), [0.0, 1.0, 0.0, 1.0]);
    assert_eq!(rgba(s.quick_colors[2]), [0.2, 0.5, 1.0, 1.0]);
    assert_eq!(rgba(s.quick_colors[3]), [1.0, 0.0, 0.0, 1.0]);
    assert_eq!(rgba(s.quick_colors[4]), [1.0, 0.5, 0.0, 1.0]);
}

#[test]
fn hotkey_bindings_defaults() {
    let s = AppSettings::default();
    assert_eq!(s.hotkey_bindings.len(), 1);
    assert_eq!(s.hotkey_bindings[0].0, HotkeyAction::ToggleOverlay);
    assert_eq!(s.hotkey_bindings[0].1, "Ctrl+Alt+O");
}

#[test]
fn material_ref_ids() {
    let r = MaterialRef::Builtin { id: "builtin.cross".to_string() };
    assert_eq!(r.material_id(), "builtin.cross");
    assert!(r.is_builtin());
    let r = MaterialRef::User { name: "user.my_cross".to_string() };
    assert_eq!(r.material_id(), "user.my_cross");
    assert!(!r.is_builtin());
}

#[test]
fn transform2d_defaults() {
    let t = Transform2D::default();
    assert_eq!(v(t.offset_x), 0.0);
    assert_eq!(v(t.offset_y), 0.0);
    assert_eq!(v(t.scale), 1.0);
    assert_eq!(v(t.rotation_deg), 0.0);
}

#[test]
fn layer_style_defaults() {
    let s = LayerStyle::default();
    assert_eq!(rgba(s.color), [1.0, 1.0, 1.0, 1.0]);
    assert_eq!(v(s.opacity), 0.6);
    assert_eq!(s.blend_mode, BlendMode::Normal);
}

#[test]
fn layer_new_basic() {
    let l = Layer::new("l1".to_string(), "Layer 1".to_string(), MaterialRef::Builtin { id: "builtin.cross".to_string() });
    assert_eq!(l.id, "l1");
    assert_eq!(l.name, "Layer 1");
    assert!(l.visible);
    assert!(!l.locked);
    assert_eq!(v(l.transform.scale), 1.0);
}

#[test]
fn orb_position_flags() {
    let mut p = OrbPosition::empty();
    assert!(!p.contains(ORB_TOP));
    p.insert(ORB_TOP);
    assert!(p.contains(ORB_TOP));
    p.toggle(ORB_BOTTOM);
    assert!(p.contains(ORB_BOTTOM));
    p.toggle(ORB_BOTTOM);
    assert!(!p.contains(ORB_BOTTOM));
    p.remove(ORB_TOP);
    assert_eq!(p, OrbPosition::empty());
}

#[test]
fn validation_messages() {
    let mut cfg = AppConfig::default_config();
    cfg.active_profile = "x".to_string();
    assert_eq!(cfg.validate().unwrap_err(), ConfigError::Validation("active profile 'x' does not exist".to_string()));
    let mut cfg = AppConfig::default_config();
    cfg.profiles.clear();
    assert_eq!(cfg.validate().unwrap_err(), ConfigError::Validation("at least one profile is required".to_string()));
    let mut cfg = AppConfig::default_config();
    active_anchor(&mut cfg).size = f(-1.0);
    assert_eq!(
        cfg.validate().unwrap_err(),
        ConfigError::Validation("profile 'default': validation error: crosshair size must be positive".to_string())
    );
    assert_eq!(
        ConfigError::Validation("m".to_string()).to_text(),
        "validation error: m"
    );
    assert_eq!(ConfigError::NotifierClosed.to_text(), "notifier channel closed");
}

#[test]
fn default_profile_has_anchor_and_no_layers() {
    let p = Profile::default_profile();
    assert!(p.crosshair.is_some());
    assert!(p.layers.is_empty());
    assert_eq!(p.settings_hotkey, "F10");
    assert!(p.trigger.enabled);
    assert!(p.validate().is_ok());
}

#[test]
fn border_frame_inset_offsets() {
    let mut ch = Crosshair::default_for_style(CrosshairStyle::BorderFrame);
    assert_eq!(v(ch.offset), 24.0);
    assert_eq!(v(ch.thickness), 6.0);
    assert!(!ch.border_inset);
    ch.offset = F32 { bits: 30.0f32.to_bits() };
    ch.thickness = F32 { bits: 10.0f32.to_bits() };
    ch.border_inset = true;
    let _screen = (1920.0, 1080.0);
    let top_y = v(ch.offset);
    let left_x = v(ch.offset);
    assert_eq!(top_y, 30.0);
    assert_eq!(left_x, 30.0);
    ch.border_inset = false;
    assert_eq!(-v(ch.offset), -30.0);
}

#[test]
fn duplicate_profile_names_fail() {
    let mut cfg = AppConfig::default_config();
    let extra = Profile::default_profile();
    let name = cfg.profiles[0].0.clone();
    cfg.profiles.push((name, extra));
    assert_eq!(
        cfg.validate().unwrap_err().to_text(),
        "validation error: profile names must be unique"
    );
}
