use peregrine::config::{AppConfig, Profile};
use peregrine::crosshair::Crosshair;
use peregrine::float_bits::F32;
use peregrine::layer::{Layer, ParamValue};
use peregrine::migration::{migrate_crosshair_to_layer, migrate_custom_image, migrate_edge_rect, migrate_profile};
use peregrine::schema::{CrosshairStyle, MaterialRef};
use peregrine::storage::{migrate_config, needs_migration};

fn f(x: f32) -> F32 {
    F32 { bits: x.to_bits() }
}

fn v(x: F32) -> f32 {
    f32::from_bits(x.bits)
}

#[derive(Debug, PartialEq)]
enum J {
    Num(f64),
    Str(String),
    Bool(bool),
}

fn param(layer: &Layer, key: &str) -> J {
    let entries = match &layer.params {
        ParamValue::Object(e) => e,
        _ => panic!("params is not an object"),
    };
    let (_, value) = entries.iter().find(|(k, _)| k == key).unwrap_or_else(|| panic!("missing param '{}'", key));
    match value {
        ParamValue::Float32(x) => J::Num(v(*x) as f64),
        ParamValue::Float64(b) => J::Num(f64::from_bits(*b)),
        ParamValue::Int(i) => J::Num(*i as f64),
        ParamValue::UInt(u) => J::Num(*u as f64),
        ParamValue::Str(s) => J::Str(s.clone()),
        ParamValue::Bool(b) => J::Bool(*b),
        other => panic!("unexpected {:?}", other),
    }
}

fn builtin(id: &str) -> MaterialRef {
    MaterialRef::Builtin { id: id.to_string() }
}

fn test_crosshair(style: CrosshairStyle) -> Crosshair {
    Crosshair::default_for_style(style)
}

#[test]
fn migrate_cross_style() {
    let layer = migrate_crosshair_to_layer(&test_crosshair(CrosshairStyle::Cross));
    assert_eq!(layer.material, builtin("builtin.cross"));
    assert_eq!(param(&layer, "size"), J::Num(24.0));
    assert_eq!(param(&layer, "thickness"), J::Num(2.0));
    assert_eq!(param(&layer, "gap"), J::Num(4.0));
}

#[test]
fn migrate_edge_rect_style() {
    let layer = migrate_edge_rect(&test_crosshair(CrosshairStyle::EdgeRect));
    assert_eq!(layer.material, builtin("builtin.edge_rect"));
    assert_eq!(param(&layer, "size"), J::Num(180.0));
    assert_eq!(param(&layer, "secondary_size"), J::Num(24.0));
    assert_eq!(param(&layer, "anchor"), J::Str("top".to_string()));
    assert_eq!(param(&layer, "margin"), J::Num(16.0));
    assert_eq!(param(&layer, "corner_radius"), J::Num(12.0));
}

#[test]
fn migrate_large_cross_style() {
    let layer = migrate_crosshair_to_layer(&test_crosshair(CrosshairStyle::LargeCross));
    assert_eq!(layer.material, builtin("builtin.large_cross"));
    assert_eq!(param(&layer, "thickness"), J::Num(2.0));
}

#[test]
fn migrate_corner_dots_variants() {
    for (style, count) in [
        (CrosshairStyle::CornerDots4, 4),
        (CrosshairStyle::CornerDots6, 6),
        (CrosshairStyle::CornerDots8, 8),
    ] {
        let layer = migrate_crosshair_to_layer(&test_crosshair(style));
        assert_eq!(layer.material, builtin("builtin.corner_dots"));
        assert_eq!(param(&layer, "count"), J::Num(count as f64));
    }
}

#[test]
fn migrate_ring_style() {
    let layer = migrate_crosshair_to_layer(&test_crosshair(CrosshairStyle::Ring));
    assert_eq!(layer.material, builtin("builtin.ring"));
    assert_eq!(param(&layer, "ring_radius_pct"), J::Num(0.06_f32 as f64));
    assert_eq!(param(&layer, "ring_style"), J::Str("solid".to_string()));
}

#[test]
fn migrate_custom_orb_style() {
    let layer = migrate_crosshair_to_layer(&test_crosshair(CrosshairStyle::CustomOrb));
    assert_eq!(layer.material, builtin("builtin.custom_orb"));
    assert_eq!(param(&layer, "radius"), J::Num(6.0));
    assert_eq!(param(&layer, "orb_positions"), J::Num(3.0));
    assert_eq!(param(&layer, "top_count"), J::Num(3.0));
}

#[test]
fn migrate_random_orb_style() {
    let layer = migrate_crosshair_to_layer(&test_crosshair(CrosshairStyle::RandomOrb));
    assert_eq!(layer.material, builtin("builtin.random_orb"));
    assert_eq!(param(&layer, "orb_count"), J::Num(3.0));
    assert_eq!(param(&layer, "offset"), J::Num(80.0));
    assert_eq!(param(&layer, "radius_min"), J::Num(4.0));
    assert_eq!(param(&layer, "mode"), J::Str("lock_on_start".to_string()));
}

#[test]
fn migrate_border_frame_style() {
    let layer = migrate_crosshair_to_layer(&test_crosshair(CrosshairStyle::BorderFrame));
    assert_eq!(layer.material, builtin("builtin.border_frame"));
    assert_eq!(param(&layer, "thickness"), J::Num(6.0));
    assert_eq!(param(&layer, "offset"), J::Num(24.0));
    assert_eq!(param(&layer, "frame_style"), J::Str("solid".to_string()));
    assert_eq!(param(&layer, "inset"), J::Bool(false));
}

#[test]
fn migrate_edge_arrows_style() {
    let layer = migrate_crosshair_to_layer(&test_crosshair(CrosshairStyle::EdgeArrows));
    assert_eq!(layer.material, builtin("builtin.edge_arrows"));
    assert_eq!(param(&layer, "size"), J::Num(16.0));
    assert_eq!(param(&layer, "distance"), J::Num(60.0));
}

#[test]
fn migrate_grid_style() {
    let layer = migrate_crosshair_to_layer(&test_crosshair(CrosshairStyle::Grid));
    assert_eq!(layer.material, builtin("builtin.grid"));
    assert_eq!(param(&layer, "grid_size"), J::Num(120.0));
    assert_eq!(param(&layer, "thickness"), J::Num(2.0));
    assert_eq!(param(&layer, "alignment"), J::Str("center".to_string()));
}

#[test]
fn migrate_custom_image_style() {
    let mut c = test_crosshair(CrosshairStyle::CustomImage);
    c.image_path = "/test/cross.png".to_string();
    c.image_scale = f(1.5);
    let layer = migrate_custom_image(&c);
    assert_eq!(layer.material, builtin("builtin.image"));
    assert_eq!(param(&layer, "path"), J::Str("/test/cross.png".to_string()));
    assert_eq!(param(&layer, "scale"), J::Num(1.5));
}

#[test]
fn migrate_preserves_color_and_opacity() {
    let mut c = test_crosshair(CrosshairStyle::Cross);
    c.color = [f(1.0), f(0.0), f(0.0), f(1.0)];
    c.opacity = f(0.42);
    let layer = migrate_crosshair_to_layer(&c);
    assert_eq!(
        [v(layer.style.color[0]), v(layer.style.color[1]), v(layer.style.color[2]), v(layer.style.color[3])],
        [1.0, 0.0, 0.0, 1.0]
    );
    assert!((v(layer.style.opacity) - 0.42).abs() < 1e-6);
}

#[test]
fn migrate_profile_preserves_trigger_and_hotkey() {
    let mut profile = Profile::default_profile();
    profile.settings_hotkey = "F9".to_string();
    profile.target_window = "My Game".to_string();
    profile.trigger.enabled = false;
    profile.trigger.process_names = vec!["game.exe".to_string()];

    let migrated = migrate_profile(profile);
    assert_eq!(migrated.layers.len(), 1);
    assert_eq!(migrated.settings_hotkey, "F9");
    assert_eq!(migrated.target_window, "My Game");
    assert!(!migrated.trigger.enabled);
    assert_eq!(migrated.trigger.process_names, vec!["game.exe".to_string()]);
}

#[test]
fn migrate_all_styles_succeeds() {
    let styles = [
        CrosshairStyle::Cross,
        CrosshairStyle::LargeCross,
        CrosshairStyle::CornerDots4,
        CrosshairStyle::CornerDots6,
        CrosshairStyle::CornerDots8,
        CrosshairStyle::Ring,
        CrosshairStyle::CustomOrb,
        CrosshairStyle::RandomOrb,
        CrosshairStyle::BorderFrame,
        CrosshairStyle::EdgeArrows,
        CrosshairStyle::Grid,
    ];
    for style in styles {
        let layer = migrate_crosshair_to_layer(&test_crosshair(style));
        assert!(!layer.id.is_empty());
        assert!(!layer.name.is_empty());
    }
    let layer = migrate_edge_rect(&test_crosshair(CrosshairStyle::EdgeRect));
    assert_eq!(layer.material, builtin("builtin.edge_rect"));
    let mut c_img = test_crosshair(CrosshairStyle::CustomImage);
    c_img.image_path = "/x.png".to_string();
    let layer = migrate_custom_image(&c_img);
    assert_eq!(layer.material, builtin("builtin.image"));
}

#[test]
fn migrated_layer_ids_and_names() {
    let layer = migrate_crosshair_to_layer(&test_crosshair(CrosshairStyle::Cross));
    assert_eq!(layer.id, "migrated_cross");
    assert_eq!(layer.name, "准星");
    let layer = migrate_edge_rect(&test_crosshair(CrosshairStyle::EdgeRect));
    assert_eq!(layer.id, "migrated_edge_rect");
    assert_eq!(layer.name, "贴边矩形");
    let mut c = test_crosshair(CrosshairStyle::CustomImage);
    c.image_path = "/x.png".to_string();
    let layer = migrate_custom_image(&c);
    assert_eq!(layer.id, "migrated_image");
    assert_eq!(layer.name, "自定义图片");
}

#[test]
fn config_migration_runs_once_and_keeps_validity() {
    let cfg = AppConfig::default_config();
    assert!(needs_migration(&cfg));
    let migrated = migrate_config(cfg);
    assert!(!needs_migration(&migrated));
    assert!(migrated.validate().is_ok());
    let p = &migrated.profiles[0].1;
    assert_eq!(p.layers.len(), 1);
    assert!(p.crosshair.is_none());
    assert_eq!(p.layers[0].material, builtin("builtin.edge_rect"));
    let again = migrate_config(migrated);
    assert_eq!(again.profiles[0].1.layers.len(), 1);
}

#[test]
fn profile_without_anchor_is_unchanged() {
    let mut p = Profile::default_profile();
    p.crosshair = None;
    p.settings_hotkey = "F7".to_string();
    let r = migrate_profile(p);
    assert!(r.crosshair.is_none());
    assert!(r.layers.is_empty());
    assert_eq!(r.settings_hotkey, "F7");
}

#[test]
fn legacy_cross_profile_migrates_to_one_layer_without_anchor() {
    let mut c = test_crosshair(CrosshairStyle::Cross);
    c.size = f(50.0);
    c.thickness = f(3.0);
    c.gap = f(6.0);
    c.color = [f(1.0), f(0.0), f(0.0), f(1.0)];
    c.opacity = f(0.8);
    let mut cfg = AppConfig::default_config();
    cfg.profiles[0].1.crosshair = Some(c);
    assert!(needs_migration(&cfg));
    let migrated = migrate_config(cfg);
    let p = &migrated.profiles[0].1;
    assert!(p.crosshair.is_none(), "crosshair should be None after migration");
    assert_eq!(p.layers.len(), 1);
    let layer = &p.layers[0];
    assert_eq!(layer.material, builtin("builtin.cross"));
    assert_eq!(param(layer, "size"), J::Num(50.0));
    assert_eq!(param(layer, "thickness"), J::Num(3.0));
    assert_eq!(param(layer, "gap"), J::Num(6.0));
    assert_eq!(layer.style.color.map(v), [1.0, 0.0, 0.0, 1.0]);
    assert!((v(layer.style.opacity) - 0.8).abs() < 1e-6);
    assert!(!needs_migration(&migrated));
}
