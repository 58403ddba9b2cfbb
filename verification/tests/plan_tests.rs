use peregrine::commands::hotkeys_to_register;
use peregrine::overlay_plan::{image_epoch_after, image_load, ImageLoad};
use peregrine::schema::HotkeyAction;
use peregrine::updates::{chunk_events, UpdateEvent};
use peregrine::tray::{fullscreen_patch, tray_action, TrayAction};
use peregrine::config::Profile;
use peregrine::element::Element;
use peregrine::float_bits::F32;
use peregrine::layer::Layer;
use peregrine::overlay_plan::{frame_plan, frame_unchanged, partition_elements, uses_layers, FramePlan};
use peregrine::schema::{CrosshairStyle, MaterialRef, RendererBackend};

fn f(x: f32) -> F32 {
    F32 { bits: x.to_bits() }
}

fn white() -> [F32; 4] {
    [f(1.0), f(1.0), f(1.0), f(1.0)]
}

#[test]
fn legacy_profile_follows_backend_and_style() {
    let p = Profile::default_profile();
    assert!(!uses_layers(Some(&p)));
    assert!(!uses_layers(None));
    assert_eq!(frame_plan(0, 1080, Some(&p), RendererBackend::Cpu, CrosshairStyle::Cross), FramePlan::Nothing);
    assert_eq!(frame_plan(1920, 1080, Some(&p), RendererBackend::Cpu, CrosshairStyle::Cross), FramePlan::LegacyCpu);
    assert_eq!(frame_plan(1920, 1080, Some(&p), RendererBackend::Svg, CrosshairStyle::Cross), FramePlan::LegacySvg);
    assert_eq!(
        frame_plan(1920, 1080, Some(&p), RendererBackend::Svg, CrosshairStyle::CustomImage),
        FramePlan::LegacyImage
    );
    assert_eq!(frame_plan(1920, 1080, None, RendererBackend::Cpu, CrosshairStyle::Cross), FramePlan::LegacyCpu);
}

#[test]
fn profiles_with_layers_or_without_crosshair_use_layers() {
    let mut p = Profile::default_profile();
    p.layers.push(Layer::new(
        "l1".to_string(),
        "Cross".to_string(),
        MaterialRef::Builtin { id: "builtin.cross".to_string() },
    ));
    assert!(uses_layers(Some(&p)));
    assert_eq!(frame_plan(1920, 1080, Some(&p), RendererBackend::Cpu, CrosshairStyle::Cross), FramePlan::Layers);
    let mut q = Profile::default_profile();
    q.crosshair = None;
    assert!(uses_layers(Some(&q)));
}

#[test]
fn elements_split_by_rasteriser_in_order() {
    let elements = vec![
        (Element::Text { x: f(0.0), y: f(0.0), content: "a".to_string(), font_size: f(12.0), font_weight: None }, white(), f(1.0)),
        (Element::Circle { cx: f(1.0), cy: f(1.0), radius: f(2.0) }, white(), f(1.0)),
        (Element::Image { path: "p.png".to_string(), x: f(0.0), y: f(0.0), w: f(1.0), h: f(1.0) }, white(), f(0.5)),
        (Element::Rect { x: f(0.0), y: f(0.0), w: f(1.0), h: f(1.0), corner_radius: None }, white(), f(1.0)),
        (Element::Line { x1: f(0.0), y1: f(0.0), x2: f(1.0), y2: f(1.0), thickness: f(1.0) }, white(), f(1.0)),
    ];
    let (images, cpu, svg) = partition_elements(elements);
    assert_eq!(images.len(), 1);
    assert!(matches!(images[0].0, Element::Image { .. }));
    assert_eq!(images[0].2.bits, 0.5f32.to_bits());
    assert_eq!(cpu.len(), 2);
    assert!(matches!(cpu[0].0, Element::Circle { .. }));
    assert!(matches!(cpu[1].0, Element::Rect { .. }));
    assert_eq!(svg.len(), 2);
    assert!(matches!(svg[0].0, Element::Text { .. }));
    assert!(matches!(svg[1].0, Element::Line { .. }));
}

#[test]
fn frames_skip_only_when_nothing_changed() {
    assert!(frame_unchanged(7, 7, 3, 3));
    assert!(!frame_unchanged(7, 8, 3, 3));
    assert!(!frame_unchanged(7, 7, 3, 4));
}

#[test]
fn tray_items_map_to_actions() {
    assert_eq!(tray_action("config", false), TrayAction::ShowConfig);
    assert_eq!(tray_action("settings", true), TrayAction::ShowSettings);
    assert_eq!(tray_action("window_mode", true), TrayAction::SetFullscreen { fullscreen: false });
    assert_eq!(tray_action("window_mode", false), TrayAction::SetFullscreen { fullscreen: true });
    assert_eq!(tray_action("quit", false), TrayAction::Quit);
    assert_eq!(tray_action("other", false), TrayAction::Ignore);
    let p = fullscreen_patch(false);
    assert_eq!(p.fullscreen_overlay, Some(false));
    assert!(p.locale.is_none() && p.live_drag_preview.is_none() && p.hotkey_bindings.is_none());
}

#[test]
fn download_progress_announces_start_once() {
    let (first, events) = chunk_events(true, 100, Some(300));
    assert!(!first);
    assert_eq!(
        events,
        vec![UpdateEvent::Started { content_length: Some(300) }, UpdateEvent::Progress { chunk_length: 100 }]
    );
    let (first, events) = chunk_events(first, 200, Some(300));
    assert!(!first);
    assert_eq!(events, vec![UpdateEvent::Progress { chunk_length: 200 }]);
}

#[test]
fn image_cache_decisions_and_epoch() {
    assert_eq!(image_load(Some("a.png"), "a.png"), ImageLoad::Keep);
    assert_eq!(image_load(Some("a.png"), "b.png"), ImageLoad::Load);
    assert_eq!(image_load(None, "b.png"), ImageLoad::Load);
    assert_eq!(image_load(Some("a.png"), ""), ImageLoad::Clear);
    assert_eq!(image_load(None, ""), ImageLoad::Clear);
    assert_eq!(image_epoch_after(4, true), 5);
    assert_eq!(image_epoch_after(4, false), 4);
}

#[test]
fn only_set_hotkeys_are_registered() {
    let bindings = vec![
        (HotkeyAction::ToggleOverlay, "Alt+F1".to_string()),
        (HotkeyAction::StopOverlay, String::new()),
        (HotkeyAction::SetColor1, "Alt+1".to_string()),
    ];
    assert_eq!(hotkeys_to_register(&bindings), vec!["Alt+F1".to_string(), "Alt+1".to_string()]);
}
