//! Application-wide preferences that do not change with the profile.

use vstd::prelude::*;
use crate::float_bits::{F32, f32_of, F32_0, F32_0_2, F32_0_5, F32_1};
use crate::schema::{HotkeyAction, RendererBackend};

verus! {

/// Application-wide preferences.
#[derive(Debug)]
pub struct AppSettings {
    /// Whether starting the overlay hides the settings window: `yes`, `no`
    /// or `ask`.
    pub auto_switch_on_overlay: String,
    /// UI language (`zh-CN`, `en`), or `auto` to follow the system.
    pub locale: String,
    /// Whether the overlay covers the whole screen rather than the target
    /// window only.
    pub fullscreen_overlay: bool,
    /// Whether the anchor stays visible while the target window is dragged.
    pub live_drag_preview: bool,
    /// Whether the web view uses GPU acceleration.
    pub gpu_acceleration: bool,
    /// Update channel: `stable` or `prerelease`.
    pub update_channel: String,
    /// Whether release downloads go through the mirror.
    pub cn_mirror: bool,
    /// The mirror's base URL.
    pub mirror_url: String,
    /// Whether the overlay is antialiased.
    pub antialiasing: bool,
    /// Overlay rasterisation backend.
    pub renderer_backend: RendererBackend,
    /// Five quick colour presets (RGBA, binary32 bit patterns).
    pub quick_colors: [[F32; 4]; 5],
    /// Hotkey bindings: action and key combination.
    pub hotkey_bindings: Vec<(HotkeyAction, String)>,
}

/// Whether `c` is the colour with these four channel bit patterns.
pub open spec fn rgba_is(c: [F32; 4], r: u32, g: u32, b: u32, a: u32) -> bool {
    c[0].bits == r && c[1].bits == g && c[2].bits == b && c[3].bits == a
}

/// Whether `q` holds the default presets: white, green, blue, red, orange.
pub open spec fn is_default_quick_colors(q: [[F32; 4]; 5]) -> bool {
    &&& rgba_is(q[0], F32_1, F32_1, F32_1, F32_1)
    &&& rgba_is(q[1], F32_0, F32_1, F32_0, F32_1)
    &&& rgba_is(q[2], F32_0_2, F32_0_5, F32_1, F32_1)
    &&& rgba_is(q[3], F32_1, F32_0, F32_0, F32_1)
    &&& rgba_is(q[4], F32_1, F32_0_5, F32_0, F32_1)
}

/// Whether `s` holds the default preferences.
pub open spec fn is_default_settings(s: AppSettings) -> bool {
    &&& s.auto_switch_on_overlay@ == "ask"@
    &&& s.locale@ == "auto"@
    &&& s.fullscreen_overlay
    &&& !s.live_drag_preview
    &&& !s.gpu_acceleration
    &&& s.update_channel@ == "stable"@
    &&& !s.cn_mirror
    &&& s.mirror_url@ == "https://v4.gh-proxy.org"@
    &&& s.antialiasing
    &&& s.renderer_backend == RendererBackend::Cpu
    &&& is_default_quick_colors(s.quick_colors)
    &&& s.hotkey_bindings@.len() == 1
    &&& s.hotkey_bindings@[0].0 == HotkeyAction::ToggleOverlay
    &&& s.hotkey_bindings@[0].1@ == "Ctrl+Alt+O"@
}

/// `ask`: ask each time whether to hide the settings window.
fn default_auto_switch_on_overlay() -> (s: String)
    ensures
        s@ == "ask"@,
{
    let s = "ask";
    proof {
        reveal_strlit("ask");
    }
    s.to_owned()
}

/// `auto`: follow the system language.
fn default_locale() -> (s: String)
    ensures
        s@ == "auto"@,
{
    let s = "auto";
    proof {
        reveal_strlit("auto");
    }
    s.to_owned()
}

/// The overlay covers the whole screen by default.
fn default_fullscreen_overlay() -> (b: bool)
    ensures
        b,
{
    true
}

/// The stable channel.
fn default_update_channel() -> (s: String)
    ensures
        s@ == "stable"@,
{
    let s = "stable";
    proof {
        reveal_strlit("stable");
    }
    s.to_owned()
}

/// The default mirror.
fn default_mirror_url() -> (s: String)
    ensures
        s@ == "https://v4.gh-proxy.org"@,
{
    let s = "https://v4.gh-proxy.org";
    proof {
        reveal_strlit("https://v4.gh-proxy.org");
    }
    s.to_owned()
}

/// Antialiasing is on by default.
fn default_antialiasing() -> (b: bool)
    ensures
        b,
{
    true
}

/// The CPU rasteriser.
fn default_renderer_backend() -> (b: RendererBackend)
    ensures
        b == RendererBackend::Cpu,
{
    RendererBackend::Cpu
}

/// White, green, blue, red and orange.
fn default_quick_colors() -> (q: [[F32; 4]; 5])
    ensures
        is_default_quick_colors(q),
{
    let one = f32_of(F32_1);
    let zero = f32_of(F32_0);
    [
        [one, one, one, one],
        [zero, one, zero, one],
        [f32_of(F32_0_2), f32_of(F32_0_5), one, one],
        [one, zero, zero, one],
        [one, f32_of(F32_0_5), zero, one],
    ]
}

/// Only the overlay toggle is bound, to `Ctrl+Alt+O`.
fn default_hotkey_bindings() -> (v: Vec<(HotkeyAction, String)>)
    ensures
        v@.len() == 1,
        v@[0].0 == HotkeyAction::ToggleOverlay,
        v@[0].1@ == "Ctrl+Alt+O"@,
{
    let key = "Ctrl+Alt+O";
    proof {
        reveal_strlit("Ctrl+Alt+O");
    }
    let mut v: Vec<(HotkeyAction, String)> = Vec::new();
    v.push((HotkeyAction::ToggleOverlay, key.to_owned()));
    v
}

impl AppSettings {
    /// The default preferences.
    pub fn default_settings() -> (s: Self)
        ensures
            is_default_settings(s),
    {
        AppSettings {
            auto_switch_on_overlay: default_auto_switch_on_overlay(),
            locale: default_locale(),
            fullscreen_overlay: default_fullscreen_overlay(),
            live_drag_preview: false,
            gpu_acceleration: false,
            update_channel: default_update_channel(),
            cn_mirror: false,
            mirror_url: default_mirror_url(),
            antialiasing: default_antialiasing(),
            renderer_backend: default_renderer_backend(),
            quick_colors: default_quick_colors(),
            hotkey_bindings: default_hotkey_bindings(),
        }
    }
}

impl Default for AppSettings {
    fn default() -> (s: Self)
        ensures
            is_default_settings(s),
    {
        AppSettings::default_settings()
    }
}

} // verus!
