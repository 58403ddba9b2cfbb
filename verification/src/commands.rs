//! Decisions behind the backend's commands and hotkeys: when the overlay
//! may start, what a hotkey does, how a colour is applied and how a
//! preferences patch changes the settings.

use vstd::prelude::*;
use crate::config::{AppConfig, Profile, config_violation, profile_index};
use crate::error::{ConfigError, error_display};
use crate::float_bits::{F32, f32_of, F32_1};
use crate::locale::{BackendLocale, spec_tr, tr};
use crate::schema::{HotkeyAction, RendererBackend};
use crate::settings::AppSettings;

verus! {

/// Starting the overlay in window mode needs a target window; the error
/// is the localised `target_window_required` message.
pub fn start_overlay(fullscreen_overlay: bool, target_window: &str, locale: BackendLocale) -> (r: Result<(), String>)
    ensures
        r is Err <==> (!fullscreen_overlay && target_window@.len() == 0),
        r is Err ==> r->Err_0@ == spec_tr(locale, "target_window_required"@),
{
    if !fullscreen_overlay && target_window.unicode_len() == 0 {
        let key = "target_window_required";
        proof {
            reveal_strlit("target_window_required");
        }
        return Err(tr(locale, key));
    }
    Ok(())
}

/// The preset index a colour-cycling hotkey moves to, from the index of the
/// preset matching the current colour (none when no preset matches):
/// forwards wraps from the last preset to the first and starts at the first;
/// backwards wraps from the first to the last and starts at the last.
pub open spec fn spec_cycle_index(matched: Option<usize>, forward: bool) -> usize {
    match matched {
        None => if forward { 0 } else { 4 },
        Some(i) => if forward {
            ((i + 1) % 5) as usize
        } else if i == 0 {
            4
        } else {
            (i - 1) as usize
        },
    }
}

/// The preset index a colour-cycling hotkey moves to.
pub fn cycle_color_index(matched: Option<usize>, forward: bool) -> (r: usize)
    requires
        matched is Some ==> matched->0 < 5,
    ensures
        r == spec_cycle_index(matched, forward),
        r < 5,
{
    match matched {
        None => if forward { 0 } else { 4 },
        Some(i) => if forward {
            (i + 1) % 5
        } else if i == 0 {
            4
        } else {
            i - 1
        },
    }
}

/// What a hotkey asks for.
#[derive(Debug)]
pub enum HotkeyEffect {
    /// Toggle the overlay.
    Toggle,
    /// Start the overlay following the window with this title.
    Start(String),
    /// Stop the overlay.
    Stop,
    /// Set the anchor colour to this preset.
    SetColor([F32; 4]),
}

/// The preset index a colour hotkey selects, if it is one.
pub open spec fn preset_index(action: HotkeyAction, matched: Option<usize>) -> Option<usize> {
    match action {
        HotkeyAction::CycleColorNext => Some(spec_cycle_index(matched, true)),
        HotkeyAction::CycleColorPrev => Some(spec_cycle_index(matched, false)),
        HotkeyAction::SetColor1 => Some(0),
        HotkeyAction::SetColor2 => Some(1),
        HotkeyAction::SetColor3 => Some(2),
        HotkeyAction::SetColor4 => Some(3),
        HotkeyAction::SetColor5 => Some(4),
        _ => None,
    }
}

/// The title of the active profile's target window; empty without one.
pub open spec fn active_target(config: AppConfig) -> Seq<char> {
    match profile_index(config.profiles@, config.active_profile@) {
        Some(i) => config.profiles@[i].1.target_window@,
        None => Seq::empty(),
    }
}

/// What `action` does, given the configuration and the index of the preset
/// that matches the current colour (none when no preset matches).
pub fn execute_hotkey_action(action: HotkeyAction, config: &AppConfig, matched: Option<usize>) -> (e: HotkeyEffect)
    requires
        matched is Some ==> matched->0 < 5,
    ensures
        action == HotkeyAction::ToggleOverlay ==> e is Toggle,
        action == HotkeyAction::StopOverlay ==> e is Stop,
        action == HotkeyAction::StartOverlay ==> e is Start && e->Start_0@ == active_target(*config),
        preset_index(action, matched) is Some ==> e is SetColor
            && e->SetColor_0 == config.settings.quick_colors[preset_index(action, matched)->0 as int],
{
    match action {
        HotkeyAction::ToggleOverlay => HotkeyEffect::Toggle,
        HotkeyAction::StopOverlay => HotkeyEffect::Stop,
        HotkeyAction::StartOverlay => {
            let title = match config.active_profile() {
                Some(p) => p.target_window.clone(),
                None => String::new(),
            };
            HotkeyEffect::Start(title)
        },
        HotkeyAction::CycleColorNext => HotkeyEffect::SetColor(
            config.settings.quick_colors[cycle_color_index(matched, true)],
        ),
        HotkeyAction::CycleColorPrev => HotkeyEffect::SetColor(
            config.settings.quick_colors[cycle_color_index(matched, false)],
        ),
        HotkeyAction::SetColor1 => HotkeyEffect::SetColor(config.settings.quick_colors[0]),
        HotkeyAction::SetColor2 => HotkeyEffect::SetColor(config.settings.quick_colors[1]),
        HotkeyAction::SetColor3 => HotkeyEffect::SetColor(config.settings.quick_colors[2]),
        HotkeyAction::SetColor4 => HotkeyEffect::SetColor(config.settings.quick_colors[3]),
        HotkeyAction::SetColor5 => HotkeyEffect::SetColor(config.settings.quick_colors[4]),
    }
}

/// `color must have 4 channels`.
pub open spec fn channel_count_message() -> Seq<char> {
    "color must have 4 channels"@
}

/// Whether `r` is `c` with the active profile's anchor colour set to
/// `color` (nothing changes when there is no active profile or it has no
/// anchor).
pub open spec fn is_recoloured(r: AppConfig, c: AppConfig, color: Seq<F32>) -> bool {
    &&& r.active_profile == c.active_profile
    &&& r.settings == c.settings
    &&& match profile_index(c.profiles@, c.active_profile@) {
        Some(i) => match c.profiles@[i].1.crosshair {
            Some(ch) => {
                &&& r.profiles@.len() == c.profiles@.len()
                &&& forall|j: int| 0 <= j < c.profiles@.len() && j != i ==> r.profiles@[j] == c.profiles@[j]
                &&& r.profiles@[i].0 == c.profiles@[i].0
                &&& r.profiles@[i].1.layers == c.profiles@[i].1.layers
                &&& r.profiles@[i].1.trigger == c.profiles@[i].1.trigger
                &&& r.profiles@[i].1.settings_hotkey == c.profiles@[i].1.settings_hotkey
                &&& r.profiles@[i].1.target_window == c.profiles@[i].1.target_window
                &&& r.profiles@[i].1.crosshair matches Some(nc) && nc.color@ == color && nc == (
                crate::crosshair::Crosshair { color: nc.color, ..ch })
            },
            None => r.profiles@ == c.profiles@,
        },
        None => r.profiles@ == c.profiles@,
    }
}

/// Sets the active profile's anchor colour.
fn recolour(config: &mut AppConfig, new_color: [F32; 4])
    ensures
        is_recoloured(*final(config), *old(config), new_color@),
{
    let ghost old_config = *config;
    match config.active_profile_mut() {
        Some(p) => {
            let taken = p.crosshair.take();
            match taken {
                Some(mut ch) => {
                    ch.color = new_color;
                    p.crosshair = Some(ch);
                },
                None => {},
            }
        },
        None => {},
    }
    proof {
        let ps = old_config.profiles@;
        if let Some(i) = profile_index(ps, old_config.active_profile@) {
            assert(config.profiles@ == ps.update(i, (ps[i].0, config.profiles@[i].1)));
            let q = config.profiles@[i].1;
            assert(q.layers == ps[i].1.layers);
            assert(q.trigger == ps[i].1.trigger);
            if let Some(ch) = ps[i].1.crosshair {
                assert(q.crosshair is Some);
                assert(q.crosshair->0.color == new_color);
                assert(q.crosshair->0 == (crate::crosshair::Crosshair { color: new_color, ..ch }));
            } else {
                assert(q == ps[i].1);
                assert(config.profiles@ =~= ps);
            }
        }
    }
}

/// Sets the active profile's anchor colour and checks the result: an error
/// for a colour that does not have four channels, the validation error's
/// text when the result breaks a rule, the new configuration otherwise.
pub fn set_crosshair_color(config: AppConfig, color: &Vec<F32>) -> (r: Result<AppConfig, String>)
    ensures
        color@.len() != 4 ==> r is Err && r->Err_0@ == channel_count_message(),
        color@.len() == 4 ==> match r {
            Ok(nc) => is_recoloured(nc, config, color@) && config_violation(nc) is None,
            Err(m) => exists|nc: AppConfig| is_recoloured(nc, config, color@) && config_violation(nc) is Some
                && m@ == crate::error::validation_display(config_violation(nc)->0),
        },
{
    if color.len() != 4 {
        let m = "color must have 4 channels";
        proof {
            reveal_strlit("color must have 4 channels");
        }
        return Err(m.to_owned());
    }
    let new_color = [color[0], color[1], color[2], color[3]];
    assert(new_color@ =~= color@);
    let mut config = config;
    recolour(&mut config, new_color);
    match config.validate() {
        Ok(()) => Ok(config),
        Err(e) => Err(e.to_text()),
    }
}


/// A partial update of the preferences: each field present replaces the
/// setting of the same name.
#[derive(Debug)]
pub struct PreferencesPatch {
    pub locale: Option<String>,
    pub auto_switch_on_overlay: Option<String>,
    pub fullscreen_overlay: Option<bool>,
    pub live_drag_preview: Option<bool>,
    pub gpu_acceleration: Option<bool>,
    pub update_channel: Option<String>,
    pub cn_mirror: Option<bool>,
    pub mirror_url: Option<String>,
    pub antialiasing: Option<bool>,
    pub renderer_backend: Option<RendererBackend>,
    /// Applied only when it holds exactly five colours.
    pub quick_colors: Option<Vec<[F32; 4]>>,
    pub hotkey_bindings: Option<Vec<(HotkeyAction, String)>>,
}

/// `new` when the patch holds a value, `old` otherwise.
pub open spec fn patched<T>(old: T, new: Option<T>) -> T {
    match new {
        Some(v) => v,
        None => old,
    }
}

/// Whether `r` is `s` with the patch `p` applied.
pub open spec fn is_patched(r: AppSettings, s: AppSettings, p: PreferencesPatch) -> bool {
    &&& r.locale == patched(s.locale, p.locale)
    &&& r.auto_switch_on_overlay == patched(s.auto_switch_on_overlay, p.auto_switch_on_overlay)
    &&& r.fullscreen_overlay == patched(s.fullscreen_overlay, p.fullscreen_overlay)
    &&& r.live_drag_preview == patched(s.live_drag_preview, p.live_drag_preview)
    &&& r.gpu_acceleration == patched(s.gpu_acceleration, p.gpu_acceleration)
    &&& r.update_channel == patched(s.update_channel, p.update_channel)
    &&& r.cn_mirror == patched(s.cn_mirror, p.cn_mirror)
    &&& r.mirror_url == patched(s.mirror_url, p.mirror_url)
    &&& r.antialiasing == patched(s.antialiasing, p.antialiasing)
    &&& r.renderer_backend == patched(s.renderer_backend, p.renderer_backend)
    &&& r.hotkey_bindings == patched(s.hotkey_bindings, p.hotkey_bindings)
    &&& match p.quick_colors {
        Some(q) if q@.len() == 5 => r.quick_colors@ == q@,
        _ => r.quick_colors == s.quick_colors,
    }
}

/// Applies a preferences patch to the settings.
pub fn apply_preferences(settings: AppSettings, patch: PreferencesPatch) -> (r: AppSettings)
    ensures
        is_patched(r, settings, patch),
{
    let AppSettings {
        auto_switch_on_overlay: s_auto,
        locale: s_locale,
        fullscreen_overlay: s_fullscreen,
        live_drag_preview: s_drag,
        gpu_acceleration: s_gpu,
        update_channel: s_channel,
        cn_mirror: s_cn,
        mirror_url: s_mirror,
        antialiasing: s_aa,
        renderer_backend: s_backend,
        quick_colors: s_colors,
        hotkey_bindings: s_bindings,
    } = settings;
    let PreferencesPatch {
        locale,
        auto_switch_on_overlay,
        fullscreen_overlay,
        live_drag_preview,
        gpu_acceleration,
        update_channel,
        cn_mirror,
        mirror_url,
        antialiasing,
        renderer_backend,
        quick_colors,
        hotkey_bindings,
    } = patch;
    AppSettings {
        auto_switch_on_overlay: pick(s_auto, auto_switch_on_overlay),
        locale: pick(s_locale, locale),
        fullscreen_overlay: pick(s_fullscreen, fullscreen_overlay),
        live_drag_preview: pick(s_drag, live_drag_preview),
        gpu_acceleration: pick(s_gpu, gpu_acceleration),
        update_channel: pick(s_channel, update_channel),
        cn_mirror: pick(s_cn, cn_mirror),
        mirror_url: pick(s_mirror, mirror_url),
        antialiasing: pick(s_aa, antialiasing),
        renderer_backend: pick(s_backend, renderer_backend),
        quick_colors: pick_colors(s_colors, quick_colors),
        hotkey_bindings: pick(s_bindings, hotkey_bindings),
    }
}

/// The patch value when there is one, the old value otherwise.
fn pick<T>(old: T, new: Option<T>) -> (r: T)
    ensures
        r == patched(old, new),
{
    match new {
        Some(v) => v,
        None => old,
    }
}

/// The patched presets: the patch's when it holds exactly five colours.
fn pick_colors(old: [[F32; 4]; 5], new: Option<Vec<[F32; 4]>>) -> (r: [[F32; 4]; 5])
    ensures
        match new {
            Some(q) if q@.len() == 5 => r@ == q@,
            _ => r == old,
        },
{
    match new {
        Some(q) => {
            if q.len() == 5 {
                let arr = [q[0], q[1], q[2], q[3], q[4]];
                assert(arr@ =~= q@);
                arr
            } else {
                old
            }
        },
        None => old,
    }
}

/// Whether a patch changes the locale: it holds one that differs from the
/// saved one.
pub fn locale_changed(patch_locale: &Option<String>, saved: &str) -> (b: bool)
    ensures
        b == (patch_locale is Some && patch_locale->0@ != saved@),
{
    match patch_locale {
        Some(l) => !crate::text::str_eq(l.as_str(), saved),
        None => false,
    }
}

/// What updating the preferences leads to besides the new configuration.
#[derive(Debug)]
pub struct PreferencesOutcome {
    /// The configuration with the patch applied.
    pub config: AppConfig,
    /// Whether the locale changed, so that the tray texts are renewed and
    /// the change announced.
    pub locale_changed: bool,
    /// The new state of the tray's window-mode check mark, if it changes.
    pub window_mode_checked: Option<bool>,
    /// Whether the hotkeys are registered anew.
    pub rebind_hotkeys: bool,
}

/// Applies a preferences patch to the configuration and checks the result:
/// the validation error's text when it breaks a rule; otherwise the new
/// configuration, whether the locale changed (against the saved one), the
/// window-mode check mark (the opposite of a new full-screen setting) and
/// whether the hotkeys change.
pub fn update_preferences(config: AppConfig, patch: PreferencesPatch, saved_locale: &str) -> (r: Result<PreferencesOutcome, String>)
    ensures
        match r {
            Ok(o) => {
                &&& o.config.active_profile == config.active_profile
                &&& o.config.profiles == config.profiles
                &&& is_patched(o.config.settings, config.settings, patch)
                &&& config_violation(o.config) is None
                &&& o.locale_changed == (patch.locale is Some && patch.locale->0@ != saved_locale@)
                &&& o.window_mode_checked == match patch.fullscreen_overlay {
                    Some(f) => Some(!f),
                    None => None,
                }
                &&& o.rebind_hotkeys == patch.hotkey_bindings is Some
            },
            Err(m) => exists|c: AppConfig| {
                &&& c.active_profile == config.active_profile
                &&& c.profiles == config.profiles
                &&& is_patched(c.settings, config.settings, patch)
                &&& config_violation(c) is Some
                &&& m@ == crate::error::validation_display(config_violation(c)->0)
            },
        },
{
    let changed = locale_changed(&patch.locale, saved_locale);
    let window_mode_checked = match patch.fullscreen_overlay {
        Some(f) => Some(!f),
        None => None,
    };
    let rebind_hotkeys = patch.hotkey_bindings.is_some();
    let AppConfig { active_profile, profiles, settings } = config;
    let settings = apply_preferences(settings, patch);
    let c = AppConfig { active_profile, profiles, settings };
    match c.validate() {
        Ok(()) => Ok(PreferencesOutcome { config: c, locale_changed: changed, window_mode_checked, rebind_hotkeys }),
        Err(e) => Err(e.to_text()),
    }
}


/// The keys of the bindings that are set, in order.
pub open spec fn bound_keys(bindings: Seq<(HotkeyAction, String)>) -> Seq<Seq<char>>
    decreases bindings.len(),
{
    if bindings.len() == 0 {
        Seq::empty()
    } else if bindings.last().1@.len() == 0 {
        bound_keys(bindings.drop_last())
    } else {
        bound_keys(bindings.drop_last()).push(bindings.last().1@)
    }
}

/// The shortcuts to register: every binding's key, skipping unset (empty)
/// ones, in order.
pub fn hotkeys_to_register(bindings: &Vec<(HotkeyAction, String)>) -> (r: Vec<String>)
    ensures
        r@.map_values(|s: String| s@) == bound_keys(bindings@),
{
    proof {
        reveal_strlit("");
    }
    let mut r: Vec<String> = Vec::new();
    let mut i: usize = 0;
    while i < bindings.len()
        invariant
            0 <= i <= bindings@.len(),
            r@.map_values(|s: String| s@) == bound_keys(bindings@.take(i as int)),
        decreases bindings@.len() - i,
    {
        let key = &bindings[i].1;
        proof {
            reveal_strlit("");
            assert(bindings@.take(i + 1).drop_last() =~= bindings@.take(i as int));
        }
        if !crate::text::str_eq(key.as_str(), "") {
            let ghost before = r@;
            r.push(key.clone());
            proof {
                if key@.len() == 0 {
                    assert(key@ =~= ""@);
                }
                assert(r@.map_values(|s: String| s@) =~= before.map_values(|s: String| s@).push(key@));
            }
        }
        i = i + 1;
    }
    proof {
        assert(bindings@.take(i as int) =~= bindings@);
    }
    r
}

} // verus!
