//! The decisions of the overlay thread: commands from the application and
//! window events go in, and come out as the actions the thread performs
//! (creating and destroying the overlay window, starting and stopping the
//! window follower, rendering, and how long to sleep). Times are
//! nanoseconds on a monotonic clock.

use vstd::prelude::*;
use crate::commands::active_target;
use crate::config::{profile_index, AppConfig};
use crate::schema::CrosshairStyle;

verus! {

/// The frame interval: 60 frames per second.
pub const FRAME_INTERVAL_NS: u64 = 16_666_667u64;

/// A command sent to the overlay thread.
#[derive(Debug)]
pub enum OverlayCommand {
    /// Show the overlay over the window with this title.
    Start(String),
    /// Hide the overlay.
    Stop,
    /// Hide the overlay when shown; else show it over the active profile's
    /// target window.
    ToggleOverlay,
    /// A new configuration.
    UpdateConfig(AppConfig),
    /// A liveness query; changes nothing.
    QueryActive,
    /// The follower moved the window: draw again.
    Invalidate,
}

/// What the overlay thread observed.
#[derive(Debug)]
pub enum OverlayEvent {
    Command(OverlayCommand),
    /// The overlay window asks to close.
    CloseRequested,
    /// The overlay window changed size.
    Resized,
    /// The display scale changed.
    ScaleFactorChanged,
    /// The window system asks for a frame.
    RedrawRequested { now_ns: u64 },
    /// The event queue is empty; `animated` tells whether the active
    /// crosshair animates.
    AboutToWait { now_ns: u64, animated: bool },
}

/// What the overlay thread does, in order.
#[derive(Debug)]
pub enum OverlayAction {
    /// Stop the follower, drop the renderer and close the window.
    DestroyWindow,
    /// Open the overlay window, full-screen or over the titled window; the
    /// thread reports success through `overlay_created`.
    CreateWindow { fullscreen: bool, title: String },
    /// Tell the follower to stop.
    StopFollower,
    /// Start the follower for the titled window.
    StartFollower(String),
    /// Keep this configuration as the current one.
    ReplaceConfig(AppConfig),
    /// Resize the renderer to the window.
    ResizeRenderer,
    /// Draw a frame now.
    Render,
    /// Ask the window system for a frame.
    RequestRedraw,
    /// Sleep until this time.
    WaitUntil(u64),
    /// Sleep until the next event.
    Wait,
}

/// The overlay thread's state.
#[derive(Debug)]
pub struct OverlayState {
    /// The overlay window exists.
    pub has_window: bool,
    /// The overlay is shown.
    pub overlay_active: bool,
    /// The title of the followed window.
    pub target_title: String,
    /// The crosshair must be drawn again.
    pub needs_redraw: bool,
    /// When the last frame was drawn.
    pub last_render_ns: Option<u64>,
}

/// The state at start: no window, nothing shown.
pub fn overlay_initial() -> (s: OverlayState)
    ensures
        !s.has_window && !s.overlay_active && s.target_title@.len() == 0 && !s.needs_redraw
            && s.last_render_ns is None,
{
    OverlayState {
        has_window: false,
        overlay_active: false,
        target_title: String::new(),
        needs_redraw: false,
        last_render_ns: None,
    }
}

/// Whether the overlay would be recreated for `title`: it exists over
/// another title, or does not exist.
pub open spec fn create_plan(s: OverlayState, fullscreen: bool, title: Seq<char>) -> Option<(bool, bool)> {
    if s.has_window && s.target_title@ == title {
        None
    } else {
        // (destroy first, create)
        Some((s.has_window, fullscreen || title.len() > 0))
    }
}

/// The actions of showing the overlay over `title`: none when it is
/// already shown over that title; else the destruction of an overlay over
/// another title, then the window's creation unless there is no title
/// outside full-screen mode.
pub open spec fn create_actions(r: Seq<OverlayAction>, s: OverlayState, fullscreen: bool, title: Seq<char>) -> bool {
    match create_plan(s, fullscreen, title) {
        None => r.len() == 0,
        Some((destroy_first, open)) => {
            &&& r.len() == (if destroy_first { 1int } else { 0 }) + (if open { 1int } else { 0 })
            &&& destroy_first ==> r[0] is DestroyWindow
            &&& open ==> (r.last() matches OverlayAction::CreateWindow { fullscreen: f, title: t } && f == fullscreen
                && t@ == title)
        },
    }
}

/// The actions of hiding the overlay: the window's destruction, if any.
pub open spec fn destroy_actions(r: Seq<OverlayAction>, s: OverlayState) -> bool {
    if s.has_window {
        r.len() == 1 && r[0] is DestroyWindow
    } else {
        r.len() == 0
    }
}

/// Whether the active crosshair animates (random orbs redraw every frame).
pub open spec fn spec_animated(config: AppConfig) -> bool {
    match profile_index(config.profiles@, config.active_profile@) {
        Some(i) => config.profiles@[i].1.crosshair matches Some(c) && c.style == CrosshairStyle::RandomOrb,
        None => false,
    }
}

/// Whether the last frame is younger than the frame interval at `now`.
pub open spec fn too_soon(last: Option<u64>, now: u64) -> bool {
    match last {
        Some(l) => (if now >= l { now - l } else { 0 }) < FRAME_INTERVAL_NS,
        None => false,
    }
}

/// `t + FRAME_INTERVAL_NS`, saturating.
pub open spec fn after_interval(t: u64) -> u64 {
    if t + FRAME_INTERVAL_NS > u64::MAX { u64::MAX } else { (t + FRAME_INTERVAL_NS) as u64 }
}

fn copy_title(s: &String) -> (r: String)
    ensures
        r@ == s@,
{
    s.clone()
}

fn plus_interval(t: u64) -> (r: u64)
    ensures
        r == after_interval(t),
{
    t.saturating_add(FRAME_INTERVAL_NS)
}

/// The actions of showing the overlay over `title`.
fn create(s: &OverlayState, fullscreen: bool, title: String) -> (r: Vec<OverlayAction>)
    ensures
        create_actions(r@, *s, fullscreen, title@),
{
    proof {
        reveal_strlit("");
    }
    let mut r: Vec<OverlayAction> = Vec::new();
    if s.has_window {
        if crate::text::str_eq(s.target_title.as_str(), title.as_str()) {
            return r;
        }
        r.push(OverlayAction::DestroyWindow);
    }
    if !fullscreen && crate::text::str_eq(title.as_str(), "") {
        return r;
    }
    proof {
        if !fullscreen && title@.len() == 0 {
            assert(title@ =~= ""@);
        }
    }
    r.push(OverlayAction::CreateWindow { fullscreen, title });
    r
}

/// The active profile's target window title.
pub fn active_target_title(config: &AppConfig) -> (t: String)
    ensures
        t@ == active_target(*config),
{
    match config.active_profile() {
        Some(p) => copy_title(&p.target_window),
        None => String::new(),
    }
}

/// Whether the active crosshair animates.
pub fn animated(config: &AppConfig) -> (b: bool)
    ensures
        b == spec_animated(*config),
{
    match config.active_profile() {
        Some(p) => match &p.crosshair {
            Some(c) => c.style == CrosshairStyle::RandomOrb,
            None => false,
        },
        None => false,
    }
}

/// The state once the thread opened the window for `title`: shown, over
/// that title, to be drawn; the follower starts and a frame is requested.
pub fn overlay_created(s: OverlayState, title: String) -> (r: (OverlayState, Vec<OverlayAction>))
    ensures
        r.0.has_window && r.0.overlay_active && r.0.needs_redraw,
        r.0.target_title@ == title@,
        r.0.last_render_ns == s.last_render_ns,
        r.1@.len() == 2,
        r.1@[0] matches OverlayAction::StartFollower(t) && t@ == title@,
        r.1@[1] is RequestRedraw,
{
    let t = copy_title(&title);
    let next = OverlayState {
        has_window: true,
        overlay_active: true,
        target_title: title,
        needs_redraw: true,
        last_render_ns: s.last_render_ns,
    };
    (next, vec![OverlayAction::StartFollower(t), OverlayAction::RequestRedraw])
}

/// The state once the thread closed the window.
pub fn overlay_destroyed(s: OverlayState) -> (r: OverlayState)
    ensures
        !r.has_window && !r.overlay_active && r.target_title@.len() == 0,
        r.needs_redraw == s.needs_redraw,
        r.last_render_ns == s.last_render_ns,
{
    OverlayState { has_window: false, overlay_active: false, target_title: String::new(), ..s }
}

/// One step of the overlay thread, under the current configuration.
///
/// * `Start(t)`: show over `t` (nothing when already shown over `t`; an
///   overlay over another title is destroyed first; nothing is opened
///   without a title unless full-screen).
/// * `Stop` and `CloseRequested`: destroy the window, if any.
/// * `ToggleOverlay`: destroy when shown, else show over the active
///   profile's target.
/// * `UpdateConfig(c)`: keep `c`, mark for redraw, and restart the follower
///   when shown and the full-screen or live-drag setting changed.
/// * `Invalidate`, `Resized`, `ScaleFactorChanged`: mark for redraw (with a
///   frame request, a renderer resize).
/// * `RedrawRequested`: nothing when the last frame is younger than the
///   frame interval; else draw when a window exists, clear the mark and
///   sleep one interval.
/// * `AboutToWait`: without a window, sleep; when animated or marked, wait
///   out the interval since the last frame, then request one; else sleep.
pub fn overlay_step(s: OverlayState, config: &AppConfig, e: OverlayEvent) -> (r: (OverlayState, Vec<OverlayAction>))
    ensures
        match e {
            OverlayEvent::Command(OverlayCommand::Start(t)) => r.0 == s && create_actions(
                r.1@,
                s,
                config.settings.fullscreen_overlay,
                t@,
            ),
            OverlayEvent::Command(OverlayCommand::Stop) | OverlayEvent::CloseRequested => r.0 == s && destroy_actions(
                r.1@,
                s,
            ),
            OverlayEvent::Command(OverlayCommand::ToggleOverlay) => r.0 == s && if s.overlay_active {
                destroy_actions(r.1@, s)
            } else {
                create_actions(r.1@, s, config.settings.fullscreen_overlay, active_target(*config))
            },
            OverlayEvent::Command(OverlayCommand::UpdateConfig(c)) => {
                let restart = s.overlay_active && (c.settings.fullscreen_overlay != config.settings.fullscreen_overlay
                    || c.settings.live_drag_preview != config.settings.live_drag_preview);
                &&& r.0 == OverlayState { needs_redraw: true, ..s }
                &&& r.1@.len() == if restart { 3int } else { 1 }
                &&& r.1@[0] == OverlayAction::ReplaceConfig(c)
                &&& restart ==> r.1@[1] is StopFollower
                &&& restart ==> (r.1@[2] matches OverlayAction::StartFollower(t) && t@ == s.target_title@)
            },
            OverlayEvent::Command(OverlayCommand::QueryActive) => r.0 == s && r.1@.len() == 0,
            OverlayEvent::Command(OverlayCommand::Invalidate) => r.0 == OverlayState { needs_redraw: true, ..s }
                && r.1@.len() == (if s.has_window { 1int } else { 0 }) && (s.has_window ==> r.1@[0] is RequestRedraw),
            OverlayEvent::Resized => r.0 == OverlayState { needs_redraw: true, ..s } && r.1@.len() == (if s.has_window {
                1int
            } else {
                0
            }) && (s.has_window ==> r.1@[0] is ResizeRenderer),
            OverlayEvent::ScaleFactorChanged => r.0 == OverlayState { needs_redraw: true, ..s } && r.1@.len() == 0,
            OverlayEvent::RedrawRequested { now_ns } => if too_soon(s.last_render_ns, now_ns) {
                r.0 == s && r.1@.len() == 0
            } else {
                &&& r.0 == OverlayState {
                    needs_redraw: false,
                    last_render_ns: if s.has_window { Some(now_ns) } else { s.last_render_ns },
                    ..s
                }
                &&& r.1@ == if s.has_window {
                    seq![OverlayAction::Render, OverlayAction::WaitUntil(after_interval(now_ns))]
                } else {
                    seq![OverlayAction::WaitUntil(after_interval(now_ns))]
                }
            },
            OverlayEvent::AboutToWait { now_ns, animated } => r.0 == s && r.1@ == if !s.has_window {
                seq![OverlayAction::Wait]
            } else if animated || s.needs_redraw {
                if too_soon(s.last_render_ns, now_ns) {
                    seq![OverlayAction::WaitUntil(after_interval(s.last_render_ns->0))]
                } else {
                    seq![OverlayAction::RequestRedraw]
                }
            } else {
                seq![OverlayAction::Wait]
            },
        },
{
    match e {
        OverlayEvent::Command(cmd) => match cmd {
            OverlayCommand::Start(title) => {
                let r = create(&s, config.settings.fullscreen_overlay, title);
                (s, r)
            },
            OverlayCommand::Stop => {
                let r = if s.has_window { vec![OverlayAction::DestroyWindow] } else { Vec::new() };
                (s, r)
            },
            OverlayCommand::ToggleOverlay => {
                if s.overlay_active {
                    let r = if s.has_window { vec![OverlayAction::DestroyWindow] } else { Vec::new() };
                    (s, r)
                } else {
                    let title = active_target_title(config);
                    let r = create(&s, config.settings.fullscreen_overlay, title);
                    (s, r)
                }
            },
            OverlayCommand::UpdateConfig(c) => {
                let restart = s.overlay_active && (c.settings.fullscreen_overlay != config.settings.fullscreen_overlay
                    || c.settings.live_drag_preview != config.settings.live_drag_preview);
                let t = copy_title(&s.target_title);
                let mut r: Vec<OverlayAction> = vec![OverlayAction::ReplaceConfig(c)];
                if restart {
                    r.push(OverlayAction::StopFollower);
                    r.push(OverlayAction::StartFollower(t));
                }
                (OverlayState { needs_redraw: true, ..s }, r)
            },
            OverlayCommand::QueryActive => (s, Vec::new()),
            OverlayCommand::Invalidate => {
                let r = if s.has_window { vec![OverlayAction::RequestRedraw] } else { Vec::new() };
                (OverlayState { needs_redraw: true, ..s }, r)
            },
        },
        OverlayEvent::CloseRequested => {
            let r = if s.has_window { vec![OverlayAction::DestroyWindow] } else { Vec::new() };
            (s, r)
        },
        OverlayEvent::Resized => {
            let r = if s.has_window { vec![OverlayAction::ResizeRenderer] } else { Vec::new() };
            (OverlayState { needs_redraw: true, ..s }, r)
        },
        OverlayEvent::ScaleFactorChanged => (OverlayState { needs_redraw: true, ..s }, Vec::new()),
        OverlayEvent::RedrawRequested { now_ns } => {
            let soon = match s.last_render_ns {
                Some(l) => now_ns.saturating_sub(l) < FRAME_INTERVAL_NS,
                None => false,
            };
            if soon {
                return (s, Vec::new());
            }
            let until = plus_interval(now_ns);
            if s.has_window {
                (
                    OverlayState { needs_redraw: false, last_render_ns: Some(now_ns), ..s },
                    vec![OverlayAction::Render, OverlayAction::WaitUntil(until)],
                )
            } else {
                (OverlayState { needs_redraw: false, ..s }, vec![OverlayAction::WaitUntil(until)])
            }
        },
        OverlayEvent::AboutToWait { now_ns, animated } => {
            if !s.has_window {
                return (s, vec![OverlayAction::Wait]);
            }
            if animated || s.needs_redraw {
                match s.last_render_ns {
                    Some(l) => {
                        if now_ns.saturating_sub(l) < FRAME_INTERVAL_NS {
                            let until = plus_interval(l);
                            return (s, vec![OverlayAction::WaitUntil(until)]);
                        }
                    },
                    None => {},
                }
                (s, vec![OverlayAction::RequestRedraw])
            } else {
                (s, vec![OverlayAction::Wait])
            }
        },
    }
}

} // verus!
