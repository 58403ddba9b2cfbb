//! The decisions of the standalone desktop program: a settings window, an
//! overlay window that follows the target game window, and a tray icon.
//! Window-system events go in; the actions the event loop performs come
//! out. Opening the overlay window (and starting its follower) is outside
//! work whose outcome comes back as `ShellEvent::OverlayOpened`; drawing the
//! settings panel comes back as `ShellEvent::SettingsResponse`.

use vstd::prelude::*;

verus! {

/// Which window an event concerns.
#[derive(Debug, Clone, Copy, PartialEq, Eq, Structural)]
pub enum WindowRole {
    Settings,
    Overlay,
    Other,
}

/// The tray menu's items.
#[derive(Debug, Clone, Copy, PartialEq, Eq, Structural)]
pub enum TrayMenuItem {
    Settings,
    Quit,
    Other,
}

/// What the event loop observed.
#[derive(Debug)]
pub enum ShellEvent {
    /// The loop woke up; `init` on its first wake-up.
    NewEvents { init: bool },
    /// The application was resumed.
    Resumed,
    /// A window asks to close.
    CloseRequested(WindowRole),
    /// A key was pressed in a window; `escape` for the Escape key.
    KeyPressed { window: WindowRole, escape: bool },
    /// A window changed size.
    Resized { window: WindowRole, width: u32, height: u32 },
    /// A window asks to be drawn.
    RedrawRequested(WindowRole),
    /// Any other event of a window.
    WindowOther(WindowRole),
    /// The settings panel was drawn: whether the configuration changed (and
    /// the target window title of the new configuration), and whether the
    /// start or stop button was clicked.
    SettingsResponse { changed: bool, target: String, start_overlay: bool, stop_overlay: bool },
    /// The overlay window was opened (`window_ok`) and, when asked, its
    /// follower found the target window and started (`follower_ok`).
    OverlayOpened { window_ok: bool, follower_ok: bool },
    /// A tray menu item was clicked.
    MenuClicked(TrayMenuItem),
    /// The follower stopped: the target window closed or an error occurred.
    FollowerEnded,
    /// The event queue is empty.
    AboutToWait,
}

/// What the event loop does, in order.
#[derive(Debug, Clone, Copy, PartialEq, Eq, Structural)]
pub enum ShellAction {
    /// Create the tray icon and its menu.
    BuildTray,
    /// Create the settings window and its renderer.
    OpenSettingsWindow,
    /// Start the configuration hot-reload watcher.
    StartWatcher,
    /// Hand the window event to the settings panel.
    ForwardToSettingsUi,
    /// Hide the settings window.
    HideSettingsWindow,
    /// Show, focus and redraw the settings window.
    ShowSettingsWindow,
    /// Resize the settings renderer.
    ResizeSettings { width: u32, height: u32 },
    /// Resize the overlay renderer.
    ResizeOverlay { width: u32, height: u32 },
    /// Draw the settings panel; the loop reports the panel's response.
    RenderSettings,
    /// Save the panel's configuration, then broadcast it.
    SaveAndNotify,
    /// Open the overlay window over the target window title held in the
    /// state, and start its follower when `follow`; the loop reports the
    /// outcome.
    OpenOverlay { follow: bool },
    /// Tell the follower to stop.
    StopFollower,
    /// Drop the overlay renderer and window.
    DropOverlay,
    /// Ask for an overlay frame.
    RequestOverlayRedraw,
    /// Ask for a settings frame.
    RequestSettingsRedraw,
    /// Draw an overlay frame now.
    RenderOverlay,
    /// Stop the hot-reload watcher.
    StopWatcher,
    /// Remove the tray icon.
    DropTray,
    /// Leave the event loop.
    ExitLoop,
}

/// Buttons of a settings response still to handle once an overlay window
/// opened in the middle of it has reported back.
#[derive(Debug, Clone, Copy)]
pub struct PendingButtons {
    pub start_overlay: bool,
    pub stop_overlay: bool,
}

/// Everything the loop remembers besides the target title.
#[derive(Debug, Clone, Copy)]
pub struct ShellFlags {
    /// The tray icon exists.
    pub tray_built: bool,
    /// The settings window exists.
    pub settings_window: bool,
    /// The settings window is hidden in the tray.
    pub hidden: bool,
    /// The hot-reload watcher runs.
    pub watcher_running: bool,
    /// The overlay window exists.
    pub overlay_active: bool,
    /// The follower runs.
    pub follower_running: bool,
    /// The platform can follow a target window.
    pub follows_target: bool,
    /// A settings response waits for the overlay window to open.
    pub pending: Option<PendingButtons>,
}

/// The loop's state.
#[derive(Debug)]
pub struct ShellState {
    pub flags: ShellFlags,
    /// The title of the target game window; empty when none is chosen.
    pub target_title: String,
}

/// The loop's invariant: a follower only runs for an open overlay on a
/// platform that follows, and a response only waits while no overlay is
/// open.
pub open spec fn shell_wf(f: ShellFlags) -> bool {
    &&& f.follower_running ==> f.overlay_active && f.follows_target
    &&& f.pending is Some ==> !f.overlay_active
}

/// The state at start: nothing created, the overlay off, the target title
/// from the configuration.
pub fn shell_initial(target_title: String, follows_target: bool) -> (s: ShellState)
    ensures
        s.flags == (ShellFlags {
            tray_built: false,
            settings_window: false,
            hidden: false,
            watcher_running: false,
            overlay_active: false,
            follower_running: false,
            follows_target,
            pending: None,
        }),
        s.target_title@ == target_title@,
        shell_wf(s.flags),
{
    ShellState {
        flags: ShellFlags {
            tray_built: false,
            settings_window: false,
            hidden: false,
            watcher_running: false,
            overlay_active: false,
            follower_running: false,
            follows_target,
            pending: None,
        },
        target_title,
    }
}

/// Destroying the overlay: the follower is told to stop if it runs, then
/// the overlay is dropped.
pub open spec fn spec_destroy(f: ShellFlags) -> (ShellFlags, Seq<ShellAction>) {
    (
        ShellFlags { overlay_active: false, follower_running: false, ..f },
        if f.follower_running {
            seq![ShellAction::StopFollower, ShellAction::DropOverlay]
        } else {
            seq![ShellAction::DropOverlay]
        },
    )
}

/// Whether creating the overlay opens a window: none is open and a target
/// window is chosen.
pub open spec fn opens_overlay(f: ShellFlags, title: Seq<char>) -> bool {
    !f.overlay_active && title.len() > 0
}

/// Hiding the settings window in the tray.
pub open spec fn spec_hide(f: ShellFlags) -> (ShellFlags, Seq<ShellAction>) {
    (
        ShellFlags { hidden: true, ..f },
        if f.settings_window { seq![ShellAction::HideSettingsWindow] } else { seq![] },
    )
}

/// The start and stop buttons of a settings response, then the next
/// settings frame. A start that opens the overlay waits for its outcome,
/// keeping the stop button for later.
pub open spec fn spec_buttons(f: ShellFlags, title: Seq<char>, start: bool, stop: bool) -> (ShellFlags, Seq<ShellAction>) {
    if start && opens_overlay(f, title) {
        (
            ShellFlags { pending: Some(PendingButtons { start_overlay: false, stop_overlay: stop }), ..f },
            seq![ShellAction::OpenOverlay { follow: f.follows_target }],
        )
    } else if stop {
        let (g, a) = spec_destroy(f);
        (ShellFlags { pending: None, ..g }, a.push(ShellAction::RequestSettingsRedraw))
    } else {
        (ShellFlags { pending: None, ..f }, seq![ShellAction::RequestSettingsRedraw])
    }
}

/// A settings response: a changed configuration is saved and broadcast and
/// its target title kept; when the title changed while the overlay is on,
/// the overlay is destroyed and opened again over the new title; then the
/// buttons.
pub open spec fn spec_response(f: ShellFlags, title: Seq<char>, changed: bool, target: Seq<char>, start: bool, stop: bool) -> (ShellFlags, Seq<char>, Seq<ShellAction>) {
    if !changed {
        let (h, b) = spec_buttons(f, title, start, stop);
        (h, title, b)
    } else if target != title && f.overlay_active {
        let (g, a) = spec_destroy(f);
        if target.len() > 0 {
            (
                ShellFlags { pending: Some(PendingButtons { start_overlay: start, stop_overlay: stop }), ..g },
                target,
                seq![ShellAction::SaveAndNotify] + a + seq![ShellAction::OpenOverlay { follow: f.follows_target }],
            )
        } else {
            let (h, b) = spec_buttons(g, target, start, stop);
            (h, target, seq![ShellAction::SaveAndNotify] + a + b)
        }
    } else {
        let (h, b) = spec_buttons(f, target, start, stop);
        (h, target, seq![ShellAction::SaveAndNotify] + b)
    }
}

/// The outcome of opening the overlay: when the window opened, the overlay
/// is on, the follower runs when it was asked for and started, and a frame
/// is requested; then the buttons of a waiting response.
pub open spec fn spec_opened(f: ShellFlags, title: Seq<char>, window_ok: bool, follower_ok: bool) -> (ShellFlags, Seq<ShellAction>) {
    let g = if window_ok {
        ShellFlags { overlay_active: true, follower_running: f.follows_target && follower_ok, pending: None, ..f }
    } else {
        ShellFlags { pending: None, ..f }
    };
    let a = if window_ok { seq![ShellAction::RequestOverlayRedraw] } else { seq![] };
    match f.pending {
        Some(p) => {
            let (h, b) = spec_buttons(g, title, p.start_overlay, p.stop_overlay);
            (h, a + b)
        },
        None => (g, a),
    }
}

/// Events of the settings window are first handed to the settings panel.
pub open spec fn forwarded(f: ShellFlags, w: WindowRole) -> Seq<ShellAction> {
    if w == WindowRole::Settings && f.settings_window {
        seq![ShellAction::ForwardToSettingsUi]
    } else {
        seq![]
    }
}

/// The tray's quit item: the watcher stops, the overlay is destroyed, the
/// tray icon removed and the loop left.
pub open spec fn spec_shutdown(f: ShellFlags) -> (ShellFlags, Seq<ShellAction>) {
    let w = if f.watcher_running { seq![ShellAction::StopWatcher] } else { seq![] };
    let (g, d) = spec_destroy(f);
    (
        ShellFlags { watcher_running: false, tray_built: false, ..g },
        w + d + seq![ShellAction::DropTray, ShellAction::ExitLoop],
    )
}

/// A step on an event of a window: closing, a key, a new size, a frame
/// request or anything else.
pub open spec fn spec_window_step(f: ShellFlags, e: ShellEvent) -> (ShellFlags, Seq<ShellAction>) {
    match e {
        ShellEvent::CloseRequested(w) => match w {
            WindowRole::Settings => {
                let (g, a) = spec_hide(f);
                (g, forwarded(f, w) + a)
            },
            WindowRole::Overlay => spec_destroy(f),
            WindowRole::Other => (f, seq![]),
        },
        ShellEvent::KeyPressed { window, escape } => if window == WindowRole::Settings && escape {
            let (g, a) = spec_hide(f);
            (g, forwarded(f, window) + a)
        } else {
            (f, forwarded(f, window))
        },
        ShellEvent::Resized { window, width, height } => (
            f,
            forwarded(f, window) + match window {
                WindowRole::Settings => if f.settings_window {
                    seq![ShellAction::ResizeSettings { width, height }]
                } else {
                    seq![]
                },
                WindowRole::Overlay => if f.overlay_active {
                    seq![ShellAction::ResizeOverlay { width, height }]
                } else {
                    seq![]
                },
                WindowRole::Other => seq![],
            },
        ),
        ShellEvent::RedrawRequested(w) => (
            f,
            forwarded(f, w) + match w {
                WindowRole::Settings => if f.settings_window && !f.hidden {
                    seq![ShellAction::RenderSettings]
                } else {
                    seq![]
                },
                WindowRole::Overlay => if f.overlay_active { seq![ShellAction::RenderOverlay] } else { seq![] },
                WindowRole::Other => seq![],
            },
        ),
        ShellEvent::WindowOther(w) => (f, forwarded(f, w)),
        _ => (f, seq![]),
    }
}

/// One step of the loop: the next flags, target title and actions.
pub open spec fn spec_step(f: ShellFlags, title: Seq<char>, e: ShellEvent) -> (ShellFlags, Seq<char>, Seq<ShellAction>) {
    match e {
        ShellEvent::NewEvents { init } => if init && !f.tray_built {
            (ShellFlags { tray_built: true, ..f }, title, seq![ShellAction::BuildTray])
        } else {
            (f, title, seq![])
        },
        ShellEvent::Resumed => if !f.settings_window {
            (
                ShellFlags { settings_window: true, watcher_running: true, ..f },
                title,
                seq![ShellAction::OpenSettingsWindow, ShellAction::StartWatcher],
            )
        } else {
            (f, title, seq![])
        },
        ShellEvent::CloseRequested(_) | ShellEvent::KeyPressed { .. } | ShellEvent::Resized { .. }
        | ShellEvent::RedrawRequested(_) | ShellEvent::WindowOther(_) => {
            let (g, a) = spec_window_step(f, e);
            (g, title, a)
        },
        ShellEvent::SettingsResponse { changed, target, start_overlay, stop_overlay } => spec_response(
            f,
            title,
            changed,
            target@,
            start_overlay,
            stop_overlay,
        ),
        ShellEvent::OverlayOpened { window_ok, follower_ok } => {
            let (g, a) = spec_opened(f, title, window_ok, follower_ok);
            (g, title, a)
        },
        ShellEvent::MenuClicked(item) => match item {
            TrayMenuItem::Quit => {
                let (g, a) = spec_shutdown(f);
                (g, title, a)
            },
            TrayMenuItem::Settings => (
                ShellFlags { hidden: false, ..f },
                title,
                if f.settings_window { seq![ShellAction::ShowSettingsWindow] } else { seq![] },
            ),
            TrayMenuItem::Other => (f, title, seq![]),
        },
        ShellEvent::FollowerEnded => {
            let (g, a) = spec_destroy(f);
            (g, title, a)
        },
        ShellEvent::AboutToWait => (
            f,
            title,
            (if !f.hidden && f.settings_window { seq![ShellAction::RequestSettingsRedraw] } else { seq![] })
                + (if f.overlay_active { seq![ShellAction::RenderOverlay] } else { seq![] }),
        ),
    }
}

fn destroy(f: &mut ShellFlags, a: &mut Vec<ShellAction>)
    ensures
        *final(f) == spec_destroy(*old(f)).0,
        final(a)@ == old(a)@ + spec_destroy(*old(f)).1,
{
    let ghost a0 = a@;
    if f.follower_running {
        a.push(ShellAction::StopFollower);
    }
    a.push(ShellAction::DropOverlay);
    f.overlay_active = false;
    f.follower_running = false;
    proof {
        assert(a@ =~= a0 + spec_destroy(*old(f)).1);
    }
}

fn hide_settings(f: &mut ShellFlags, a: &mut Vec<ShellAction>)
    ensures
        *final(f) == spec_hide(*old(f)).0,
        final(a)@ == old(a)@ + spec_hide(*old(f)).1,
{
    let ghost a0 = a@;
    f.hidden = true;
    if f.settings_window {
        a.push(ShellAction::HideSettingsWindow);
    }
    proof {
        assert(a@ =~= a0 + spec_hide(*old(f)).1);
    }
}

fn forward(f: &ShellFlags, w: WindowRole, a: &mut Vec<ShellAction>)
    ensures
        final(a)@ == old(a)@ + forwarded(*f, w),
{
    let ghost a0 = a@;
    if w == WindowRole::Settings && f.settings_window {
        a.push(ShellAction::ForwardToSettingsUi);
    }
    proof {
        assert(a@ =~= a0 + forwarded(*f, w));
    }
}

fn has_title(title: &String) -> (b: bool)
    ensures
        b == (title@.len() > 0),
{
    proof {
        reveal_strlit("");
    }
    let empty = crate::text::str_eq(title.as_str(), "");
    proof {
        if title@.len() == 0 {
            assert(title@ =~= ""@);
        }
    }
    !empty
}

fn buttons(f: &mut ShellFlags, title: &String, start: bool, stop: bool, a: &mut Vec<ShellAction>)
    ensures
        *final(f) == spec_buttons(*old(f), title@, start, stop).0,
        final(a)@ == old(a)@ + spec_buttons(*old(f), title@, start, stop).1,
{
    let ghost a0 = a@;
    let ghost f0 = *f;
    if start && !f.overlay_active && has_title(title) {
        f.pending = Some(PendingButtons { start_overlay: false, stop_overlay: stop });
        a.push(ShellAction::OpenOverlay { follow: f.follows_target });
        proof {
            assert(a@ =~= a0 + spec_buttons(f0, title@, start, stop).1);
        }
    } else if stop {
        destroy(f, a);
        f.pending = None;
        a.push(ShellAction::RequestSettingsRedraw);
        proof {
            assert(a@ =~= a0 + spec_buttons(f0, title@, start, stop).1);
        }
    } else {
        f.pending = None;
        a.push(ShellAction::RequestSettingsRedraw);
        proof {
            assert(a@ =~= a0 + spec_buttons(f0, title@, start, stop).1);
        }
    }
}

fn respond(s: &mut ShellState, changed: bool, target: String, start: bool, stop: bool) -> (r: Vec<ShellAction>)
    ensures
        ({
            let (f, t, a) = spec_response(old(s).flags, old(s).target_title@, changed, target@, start, stop);
            &&& final(s).flags == f
            &&& final(s).target_title@ == t
            &&& r@ == a
        }),
{
    let ghost f0 = s.flags;
    let ghost t0 = s.target_title@;
    let mut a: Vec<ShellAction> = Vec::new();
    if !changed {
        buttons(&mut s.flags, &s.target_title, start, stop, &mut a);
        return a;
    }
    let differs = !crate::text::str_eq(target.as_str(), s.target_title.as_str());
    a.push(ShellAction::SaveAndNotify);
    s.target_title = target;
    if differs && s.flags.overlay_active {
        destroy(&mut s.flags, &mut a);
        if has_title(&s.target_title) {
            s.flags.pending = Some(PendingButtons { start_overlay: start, stop_overlay: stop });
            a.push(ShellAction::OpenOverlay { follow: s.flags.follows_target });
        } else {
            buttons(&mut s.flags, &s.target_title, start, stop, &mut a);
        }
    } else {
        buttons(&mut s.flags, &s.target_title, start, stop, &mut a);
    }
    proof {
        assert(a@ =~= spec_response(f0, t0, changed, s.target_title@, start, stop).2);
    }
    a
}

fn opened(f: &mut ShellFlags, title: &String, window_ok: bool, follower_ok: bool) -> (r: Vec<ShellAction>)
    ensures
        *final(f) == spec_opened(*old(f), title@, window_ok, follower_ok).0,
        r@ == spec_opened(*old(f), title@, window_ok, follower_ok).1,
{
    let ghost f0 = *f;
    let mut a: Vec<ShellAction> = Vec::new();
    let pending = f.pending;
    f.pending = None;
    if window_ok {
        f.overlay_active = true;
        f.follower_running = f.follows_target && follower_ok;
        a.push(ShellAction::RequestOverlayRedraw);
    }
    match pending {
        Some(p) => {
            buttons(f, title, p.start_overlay, p.stop_overlay, &mut a);
        },
        None => {},
    }
    proof {
        assert(a@ =~= spec_opened(f0, title@, window_ok, follower_ok).1);
    }
    a
}

fn shutdown(f: &mut ShellFlags) -> (r: Vec<ShellAction>)
    ensures
        *final(f) == spec_shutdown(*old(f)).0,
        r@ == spec_shutdown(*old(f)).1,
{
    let ghost f0 = *f;
    let mut a: Vec<ShellAction> = Vec::new();
    if f.watcher_running {
        a.push(ShellAction::StopWatcher);
    }
    destroy(f, &mut a);
    f.watcher_running = false;
    f.tray_built = false;
    a.push(ShellAction::DropTray);
    a.push(ShellAction::ExitLoop);
    proof {
        assert(a@ =~= spec_shutdown(f0).1);
    }
    a
}

fn window_step(f: &mut ShellFlags, e: &ShellEvent) -> (r: Vec<ShellAction>)
    requires
        e is CloseRequested || e is KeyPressed || e is Resized || e is RedrawRequested || e is WindowOther,
    ensures
        ({
            let (g, a) = spec_window_step(*old(f), *e);
            &&& *final(f) == g
            &&& r@ == a
        }),
{
    let ghost f0 = *f;
    let mut a: Vec<ShellAction> = Vec::new();
    match e {
        ShellEvent::CloseRequested(w) => {
            match w {
                WindowRole::Settings => {
                    forward(f, *w, &mut a);
                    hide_settings(f, &mut a);
                },
                WindowRole::Overlay => {
                    destroy(f, &mut a);
                },
                WindowRole::Other => {},
            }
        },
        ShellEvent::KeyPressed { window, escape } => {
            forward(f, *window, &mut a);
            if *window == WindowRole::Settings && *escape {
                hide_settings(f, &mut a);
            }
        },
        ShellEvent::Resized { window, width, height } => {
            forward(f, *window, &mut a);
            match window {
                WindowRole::Settings => {
                    if f.settings_window {
                        a.push(ShellAction::ResizeSettings { width: *width, height: *height });
                    }
                },
                WindowRole::Overlay => {
                    if f.overlay_active {
                        a.push(ShellAction::ResizeOverlay { width: *width, height: *height });
                    }
                },
                WindowRole::Other => {},
            }
        },
        ShellEvent::RedrawRequested(w) => {
            forward(f, *w, &mut a);
            match w {
                WindowRole::Settings => {
                    if f.settings_window && !f.hidden {
                        a.push(ShellAction::RenderSettings);
                    }
                },
                WindowRole::Overlay => {
                    if f.overlay_active {
                        a.push(ShellAction::RenderOverlay);
                    }
                },
                WindowRole::Other => {},
            }
        },
        ShellEvent::WindowOther(w) => {
            forward(f, *w, &mut a);
        },
        _ => {},
    }
    proof {
        assert(a@ =~= spec_window_step(f0, *e).1);
    }
    a
}

/// One step of the loop: updates the state as `spec_step` says and returns
/// the actions to perform, in order.
pub fn shell_step(s: &mut ShellState, e: ShellEvent) -> (r: Vec<ShellAction>)
    ensures
        ({
            let (f, t, a) = spec_step(old(s).flags, old(s).target_title@, e);
            &&& final(s).flags == f
            &&& final(s).target_title@ == t
            &&& r@ == a
        }),
{
    let ghost f0 = s.flags;
    match e {
        ShellEvent::NewEvents { init } => {
            let mut a: Vec<ShellAction> = Vec::new();
            if init && !s.flags.tray_built {
                s.flags.tray_built = true;
                a.push(ShellAction::BuildTray);
            }
            proof {
                assert(a@ =~= spec_step(f0, s.target_title@, e).2);
            }
            a
        },
        ShellEvent::Resumed => {
            let mut a: Vec<ShellAction> = Vec::new();
            if !s.flags.settings_window {
                s.flags.settings_window = true;
                s.flags.watcher_running = true;
                a.push(ShellAction::OpenSettingsWindow);
                a.push(ShellAction::StartWatcher);
            }
            proof {
                assert(a@ =~= spec_step(f0, s.target_title@, e).2);
            }
            a
        },
        ShellEvent::SettingsResponse { changed, target, start_overlay, stop_overlay } => {
            respond(s, changed, target, start_overlay, stop_overlay)
        },
        ShellEvent::OverlayOpened { window_ok, follower_ok } => {
            opened(&mut s.flags, &s.target_title, window_ok, follower_ok)
        },
        ShellEvent::MenuClicked(item) => {
            match item {
                TrayMenuItem::Quit => shutdown(&mut s.flags),
                TrayMenuItem::Settings => {
                    let mut a: Vec<ShellAction> = Vec::new();
                    s.flags.hidden = false;
                    if s.flags.settings_window {
                        a.push(ShellAction::ShowSettingsWindow);
                    }
                    proof {
                        assert(a@ =~= spec_step(f0, s.target_title@, e).2);
                    }
                    a
                },
                TrayMenuItem::Other => Vec::new(),
            }
        },
        ShellEvent::FollowerEnded => {
            let mut a: Vec<ShellAction> = Vec::new();
            destroy(&mut s.flags, &mut a);
            a
        },
        ShellEvent::AboutToWait => {
            let mut a: Vec<ShellAction> = Vec::new();
            if !s.flags.hidden && s.flags.settings_window {
                a.push(ShellAction::RequestSettingsRedraw);
            }
            if s.flags.overlay_active {
                a.push(ShellAction::RenderOverlay);
            }
            proof {
                assert(a@ =~= spec_step(f0, s.target_title@, e).2);
            }
            a
        },
        _ => window_step(&mut s.flags, &e),
    }
}

proof fn lemma_buttons_wf(f: ShellFlags, title: Seq<char>, start: bool, stop: bool)
    requires
        f.follower_running ==> f.overlay_active && f.follows_target,
    ensures
        shell_wf(spec_buttons(f, title, start, stop).0),
{
}

/// Every step keeps the loop's invariant: a follower runs only for an open
/// overlay on a platform that follows, and a settings response waits only
/// while no overlay is open.
pub proof fn law_shell_wf_kept(f: ShellFlags, title: Seq<char>, e: ShellEvent)
    requires
        shell_wf(f),
    ensures
        shell_wf(spec_step(f, title, e).0),
{
    match e {
        ShellEvent::SettingsResponse { changed, target, start_overlay, stop_overlay } => {
            if !changed {
                lemma_buttons_wf(f, title, start_overlay, stop_overlay);
            } else if target@ != title && f.overlay_active {
                let g = spec_destroy(f).0;
                lemma_buttons_wf(g, target@, start_overlay, stop_overlay);
            } else {
                lemma_buttons_wf(f, target@, start_overlay, stop_overlay);
            }
        },
        ShellEvent::OverlayOpened { window_ok, follower_ok } => {
            let g = if window_ok {
                ShellFlags { overlay_active: true, follower_running: f.follows_target && follower_ok, pending: None, ..f }
            } else {
                ShellFlags { pending: None, ..f }
            };
            match f.pending {
                Some(p) => lemma_buttons_wf(g, title, p.start_overlay, p.stop_overlay),
                None => {},
            }
        },
        _ => {},
    }
}

} // verus!
