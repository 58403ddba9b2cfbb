//! Target-window selection and the decisions of the overlay follow loop.
//!
//! The platform layer enumerates windows and queries their geometry; this
//! module decides which window is the target and, tick by tick, where the
//! overlay goes and whether it is shown.

use vstd::prelude::*;

verus! {

/// A native window handle, as a pointer-sized integer.
#[derive(Debug, Clone, Copy, PartialEq, Eq, Structural)]
pub struct SendHwnd(pub isize);

/// A visible top-level window and its title.
#[derive(Debug, Clone)]
pub struct WindowEntry {
    /// Window handle.
    pub hwnd: isize,
    /// Window title.
    pub title: String,
}

/// A screen rectangle in integer pixels.
#[derive(Debug, Clone, Copy, PartialEq, Eq, Structural)]
pub struct WinRect {
    pub left: i32,
    pub top: i32,
    pub right: i32,
    pub bottom: i32,
}

/// Field-wise equality of two rectangles.
pub fn rect_eq(a: &WinRect, b: &WinRect) -> (r: bool)
    ensures
        r == (*a == *b),
{
    a.left == b.left && a.top == b.top && a.right == b.right && a.bottom == b.bottom
}

/// Overlay platform errors.
#[derive(Debug, Clone, PartialEq, Eq)]
pub enum OverlayError {
    /// The window provides no native handle.
    NoWindowHandle,
    /// The native handle is not a Win32 handle.
    NotWin32Hwnd,
    /// A Win32 call failed, with its message.
    Win32(String),
    /// No window title matches.
    TargetNotFound(String),
    /// Following was cancelled.
    Cancelled,
}

/// Whether `s` contains `needle` as a contiguous run of characters.
pub open spec fn contains_str(s: Seq<char>, needle: Seq<char>) -> bool {
    exists|k: int| 0 <= k && k + needle.len() <= s.len() && #[trigger] s.subrange(k, k + needle.len()) == needle
}

/// Substring test.
pub fn str_contains(s: &str, needle: &str) -> (b: bool)
    ensures
        b == contains_str(s@, needle@),
{
    let sc = crate::text::chars_of(s);
    let nc = crate::text::chars_of(needle);
    if nc.len() > sc.len() {
        proof {
            if contains_str(s@, needle@) {
                let k = choose|k: int| 0 <= k && k + needle@.len() <= s@.len() && #[trigger] s@.subrange(k, k + needle@.len()) == needle@;
            }
        }
        return false;
    }
    let limit = sc.len() - nc.len();
    let mut k: usize = 0;
    loop
        invariant
            sc@ == s@,
            nc@ == needle@,
            nc@.len() <= sc@.len(),
            limit == sc@.len() - nc@.len(),
            0 <= k <= limit,
            forall|m: int| 0 <= m < k ==> #[trigger] s@.subrange(m, m + needle@.len()) != needle@,
        decreases limit - k,
    {
        proof {
            assert(sc@.skip(k as int).take(nc@.len() as int) =~= s@.subrange(k as int, k + needle@.len()));
        }
        if crate::text::has_prefix_at(&sc, k, &nc) {
            return true;
        }
        if k == limit {
            return false;
        }
        k = k + 1;
    }
}

/// Finds the target window among `entries` by title: exact match first,
/// then the first title containing `title`; `TargetNotFound(title)` when
/// none matches.
pub fn find_target_window(entries: &Vec<WindowEntry>, title: &str) -> (r: Result<isize, OverlayError>)
    ensures
        r is Ok ==> exists|i: int| 0 <= i < entries@.len() && entries@[i].hwnd == r->Ok_0 && ({
            ||| (entries@[i].title@ == title@ && forall|k: int| 0 <= k < i ==> #[trigger] entries@[k].title@ != title@)
            ||| ((forall|k: int| 0 <= k < entries@.len() ==> #[trigger] entries@[k].title@ != title@)
                && contains_str(entries@[i].title@, title@)
                && forall|k: int| 0 <= k < i ==> !contains_str(#[trigger] entries@[k].title@, title@))
        }),
        r is Err <==> forall|k: int| 0 <= k < entries@.len() ==> !contains_str(#[trigger] entries@[k].title@, title@)
            && entries@[k].title@ != title@,
        r is Err ==> r->Err_0 == OverlayError::TargetNotFound(r->Err_0->TargetNotFound_0)
            && r->Err_0->TargetNotFound_0@ == title@,
{
    let target = title.to_owned();
    let mut i: usize = 0;
    while i < entries.len()
        invariant
            0 <= i <= entries@.len(),
            target@ == title@,
            forall|k: int| 0 <= k < i ==> #[trigger] entries@[k].title@ != title@,
        decreases entries@.len() - i,
    {
        if entries[i].title == target {
            return Ok(entries[i].hwnd);
        }
        i = i + 1;
    }
    let mut j: usize = 0;
    while j < entries.len()
        invariant
            0 <= j <= entries@.len(),
            forall|k: int| 0 <= k < entries@.len() ==> #[trigger] entries@[k].title@ != title@,
            forall|k: int| 0 <= k < j ==> !contains_str(#[trigger] entries@[k].title@, title@),
        decreases entries@.len() - j,
    {
        if str_contains(entries[j].title.as_str(), title) {
            return Ok(entries[j].hwnd);
        }
        j = j + 1;
    }
    Err(OverlayError::TargetNotFound(title.to_owned()))
}

/// The titles of `entries`, in order.
pub fn list_window_titles(entries: &Vec<WindowEntry>) -> (r: Vec<String>)
    ensures
        r@.len() == entries@.len(),
        forall|k: int| 0 <= k < r@.len() ==> #[trigger] r@[k]@ == entries@[k].title@,
{
    let mut r: Vec<String> = Vec::new();
    let mut k: usize = 0;
    while k < entries.len()
        invariant
            0 <= k <= entries@.len(),
            r@.len() == k,
            forall|m: int| 0 <= m < k ==> #[trigger] r@[m]@ == entries@[m].title@,
        decreases entries@.len() - k,
    {
        r.push(entries[k].title.clone());
        k = k + 1;
    }
    r
}

} // verus!

verus! {

/// How long the target rectangle must stay still before a window dragged in
/// delayed mode shows the overlay again, in milliseconds.
pub const DRAG_DELAY_MS: u64 = 1200u64;

/// State of the follow loop between ticks.
#[derive(Debug, Clone, Copy)]
pub struct FollowState {
    /// Target rectangle seen last (all zero at start).
    pub last_rect: WinRect,
    /// Whether the overlay is believed to be shown.
    pub visible: bool,
    /// Screen size applied last in fullscreen mode.
    pub last_screen_size: Option<(i32, i32)>,
    /// When the target rectangle last changed, in monotonic milliseconds.
    pub last_change_ms: Option<u64>,
    /// Whether the overlay is hidden because the target is being dragged.
    pub dragging_hidden: bool,
}

/// What one poll of the target window observed.
#[derive(Debug, Clone, Copy, PartialEq, Eq, Structural)]
pub enum FollowEvent {
    /// The stop signal arrived.
    Stop,
    /// Fullscreen mode: the current screen size.
    Screen { width: i32, height: i32 },
    /// Window mode: what the platform reported about the target.
    Target {
        /// The target window still exists.
        exists: bool,
        /// The target is minimised.
        iconic: bool,
        /// The target is the foreground window.
        foreground: bool,
        /// The target's overlay rectangle, or `None` when querying it failed.
        rect: Option<WinRect>,
        /// Whether the target still exists, asked again after a failed query.
        exists_after_error: bool,
        /// Monotonic time of this poll, in milliseconds.
        now_ms: u64,
    },
}

/// A show command for the overlay window.
#[derive(Debug, Clone, Copy, PartialEq, Eq, Structural)]
pub enum ShowCommand {
    /// Leave it as it is.
    Keep,
    /// Hide it.
    Hide,
    /// Show it without activating it.
    ShowNoActivate,
}

/// What the platform does after one poll: first the move (if any), then the
/// show command, then stop following when `finish` is set.
#[derive(Debug, Clone, Copy)]
pub struct FollowAction {
    /// Move the overlay to `(x, y, width, height)`, topmost, not activated.
    pub set_pos: Option<(i32, i32, i32, i32)>,
    /// Show or hide the overlay.
    pub show: ShowCommand,
    /// Stop following: the loop ends with `OverlayError::Cancelled`.
    pub finish: bool,
}

/// The initial follow state: zero rectangle, overlay visible.
pub fn follow_initial() -> (s: FollowState)
    ensures
        s.last_rect == (WinRect { left: 0, top: 0, right: 0, bottom: 0 }),
        s.visible,
        s.last_screen_size is None,
        s.last_change_ms is None,
        !s.dragging_hidden,
{
    FollowState {
        last_rect: WinRect { left: 0, top: 0, right: 0, bottom: 0 },
        visible: true,
        last_screen_size: None,
        last_change_ms: None,
        dragging_hidden: false,
    }
}

/// A rectangle as `(x, y, width, height)`.
pub open spec fn placement(r: WinRect) -> (i32, i32, i32, i32) {
    (r.left, r.top, (r.right - r.left) as i32, (r.bottom - r.top) as i32)
}

/// Whether a rectangle's width and height fit in `i32`.
pub open spec fn rect_size_fits(r: WinRect) -> bool {
    i32::MIN <= r.right - r.left <= i32::MAX && i32::MIN <= r.bottom - r.top <= i32::MAX
}

/// Whether the drag delay has passed since `last` at `now` (no recorded
/// change counts as passed).
pub open spec fn delay_passed(last: Option<u64>, now: u64) -> bool {
    match last {
        None => true,
        Some(t) => now >= t && now - t >= DRAG_DELAY_MS,
    }
}

fn to_placement(r: &WinRect) -> (p: (i32, i32, i32, i32))
    requires
        rect_size_fits(*r),
    ensures
        p == placement(*r),
{
    (r.left, r.top, r.right - r.left, r.bottom - r.top)
}

/// The rule for one tick of the follow loop (see [`follow_step`]).
pub open spec fn follow_rule(state: FollowState, event: FollowEvent, live_drag: bool, next: FollowState, action: FollowAction) -> bool {
            match event {
                FollowEvent::Stop => action == (FollowAction { set_pos: None, show: ShowCommand::Keep, finish: true })
                    && next == state,
                FollowEvent::Screen { width, height } => {
                    let changed = state.last_screen_size != Some((width, height));
                    &&& action.set_pos == (if changed { Some((0i32, 0i32, width, height)) } else { None })
                    &&& action.show == ShowCommand::Keep
                    &&& !action.finish
                    &&& next == FollowState { last_screen_size: Some((width, height)), ..state }
                },
                FollowEvent::Target { exists, iconic, foreground, rect, exists_after_error, now_ms } => {
                    let hide_if_visible = if state.visible { ShowCommand::Hide } else { ShowCommand::Keep };
                    if !exists {
                        action == (FollowAction { set_pos: None, show: ShowCommand::Hide, finish: true })
                            && next == state
                    } else if iconic || !foreground {
                        action == (FollowAction { set_pos: None, show: hide_if_visible, finish: false })
                            && next == FollowState { visible: false, ..state }
                    } else if rect is None {
                        if !exists_after_error {
                            action == (FollowAction { set_pos: None, show: ShowCommand::Hide, finish: true })
                                && next == state
                        } else {
                            action == (FollowAction { set_pos: None, show: ShowCommand::Keep, finish: false })
                                && next == state
                        }
                    } else {
                        let rc = rect->0;
                        if rc != state.last_rect {
                            if !live_drag {
                                let hide = state.visible && !state.dragging_hidden;
                                &&& action == (FollowAction {
                                    set_pos: None,
                                    show: if hide { ShowCommand::Hide } else { ShowCommand::Keep },
                                    finish: false,
                                })
                                &&& next == FollowState {
                                    last_rect: rc,
                                    last_change_ms: Some(now_ms),
                                    dragging_hidden: state.dragging_hidden || hide,
                                    visible: state.visible && !hide,
                                    ..state
                                }
                            } else {
                                &&& action.set_pos == Some(placement(rc))
                                &&& action.show == (if state.visible { ShowCommand::Keep } else { ShowCommand::ShowNoActivate })
                                &&& !action.finish
                                &&& next == FollowState { last_rect: rc, visible: true, ..state }
                            }
                        } else if !live_drag && state.dragging_hidden {
                            if delay_passed(state.last_change_ms, now_ms) {
                                &&& action == (FollowAction {
                                    set_pos: Some(placement(rc)),
                                    show: ShowCommand::ShowNoActivate,
                                    finish: false,
                                })
                                &&& next == FollowState { dragging_hidden: false, visible: true, ..state }
                            } else {
                                action == (FollowAction { set_pos: None, show: ShowCommand::Keep, finish: false })
                                    && next == state
                            }
                        } else {
                            &&& action == (FollowAction {
                                set_pos: None,
                                show: if state.visible { ShowCommand::Keep } else { ShowCommand::ShowNoActivate },
                                finish: false,
                            })
                            &&& next == FollowState { visible: true, ..state }
                        }
                    }
                },
            }
}

/// One tick of the follow loop.
///
/// - Stop: finish.
/// - Fullscreen: cover the screen whenever its size differs from the size
///   applied last.
/// - Window mode: a vanished target hides the overlay and finishes; a
///   minimised or background target hides it; a failed rectangle query
///   finishes (hiding the overlay) if the target vanished, else waits; a
///   moved target is followed at once in live mode, while in delayed mode the
///   overlay hides and reappears at the new place once the rectangle has been
///   still for [`DRAG_DELAY_MS`]; a hidden overlay is shown again otherwise.
pub fn follow_step(state: &FollowState, event: &FollowEvent, live_drag: bool) -> (r: (FollowState, FollowAction))
    requires
        event matches FollowEvent::Target { rect: Some(rc), .. } ==> rect_size_fits(*rc),
    ensures
        follow_rule(*state, *event, live_drag, r.0, r.1),
{
    let keep = FollowAction { set_pos: None, show: ShowCommand::Keep, finish: false };
    match *event {
        FollowEvent::Stop => (*state, FollowAction { set_pos: None, show: ShowCommand::Keep, finish: true }),
        FollowEvent::Screen { width, height } => {
            let changed = match state.last_screen_size {
                Some((w, h)) => !(w == width && h == height),
                None => true,
            };
            let action = FollowAction {
                set_pos: if changed { Some((0i32, 0i32, width, height)) } else { None },
                show: ShowCommand::Keep,
                finish: false,
            };
            (FollowState { last_screen_size: Some((width, height)), ..*state }, action)
        },
        FollowEvent::Target { exists, iconic, foreground, rect, exists_after_error, now_ms } => {
            if !exists {
                return (*state, FollowAction { set_pos: None, show: ShowCommand::Hide, finish: true });
            }
            if iconic || !foreground {
                let show = if state.visible { ShowCommand::Hide } else { ShowCommand::Keep };
                return (FollowState { visible: false, ..*state }, FollowAction { set_pos: None, show, finish: false });
            }
            let rc = match rect {
                Some(rc) => rc,
                None => {
                    if !exists_after_error {
                        return (*state, FollowAction { set_pos: None, show: ShowCommand::Hide, finish: true });
                    }
                    return (*state, keep);
                },
            };
            let mut next = *state;
            let mut set_pos: Option<(i32, i32, i32, i32)> = None;
            let mut show = ShowCommand::Keep;
            if !rect_eq(&rc, &state.last_rect) {
                if !live_drag {
                    if next.visible && !next.dragging_hidden {
                        show = ShowCommand::Hide;
                        next.dragging_hidden = true;
                        next.visible = false;
                    }
                    next.last_change_ms = Some(now_ms);
                    next.last_rect = rc;
                    return (next, FollowAction { set_pos: None, show, finish: false });
                }
                set_pos = Some(to_placement(&rc));
                next.last_rect = rc;
            } else if !live_drag && next.dragging_hidden {
                let ready = match next.last_change_ms {
                    Some(t) => now_ms >= t && now_ms - t >= DRAG_DELAY_MS,
                    None => true,
                };
                if ready {
                    set_pos = Some(to_placement(&rc));
                    next.dragging_hidden = false;
                    next.visible = false;
                } else {
                    return (next, keep);
                }
            }
            if !next.visible {
                show = ShowCommand::ShowNoActivate;
                next.visible = true;
            }
            (next, FollowAction { set_pos, show, finish: false })
        },
    }
}

/// Whenever a tick issues a show command, the recorded visibility matches
/// it: after `Hide` the overlay is recorded hidden, after `ShowNoActivate`
/// shown (unless the loop finishes).
pub proof fn law_follow_visibility(state: FollowState, event: FollowEvent, live_drag: bool, next: FollowState, action: FollowAction)
    requires
        follow_rule(state, event, live_drag, next, action),
    ensures
        !action.finish && action.show == ShowCommand::Hide ==> !next.visible,
        !action.finish && action.show == ShowCommand::ShowNoActivate ==> next.visible,
        !live_drag && !state.dragging_hidden && !action.finish ==> (next.dragging_hidden ==> action.show == ShowCommand::Hide),
{
}

/// In fullscreen mode the overlay covers the screen again exactly when the
/// screen size differs from the size applied last, in either dimension:
/// a changed width, a changed height or a first size each move it to
/// `(0, 0, width, height)`; the same size moves nothing. The size is then
/// recorded, so a second tick with the same size moves nothing.
pub proof fn law_fullscreen_follows_screen_size(
    state: FollowState,
    width: i32,
    height: i32,
    live_drag: bool,
    next: FollowState,
    action: FollowAction,
    next2: FollowState,
    action2: FollowAction,
)
    requires
        follow_rule(state, FollowEvent::Screen { width, height }, live_drag, next, action),
        follow_rule(next, FollowEvent::Screen { width, height }, live_drag, next2, action2),
    ensures
        action.set_pos is Some <==> state.last_screen_size != Some((width, height)),
        action.set_pos is Some ==> action.set_pos == Some((0i32, 0i32, width, height)),
        (state.last_screen_size matches Some((w, h)) && (w != width || h != height)) ==> action.set_pos
            == Some((0i32, 0i32, width, height)),
        state.last_screen_size is None ==> action.set_pos == Some((0i32, 0i32, width, height)),
        action.show == ShowCommand::Keep && !action.finish,
        next.last_screen_size == Some((width, height)),
        next.last_rect == state.last_rect && next.visible == state.visible,
        action2.set_pos is None,
{
}

/// The window-mode rules in terms of what was observed: a vanished target
/// ends following and hides the overlay; a minimised or background target
/// leaves it hidden and never moves it; in live mode a moved target is
/// followed at once to its new rectangle and shown; a stop ends following
/// and changes nothing.
pub proof fn law_follow_target(state: FollowState, event: FollowEvent, live_drag: bool, next: FollowState, action: FollowAction)
    requires
        follow_rule(state, event, live_drag, next, action),
    ensures
        event == FollowEvent::Stop ==> action.finish && next == state && action.set_pos is None,
        event matches FollowEvent::Target { exists, .. } && !exists ==> action.finish && action.show == ShowCommand::Hide,
        event matches FollowEvent::Target { exists, iconic, foreground, .. } && exists && (iconic || !foreground)
            ==> !next.visible && action.set_pos is None && !action.finish && action.show != ShowCommand::ShowNoActivate,
        match event {
            FollowEvent::Target { exists, iconic, foreground, rect: Some(rc), .. } => exists && !iconic && foreground
                && rc != state.last_rect ==> if live_drag {
                action.set_pos == Some(placement(rc)) && next.visible && next.last_rect == rc && !action.finish
            } else {
                action.set_pos is None && next.last_rect == rc && !action.finish
            },
            _ => true,
        },
{
}

} // verus!
