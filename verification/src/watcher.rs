//! The decisions of the configuration hot-reload loop: which file events
//! concern the configuration file, and the debounce that turns a burst of
//! them into one reload.

use vstd::prelude::*;

verus! {

/// The debounce interval, in milliseconds.
pub const DEBOUNCE_INTERVAL_MS: u64 = 300u64;

/// The kind of a file-system event.
#[derive(Debug, Clone, Copy, PartialEq, Eq, Structural)]
pub enum FileEventKind {
    Modify,
    Create,
    Remove,
    /// Access and any other kind.
    Other,
}

/// Whether `std::path::Path` considers the two paths equal.
pub uninterp spec fn same_path(a: Seq<char>, b: Seq<char>) -> bool;

/// Compares two paths with `std::path::Path`'s `==`, which compares their
/// components (so `a//b` and `a/b` are equal); the result depends on the
/// two texts alone.
#[verifier::external_body]
fn paths_equal(a: &str, b: &str) -> (r: bool)
    ensures
        r == same_path(a@, b@),
{
    std::path::Path::new(a) == std::path::Path::new(b)
}

/// Whether an event concerns the configuration file: one of its paths is
/// that file and it modifies, creates or removes it.
pub open spec fn spec_is_config_event(kind: FileEventKind, paths: Seq<String>, config_path: Seq<char>) -> bool {
    &&& exists|i: int| 0 <= i < paths.len() && same_path(#[trigger] paths[i]@, config_path)
    &&& kind != FileEventKind::Other
}

/// Whether an event concerns the configuration file.
pub fn is_config_event(kind: FileEventKind, paths: &Vec<String>, config_path: &str) -> (b: bool)
    ensures
        b == spec_is_config_event(kind, paths@, config_path@),
{
    let mut i: usize = 0;
    while i < paths.len()
        invariant
            0 <= i <= paths@.len(),
            forall|j: int| 0 <= j < i ==> !same_path(#[trigger] paths@[j]@, config_path@),
        decreases paths@.len() - i,
    {
        if paths_equal(paths[i].as_str(), config_path) {
            return kind != FileEventKind::Other;
        }
        i = i + 1;
    }
    false
}

/// State of the hot-reload loop.
#[derive(Debug, Clone, Copy, PartialEq, Eq, Structural)]
pub struct WatchState {
    /// A reload is waiting for the debounce timer.
    pub pending_reload: bool,
    /// When the configuration was last reloaded (monotonic milliseconds).
    pub last_reload_ms: u64,
}

/// What the loop observed.
#[derive(Debug, Clone, Copy, PartialEq, Eq, Structural)]
pub enum WatchEvent {
    /// The stop signal arrived.
    Stop,
    /// A file event arrived; whether it concerns the configuration file.
    File { concerns_config: bool },
    /// The watcher reported an error.
    WatchError,
    /// The debounce timer fired at this time.
    Tick { now_ms: u64 },
}

/// What the loop does next.
#[derive(Debug, Clone, Copy, PartialEq, Eq, Structural)]
pub enum WatchAction {
    /// Leave the loop.
    Exit,
    /// Restart the debounce timer.
    RestartTimer,
    /// Reload the configuration and broadcast it.
    Reload,
    /// Nothing.
    Idle,
}

/// The loop at start: nothing pending, last reload at `now_ms`.
pub fn watch_initial(now_ms: u64) -> (s: WatchState)
    ensures
        !s.pending_reload,
        s.last_reload_ms == now_ms,
{
    WatchState { pending_reload: false, last_reload_ms: now_ms }
}

/// One step of the hot-reload loop: a configuration event marks a reload
/// as pending and restarts the timer; a tick with a pending reload reloads
/// when the last reload is at least the debounce interval ago (and drops
/// the request otherwise); the stop signal ends the loop.
pub open spec fn watch_rule(s: WatchState, e: WatchEvent) -> (WatchState, WatchAction) {
    match e {
        WatchEvent::Stop => (s, WatchAction::Exit),
        WatchEvent::File { concerns_config } => if concerns_config {
            (WatchState { pending_reload: true, ..s }, WatchAction::RestartTimer)
        } else {
            (s, WatchAction::Idle)
        },
        WatchEvent::WatchError => (s, WatchAction::Idle),
        WatchEvent::Tick { now_ms } => if !s.pending_reload {
            (s, WatchAction::Idle)
        } else if now_ms >= s.last_reload_ms && now_ms - s.last_reload_ms >= DEBOUNCE_INTERVAL_MS {
            (WatchState { pending_reload: false, last_reload_ms: now_ms }, WatchAction::Reload)
        } else {
            (WatchState { pending_reload: false, ..s }, WatchAction::Idle)
        },
    }
}

/// One step of the hot-reload loop.
pub fn watch_step(s: WatchState, e: WatchEvent) -> (r: (WatchState, WatchAction))
    ensures
        r == watch_rule(s, e),
{
    match e {
        WatchEvent::Stop => (s, WatchAction::Exit),
        WatchEvent::File { concerns_config } => {
            if concerns_config {
                (WatchState { pending_reload: true, ..s }, WatchAction::RestartTimer)
            } else {
                (s, WatchAction::Idle)
            }
        },
        WatchEvent::WatchError => (s, WatchAction::Idle),
        WatchEvent::Tick { now_ms } => {
            if !s.pending_reload {
                (s, WatchAction::Idle)
            } else if now_ms.saturating_sub(s.last_reload_ms) >= DEBOUNCE_INTERVAL_MS {
                (WatchState { pending_reload: false, last_reload_ms: now_ms }, WatchAction::Reload)
            } else {
                (WatchState { pending_reload: false, ..s }, WatchAction::Idle)
            }
        },
    }
}

/// Reloads are debounced: a tick less than the debounce interval after the
/// last reload never reloads, and every reload records its time as the
/// last one.
pub proof fn law_reloads_are_debounced(s: WatchState, now_ms: u64)
    ensures
        now_ms >= s.last_reload_ms && now_ms - s.last_reload_ms < DEBOUNCE_INTERVAL_MS ==> watch_rule(
            s,
            WatchEvent::Tick { now_ms },
        ).1 != WatchAction::Reload,
        watch_rule(s, WatchEvent::Tick { now_ms }).1 == WatchAction::Reload ==> watch_rule(
            s,
            WatchEvent::Tick { now_ms },
        ).0.last_reload_ms == now_ms,
{
}

/// A burst of configuration events leads to at most one pending reload:
/// each event only sets the pending flag, never reloads by itself.
pub proof fn law_events_never_reload(s: WatchState, concerns_config: bool)
    ensures
        watch_rule(s, WatchEvent::File { concerns_config }).1 != WatchAction::Reload,
        watch_rule(s, WatchEvent::File { concerns_config }).0.last_reload_ms == s.last_reload_ms,
{
}

/// Which file events concern the configuration file: when one of the
/// event's paths is that file, a modification, a creation (an editor that
/// saves by writing a new file) and a removal each concern it, and only
/// other kinds (such as access) do not. An event that concerns it marks a
/// reload as pending, and the following tick reloads once the debounce interval has
/// passed since the last reload.
pub proof fn law_config_events(kind: FileEventKind, paths: Seq<String>, config_path: Seq<char>, i: int, s: WatchState, now_ms: u64)
    requires
        0 <= i < paths.len(),
        same_path(paths[i]@, config_path),
    ensures
        spec_is_config_event(FileEventKind::Modify, paths, config_path),
        spec_is_config_event(FileEventKind::Create, paths, config_path),
        spec_is_config_event(FileEventKind::Remove, paths, config_path),
        !spec_is_config_event(FileEventKind::Other, paths, config_path),
        spec_is_config_event(kind, paths, config_path) <==> kind != FileEventKind::Other,
        kind != FileEventKind::Other ==> ({
            let (p, a) = watch_rule(s, WatchEvent::File { concerns_config: spec_is_config_event(kind, paths, config_path) });
            &&& p.pending_reload
            &&& a == WatchAction::RestartTimer
            &&& (now_ms >= s.last_reload_ms && now_ms - s.last_reload_ms >= DEBOUNCE_INTERVAL_MS ==> watch_rule(
                p,
                WatchEvent::Tick { now_ms },
            ).1 == WatchAction::Reload)
        }),
{
    assert(same_path(paths[i]@, config_path));
}

/// An event none of whose paths is the configuration file never concerns
/// it, whatever its kind.
pub proof fn law_unrelated_events_ignored(kind: FileEventKind, paths: Seq<String>, config_path: Seq<char>)
    requires
        forall|j: int| 0 <= j < paths.len() ==> !same_path(#[trigger] paths[j]@, config_path),
    ensures
        !spec_is_config_event(kind, paths, config_path),
{
}

} // verus!
