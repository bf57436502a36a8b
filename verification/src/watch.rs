//! The refresh loop's decisions: when to announce that a game started or
//! stopped, and when a change in the save folders ends the wait for the next
//! refresh. The loop itself, its timer and the folder watcher are the caller's.
use vstd::prelude::*;

verus! {

/// What the refresh loop remembers between two refreshes.
pub struct WatchState {
    /// Whether the game shown at the last refresh was running.
    pub was_running: bool,
}

/// What the wait between two refreshes was interrupted by.
pub enum WaitEvent {
    /// A file in a save folder was created or modified.
    SaveChanged,
    /// The watcher reported another kind of change (an access, a removal, ...).
    OtherChange,
    /// The watcher reported an error.
    WatchError,
    /// The wait reached its deadline.
    TimedOut,
    /// The watcher is gone and will report nothing more.
    Closed,
}

/// The state before the first refresh: no game was running.
pub fn initial_watch_state() -> (state: WatchState)
    ensures
        !state.was_running,
{
    WatchState { was_running: false }
}

/// A refresh found the shown game `running` or not: the new state, and whether
/// to announce a change of the running status (exactly when it differs from
/// the last refresh).
pub fn on_refresh(state: WatchState, running: bool) -> (next: (WatchState, bool))
    ensures
        next.0.was_running == running,
        next.1 == (state.was_running != running),
{
    (WatchState { was_running: running }, state.was_running != running)
}

/// Whether the wait for the next refresh goes on after `event`: only a change
/// that is neither a creation nor a modification is waited past; everything
/// else (a save change, an error, the deadline, a closed watcher) ends the wait.
pub fn keep_waiting(event: WaitEvent) -> (wait: bool)
    ensures
        wait == (event is OtherChange),
{
    match event {
        WaitEvent::OtherChange => true,
        _ => false,
    }
}

} // verus!
