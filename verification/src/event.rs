//! The event vocabulary of the supervision loop, and the key-press rules
//! of the operator interface.
//!
//! The event loop itself — merging a render tick, terminal input and the
//! internal queue into one stream — is I/O plumbing that the embedder
//! provides; these are the values that flow through it.

use vstd::prelude::*;

use crate::proc::process::ExitStatus;

verus! {

/// How many render ticks make one second.
pub const TICK_FPS: u64 = 30;

/// A terminal key press, reduced to what the application reacts to.
#[derive(Debug, Clone, Copy, PartialEq, Eq, Structural)]
pub enum Key {
    Esc,
    Char(char),
    Ctrl(char),
    Other,
}

/// An application-level event on the internal queue.
#[derive(Debug, Clone, Copy, PartialEq, Eq, Structural)]
pub enum AppEvent {
    /// The configuration file changed; reload it.
    Reload,
    /// Stop the application.
    Quit,
    /// The given incarnation exited with the given status.
    ProcessDied(u64, ExitStatus),
    /// Time to refresh the OS-level stats.
    StatsRefresh,
}

/// One event of the merged stream: a render tick, a terminal key press,
/// or an application-level event.
#[derive(Debug, Clone, Copy, PartialEq, Eq, Structural)]
pub enum Event {
    Tick,
    Input(Key),
    App(AppEvent),
}

/// The application event a key press asks for: `Esc`, `q` and control-C
/// quit, `r` reloads the configuration, and every other key does nothing.
pub open spec fn action_for(key: Key) -> Option<AppEvent> {
    match key {
        Key::Esc => Some(AppEvent::Quit),
        Key::Char(c) => if c == 'q' {
            Some(AppEvent::Quit)
        } else if c == 'r' {
            Some(AppEvent::Reload)
        } else {
            None
        },
        Key::Ctrl(c) => if c == 'c' || c == 'C' {
            Some(AppEvent::Quit)
        } else {
            None
        },
        Key::Other => None,
    }
}

/// Decide what a key press does, as [`action_for`] states.
pub fn key_action(key: Key) -> (r: Option<AppEvent>)
    ensures
        r == action_for(key),
{
    match key {
        Key::Esc => Some(AppEvent::Quit),
        Key::Char(c) => {
            if c == 'q' {
                Some(AppEvent::Quit)
            } else if c == 'r' {
                Some(AppEvent::Reload)
            } else {
                None
            }
        },
        Key::Ctrl(c) => {
            if c == 'c' || c == 'C' {
                Some(AppEvent::Quit)
            } else {
                None
            }
        },
        Key::Other => None,
    }
}

} // verus!
