//! Interface state that drives the dashboard: the render-tick counter
//! behind the throbbers, the focus ring over process cards, logs and the
//! debug panel, and the display mode.
//!
//! Drawing itself — widgets, colors, layout — is presentation-layer work
//! that consumes this state read-only and lives outside this crate.

use vstd::prelude::*;

use crate::event::TICK_FPS;
use crate::proc::stats::ProcessStats;

verus! {

/// One stat series ready for a sparkline row: a label, a unit, the value
/// history with its running maximum, and the parallel timestamps.
#[derive(Debug, Clone)]
pub struct SingleStat {
    pub name: String,
    pub unit: String,
    pub history: Vec<u64>,
    pub max: u64,
    pub timestamps: Vec<u64>,
}

/// Split a process's stat history into its CPU and memory series, each
/// paired with the timestamps and scaled by the recorded maximum.
pub fn split_stats(stats: &Vec<ProcessStats>, max_stats: &ProcessStats) -> (r: (
    SingleStat,
    SingleStat,
))
    ensures
        r.0.name@ == "CPU"@,
        r.0.unit@ == "%"@,
        r.0.max == max_stats.cpu_percent,
        r.1.name@ == "RAM"@,
        r.1.unit@ == "MB"@,
        r.1.max == max_stats.memory_mb,
        r.0.history@.len() == stats@.len(),
        r.1.history@.len() == stats@.len(),
        r.0.timestamps@ == r.1.timestamps@,
        r.0.timestamps@.len() == stats@.len(),
        forall|j: int|
            0 <= j < stats@.len() ==> r.0.history@[j] == (#[trigger] stats@[j]).cpu_percent,
        forall|j: int|
            0 <= j < stats@.len() ==> r.1.history@[j] == (#[trigger] stats@[j]).memory_mb,
        forall|j: int|
            0 <= j < stats@.len() ==> r.0.timestamps@[j] == (#[trigger] stats@[j]).timestamp,
{
    let mut cpu_history: Vec<u64> = Vec::new();
    let mut mem_history: Vec<u64> = Vec::new();
    let mut timestamps: Vec<u64> = Vec::new();
    let mut i: usize = 0;
    while i < stats.len()
        invariant
            i <= stats@.len(),
            cpu_history@.len() == i,
            mem_history@.len() == i,
            timestamps@.len() == i,
            forall|j: int|
                0 <= j < i ==> cpu_history@[j] == (#[trigger] stats@[j]).cpu_percent,
            forall|j: int| 0 <= j < i ==> mem_history@[j] == (#[trigger] stats@[j]).memory_mb,
            forall|j: int| 0 <= j < i ==> timestamps@[j] == (#[trigger] stats@[j]).timestamp,
        decreases stats@.len() - i,
    {
        let s = stats[i];
        cpu_history.push(s.cpu_percent);
        mem_history.push(s.memory_mb);
        timestamps.push(s.timestamp);
        i += 1;
    }
    let cpu = SingleStat {
        name: "CPU".to_owned(),
        unit: "%".to_owned(),
        history: cpu_history,
        max: max_stats.cpu_percent,
        timestamps: timestamps.clone(),
    };
    let ram = SingleStat {
        name: "RAM".to_owned(),
        unit: "MB".to_owned(),
        history: mem_history,
        max: max_stats.memory_mb,
        timestamps,
    };
    proof {
        assert(cpu.timestamps@ =~= ram.timestamps@);
    }
    (cpu, ram)
}

/// What the operator can focus: one process card, the log panel, or the
/// debug panel.
#[derive(Debug, Clone, Copy, PartialEq, Eq, Structural)]
pub enum Focussable {
    Process(usize),
    Logs,
    Debug,
}

/// The main interface mode.
#[derive(Debug, Clone, Copy, PartialEq, Eq, Structural)]
pub enum Mode {
    /// All processes and logs.
    Dashboard,
    /// Spotlight a single process.
    Spotlight,
    /// Large log split view.
    Logs,
}

/// The interface state: a render-tick counter (reset every two seconds,
/// when `time` is refreshed), the card grid shape, how many processes are
/// shown, the focus, the mode and the debug-panel flag.
#[derive(Debug, Clone, PartialEq, Eq, Structural)]
pub struct UiState {
    pub tick: u64,
    pub time: u64,
    pub proc_columns: usize,
    pub proc_rows: usize,
    pub procs: usize,
    pub focus: Option<Focussable>,
    pub mode: Mode,
    pub debug: bool,
}

impl Default for UiState {
    fn default() -> (r: UiState)
        ensures
            r == (UiState {
                tick: 0,
                time: 0,
                proc_columns: 2,
                proc_rows: 3,
                procs: 0,
                focus: None,
                mode: Mode::Dashboard,
                debug: false,
            }),
    {
        UiState {
            tick: 0,
            time: 0,
            proc_columns: 2,
            proc_rows: 3,
            procs: 0,
            focus: None,
            mode: Mode::Dashboard,
            debug: false,
        }
    }
}

/// Where the focus moves on "next": through the process cards in order,
/// then the logs, then the debug panel when it is shown, and around.
pub open spec fn focus_next_of(s: UiState) -> Focussable {
    match s.focus {
        None => Focussable::Process(0),
        Some(Focussable::Process(i)) => if i + 1 < s.procs {
            Focussable::Process((i + 1) as usize)
        } else {
            Focussable::Logs
        },
        Some(Focussable::Logs) => if s.debug {
            Focussable::Debug
        } else {
            Focussable::Process(0)
        },
        Some(Focussable::Debug) => Focussable::Process(0),
    }
}

/// Where the focus moves on "previous": the reverse ring of
/// [`focus_next_of`].
pub open spec fn focus_prev_of(s: UiState) -> Focussable {
    match s.focus {
        None => Focussable::Process(0),
        Some(Focussable::Process(i)) => if i > 0 {
            Focussable::Process((i - 1) as usize)
        } else if s.debug {
            Focussable::Debug
        } else {
            Focussable::Logs
        },
        Some(Focussable::Logs) => if s.procs > 0 {
            Focussable::Process((s.procs - 1) as usize)
        } else if s.debug {
            Focussable::Debug
        } else {
            Focussable::Logs
        },
        Some(Focussable::Debug) => Focussable::Logs,
    }
}

impl UiState {
    /// Advance the render-tick counter; every two seconds it wraps to
    /// zero and the reference time is refreshed to `now`.
    pub fn tick(&mut self, now: u64)
        ensures
            old(self).tick >= 2 * TICK_FPS ==> *final(self) == (UiState {
                tick: 0,
                time: now,
                ..*old(self)
            }),
            old(self).tick < 2 * TICK_FPS ==> *final(self) == (UiState {
                tick: (old(self).tick + 1) as u64,
                ..*old(self)
            }),
    {
        if self.tick >= 2 * TICK_FPS {
            self.tick = 0;
            self.time = now;
        } else {
            self.tick = self.tick + 1;
        }
    }

    /// The current frame of an eight-step throbber that cycles once per
    /// second.
    pub fn step_of_8_in_1_second(&self) -> (r: usize)
        requires
            self.tick <= u64::MAX / 8,
        ensures
            r == (self.tick * 8 / (TICK_FPS as int)) % 8,
    {
        ((self.tick * 8 / TICK_FPS) % 8) as usize
    }

    /// The current frame of a four-step throbber that cycles once per
    /// second.
    pub fn step_of_4_in_1_second(&self) -> (r: usize)
        requires
            self.tick <= u64::MAX / 4,
        ensures
            r == (self.tick * 4 / (TICK_FPS as int)) % 4,
    {
        ((self.tick * 4 / TICK_FPS) % 4) as usize
    }

    /// The current frame of an eight-step throbber that cycles once every
    /// two seconds.
    pub fn step_of_8_in_2_second(&self) -> (r: usize)
        requires
            self.tick <= u64::MAX / 4,
        ensures
            r == (self.tick * 4 / (TICK_FPS as int)) % 8,
    {
        ((self.tick * 4 / TICK_FPS) % 8) as usize
    }

    /// Show or hide the debug panel; hiding it moves a focus that rested
    /// there to the first process card.
    pub fn toggle_debug(&mut self)
        ensures
            old(self).debug && old(self).focus == Some(Focussable::Debug) ==> *final(self) == (
            UiState { debug: false, focus: Some(Focussable::Process(0)), ..*old(self) }),
            !(old(self).debug && old(self).focus == Some(Focussable::Debug)) ==> *final(self) == (
            UiState { debug: !old(self).debug, ..*old(self) }),
    {
        self.debug = !self.debug;
        if !self.debug {
            if let Some(Focussable::Debug) = &self.focus {
                self.focus = Some(Focussable::Process(0));
            }
        }
    }

    /// Move the focus forward along the ring.
    pub fn focus_next(&mut self)
        ensures
            *final(self) == (UiState { focus: Some(focus_next_of(*old(self))), ..*old(self) }),
    {
        self.focus = match &self.focus {
            None => Some(Focussable::Process(0)),
            Some(Focussable::Process(i)) => {
                if self.procs > 0 && *i < self.procs - 1 {
                    Some(Focussable::Process(*i + 1))
                } else {
                    Some(Focussable::Logs)
                }
            },
            Some(Focussable::Logs) => {
                if self.debug {
                    Some(Focussable::Debug)
                } else {
                    Some(Focussable::Process(0))
                }
            },
            Some(Focussable::Debug) => Some(Focussable::Process(0)),
        };
    }

    /// Move the focus backward along the ring.
    pub fn focus_prev(&mut self)
        ensures
            *final(self) == (UiState { focus: Some(focus_prev_of(*old(self))), ..*old(self) }),
    {
        self.focus = match &self.focus {
            None => Some(Focussable::Process(0)),
            Some(Focussable::Process(i)) => {
                if *i > 0 {
                    Some(Focussable::Process(*i - 1))
                } else if self.debug {
                    Some(Focussable::Debug)
                } else {
                    Some(Focussable::Logs)
                }
            },
            Some(Focussable::Logs) => {
                if self.procs > 0 {
                    Some(Focussable::Process(self.procs - 1))
                } else if self.debug {
                    Some(Focussable::Debug)
                } else {
                    Some(Focussable::Logs)
                }
            },
            Some(Focussable::Debug) => Some(Focussable::Logs),
        };
    }

    /// Record how many processes are shown; a focus that points past the
    /// end moves to the last card, or to the logs when none are left.
    pub fn update_procs(&mut self, count: usize)
        ensures
            final(self).procs == count,
            ({
                match old(self).focus {
                    Some(Focussable::Process(idx)) => if idx >= count {
                        *final(self) == (UiState {
                            procs: count,
                            focus: Some(
                                if count == 0 {
                                    Focussable::Logs
                                } else {
                                    Focussable::Process((count - 1) as usize)
                                },
                            ),
                            ..*old(self)
                        })
                    } else {
                        *final(self) == (UiState { procs: count, ..*old(self) })
                    },
                    _ => *final(self) == (UiState { procs: count, ..*old(self) }),
                }
            }),
    {
        self.procs = count;
        if let Some(Focussable::Process(idx)) = &self.focus {
            if *idx >= self.procs {
                self.focus = Some(
                    if self.procs == 0 {
                        Focussable::Logs
                    } else {
                        Focussable::Process(self.procs - 1)
                    },
                );
            }
        }
    }

    /// Switch between the dashboard and the spotlight view.
    pub fn toggle_spotlight(&mut self)
        ensures
            old(self).mode == Mode::Spotlight ==> *final(self) == (UiState {
                mode: Mode::Dashboard,
                ..*old(self)
            }),
            old(self).mode != Mode::Spotlight ==> *final(self) == (UiState {
                mode: Mode::Spotlight,
                ..*old(self)
            }),
    {
        if self.mode == Mode::Spotlight {
            self.mode = Mode::Dashboard;
        } else {
            self.mode = Mode::Spotlight;
        }
    }
}

} // verus!
