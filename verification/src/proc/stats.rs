//! Resource-usage samples for supervised processes.
//!
//! All measurements are plain integers: timestamps count elapsed
//! milliseconds since an epoch the embedder chose, CPU and memory are
//! fixed-point values at the embedder's scale, and uptime counts seconds.

use vstd::prelude::*;

verus! {

/// One OS-level resource reading for a live process, without a timestamp.
#[derive(Debug, Clone, Copy, PartialEq, Eq, Structural)]
pub struct StatSample {
    pub cpu_percent: u64,
    pub memory_mb: u64,
    pub uptime: u64,
}

/// One timestamped resource-usage sample in a process's history.
#[derive(Debug, Clone, Copy, PartialEq, Eq, Structural)]
pub struct ProcessStats {
    pub timestamp: u64,
    pub cpu_percent: u64,
    pub memory_mb: u64,
    pub uptime: u64,
}

/// The running maximum after one more sample arrives: every measured field
/// is the pointwise maximum, and the timestamp is the new sample's.
pub open spec fn stats_max_after(m: ProcessStats, s: ProcessStats) -> ProcessStats {
    ProcessStats {
        timestamp: s.timestamp,
        cpu_percent: if s.cpu_percent > m.cpu_percent {
            s.cpu_percent
        } else {
            m.cpu_percent
        },
        memory_mb: if s.memory_mb > m.memory_mb {
            s.memory_mb
        } else {
            m.memory_mb
        },
        uptime: if s.uptime > m.uptime {
            s.uptime
        } else {
            m.uptime
        },
    }
}

/// Law: folding two samples into a running maximum, one after the other,
/// never decreases any field of it, as long as the samples arrive in
/// timestamp order.
pub proof fn lemma_stats_max_monotone(m: ProcessStats, s1: ProcessStats, s2: ProcessStats)
    requires
        s1.timestamp <= s2.timestamp,
    ensures
        stats_max_after(stats_max_after(m, s1), s2).cpu_percent >= stats_max_after(
            m,
            s1,
        ).cpu_percent,
        stats_max_after(stats_max_after(m, s1), s2).memory_mb >= stats_max_after(m, s1).memory_mb,
        stats_max_after(stats_max_after(m, s1), s2).uptime >= stats_max_after(m, s1).uptime,
        stats_max_after(stats_max_after(m, s1), s2).timestamp >= stats_max_after(m, s1).timestamp,
{
}

impl ProcessStats {
    /// Stamp an OS reading with the time it was taken.
    pub fn new(timestamp: u64, info: &StatSample) -> (r: ProcessStats)
        ensures
            r == (ProcessStats {
                timestamp,
                cpu_percent: info.cpu_percent,
                memory_mb: info.memory_mb,
                uptime: info.uptime,
            }),
    {
        ProcessStats {
            timestamp,
            cpu_percent: info.cpu_percent,
            memory_mb: info.memory_mb,
            uptime: info.uptime,
        }
    }
}

impl Default for ProcessStats {
    /// The all-zero reading, used before any sample has been observed.
    fn default() -> (r: ProcessStats)
        ensures
            r == (ProcessStats { timestamp: 0, cpu_percent: 0, memory_mb: 0, uptime: 0 }),
    {
        ProcessStats { timestamp: 0, cpu_percent: 0, memory_mb: 0, uptime: 0 }
    }
}

} // verus!
