//! The process manager: the sole owner and mutator of the process
//! collection. It spawns processes for definitions, distributes fresh stat
//! samples, schedules and performs restarts under each process's policy,
//! and records observed deaths.
//!
//! All clock readings and OS-level stat queries are the embedder's job:
//! every operation takes the current time, and `tick` takes the batch of
//! per-pid readings, as plain values.

use vstd::prelude::*;

use crate::proc::process::{
    intent_ok, stats_frame_unchanged, ExitStatus, Named, Process, ProcessConfig, ProcessRestart,
    ProcessState,
};
use crate::proc::stats::{stats_max_after, ProcessStats, StatSample};
use crate::proc::command::built_command;
use crate::proc::ProcError;

verus! {

/// `i` is the first index in `procs` whose process carries `name`.
pub open spec fn first_named(procs: Seq<Process>, name: Seq<char>, i: int) -> bool {
    &&& 0 <= i < procs.len()
    &&& procs[i].name@ == name
    &&& forall|j: int| 0 <= j < i ==> procs[j].name@ != name
}

/// `i` is the first index in `procs` whose process has incarnation `id`.
pub open spec fn first_with_incarnation(procs: Seq<Process>, id: u64, i: int) -> bool {
    &&& 0 <= i < procs.len()
    &&& procs[i].incarnation == id
    &&& forall|j: int| 0 <= j < i ==> procs[j].incarnation != id
}

/// The time an automatic restart is scheduled for: `cooloff` seconds after
/// `now`, saturating at the end of representable time.
pub open spec fn restart_time(now: u64, cooloff: u64) -> u64 {
    if now + cooloff * 1000 > u64::MAX {
        u64::MAX
    } else {
        (now + cooloff * 1000) as u64
    }
}

/// The process after its death is recorded: `Stopped` with the observed
/// status, carrying a restart appointment exactly when the policy is
/// enabled and the restart count is below its maximum.
pub open spec fn stopped(p: Process, status: ExitStatus, now: u64) -> Process {
    Process {
        state: ProcessState::Stopped(
            if p.restart_policy.enabled && p.restarts < p.restart_policy.max_restarts {
                ProcessRestart::RestartAt(restart_time(now, p.restart_policy.cooloff))
            } else {
                ProcessRestart::NoRestart
            },
            status,
        ),
        last_stop: Some(now),
        ..p
    }
}

/// The process after an automatic restart: one more restart on the
/// counter and a fresh incarnation beginning.
pub open spec fn restarted(p: Process, id: u64, now: u64) -> Process {
    Process {
        restarts: (p.restarts + 1) as u32,
        incarnation: id,
        last_start: Some(now),
        state: ProcessState::Starting,
        closer: true,
        pid: None,
        ..p
    }
}

/// The first reading for `pid` in a batch of per-pid samples.
pub open spec fn find_sample(samples: Seq<(u32, StatSample)>, pid: u32) -> Option<StatSample>
    decreases samples.len(),
{
    if samples.len() == 0 {
        None
    } else if samples[0].0 == pid {
        Some(samples[0].1)
    } else {
        find_sample(samples.drop_first(), pid)
    }
}

/// The reading that a tick delivers to a process: the first one for its
/// pid, or nothing when it has no pid or the batch holds none for it.
pub open spec fn sample_for(p: Process, samples: Seq<(u32, StatSample)>) -> Option<StatSample> {
    match p.pid {
        Some(pid) => find_sample(samples, pid),
        None => None,
    }
}

/// Whether a process holds a restart appointment that has come due.
pub open spec fn due_restart(p: Process, now: u64) -> bool {
    match p.state {
        ProcessState::Stopped(ProcessRestart::RestartAt(t), _) => t <= now,
        _ => false,
    }
}

/// Whether a tick respawns this process: its restart appointment has come
/// due and no fresh reading flips it back to `Running` first.
pub open spec fn tick_due(p: Process, samples: Seq<(u32, StatSample)>, now: u64) -> bool {
    sample_for(p, samples) is None && due_restart(p, now)
}

/// How many of these processes a tick respawns.
pub open spec fn due_count(procs: Seq<Process>, samples: Seq<(u32, StatSample)>, now: u64) -> int
    decreases procs.len(),
{
    if procs.len() == 0 {
        0
    } else {
        due_count(procs.drop_last(), samples, now) + if tick_due(
            procs.last(),
            samples,
            now,
        ) {
            1int
        } else {
            0int
        }
    }
}

proof fn lemma_due_count_bound(procs: Seq<Process>, samples: Seq<(u32, StatSample)>, now: u64)
    ensures
        0 <= due_count(procs, samples, now) <= procs.len(),
    decreases procs.len(),
{
    if procs.len() > 0 {
        lemma_due_count_bound(procs.drop_last(), samples, now);
    }
}

/// How the stat-distribution half of a tick treats one process: the first
/// reading for its pid is appended (and flips it to `Running`); a process
/// without a pid or without a reading is untouched.
pub open spec fn assign_step(
    p: Process,
    q: Process,
    samples: Seq<(u32, StatSample)>,
    now: u64,
) -> bool {
    match sample_for(p, samples) {
        Some(s) => {
            let st = ProcessStats {
                timestamp: now,
                cpu_percent: s.cpu_percent,
                memory_mb: s.memory_mb,
                uptime: s.uptime,
            };
            &&& q.stats@ == p.stats@.push(st)
            &&& q.stats_max == stats_max_after(p.stats_max, st)
            &&& q.state is Running
            &&& stats_frame_unchanged(p, q)
        },
        None => q == p,
    }
}

/// How one whole tick transforms one process: a delivered reading makes
/// it `Running` with the sample appended, and it is then not respawned; a
/// due restart appointment without a reading starts it afresh under `id`,
/// an incarnation it never had before; anything else is untouched.
pub open spec fn tick_transition(
    p: Process,
    q: Process,
    samples: Seq<(u32, StatSample)>,
    now: u64,
    id: u64,
) -> bool {
    if sample_for(p, samples) is Some {
        assign_step(p, q, samples, now)
    } else if due_restart(p, now) {
        q == restarted(p, id, now) && q.incarnation != p.incarnation
    } else {
        q == p
    }
}

/// The manager: the processes it owns and the counter that hands out
/// fresh incarnation ids.
#[derive(Debug)]
pub struct ProcessManager {
    pub processes: Vec<Process>,
    pub next_incarnation: u64,
}

impl ProcessManager {
    /// Well-formedness: every incarnation ever handed out is below the
    /// counter, and every restart appointment respects its policy.
    pub open spec fn wf(&self) -> bool {
        &&& self.next_incarnation >= 1
        &&& forall|i: int|
            0 <= i < self.processes@.len() ==> (#[trigger] self.processes@[i]).incarnation
                < self.next_incarnation
        &&& forall|i: int| 0 <= i < self.processes@.len() ==> intent_ok(#[trigger] self.processes@[i])
    }

    /// An empty manager. The embedder arranges the periodic tick and the
    /// event plumbing around it.
    pub fn new() -> (r: ProcessManager)
        ensures
            r.processes@.len() == 0,
            r.next_incarnation == 1,
            r.wf(),
    {
        ProcessManager { processes: Vec::new(), next_incarnation: 1 }
    }

    /// The index of the first process with this name.
    fn find(&self, name: &str) -> (r: Option<usize>)
        ensures
            match r {
                Some(i) => first_named(self.processes@, name@, i as int),
                None => forall|j: int|
                    0 <= j < self.processes@.len() ==> self.processes@[j].name@ != name@,
            },
    {
        let mut i: usize = 0;
        while i < self.processes.len()
            invariant
                i <= self.processes@.len(),
                forall|j: int| 0 <= j < i ==> self.processes@[j].name@ != name@,
            decreases self.processes@.len() - i,
        {
            if crate::text::str_eq(self.processes[i].name.as_str(), name) {
                assert(self.processes@[i as int].name@ == name@);
                return Some(i);
            }
            i += 1;
        }
        None
    }

    /// Begin a new incarnation of the first process with this name: hand
    /// it a fresh incarnation id and mark it `Starting`. The embedder then
    /// starts the OS process from its `cmd` and reports the pid with
    /// [`Self::set_pid`]. Fails with `NotFound` when no process carries
    /// the name, changing nothing.
    fn spawn(&mut self, name: &str, now: u64) -> (r: Result<u64, ProcError>)
        requires
            old(self).wf(),
            old(self).next_incarnation < u64::MAX,
        ensures
            final(self).wf(),
            final(self).processes@.len() == old(self).processes@.len(),
            match r {
                Ok(id) => {
                    &&& id == old(self).next_incarnation
                    &&& final(self).next_incarnation == old(self).next_incarnation + 1
                    &&& (exists|i: int| first_named(old(self).processes@, name@, i))
                    &&& (forall|i: int|
                        first_named(old(self).processes@, name@, i) ==> final(self).processes@
                            == old(self).processes@.update(
                            i,
                            Process {
                                incarnation: id,
                                last_start: Some(now),
                                state: ProcessState::Starting,
                                closer: true,
                                pid: None,
                                ..old(self).processes@[i]
                            },
                        ))
                },
                Err(e) => {
                    &&& e == ProcError::NotFound
                    &&& (forall|j: int|
                        0 <= j < old(self).processes@.len() ==> old(
                            self,
                        ).processes@[j].name@ != name@)
                    &&& *final(self) == *old(self)
                },
            },
    {
        let i = match self.find(name) {
            Some(i) => i,
            None => {
                return Err(ProcError::NotFound);
            },
        };
        let id = self.next_incarnation;
        self.next_incarnation = self.next_incarnation + 1;
        let ghost pre = self.processes@;
        let p = proc_at(&mut self.processes, i);
        p.spawn(id, now);
        proof {
            assert(self.processes@ =~= pre.update(
                i as int,
                Process {
                    incarnation: id,
                    last_start: Some(now),
                    state: ProcessState::Starting,
                    closer: true,
                    pid: None,
                    ..pre[i as int]
                },
            ));
        }
        Ok(id)
    }

    /// Record the OS pid of the incarnation the embedder just started.
    /// Touches nothing else; does nothing when the incarnation is no
    /// longer current.
    pub fn set_pid(&mut self, incarnation: u64, pid: u32)
        requires
            old(self).wf(),
        ensures
            final(self).wf(),
            final(self).next_incarnation == old(self).next_incarnation,
            forall|i: int|
                first_with_incarnation(old(self).processes@, incarnation, i)
                    ==> final(self).processes@ == old(self).processes@.update(
                    i,
                    Process { pid: Some(pid), ..old(self).processes@[i] },
                ),
            (forall|j: int|
                0 <= j < old(self).processes@.len() ==> old(self).processes@[j].incarnation
                    != incarnation) ==> *final(self) == *old(self),
    {
        let mut i: usize = 0;
        while i < self.processes.len()
            invariant
                i <= self.processes@.len(),
                *self == *old(self),
                self.wf(),
                forall|j: int| 0 <= j < i ==> self.processes@[j].incarnation != incarnation,
            decreases self.processes@.len() - i,
        {
            if self.processes[i].incarnation == incarnation {
                let ghost pre = self.processes@;
                let p = proc_at(&mut self.processes, i);
                p.pid = Some(pid);
                proof {
                    assert(first_with_incarnation(pre, incarnation, i as int));
                    assert(self.processes@ =~= pre.update(
                        i as int,
                        Process { pid: Some(pid), ..pre[i as int] },
                    ));
                }
                return ;
            }
            i += 1;
        }
    }

    /// Define and start a new process for the given definition. The caller
    /// must not reuse a live name: diffing the configuration is the
    /// caller's responsibility. Fails exactly when the definition's
    /// command cannot be constructed, changing nothing.
    pub fn upsert<T: Named + ProcessConfig>(&mut self, svc: &T, now: u64) -> (r: Result<
        u64,
        ProcError,
    >)
        requires
            old(self).wf(),
            old(self).next_incarnation < u64::MAX,
            forall|j: int|
                0 <= j < old(self).processes@.len() ==> old(self).processes@[j].name@
                    != svc.spec_name(),
        ensures
            final(self).wf(),
            ({
                let b = built_command(
                    svc.spec_image(),
                    svc.spec_command(),
                    svc.spec_directory(),
                    svc.spec_environment(),
                );
                match r {
                    Ok(id) => {
                        &&& b is Ok
                        &&& id == old(self).next_incarnation
                        &&& final(self).next_incarnation == old(self).next_incarnation + 1
                        &&& final(self).processes@.len() == old(self).processes@.len() + 1
                        &&& (forall|j: int|
                            0 <= j < old(self).processes@.len() ==> final(self).processes@[j] == old(
                                self,
                            ).processes@[j])
                        &&& ({
                            let p = final(self).processes@.last();
                            &&& p.name@ == svc.spec_name()
                            &&& p.display@ == svc.spec_display()
                            &&& Ok::<_, ProcError>(p.cmd@) == b
                            &&& p.incarnation == id
                            &&& p.state is Starting
                            &&& p.closer
                            &&& p.restarts == 0
                            &&& p.restart_policy == svc.spec_restart_policy()
                            &&& p.pid is None
                            &&& p.last_start == Some(now)
                            &&& p.last_stop is None
                            &&& p.stats@.len() == 0
                        })
                    },
                    Err(e) => {
                        &&& b == Err::<crate::proc::command::CommandModel, ProcError>(e)
                        &&& *final(self) == *old(self)
                    },
                }
            }),
    {
        let p = match Process::new(svc) {
            Ok(p) => p,
            Err(e) => {
                return Err(e);
            },
        };
        let name = svc.name();
        self.processes.push(p);
        let r = self.spawn(name.as_str(), now);
        proof {
            let procs = self.processes@;
            if r is Ok {
                assert(forall|j: int|
                    0 <= j < procs.len() - 1 ==> procs[j] == old(self).processes@[j]);
            }
        }
        r
    }

    /// Record an observed death. When the incarnation is still current for
    /// some process, that process becomes `Stopped` with the given status,
    /// scheduled for restart exactly when its policy allows another
    /// attempt; an unknown incarnation (already superseded) changes
    /// nothing.
    pub fn process_died(&mut self, id: u64, status: ExitStatus, now: u64)
        requires
            old(self).wf(),
        ensures
            final(self).wf(),
            final(self).next_incarnation == old(self).next_incarnation,
            forall|i: int|
                first_with_incarnation(old(self).processes@, id, i) ==> final(self).processes@
                    == old(self).processes@.update(i, stopped(old(self).processes@[i], status, now)),
            (forall|j: int|
                0 <= j < old(self).processes@.len() ==> old(self).processes@[j].incarnation != id)
                ==> *final(self) == *old(self),
    {
        let mut i: usize = 0;
        while i < self.processes.len()
            invariant
                i <= self.processes@.len(),
                *self == *old(self),
                self.wf(),
                forall|j: int| 0 <= j < i ==> self.processes@[j].incarnation != id,
            decreases self.processes@.len() - i,
        {
            if self.processes[i].incarnation == id {
                let ghost pre = self.processes@;
                let p = proc_at(&mut self.processes, i);
                let enabled = p.restart_policy.enabled;
                let restarts = p.restarts;
                let max_restarts = p.restart_policy.max_restarts;
                if enabled && restarts < max_restarts {
                    let cooloff_ms = match p.restart_policy.cooloff.checked_mul(1000) {
                        Some(ms) => ms,
                        None => u64::MAX,
                    };
                    let restart_at = now.saturating_add(cooloff_ms);
                    assert(restart_at == restart_time(now, p.restart_policy.cooloff));
                    p.state = ProcessState::Stopped(ProcessRestart::RestartAt(restart_at), status);
                } else {
                    p.state = ProcessState::Stopped(ProcessRestart::NoRestart, status);
                }
                p.last_stop = Some(now);
                proof {
                    assert(first_with_incarnation(pre, id, i as int));
                    assert(self.processes@ =~= pre.update(
                        i as int,
                        stopped(pre[i as int], status, now),
                    ));
                }
                return ;
            }
            i += 1;
        }
    }

    /// Request termination of the process with this name. On success the
    /// process merely gives up its termination-request channel end — its
    /// state changes only when the death is observed. An unknown name is
    /// refused with `NotFound`, and nothing changes.
    pub fn remove(&mut self, name: &str) -> (r: Result<(), ProcError>)
        requires
            old(self).wf(),
        ensures
            final(self).wf(),
            final(self).next_incarnation == old(self).next_incarnation,
            match r {
                Ok(_) => (exists|i: int| first_named(old(self).processes@, name@, i))
                    && (forall|i: int|
                    first_named(old(self).processes@, name@, i) ==> final(self).processes@ == old(
                        self,
                    ).processes@.update(i, Process { closer: false, ..old(self).processes@[i] })),
                Err(e) => {
                    &&& e == ProcError::NotFound
                    &&& (forall|j: int|
                        0 <= j < old(self).processes@.len() ==> old(
                            self,
                        ).processes@[j].name@ != name@)
                    &&& *final(self) == *old(self)
                },
            },
    {
        let i = match self.find(name) {
            Some(i) => i,
            None => {
                return Err(ProcError::NotFound);
            },
        };
        let ghost pre = self.processes@;
        let p = proc_at(&mut self.processes, i);
        p.kill();
        proof {
            assert(self.processes@ =~= pre.update(
                i as int,
                Process { closer: false, ..pre[i as int] },
            ));
        }
        Ok(())
    }

    /// The periodic maintenance pass. First every process with a pid gets
    /// the batch's first reading for that pid appended (which marks it
    /// `Running`); then, in collection order, every process whose restart
    /// appointment has come due — and that no reading just revived — is
    /// respawned once, under a fresh incarnation id it never had before.
    /// Returns the fresh incarnation ids in respawn order; the embedder
    /// starts an OS process for each from the process's `cmd` and reports
    /// the pids with [`Self::set_pid`].
    pub fn tick(&mut self, now: u64, samples: &Vec<(u32, StatSample)>) -> (r: Vec<u64>)
        requires
            old(self).wf(),
            old(self).next_incarnation + old(self).processes@.len() <= u64::MAX,
        ensures
            final(self).wf(),
            final(self).processes@.len() == old(self).processes@.len(),
            final(self).next_incarnation == old(self).next_incarnation + due_count(
                old(self).processes@,
                samples@,
                now,
            ),
            r@.len() == due_count(old(self).processes@, samples@, now),
            forall|k: int| 0 <= k < r@.len() ==> r@[k] == old(self).next_incarnation + k,
            forall|i: int|
                0 <= i < old(self).processes@.len() ==> tick_transition(
                    old(self).processes@[i],
                    final(self).processes@[i],
                    samples@,
                    now,
                    (old(self).next_incarnation + due_count(
                        old(self).processes@.take(i),
                        samples@,
                        now,
                    )) as u64,
                ),
    {
        let ghost procs0 = self.processes@;
        let mut i: usize = 0;
        while i < self.processes.len()
            invariant
                i <= self.processes@.len(),
                procs0 == old(self).processes@,
                old(self).wf(),
                self.wf(),
                self.processes@.len() == procs0.len(),
                self.next_incarnation == old(self).next_incarnation,
                forall|j: int| i <= j < procs0.len() ==> self.processes@[j] == procs0[j],
                forall|j: int|
                    0 <= j < i ==> assign_step(procs0[j], #[trigger] self.processes@[j], samples@, now),
            decreases self.processes@.len() - i,
        {
            let pid_opt = self.processes[i].pid;
            if let Some(pid) = pid_opt {
                if let Some(s) = lookup_sample(samples, pid) {
                    let st = ProcessStats::new(now, &s);
                    let p = proc_at(&mut self.processes, i);
                    p.push_stats(st);
                }
            }
            i += 1;
        }
        let ghost mid = self.processes@;
        let mut r: Vec<u64> = Vec::new();
        proof {
            assert(procs0.take(0) =~= Seq::<Process>::empty());
        }
        let mut k: usize = 0;
        while k < self.processes.len()
            invariant
                k <= self.processes@.len(),
                procs0 == old(self).processes@,
                old(self).wf(),
                self.wf(),
                procs0.len() == mid.len(),
                self.processes@.len() == procs0.len(),
                old(self).next_incarnation + procs0.len() <= u64::MAX,
                forall|j: int|
                    0 <= j < procs0.len() ==> assign_step(procs0[j], #[trigger] mid[j], samples@, now),
                forall|j: int| k <= j < procs0.len() ==> self.processes@[j] == mid[j],
                forall|j: int|
                    0 <= j < k ==> tick_transition(
                        procs0[j],
                        #[trigger] self.processes@[j],
                        samples@,
                        now,
                        (old(self).next_incarnation + due_count(
                            procs0.take(j),
                            samples@,
                            now,
                        )) as u64,
                    ),
                self.next_incarnation == old(self).next_incarnation + due_count(
                    procs0.take(k as int),
                    samples@,
                    now,
                ),
                r@.len() == due_count(procs0.take(k as int), samples@, now),
                forall|j: int| 0 <= j < r@.len() ==> r@[j] == old(self).next_incarnation + j,
            decreases self.processes@.len() - k,
        {
            proof {
                lemma_due_count_bound(procs0.take(k as int), samples@, now);
                lemma_due_count_bound(procs0.take(k + 1), samples@, now);
                assert(procs0.take(k + 1).drop_last() =~= procs0.take(k as int));
                assert(procs0.take(k + 1).last() == procs0[k as int]);
            }
            let due = match self.processes[k].state {
                ProcessState::Stopped(ProcessRestart::RestartAt(t), _) => t <= now,
                _ => false,
            };
            proof {
                assert(self.processes@[k as int] == mid[k as int]);
                assert(assign_step(procs0[k as int], mid[k as int], samples@, now));
                assert(due == tick_due(procs0[k as int], samples@, now));
            }
            if due {
                proof {
                    assert(mid[k as int] == procs0[k as int]);
                    assert(intent_ok(self.processes@[k as int]));
                }
                let id = self.next_incarnation;
                self.next_incarnation = self.next_incarnation + 1;
                let ghost pre = self.processes@;
                let p = proc_at(&mut self.processes, k);
                p.restarts = p.restarts + 1;
                p.spawn(id, now);
                r.push(id);
                proof {
                    assert(self.processes@ =~= pre.update(k as int, self.processes@[k as int]));
                    assert(self.processes@[k as int] == restarted(procs0[k as int], id, now));
                }
            }
            k += 1;
        }
        proof {
            assert(procs0.take(procs0.len() as int) =~= procs0);
        }
        r
    }
}

/// The first reading for `pid` in the batch, as [`find_sample`] gives it.
fn lookup_sample(samples: &Vec<(u32, StatSample)>, pid: u32) -> (r: Option<StatSample>)
    ensures
        r == find_sample(samples@, pid),
{
    proof {
        assert(samples@.skip(0) =~= samples@);
    }
    let mut j: usize = 0;
    while j < samples.len()
        invariant
            j <= samples@.len(),
            find_sample(samples@, pid) == find_sample(samples@.skip(j as int), pid),
        decreases samples@.len() - j,
    {
        let entry = samples[j];
        proof {
            assert(samples@.skip(j as int)[0] == samples@[j as int]);
            assert(samples@.skip(j as int).drop_first() =~= samples@.skip(j + 1));
        }
        if entry.0 == pid {
            return Some(entry.1);
        }
        j += 1;
    }
    proof {
        assert(samples@.skip(samples@.len() as int) =~= Seq::<(u32, StatSample)>::empty());
    }
    None
}

/// A mutable borrow of one element of the process collection.
fn proc_at<'a>(v: &'a mut Vec<Process>, i: usize) -> (p: &'a mut Process)
    requires
        i < old(v).len(),
    ensures
        *p == old(v)@[i as int],
        final(v)@ == old(v)@.update(i as int, *final(p)),
{
    &mut v[i]
}

} // verus!
