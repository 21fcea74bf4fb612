//! The process lifecycle unit: one supervised process, its spawn
//! specification, lifecycle state, restart bookkeeping and stat history.

use vstd::prelude::*;

use crate::config::{RestartPolicy, Service, Stub};
use crate::proc::command::{build_command, built_command, CommandModel, CommandSpec};
use crate::proc::stats::{stats_max_after, ProcessStats};
use crate::proc::ProcError;

verus! {

/// A definition that carries a unique name and an operator-facing label.
pub trait Named {
    /// The unique key of this definition.
    spec fn spec_name(&self) -> Seq<char>;

    /// The operator-facing label: the display name, or the name itself when
    /// none is set.
    spec fn spec_display(&self) -> Seq<char>;

    fn name(&self) -> (r: String)
        ensures
            r@ == self.spec_name(),
    ;

    fn display(&self) -> (r: String)
        ensures
            r@ == self.spec_display(),
    ;
}

/// A definition that can be spawned: an optional container image, an
/// optional command line, an optional working directory, an environment
/// and a restart policy.
pub trait ProcessConfig {
    spec fn spec_image(&self) -> Option<Seq<char>>;

    spec fn spec_command(&self) -> Option<Seq<char>>;

    spec fn spec_directory(&self) -> Option<Seq<char>>;

    spec fn spec_environment(&self) -> Seq<(Seq<char>, Seq<char>)>;

    spec fn spec_restart_policy(&self) -> RestartPolicy;

    fn image(&self) -> (r: Option<String>)
        ensures
            r.deep_view() == self.spec_image(),
    ;

    fn command(&self) -> (r: Option<String>)
        ensures
            r.deep_view() == self.spec_command(),
    ;

    fn directory(&self) -> (r: Option<String>)
        ensures
            r.deep_view() == self.spec_directory(),
    ;

    fn environment(&self) -> (r: Vec<(String, String)>)
        ensures
            r.deep_view() == self.spec_environment(),
    ;

    fn restart_policy(&self) -> (r: RestartPolicy)
        ensures
            r == self.spec_restart_policy(),
    ;
}

impl Named for Service {
    open spec fn spec_name(&self) -> Seq<char> {
        self.name@
    }

    open spec fn spec_display(&self) -> Seq<char> {
        match self.display {
            Some(d) => d@,
            None => self.name@,
        }
    }

    fn name(&self) -> (r: String) {
        self.name.clone()
    }

    fn display(&self) -> (r: String) {
        match &self.display {
            Some(d) => d.clone(),
            None => self.name.clone(),
        }
    }
}

impl Named for Stub {
    open spec fn spec_name(&self) -> Seq<char> {
        self.name@
    }

    open spec fn spec_display(&self) -> Seq<char> {
        match self.display {
            Some(d) => d@,
            None => self.name@,
        }
    }

    fn name(&self) -> (r: String) {
        self.name.clone()
    }

    fn display(&self) -> (r: String) {
        match &self.display {
            Some(d) => d.clone(),
            None => self.name.clone(),
        }
    }
}

impl ProcessConfig for Service {
    open spec fn spec_image(&self) -> Option<Seq<char>> {
        self.image.deep_view()
    }

    open spec fn spec_command(&self) -> Option<Seq<char>> {
        self.command.deep_view()
    }

    open spec fn spec_directory(&self) -> Option<Seq<char>> {
        self.directory.deep_view()
    }

    open spec fn spec_environment(&self) -> Seq<(Seq<char>, Seq<char>)> {
        self.environment.deep_view()
    }

    open spec fn spec_restart_policy(&self) -> RestartPolicy {
        self.restart
    }

    fn image(&self) -> (r: Option<String>) {
        clone_opt_string(&self.image)
    }

    fn command(&self) -> (r: Option<String>) {
        clone_opt_string(&self.command)
    }

    fn directory(&self) -> (r: Option<String>) {
        clone_opt_string(&self.directory)
    }

    fn environment(&self) -> (r: Vec<(String, String)>) {
        clone_env(&self.environment)
    }

    fn restart_policy(&self) -> (r: RestartPolicy) {
        self.restart
    }
}

impl ProcessConfig for Stub {
    open spec fn spec_image(&self) -> Option<Seq<char>> {
        self.image.deep_view()
    }

    open spec fn spec_command(&self) -> Option<Seq<char>> {
        self.command.deep_view()
    }

    open spec fn spec_directory(&self) -> Option<Seq<char>> {
        self.directory.deep_view()
    }

    open spec fn spec_environment(&self) -> Seq<(Seq<char>, Seq<char>)> {
        self.environment.deep_view()
    }

    /// A stub has no restart policy of its own: restarts stay disabled.
    open spec fn spec_restart_policy(&self) -> RestartPolicy {
        RestartPolicy { enabled: false, cooloff: 0, max_restarts: 0 }
    }

    fn image(&self) -> (r: Option<String>) {
        clone_opt_string(&self.image)
    }

    fn command(&self) -> (r: Option<String>) {
        clone_opt_string(&self.command)
    }

    fn directory(&self) -> (r: Option<String>) {
        clone_opt_string(&self.directory)
    }

    fn environment(&self) -> (r: Vec<(String, String)>) {
        clone_env(&self.environment)
    }

    fn restart_policy(&self) -> (r: RestartPolicy) {
        RestartPolicy { enabled: false, cooloff: 0, max_restarts: 0 }
    }
}

fn clone_opt_string(o: &Option<String>) -> (r: Option<String>)
    ensures
        r.deep_view() == o.deep_view(),
{
    match o {
        Some(s) => Some(s.clone()),
        None => None,
    }
}

fn clone_env(env: &Vec<(String, String)>) -> (r: Vec<(String, String)>)
    ensures
        r.deep_view() == env.deep_view(),
{
    let mut out: Vec<(String, String)> = Vec::new();
    proof {
        assert(out.deep_view() =~~= env.deep_view().take(0));
    }
    let mut i: usize = 0;
    while i < env.len()
        invariant
            i <= env@.len(),
            out@.len() == i,
            env.deep_view().len() == env@.len(),
            out.deep_view() == env.deep_view().take(i as int),
        decreases env@.len() - i,
    {
        let kv = &env[i];
        out.push((kv.0.clone(), kv.1.clone()));
        proof {
            let dv = env.deep_view();
            assert(out.deep_view().len() == i + 1);
            assert(forall|j: int| 0 <= j < i ==> out.deep_view()[j] == dv.take(i as int)[j]);
            assert(out.deep_view()[i as int] == dv[i as int]);
            assert(out.deep_view() =~~= dv.take(i + 1));
        }
        i += 1;
    }
    proof {
        assert(env.deep_view().take(env@.len() as int) =~~= env.deep_view());
    }
    out
}

/// What exit the OS observed: a normal exit with a code, or a
/// signal-caused termination.
#[derive(Debug, Clone, Copy, PartialEq, Eq, Structural)]
pub enum ExitStatus {
    Exited(i32),
    Signaled(i32),
}

/// Whether a stopped process is scheduled to come back: never, or at a
/// given time.
#[derive(Debug, Clone, Copy, PartialEq, Eq, Structural)]
pub enum ProcessRestart {
    NoRestart,
    RestartAt(u64),
}

/// Where a process stands in its lifecycle.
#[derive(Debug, Clone, Copy, PartialEq, Eq, Structural)]
pub enum ProcessState {
    /// Spawn requested, no confirmed liveness yet.
    Starting,
    /// At least one stat sample has been observed.
    Running,
    /// Termination requested, exit not yet observed.
    Killing(ProcessRestart),
    /// Exit observed, with the restart intent and the exit status.
    Stopped(ProcessRestart, ExitStatus),
}

/// One supervised process: its spawn specification, lifecycle state,
/// restart bookkeeping and stat history. `incarnation` identifies the
/// current spawn attempt (zero before the first spawn); `closer` says
/// whether the termination-request channel end is still held, and giving
/// it up is how termination is requested.
#[derive(Debug)]
pub struct Process {
    pub name: String,
    pub display: String,
    pub incarnation: u64,
    pub cmd: CommandSpec,
    pub closer: bool,
    pub state: ProcessState,
    pub restarts: u32,
    pub restart_policy: RestartPolicy,
    pub pid: Option<u32>,
    pub last_start: Option<u64>,
    pub last_stop: Option<u64>,
    pub stats: Vec<ProcessStats>,
    pub stats_max: ProcessStats,
}

/// The restart-intent invariant: a `RestartAt` label appears only while
/// the policy is enabled and the restart count is below its maximum.
pub open spec fn intent_ok(p: Process) -> bool {
    match p.state {
        ProcessState::Stopped(ProcessRestart::RestartAt(_), _) => p.restart_policy.enabled
            && p.restarts < p.restart_policy.max_restarts,
        ProcessState::Killing(ProcessRestart::RestartAt(_)) => p.restart_policy.enabled
            && p.restarts < p.restart_policy.max_restarts,
        _ => true,
    }
}

/// The fields that a stat push leaves untouched.
pub open spec fn stats_frame_unchanged(a: Process, b: Process) -> bool {
    &&& a.name == b.name
    &&& a.display == b.display
    &&& a.incarnation == b.incarnation
    &&& a.cmd == b.cmd
    &&& a.closer == b.closer
    &&& a.restarts == b.restarts
    &&& a.restart_policy == b.restart_policy
    &&& a.pid == b.pid
    &&& a.last_start == b.last_start
    &&& a.last_stop == b.last_stop
}

impl Process {
    /// Build the process record for a definition: construct its command
    /// and start from a clean lifecycle. Fails exactly when the command
    /// cannot be constructed.
    pub fn new<T: Named + ProcessConfig>(svc: &T) -> (r: Result<Process, ProcError>)
        ensures
            ({
                let b = built_command(
                    svc.spec_image(),
                    svc.spec_command(),
                    svc.spec_directory(),
                    svc.spec_environment(),
                );
                match r {
                    Ok(p) => {
                        &&& b == Ok::<CommandModel, ProcError>(p.cmd@)
                        &&& p.name@ == svc.spec_name()
                        &&& p.display@ == svc.spec_display()
                        &&& p.incarnation == 0
                        &&& !p.closer
                        &&& p.state is Starting
                        &&& p.restarts == 0
                        &&& p.restart_policy == svc.spec_restart_policy()
                        &&& p.pid is None
                        &&& p.last_start is None
                        &&& p.last_stop is None
                        &&& p.stats@.len() == 0
                        &&& p.stats_max == (ProcessStats {
                            timestamp: 0,
                            cpu_percent: 0,
                            memory_mb: 0,
                            uptime: 0,
                        })
                    },
                    Err(e) => b == Err::<CommandModel, ProcError>(e),
                }
            }),
    {
        let cmd = match build_command(svc) {
            Ok(c) => c,
            Err(e) => {
                return Err(e);
            },
        };
        Ok(
            Process {
                name: svc.name(),
                display: svc.display(),
                incarnation: 0,
                cmd,
                closer: false,
                state: ProcessState::Starting,
                restarts: 0,
                restart_policy: svc.restart_policy(),
                pid: None,
                last_start: None,
                last_stop: None,
                stats: Vec::new(),
                stats_max: ProcessStats::default(),
            },
        )
    }

    /// Begin a new incarnation: adopt the fresh incarnation id, record the
    /// start time, mark the process `Starting`, hold a fresh
    /// termination-request channel end and forget the previous OS pid.
    /// Starting the OS process itself is the embedder's job, done with
    /// this process's `cmd`.
    pub fn spawn(&mut self, incarnation: u64, now: u64)
        ensures
            *final(self) == (Process {
                incarnation,
                last_start: Some(now),
                state: ProcessState::Starting,
                closer: true,
                pid: None,
                ..*old(self)
            }),
    {
        self.incarnation = incarnation;
        self.last_start = Some(now);
        self.state = ProcessState::Starting;
        self.closer = true;
        self.pid = None;
    }

    /// Request termination by giving up the termination-request channel
    /// end. Idempotent; does not block and does not itself change the
    /// lifecycle state — that transition happens only when the exit is
    /// observed.
    pub fn kill(&mut self)
        ensures
            *final(self) == (Process { closer: false, ..*old(self) }),
    {
        self.closer = false;
    }

    /// Append a sample, fold it into the running maximum, and take it as
    /// the liveness signal: the process is `Running`.
    pub fn push_stats(&mut self, stats: ProcessStats)
        ensures
            final(self).stats@ == old(self).stats@.push(stats),
            final(self).stats_max == stats_max_after(old(self).stats_max, stats),
            final(self).state is Running,
            stats_frame_unchanged(*old(self), *final(self)),
    {
        self.stats.push(stats);
        if stats.cpu_percent > self.stats_max.cpu_percent {
            self.stats_max.cpu_percent = stats.cpu_percent;
        }
        if stats.memory_mb > self.stats_max.memory_mb {
            self.stats_max.memory_mb = stats.memory_mb;
        }
        if stats.uptime > self.stats_max.uptime {
            self.stats_max.uptime = stats.uptime;
        }
        self.stats_max.timestamp = stats.timestamp;
        self.state = ProcessState::Running;
    }
}

} // verus!

