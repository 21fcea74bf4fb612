//! Lifecycle tests: death recording, restart scheduling, tick respawns,
//! removal, and the running stat maxima.

use procli::config::{RestartPolicy, Service};
use procli::proc::manager::ProcessManager;
use procli::proc::process::{ExitStatus, Process, ProcessRestart, ProcessState};
use procli::proc::stats::{ProcessStats, StatSample};
use procli::proc::ProcError;

fn service(name: &str, restart: RestartPolicy) -> Service {
    Service {
        name: name.to_string(),
        display: None,
        image: None,
        command: Some(format!("/bin/echo {}", name)),
        directory: None,
        environment: Vec::new(),
        dependencies: Vec::new(),
        restart,
    }
}

fn enabled_policy(cooloff: u64, max_restarts: u32) -> RestartPolicy {
    RestartPolicy { enabled: true, cooloff, max_restarts }
}

fn disabled_policy() -> RestartPolicy {
    RestartPolicy { enabled: false, cooloff: 0, max_restarts: 0 }
}

#[test]
fn died_with_enabled_policy_schedules_restart() {
    let mut mgr = ProcessManager::new();
    let id = mgr.upsert(&service("web", enabled_policy(5, 3)), 1_000).unwrap();
    mgr.process_died(id, ExitStatus::Exited(1), 2_000);
    match mgr.processes[0].state {
        ProcessState::Stopped(ProcessRestart::RestartAt(t), status) => {
            assert_eq!(t, 2_000 + 5 * 1000);
            assert_eq!(status, ExitStatus::Exited(1));
        }
        ref s => panic!("expected a scheduled restart, got {:?}", s),
    }
    assert_eq!(mgr.processes[0].last_stop, Some(2_000));
    assert_eq!(mgr.processes[0].restarts, 0);
}

#[test]
fn died_with_disabled_policy_stops_for_good() {
    let mut mgr = ProcessManager::new();
    let id = mgr.upsert(&service("web", disabled_policy()), 1_000).unwrap();
    mgr.process_died(id, ExitStatus::Exited(0), 2_000);
    match mgr.processes[0].state {
        ProcessState::Stopped(ProcessRestart::NoRestart, status) => {
            assert_eq!(status, ExitStatus::Exited(0));
        }
        ref s => panic!("expected a final stop, got {:?}", s),
    }
}

#[test]
fn died_at_max_restarts_stops_for_good() {
    let mut mgr = ProcessManager::new();
    let policy = enabled_policy(5, 2);
    let mut id = mgr.upsert(&service("web", policy), 0).unwrap();
    let mut now = 0;
    // Exhaust the two allowed restarts.
    for _ in 0..2 {
        mgr.process_died(id, ExitStatus::Exited(1), now + 1);
        let respawned = mgr.tick(now + 10_000, &Vec::new());
        assert_eq!(respawned.len(), 1);
        id = respawned[0];
        now += 10_000;
    }
    assert_eq!(mgr.processes[0].restarts, 2);
    // The next death must not schedule another restart.
    mgr.process_died(id, ExitStatus::Exited(1), now + 1);
    match mgr.processes[0].state {
        ProcessState::Stopped(ProcessRestart::NoRestart, _) => {}
        ref s => panic!("expected a final stop, got {:?}", s),
    }
    let respawned = mgr.tick(now + 20_000, &Vec::new());
    assert!(respawned.is_empty());
}

#[test]
fn tick_respects_future_restart_time() {
    let mut mgr = ProcessManager::new();
    let id = mgr.upsert(&service("web", enabled_policy(5, 3)), 0).unwrap();
    mgr.process_died(id, ExitStatus::Exited(1), 1_000);
    // 1s after the death: the appointment is at 6_000, still in the future.
    let respawned = mgr.tick(2_000, &Vec::new());
    assert!(respawned.is_empty());
    match mgr.processes[0].state {
        ProcessState::Stopped(ProcessRestart::RestartAt(t), _) => assert_eq!(t, 6_000),
        ref s => panic!("expected the appointment to stand, got {:?}", s),
    }
    assert_eq!(mgr.processes[0].incarnation, id);
}

#[test]
fn tick_respawns_due_process_once_with_fresh_incarnation() {
    let mut mgr = ProcessManager::new();
    let id = mgr.upsert(&service("web", enabled_policy(5, 3)), 0).unwrap();
    mgr.process_died(id, ExitStatus::Exited(1), 1_000);
    // 6s after the death: the appointment at 6_000 has passed.
    let respawned = mgr.tick(7_000, &Vec::new());
    assert_eq!(respawned.len(), 1);
    let new_id = respawned[0];
    assert_ne!(new_id, id);
    assert_eq!(mgr.processes[0].incarnation, new_id);
    assert_eq!(mgr.processes[0].restarts, 1);
    assert!(matches!(mgr.processes[0].state, ProcessState::Starting));
    assert_eq!(mgr.processes[0].last_start, Some(7_000));
    // Nothing left to respawn on the next tick.
    let respawned_again = mgr.tick(8_000, &Vec::new());
    assert!(respawned_again.is_empty());
}

#[test]
fn end_to_end_web_restart_scenario() {
    // Service `web`, restart enabled, cooloff 5s, at most 3 restarts.
    let mut mgr = ProcessManager::new();
    let svc = service("web", enabled_policy(5, 3));
    let t0 = 100_000;
    let id = mgr.upsert(&svc, 90_000).unwrap();
    // The process exits with a failure status at t0.
    mgr.process_died(id, ExitStatus::Exited(2), t0);
    // tick at t0+1s leaves it stopped with the appointment at t0+5s.
    let respawned = mgr.tick(t0 + 1_000, &Vec::new());
    assert!(respawned.is_empty());
    match mgr.processes[0].state {
        ProcessState::Stopped(ProcessRestart::RestartAt(t), status) => {
            assert_eq!(t, t0 + 5_000);
            assert_eq!(status, ExitStatus::Exited(2));
        }
        ref s => panic!("expected Stopped(RestartAt(t0+5s)), got {:?}", s),
    }
    // tick at t0+6s respawns it: new incarnation, one restart on the counter.
    let respawned = mgr.tick(t0 + 6_000, &Vec::new());
    assert_eq!(respawned.len(), 1);
    assert_ne!(respawned[0], id);
    assert_eq!(mgr.processes[0].incarnation, respawned[0]);
    assert_eq!(mgr.processes[0].restarts, 1);
    assert!(matches!(mgr.processes[0].state, ProcessState::Starting));
}

#[test]
fn remove_unknown_name_reports_not_found_and_changes_nothing() {
    let mut mgr = ProcessManager::new();
    let id = mgr.upsert(&service("web", disabled_policy()), 0).unwrap();
    let before_incarnation = mgr.processes[0].incarnation;
    let before_closer = mgr.processes[0].closer;
    let r = mgr.remove("nope");
    assert_eq!(r, Err(ProcError::NotFound));
    assert_eq!(mgr.processes.len(), 1);
    assert_eq!(mgr.processes[0].incarnation, before_incarnation);
    assert_eq!(mgr.processes[0].closer, before_closer);
    assert_eq!(mgr.processes[0].incarnation, id);
    assert_eq!(ProcError::NotFound.message(), "No such process");
}

#[test]
fn remove_known_name_only_releases_the_closer() {
    let mut mgr = ProcessManager::new();
    mgr.upsert(&service("web", disabled_policy()), 0).unwrap();
    assert!(mgr.processes[0].closer);
    assert!(mgr.remove("web").is_ok());
    assert!(!mgr.processes[0].closer);
    // The state transition waits for the observed death.
    assert!(matches!(mgr.processes[0].state, ProcessState::Starting));
    // A second removal is as good as the first.
    assert!(mgr.remove("web").is_ok());
    assert!(!mgr.processes[0].closer);
}

#[test]
fn died_for_unknown_incarnation_changes_nothing() {
    let mut mgr = ProcessManager::new();
    let id = mgr.upsert(&service("web", enabled_policy(5, 3)), 0).unwrap();
    mgr.process_died(id + 1000, ExitStatus::Exited(1), 500);
    assert!(matches!(mgr.processes[0].state, ProcessState::Starting));
    assert_eq!(mgr.processes[0].last_stop, None);
}

#[test]
fn push_stats_monotonically_raises_the_maxima() {
    let mut svc = service("web", disabled_policy());
    svc.command = Some("/bin/true".to_string());
    let mut p = Process::new(&svc).unwrap();
    p.push_stats(ProcessStats { timestamp: 10, cpu_percent: 50, memory_mb: 200, uptime: 5 });
    let first = p.stats_max;
    p.push_stats(ProcessStats { timestamp: 20, cpu_percent: 30, memory_mb: 350, uptime: 6 });
    let second = p.stats_max;
    assert!(second.cpu_percent >= first.cpu_percent);
    assert!(second.memory_mb >= first.memory_mb);
    assert!(second.uptime >= first.uptime);
    assert!(second.timestamp >= first.timestamp);
    assert_eq!(second.cpu_percent, 50);
    assert_eq!(second.memory_mb, 350);
    assert_eq!(second.uptime, 6);
    assert_eq!(second.timestamp, 20);
    assert_eq!(p.stats.len(), 2);
    assert!(matches!(p.state, ProcessState::Running));
}

#[test]
fn tick_delivers_samples_and_marks_running() {
    let mut mgr = ProcessManager::new();
    let id = mgr.upsert(&service("web", disabled_policy()), 0).unwrap();
    mgr.set_pid(id, 4242);
    assert_eq!(mgr.processes[0].pid, Some(4242));
    let samples = vec![
        (999, StatSample { cpu_percent: 1, memory_mb: 2, uptime: 3 }),
        (4242, StatSample { cpu_percent: 75, memory_mb: 128, uptime: 9 }),
    ];
    let respawned = mgr.tick(5_000, &samples);
    assert!(respawned.is_empty());
    assert!(matches!(mgr.processes[0].state, ProcessState::Running));
    assert_eq!(mgr.processes[0].stats.len(), 1);
    let s = mgr.processes[0].stats[0];
    assert_eq!(s.timestamp, 5_000);
    assert_eq!(s.cpu_percent, 75);
    assert_eq!(s.memory_mb, 128);
    assert_eq!(s.uptime, 9);
    assert_eq!(mgr.processes[0].stats_max.cpu_percent, 75);
}

#[test]
fn a_sample_preempts_a_due_restart() {
    let mut mgr = ProcessManager::new();
    let id = mgr.upsert(&service("web", enabled_policy(1, 3)), 0).unwrap();
    mgr.set_pid(id, 7);
    mgr.process_died(id, ExitStatus::Signaled(9), 1_000);
    // The appointment at 2_000 is due, but the pid shows OS activity:
    // the reading wins and the process is running again.
    let samples = vec![(7, StatSample { cpu_percent: 5, memory_mb: 10, uptime: 1 })];
    let respawned = mgr.tick(10_000, &samples);
    assert!(respawned.is_empty());
    assert!(matches!(mgr.processes[0].state, ProcessState::Running));
    assert_eq!(mgr.processes[0].incarnation, id);
}
