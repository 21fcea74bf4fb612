//! Tests for configuration lookups and defaults.

use procli::config::{default_log_buffer_size, Agent, ProcliConfig, RestartPolicy, Service, Stub};

fn named_service(name: &str) -> Service {
    Service {
        name: name.to_string(),
        display: None,
        image: None,
        command: Some("/bin/true".to_string()),
        directory: None,
        environment: Vec::new(),
        dependencies: Vec::new(),
        restart: RestartPolicy::default(),
    }
}

fn named_stub(name: &str) -> Stub {
    Stub {
        name: name.to_string(),
        display: None,
        image: None,
        command: Some("/bin/true".to_string()),
        directory: None,
        environment: Vec::new(),
    }
}

fn named_agent(name: &str) -> Agent {
    Agent { name: name.to_string(), display: None, scenario: "noop".to_string() }
}

fn sample_config() -> ProcliConfig {
    ProcliConfig {
        services: vec![named_service("db"), named_service("web")],
        stubs: vec![named_stub("mail")],
        agents: vec![named_agent("probe")],
        log_buffer_size: default_log_buffer_size(),
    }
}

#[test]
fn get_service_finds_by_name() {
    let cfg = sample_config();
    assert_eq!(cfg.get_service("web").map(|s| s.name.as_str()), Some("web"));
    assert_eq!(cfg.get_service("db").map(|s| s.name.as_str()), Some("db"));
    assert!(cfg.get_service("mail").is_none());
}

#[test]
fn get_stub_finds_by_name() {
    let cfg = sample_config();
    assert_eq!(cfg.get_stub("mail").map(|s| s.name.as_str()), Some("mail"));
    assert!(cfg.get_stub("web").is_none());
}

#[test]
fn get_agent_finds_by_name() {
    let cfg = sample_config();
    assert_eq!(cfg.get_agent("probe").map(|a| a.name.as_str()), Some("probe"));
    assert!(cfg.get_agent("db").is_none());
}

#[test]
fn contains_spans_all_three_collections() {
    let cfg = sample_config();
    assert!(cfg.contains("web"));
    assert!(cfg.contains("mail"));
    assert!(cfg.contains("probe"));
    assert!(!cfg.contains("ghost"));
}

#[test]
fn log_buffer_size_defaults_to_ten_thousand() {
    assert_eq!(default_log_buffer_size(), 10_000);
}

#[test]
fn restart_policy_defaults_to_disabled() {
    let p = RestartPolicy::default();
    assert!(!p.enabled);
    assert_eq!(p.cooloff, 0);
    assert_eq!(p.max_restarts, 0);
}
