//! Tests for command construction: local shell-word splitting, the
//! container invocation, and each refusal.

use procli::config::{RestartPolicy, Service, Stub};
use procli::proc::command::build_command;
use procli::proc::process::Process;
use procli::proc::ProcError;

fn base_service() -> Service {
    Service {
        name: "svc".to_string(),
        display: None,
        image: None,
        command: None,
        directory: None,
        environment: Vec::new(),
        dependencies: Vec::new(),
        restart: RestartPolicy::default(),
    }
}

#[test]
fn local_command_is_split_into_shell_words() {
    let mut svc = base_service();
    svc.command = Some("echo hello world".to_string());
    let cmd = build_command(&svc).unwrap();
    assert_eq!(cmd.program, "echo");
    assert_eq!(cmd.args, vec!["hello".to_string(), "world".to_string()]);
    assert!(cmd.env.is_empty());
    assert_eq!(cmd.directory, None);
}

#[test]
fn local_command_honours_quoting() {
    let mut svc = base_service();
    svc.command = Some("sh -c 'sleep 5 && echo done'".to_string());
    let cmd = build_command(&svc).unwrap();
    assert_eq!(cmd.program, "sh");
    assert_eq!(cmd.args, vec!["-c".to_string(), "sleep 5 && echo done".to_string()]);
}

#[test]
fn local_command_keeps_environment_and_directory() {
    let mut svc = base_service();
    svc.command = Some("run-it".to_string());
    svc.environment = vec![("A".to_string(), "1".to_string())];
    svc.directory = Some("/srv/app".to_string());
    let cmd = build_command(&svc).unwrap();
    assert_eq!(cmd.program, "run-it");
    assert!(cmd.args.is_empty());
    assert_eq!(cmd.env, vec![("A".to_string(), "1".to_string())]);
    assert_eq!(cmd.directory, Some("/srv/app".to_string()));
}

#[test]
fn image_builds_a_docker_run_invocation() {
    let mut svc = base_service();
    svc.image = Some("postgres:16".to_string());
    svc.command = Some("postgres -c max_connections=10".to_string());
    svc.environment = vec![("PGDATA".to_string(), "/data".to_string())];
    svc.directory = Some("/srv/db".to_string());
    let cmd = build_command(&svc).unwrap();
    assert_eq!(cmd.program, "docker");
    assert_eq!(
        cmd.args,
        vec![
            "run".to_string(),
            "--rm".to_string(),
            "-e".to_string(),
            "PGDATA=/data".to_string(),
            "-w".to_string(),
            "/opt/mounted".to_string(),
            "-v".to_string(),
            "/srv/db".to_string(),
            "postgres:16".to_string(),
            "postgres".to_string(),
            "-c".to_string(),
            "max_connections=10".to_string(),
        ]
    );
    assert!(cmd.env.is_empty());
    assert_eq!(cmd.directory, None);
}

#[test]
fn image_without_command_runs_the_image_default() {
    let mut svc = base_service();
    svc.image = Some("redis:7".to_string());
    let cmd = build_command(&svc).unwrap();
    assert_eq!(cmd.program, "docker");
    assert_eq!(cmd.args, vec!["run".to_string(), "--rm".to_string(), "redis:7".to_string()]);
}

#[test]
fn missing_command_without_image_is_refused() {
    let svc = base_service();
    let err = build_command(&svc).unwrap_err();
    assert_eq!(err, ProcError::MissingCommand);
    assert_eq!(err.message(), "Must specify command if no image");
}

#[test]
fn empty_command_without_image_is_refused() {
    let mut svc = base_service();
    svc.command = Some("".to_string());
    assert_eq!(build_command(&svc).unwrap_err(), ProcError::MissingCommand);
}

#[test]
fn unclosed_quote_is_a_bad_command_string() {
    let mut svc = base_service();
    svc.command = Some("echo \"unclosed".to_string());
    let err = build_command(&svc).unwrap_err();
    assert_eq!(err, ProcError::BadCommandString);
    assert_eq!(err.message(), "Bad command string");
}

#[test]
fn bad_command_in_image_branch_is_refused_too() {
    let mut svc = base_service();
    svc.image = Some("img".to_string());
    svc.command = Some("oops \"".to_string());
    assert_eq!(build_command(&svc).unwrap_err(), ProcError::BadCommandString);
}

#[test]
fn stub_builds_like_a_service_without_restarts() {
    let stub = Stub {
        name: "fake-api".to_string(),
        display: Some("Fake API".to_string()),
        image: None,
        command: Some("fake api --port 8080".to_string()),
        directory: None,
        environment: Vec::new(),
    };
    let cmd = build_command(&stub).unwrap();
    assert_eq!(cmd.program, "fake");
    assert_eq!(
        cmd.args,
        vec!["api".to_string(), "--port".to_string(), "8080".to_string()]
    );
    let p = Process::new(&stub).unwrap();
    assert_eq!(p.name, "fake-api");
    assert_eq!(p.display, "Fake API");
    assert!(!p.restart_policy.enabled);
    assert_eq!(p.restarts, 0);
}

#[test]
fn process_new_refuses_what_build_command_refuses() {
    let svc = base_service();
    assert_eq!(Process::new(&svc).unwrap_err(), ProcError::MissingCommand);
}
