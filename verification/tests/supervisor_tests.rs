use sidecar_supervisor::handshake::classify_stdout_line;
use sidecar_supervisor::registry::PortRegistry;
use sidecar_supervisor::relay::relay_event;
use sidecar_supervisor::relay::relay_run;
use sidecar_supervisor::relay::OutputEvent;
use sidecar_supervisor::relay::RelayAction;
use sidecar_supervisor::supervisor::ProcessHandle;
use sidecar_supervisor::supervisor::SpawnOutcome;
use sidecar_supervisor::supervisor::Supervisor;
use sidecar_supervisor::supervisor::SupervisorError;

fn line(s: &str) -> Vec<u8> {
    s.as_bytes().to_vec()
}

#[test]
fn classify_plain_announcement() {
    assert_eq!(classify_stdout_line(&line("BACKEND_PORT:4321")), Some(4321));
}

#[test]
fn classify_surrounding_whitespace() {
    assert_eq!(classify_stdout_line(&line("BACKEND_PORT: 4321")), Some(4321));
    assert_eq!(classify_stdout_line(&line("BACKEND_PORT:\t 80\r")), Some(80));
    assert_eq!(classify_stdout_line(&line("BACKEND_PORT: 0 ")), Some(0));
}

#[test]
fn classify_extreme_values() {
    assert_eq!(classify_stdout_line(&line("BACKEND_PORT:65535")), Some(65535));
    assert_eq!(classify_stdout_line(&line("BACKEND_PORT:65536")), None);
    assert_eq!(classify_stdout_line(&line("BACKEND_PORT:99999")), None);
}

#[test]
fn classify_leading_zeros() {
    // Leading zeros do not change the parsed value.
    assert_eq!(classify_stdout_line(&line("BACKEND_PORT:000123")), Some(123));
}

#[test]
fn classify_rejects_non_numbers() {
    assert_eq!(classify_stdout_line(&line("BACKEND_PORT:notanumber")), None);
    assert_eq!(classify_stdout_line(&line("BACKEND_PORT:80a")), None);
    assert_eq!(classify_stdout_line(&line("BACKEND_PORT:+80")), None);
    assert_eq!(classify_stdout_line(&line("BACKEND_PORT:8 0")), None);
    assert_eq!(classify_stdout_line(&line("BACKEND_PORT:")), None);
    assert_eq!(classify_stdout_line(&line("BACKEND_PORT:   ")), None);
}

#[test]
fn classify_requires_exact_prefix() {
    assert_eq!(classify_stdout_line(&line("")), None);
    assert_eq!(classify_stdout_line(&line("starting up")), None);
    assert_eq!(classify_stdout_line(&line("backend_port:80")), None);
    assert_eq!(classify_stdout_line(&line("XBACKEND_PORT:80")), None);
    assert_eq!(classify_stdout_line(&line(" BACKEND_PORT:80")), None);
}

#[test]
fn announcement_updates_registry_and_notifies_once() {
    let mut registry = PortRegistry::new();
    let action = relay_event(&mut registry, OutputEvent::Stdout(line("BACKEND_PORT: 8080")));
    assert!(matches!(action, RelayAction::Ready(8080)));
    assert_eq!(registry.get(), Some(8080));
}

#[test]
fn other_lines_never_mutate_registry() {
    let mut registry = PortRegistry::new();
    let action = relay_event(&mut registry, OutputEvent::Stdout(line("warming up")));
    assert!(matches!(action, RelayAction::LogStdout(ref l) if l.as_slice() == b"warming up"));
    assert_eq!(registry.get(), None);
}

#[test]
fn stderr_is_never_parsed() {
    let mut registry = PortRegistry::new();
    let action = relay_event(&mut registry, OutputEvent::Stderr(line("BACKEND_PORT: 4321")));
    assert!(
        matches!(action, RelayAction::LogStderr(ref l) if l.as_slice() == b"BACKEND_PORT: 4321")
    );
    assert_eq!(registry.get(), None);
}

#[test]
fn get_port_empty_before_any_announcement() {
    let supervisor = Supervisor::new();
    assert_eq!(supervisor.get_port(), None);
}

#[test]
fn get_port_returns_most_recent_announcement() {
    let mut supervisor = Supervisor::new();
    supervisor
        .start(SpawnOutcome::Spawned(ProcessHandle::new(11)))
        .unwrap();
    supervisor.handle_output(OutputEvent::Stdout(line("BACKEND_PORT:4321")));
    assert_eq!(supervisor.get_port(), Some(4321));
    supervisor.handle_output(OutputEvent::Stdout(line("BACKEND_PORT:9090")));
    assert_eq!(supervisor.get_port(), Some(9090));
}

#[test]
fn stop_without_start_is_a_successful_noop() {
    let mut supervisor = Supervisor::new();
    let taken = supervisor.begin_stop();
    assert!(taken.is_none());
    assert!(Supervisor::finish_stop(None).is_ok());
    assert_eq!(supervisor.get_port(), None);
}

#[test]
fn stop_twice_kills_at_most_once() {
    let mut supervisor = Supervisor::new();
    supervisor
        .start(SpawnOutcome::Spawned(ProcessHandle::new(42)))
        .unwrap();
    let first = supervisor.begin_stop();
    assert_eq!(first.map(|handle| handle.pid()), Some(42));
    let second = supervisor.begin_stop();
    assert!(second.is_none());
    assert!(Supervisor::finish_stop(None).is_ok());
}

#[test]
fn failed_spawn_reports_error_and_leaves_state_empty() {
    let mut supervisor = Supervisor::new();
    let result = supervisor.start(SpawnOutcome::Failed(String::from("no such file")));
    match result {
        Err(SupervisorError::SpawnFailed(message)) => assert_eq!(message, "no such file"),
        _ => panic!("expected SpawnFailed"),
    }
    assert_eq!(supervisor.get_port(), None);
    assert!(supervisor.begin_stop().is_none());
}

#[test]
fn failed_kill_reports_termination_error() {
    let result = Supervisor::finish_stop(Some(String::from("operation not permitted")));
    match result {
        Err(SupervisorError::TerminationFailed(message)) => {
            assert_eq!(message, "operation not permitted")
        }
        _ => panic!("expected TerminationFailed"),
    }
}

#[test]
fn restart_hides_stale_port() {
    let mut supervisor = Supervisor::new();
    supervisor
        .start(SpawnOutcome::Spawned(ProcessHandle::new(5)))
        .unwrap();
    supervisor.handle_output(OutputEvent::Stdout(line("BACKEND_PORT:4321")));
    assert_eq!(supervisor.get_port(), Some(4321));
    supervisor
        .start(SpawnOutcome::Spawned(ProcessHandle::new(6)))
        .unwrap();
    assert_eq!(supervisor.get_port(), None);
}

#[test]
fn relay_scenario_one_announcement_between_logs() {
    let mut registry = PortRegistry::new();
    let events = vec![
        OutputEvent::Stdout(line("starting up")),
        OutputEvent::Stdout(line("BACKEND_PORT: 4321")),
        OutputEvent::Stdout(line("listening")),
    ];
    let actions = relay_run(&mut registry, events);
    assert_eq!(actions.len(), 3);
    assert!(matches!(actions[0], RelayAction::LogStdout(ref l) if l.as_slice() == b"starting up"));
    assert!(matches!(actions[1], RelayAction::Ready(4321)));
    assert!(matches!(actions[2], RelayAction::LogStdout(ref l) if l.as_slice() == b"listening"));
    assert_eq!(registry.get(), Some(4321));
}

#[test]
fn relay_scenario_malformed_announcement_is_log_text() {
    let mut registry = PortRegistry::new();
    let action = relay_event(
        &mut registry,
        OutputEvent::Stdout(line("BACKEND_PORT:notanumber")),
    );
    assert!(
        matches!(action, RelayAction::LogStdout(ref l) if l.as_slice() == b"BACKEND_PORT:notanumber")
    );
    assert_eq!(registry.get(), None);
}

#[test]
fn relay_run_without_events_changes_nothing() {
    let mut registry = PortRegistry::new();
    let actions = relay_run(&mut registry, Vec::new());
    assert!(actions.is_empty());
    assert_eq!(registry.get(), None);
}
