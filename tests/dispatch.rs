use crabbers::dispatch::{execute, exit_outcome, Action, ExecOutcome, ExecPlan};
use crabbers::service::Service;

fn record(id: usize, name: &str, start: Option<&str>, stop: Option<&str>, restart: Option<&str>) -> Service {
    Service {
        id,
        name: name.to_string(),
        color: "blue".to_string(),
        start_command: start.map(|s| s.to_string()),
        stop_command: stop.map(|s| s.to_string()),
        restart_command: restart.map(|s| s.to_string()),
    }
}

fn sample() -> Vec<Service> {
    vec![
        record(1, "web", None, Some("stop web"), Some("restart web")),
        record(2, "db", Some("start db"), None, None),
        record(3, "db", Some("start other db"), None, None),
    ]
}

#[test]
fn start_without_command_is_not_implemented() {
    let r = execute(&sample(), Some(1), None, Action::Start);
    assert!(matches!(r, ExecPlan::NotImplemented));
}

#[test]
fn execute_by_id_picks_action_command() {
    let services = sample();
    assert!(matches!(execute(&services, Some(1), None, Action::Stop), ExecPlan::Run(ref c) if c == "stop web"));
    assert!(matches!(execute(&services, Some(1), None, Action::Restart), ExecPlan::Run(ref c) if c == "restart web"));
}

#[test]
fn execute_by_name_takes_first_match() {
    let r = execute(&sample(), None, Some("db".to_string()), Action::Start);
    assert!(matches!(r, ExecPlan::Run(ref c) if c == "start db"));
}

#[test]
fn execute_id_wins_over_name() {
    let r = execute(&sample(), Some(3), Some("web".to_string()), Action::Start);
    assert!(matches!(r, ExecPlan::Run(ref c) if c == "start other db"));
}

#[test]
fn execute_unknown_id_is_not_found() {
    assert!(matches!(execute(&sample(), Some(42), None, Action::Start), ExecPlan::NotFound));
}

#[test]
fn execute_unknown_name_is_not_found() {
    assert!(matches!(execute(&sample(), None, Some("cache".to_string()), Action::Stop), ExecPlan::NotFound));
}

#[test]
fn execute_without_selector_is_invalid() {
    assert!(matches!(execute(&sample(), None, None, Action::Start), ExecPlan::InvalidArgument));
}

#[test]
fn success_reports_stdout() {
    let r = exit_outcome(true, &b"up\n".to_vec(), &b"warn".to_vec());
    assert!(matches!(r, ExecOutcome::Stdout(ref t) if t == "up\n"));
}

#[test]
fn failure_reports_stderr() {
    let r = exit_outcome(false, &b"partial".to_vec(), &b"boom".to_vec());
    assert!(matches!(r, ExecOutcome::Stderr(ref t) if t == "boom"));
}

#[test]
fn invalid_bytes_are_replaced() {
    let r = exit_outcome(true, &vec![b'o', 0xff, b'k'], &Vec::new());
    assert!(matches!(r, ExecOutcome::Stdout(ref t) if t == "o\u{FFFD}k"));
}
