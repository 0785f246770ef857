use created::supervisor::{Supervisor, SupervisorAction};

fn some_path(p: &str) -> Option<String> {
    Some(p.to_string())
}

#[test]
fn no_device_for_three_polls_runs_nothing() {
    let mut sup = Supervisor::new();
    for _ in 0..3 {
        let ran = sup.run_poll(false, true, None, true);
        assert!(!ran);
        assert!(sup.last_handled().is_none());
    }
}

#[test]
fn constant_candidate_runs_exactly_one_session() {
    let mut sup = Supervisor::new();
    let mut sessions = 0;
    for _ in 0..4 {
        if sup.run_poll(false, true, some_path("/dev/ttyUSB0"), true) {
            sessions += 1;
        }
    }
    assert_eq!(sessions, 1);
    assert_eq!(sup.last_handled(), Some(&"/dev/ttyUSB0".to_string()));
}

#[test]
fn disconnect_and_reconnect_runs_a_second_session() {
    let mut sup = Supervisor::new();
    // Poll 1: the device is present and the session succeeds.
    assert!(sup.run_poll(false, true, some_path("/dev/ttyUSB0"), true));
    // Poll 2: the device is gone; the memory is cleared, nothing runs.
    assert!(!sup.run_poll(false, false, None, true));
    assert!(sup.last_handled().is_none());
    // Poll 3: the device is back; a second session runs.
    assert!(sup.run_poll(false, true, some_path("/dev/ttyUSB0"), true));
}

#[test]
fn changed_candidate_path_runs_a_second_session() {
    let mut sup = Supervisor::new();
    assert!(sup.run_poll(false, true, some_path("/dev/ttyUSB0"), true));
    assert!(!sup.run_poll(false, true, some_path("/dev/ttyUSB0"), true));
    assert!(sup.run_poll(false, true, some_path("/dev/ttyACM0"), true));
    assert_eq!(sup.last_handled(), Some(&"/dev/ttyACM0".to_string()));
}

#[test]
fn failed_session_leaves_memory_and_retries_next_poll() {
    let mut sup = Supervisor::new();
    // The session fails: the memory stays empty.
    assert!(sup.run_poll(false, true, some_path("/dev/ttyUSB0"), false));
    assert!(sup.last_handled().is_none());
    // The same candidate is retried on the next poll and now succeeds.
    assert!(sup.run_poll(false, true, some_path("/dev/ttyUSB0"), true));
    assert_eq!(sup.last_handled(), Some(&"/dev/ttyUSB0".to_string()));
    // Once handled, no further session runs against it.
    assert!(!sup.run_poll(false, true, some_path("/dev/ttyUSB0"), true));
}

#[test]
fn cancellation_is_terminal() {
    let mut sup = Supervisor::new();
    let action = sup.poll(true, true, some_path("/dev/ttyUSB0"));
    assert!(matches!(action, SupervisorAction::Stop));
    // Even without a new cancellation notice, a stopped supervisor stays
    // stopped and never asks for a session again.
    let action = sup.poll(false, true, some_path("/dev/ttyUSB0"));
    assert!(matches!(action, SupervisorAction::Stop));
}

#[test]
fn poll_requests_session_for_new_candidate() {
    let mut sup = Supervisor::new();
    match sup.poll(false, true, some_path("/dev/ttyACM1")) {
        SupervisorAction::RunSession { path } => assert_eq!(path, "/dev/ttyACM1"),
        _ => panic!("a new candidate must trigger a session"),
    }
    // The session outcome was never reported, so the memory is still empty
    // and the candidate is offered again.
    match sup.poll(false, true, some_path("/dev/ttyACM1")) {
        SupervisorAction::RunSession { path } => assert_eq!(path, "/dev/ttyACM1"),
        _ => panic!("an unhandled candidate must trigger a session again"),
    }
}
