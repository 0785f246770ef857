use created::session::{Session, SessionFailure, SessionStep};

/// Drives a session against scripted step outcomes and collects the frames
/// whose write it requested, together with their delays.
fn drive(outcomes: &[bool]) -> (Vec<(Vec<u8>, u64)>, Result<(), SessionFailure>) {
    let mut session = Session::new();
    let mut writes: Vec<(Vec<u8>, u64)> = Vec::new();
    let mut next = 0usize;
    loop {
        match session.next_step() {
            SessionStep::Open => {
                session.on_result(outcomes[next]);
                next += 1;
            }
            SessionStep::Write { frame, delay_ms } => {
                writes.push((frame, delay_ms));
                session.on_result(outcomes[next]);
                next += 1;
            }
            SessionStep::Done { outcome } => return (writes, outcome),
        }
    }
}

#[test]
fn clean_session_sends_all_four_frames_in_order() {
    let (writes, outcome) = drive(&[true, true, true, true, true]);
    assert_eq!(outcome, Ok(()));
    assert_eq!(writes.len(), 4);
    assert_eq!(writes[0], (vec![128u8], 50));
    assert_eq!(writes[1], (vec![140u8, 0, 3, 60, 16, 64, 16, 67, 24], 20));
    assert_eq!(writes[2], (vec![141u8, 0], 1500));
    assert_eq!(writes[3], (vec![133u8], 0));
}

#[test]
fn open_failure_sends_nothing() {
    let (writes, outcome) = drive(&[false]);
    assert_eq!(outcome, Err(SessionFailure::Open));
    assert!(writes.is_empty());
}

#[test]
fn write_failure_sends_only_the_frames_up_to_it() {
    // The open and the first write succeed; the second write fails.
    let (writes, outcome) = drive(&[true, true, false]);
    assert_eq!(outcome, Err(SessionFailure::Write { frame_index: 1 }));
    assert_eq!(writes.len(), 2);
    assert_eq!(writes[0].0, vec![128u8]);
    assert_eq!(writes[1].0, vec![140u8, 0, 3, 60, 16, 64, 16, 67, 24]);
}

#[test]
fn failure_at_last_write_reports_its_index() {
    let (writes, outcome) = drive(&[true, true, true, true, false]);
    assert_eq!(outcome, Err(SessionFailure::Write { frame_index: 3 }));
    assert_eq!(writes.len(), 4);
}

#[test]
fn finished_session_keeps_reporting_done() {
    let mut session = Session::new();
    session.on_result(false);
    for _ in 0..3 {
        match session.next_step() {
            SessionStep::Done { outcome } => {
                assert_eq!(outcome, Err(SessionFailure::Open));
            }
            _ => panic!("a finished session must not request further steps"),
        }
    }
}
