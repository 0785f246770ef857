use created::encoder::{
    define_signal_frame, example_notes, play_signal_frame, suspend_frame, wake_frame, Note,
};

#[test]
fn define_signal_frame_example_bytes() {
    let notes = example_notes();
    let frame = define_signal_frame(0, &notes);
    assert_eq!(frame, vec![140u8, 0, 3, 60, 16, 64, 16, 67, 24]);
}

#[test]
fn define_signal_frame_empty_sequence() {
    let notes: Vec<Note> = Vec::new();
    assert_eq!(define_signal_frame(5, &notes), vec![140u8, 5, 0]);
}

#[test]
fn define_signal_frame_single_note() {
    let notes = vec![Note { pitch: 72, duration: 8 }];
    assert_eq!(define_signal_frame(2, &notes), vec![140u8, 2, 1, 72, 8]);
}

#[test]
fn wake_frame_single_opcode() {
    assert_eq!(wake_frame(), vec![128u8]);
}

#[test]
fn play_signal_frame_opcode_and_slot() {
    assert_eq!(play_signal_frame(0), vec![141u8, 0]);
    assert_eq!(play_signal_frame(7), vec![141u8, 7]);
}

#[test]
fn suspend_frame_single_opcode() {
    assert_eq!(suspend_frame(), vec![133u8]);
}
