//! Wire-level command encoder for the controller's byte-oriented protocol.
//!
//! A session consists of four frames, sent in a fixed order: wake, define
//! signal, play signal, suspend. Each frame is pure data; building one has
//! no failure mode.

use vstd::prelude::*;

verus! {

/// Wake/start opcode: brings the controller out of its passive state.
pub const WAKE_OPCODE: u8 = 128;

/// Define-signal opcode: stores a tone sequence in a signal slot.
pub const DEFINE_SIGNAL_OPCODE: u8 = 140;

/// Play-signal opcode: plays a previously stored slot.
pub const PLAY_SIGNAL_OPCODE: u8 = 141;

/// Suspend/power-down opcode.
pub const SUSPEND_OPCODE: u8 = 133;

/// Signal slot used by the built-in example session.
pub const EXAMPLE_SLOT: u8 = 0;

/// Settling time the device needs after the wake frame, in milliseconds.
pub const WAKE_SETTLE_MS: u64 = 50;

/// Settling time the device needs after the define-signal frame.
pub const DEFINE_SETTLE_MS: u64 = 20;

/// Wait after the play frame, long enough for the signal to finish.
pub const PLAY_WAIT_MS: u64 = 1500;

/// No settling time is needed after the final suspend frame.
pub const SUSPEND_WAIT_MS: u64 = 0;

/// One note of a stored tone sequence: pitch and duration, one byte each.
#[derive(Clone, Copy, PartialEq, Eq, Structural)]
pub struct Note {
    pub pitch: u8,
    pub duration: u8,
}

/// The operand bytes of a define-signal frame: a (pitch, duration) pair per
/// note, in order.
pub open spec fn notes_bytes(notes: Seq<Note>) -> Seq<u8>
    decreases notes.len(),
{
    if notes.len() == 0 {
        Seq::empty()
    } else {
        notes_bytes(notes.drop_last()) + seq![notes.last().pitch, notes.last().duration]
    }
}

/// The full define-signal frame: opcode, slot, note count, then the note
/// bytes.
pub open spec fn define_frame_spec(slot: u8, notes: Seq<Note>) -> Seq<u8> {
    seq![DEFINE_SIGNAL_OPCODE, slot, notes.len() as u8] + notes_bytes(notes)
}

/// Builds the define-signal frame for one slot and tone sequence.
pub fn define_signal_frame(slot: u8, notes: &Vec<Note>) -> (r: Vec<u8>)
    requires
        notes@.len() <= 255,
    ensures
        r@ == define_frame_spec(slot, notes@),
{
    let mut r: Vec<u8> = Vec::new();
    r.push(DEFINE_SIGNAL_OPCODE);
    r.push(slot);
    r.push(notes.len() as u8);
    proof {
        assert(r@ =~= seq![DEFINE_SIGNAL_OPCODE, slot, notes@.len() as u8]
            + notes_bytes(notes@.take(0)));
    }
    let mut i: usize = 0;
    while i < notes.len()
        invariant
            i <= notes@.len() <= 255,
            r@ == seq![DEFINE_SIGNAL_OPCODE, slot, notes@.len() as u8]
                + notes_bytes(notes@.take(i as int)),
        decreases notes@.len() - i,
    {
        r.push(notes[i].pitch);
        r.push(notes[i].duration);
        proof {
            assert(notes@.take(i + 1).drop_last() =~= notes@.take(i as int));
            assert(notes@.take(i + 1).last() == notes@[i as int]);
            assert(r@ =~= seq![DEFINE_SIGNAL_OPCODE, slot, notes@.len() as u8]
                + notes_bytes(notes@.take(i + 1)));
        }
        i = i + 1;
    }
    proof {
        assert(notes@.take(notes@.len() as int) =~= notes@);
    }
    r
}

/// The wake frame: the single wake opcode.
pub fn wake_frame() -> (r: Vec<u8>)
    ensures
        r@ == seq![WAKE_OPCODE],
{
    let mut r: Vec<u8> = Vec::new();
    r.push(WAKE_OPCODE);
    proof {
        assert(r@ =~= seq![WAKE_OPCODE]);
    }
    r
}

/// The play-signal frame: opcode plus the slot to play.
pub fn play_signal_frame(slot: u8) -> (r: Vec<u8>)
    ensures
        r@ == seq![PLAY_SIGNAL_OPCODE, slot],
{
    let mut r: Vec<u8> = Vec::new();
    r.push(PLAY_SIGNAL_OPCODE);
    r.push(slot);
    proof {
        assert(r@ =~= seq![PLAY_SIGNAL_OPCODE, slot]);
    }
    r
}

/// The suspend frame: the single power-down opcode.
pub fn suspend_frame() -> (r: Vec<u8>)
    ensures
        r@ == seq![SUSPEND_OPCODE],
{
    let mut r: Vec<u8> = Vec::new();
    r.push(SUSPEND_OPCODE);
    proof {
        assert(r@ =~= seq![SUSPEND_OPCODE]);
    }
    r
}

/// The built-in example tone sequence: three notes (C4, E4, G4).
pub open spec fn example_notes_spec() -> Seq<Note> {
    seq![
        Note { pitch: 60, duration: 16 },
        Note { pitch: 64, duration: 16 },
        Note { pitch: 67, duration: 24 },
    ]
}

/// Builds the built-in example tone sequence.
pub fn example_notes() -> (r: Vec<Note>)
    ensures
        r@ == example_notes_spec(),
{
    let mut r: Vec<Note> = Vec::new();
    r.push(Note { pitch: 60, duration: 16 });
    r.push(Note { pitch: 64, duration: 16 });
    r.push(Note { pitch: 67, duration: 24 });
    proof {
        assert(r@ =~= example_notes_spec());
    }
    r
}

/// The four frames of the fixed session, in transmission order.
pub open spec fn session_frames_spec() -> Seq<Seq<u8>> {
    seq![
        seq![WAKE_OPCODE],
        define_frame_spec(EXAMPLE_SLOT, example_notes_spec()),
        seq![PLAY_SIGNAL_OPCODE, EXAMPLE_SLOT],
        seq![SUSPEND_OPCODE],
    ]
}

/// The delay to observe after transmitting the frame with this index, in
/// milliseconds.
pub open spec fn frame_delay_spec(i: int) -> u64 {
    if i == 0 {
        WAKE_SETTLE_MS
    } else if i == 1 {
        DEFINE_SETTLE_MS
    } else if i == 2 {
        PLAY_WAIT_MS
    } else {
        SUSPEND_WAIT_MS
    }
}

} // verus!
