//! The connection session: one complete attempt to drive the fixed
//! four-frame command sequence over a single opened connection.
//!
//! The session is a step machine. Its driver owns the byte-stream handle and
//! the clock; the machine owns the ordering and failure decisions. Each
//! round the driver asks for the next step, performs it (open the
//! connection, or write one frame in full, flush it, and wait the frame's
//! settling delay), and reports whether it succeeded. The first failure
//! finishes the session at once: later frames are never requested. No retry
//! happens inside a session; retry is the supervisor's business on its next
//! poll.

use vstd::prelude::*;
use crate::encoder::{
    define_signal_frame, example_notes, frame_delay_spec, play_signal_frame,
    session_frames_spec, suspend_frame, wake_frame, DEFINE_SETTLE_MS, EXAMPLE_SLOT,
    PLAY_WAIT_MS, SUSPEND_WAIT_MS, WAKE_SETTLE_MS,
};

verus! {

/// Which stage of a session failed.
#[derive(Debug, Clone, Copy, PartialEq, Eq, Structural)]
pub enum SessionFailure {
    /// Opening the byte-stream connection failed.
    Open,
    /// Writing or flushing the frame with this index failed; frames after it
    /// were never attempted.
    Write { frame_index: u8 },
}

/// What the session asks its driver to do next.
pub enum SessionStep {
    /// Open the byte-stream connection to the candidate path, with the
    /// configured symbol rate and a bounded response timeout.
    Open,
    /// Write this frame in full, flush it, then wait `delay_ms` milliseconds
    /// before the next step.
    Write { frame: Vec<u8>, delay_ms: u64 },
    /// The session is over, with this outcome.
    Done { outcome: Result<(), SessionFailure> },
}

/// The session step machine.
///
/// `stage` 0 is about to open; stages 1 through 4 are about to write frame
/// `stage - 1`; stage 5 is finished. `failed` is set exactly when the
/// session finished by a failure.
pub struct Session {
    pub stage: u8,
    pub failed: Option<SessionFailure>,
}

/// The failure a session reports when the step at this stage fails.
pub open spec fn failure_at(stage: u8) -> SessionFailure {
    if stage == 0 {
        SessionFailure::Open
    } else {
        SessionFailure::Write { frame_index: (stage - 1) as u8 }
    }
}

impl Session {
    /// Internal consistency: the stage is in range, and a recorded failure
    /// means the session is finished and names a stage that can fail.
    pub open spec fn wf(self) -> bool {
        &&& self.stage <= 5
        &&& match self.failed {
            Some(f) => self.stage == 5 && match f {
                SessionFailure::Open => true,
                SessionFailure::Write { frame_index } => frame_index < 4,
            },
            None => true,
        }
    }

    /// Whether the session still has steps to perform.
    pub open spec fn in_progress(self) -> bool {
        self.stage < 5
    }

    /// The outcome of a finished session.
    pub open spec fn outcome_spec(self) -> Result<(), SessionFailure> {
        match self.failed {
            Some(f) => Err(f),
            None => Ok(()),
        }
    }

    /// A fresh session, about to open the connection.
    pub fn new() -> (r: Session)
        ensures
            r.wf(),
            r.stage == 0,
            r.failed is None,
    {
        Session { stage: 0, failed: None }
    }

    /// The step the driver must perform next: opening, one frame's write
    /// with its settling delay, or nothing because the session is over.
    pub fn next_step(&self) -> (r: SessionStep)
        requires
            self.wf(),
        ensures
            self.stage == 0 ==> r is Open,
            1 <= self.stage < 5 ==> (r matches SessionStep::Write { frame, delay_ms }
                && frame@ == session_frames_spec()[self.stage - 1]
                && delay_ms == frame_delay_spec(self.stage - 1)),
            self.stage == 5 ==> (r matches SessionStep::Done { outcome }
                && outcome == self.outcome_spec()),
    {
        if self.stage == 0 {
            SessionStep::Open
        } else if self.stage == 1 {
            SessionStep::Write { frame: wake_frame(), delay_ms: WAKE_SETTLE_MS }
        } else if self.stage == 2 {
            let notes = example_notes();
            SessionStep::Write {
                frame: define_signal_frame(EXAMPLE_SLOT, &notes),
                delay_ms: DEFINE_SETTLE_MS,
            }
        } else if self.stage == 3 {
            SessionStep::Write { frame: play_signal_frame(EXAMPLE_SLOT), delay_ms: PLAY_WAIT_MS }
        } else if self.stage == 4 {
            SessionStep::Write { frame: suspend_frame(), delay_ms: SUSPEND_WAIT_MS }
        } else {
            let outcome = match self.failed {
                Some(f) => Err(f),
                None => Ok(()),
            };
            SessionStep::Done { outcome }
        }
    }

    /// Records the outcome of the step just performed: success moves on to
    /// the next stage; the first failure finishes the session at once, so no
    /// later frame is ever requested.
    pub fn on_result(&mut self, ok: bool)
        requires
            old(self).wf(),
            old(self).in_progress(),
        ensures
            final(self).wf(),
            *final(self) == step_spec(*old(self), ok),
    {
        if ok {
            self.stage = self.stage + 1;
        } else {
            self.failed = Some(if self.stage == 0 {
                SessionFailure::Open
            } else {
                SessionFailure::Write { frame_index: self.stage - 1 }
            });
            self.stage = 5;
        }
    }
}

/// The session's transition on one step outcome.
pub open spec fn step_spec(s: Session, ok: bool) -> Session {
    if ok {
        Session { stage: (s.stage + 1) as u8, failed: s.failed }
    } else {
        Session { stage: 5, failed: Some(failure_at(s.stage)) }
    }
}

/// The indices of the frames whose write the session requests when driven
/// against the given step outcomes, in request order. Outcome `i` answers
/// the `i`-th step the driver performs, starting from state `s`.
pub open spec fn writes_of_run(s: Session, outcomes: Seq<bool>) -> Seq<int>
    decreases outcomes.len(),
{
    if outcomes.len() == 0 || s.stage >= 5 {
        Seq::empty()
    } else {
        let here: Seq<int> = if 1 <= s.stage {
            seq![s.stage as int - 1]
        } else {
            Seq::empty()
        };
        here + writes_of_run(step_spec(s, outcomes[0]), outcomes.drop_first())
    }
}

/// The outcome the session reports after being driven against the given step
/// outcomes, if it finishes within them.
pub open spec fn run_result(s: Session, outcomes: Seq<bool>) -> Result<(), SessionFailure>
    decreases outcomes.len(),
{
    if outcomes.len() == 0 || s.stage >= 5 {
        s.outcome_spec()
    } else {
        run_result(step_spec(s, outcomes[0]), outcomes.drop_first())
    }
}

/// From a write stage whose `k`-th remaining step is the first to fail, the
/// session requests exactly the `k + 1` consecutive frames starting at the
/// current one, and reports the failing frame.
proof fn lemma_run_fails_within(s: Session, outcomes: Seq<bool>, k: int)
    requires
        s.failed is None,
        1 <= s.stage,
        0 <= k,
        s.stage + k <= 4,
        k < outcomes.len(),
        forall|i: int| 0 <= i < k ==> outcomes[i],
        !outcomes[k],
    ensures
        writes_of_run(s, outcomes) =~= Seq::new((k + 1) as nat, |i: int| s.stage as int - 1 + i),
        run_result(s, outcomes) == Err::<(), SessionFailure>(SessionFailure::Write {
            frame_index: (s.stage + k - 1) as u8,
        }),
    decreases k,
{
    if k == 0 {
        let s2 = step_spec(s, outcomes[0]);
        assert(s2.stage == 5);
        assert(writes_of_run(s2, outcomes.drop_first()) =~= Seq::empty());
    } else {
        let s2 = step_spec(s, outcomes[0]);
        lemma_run_fails_within(s2, outcomes.drop_first(), k - 1);
        assert(writes_of_run(s, outcomes) =~= seq![s.stage as int - 1]
            + writes_of_run(s2, outcomes.drop_first()));
    }
}

/// A session that fails at a write step transmits exactly the frames up to
/// and including the failing one — whatever outcomes would have followed —
/// and reports the failing frame's index. `k` is the position of the first
/// failing step: the open succeeded, writes of frames `0 .. k - 1` succeeded,
/// and the write of frame `k - 1` failed.
pub proof fn lemma_write_failure_stops_session(outcomes: Seq<bool>, k: int)
    requires
        1 <= k <= 4,
        k < outcomes.len(),
        forall|i: int| 0 <= i < k ==> outcomes[i],
        !outcomes[k],
    ensures
        writes_of_run((Session { stage: 0, failed: None }), outcomes)
            =~= Seq::new(k as nat, |i: int| i),
        run_result((Session { stage: 0, failed: None }), outcomes)
            == Err::<(), SessionFailure>(SessionFailure::Write {
            frame_index: (k - 1) as u8,
        }),
{
    let s0 = Session { stage: 0, failed: None };
    let s1 = step_spec(s0, outcomes[0]);
    assert(s1.stage == 1);
    assert forall|i: int| 0 <= i < k - 1 implies outcomes.drop_first()[i] by {
        assert(outcomes.drop_first()[i] == outcomes[i + 1]);
    }
    assert(!outcomes.drop_first()[k - 1]);
    lemma_run_fails_within(s1, outcomes.drop_first(), k - 1);
    assert(writes_of_run(s0, outcomes) =~= writes_of_run(s1, outcomes.drop_first()));
}

/// A session whose open and four writes all succeed transmits exactly the
/// four frames, in order, and reports success.
pub proof fn lemma_clean_session_sends_all(outcomes: Seq<bool>)
    requires
        outcomes.len() >= 5,
        forall|i: int| 0 <= i < 5 ==> outcomes[i],
    ensures
        writes_of_run((Session { stage: 0, failed: None }), outcomes)
            =~= Seq::new(4, |i: int| i),
        run_result((Session { stage: 0, failed: None }), outcomes)
            == Ok::<(), SessionFailure>(()),
{
    let s0 = Session { stage: 0, failed: None };
    lemma_run_succeeds_within(s0, outcomes);
}

/// From any live stage, a run whose remaining steps all succeed requests
/// exactly the remaining frames and ends in success.
proof fn lemma_run_succeeds_within(s: Session, outcomes: Seq<bool>)
    requires
        s.failed is None,
        s.stage <= 5,
        outcomes.len() >= 5 - s.stage,
        forall|i: int| 0 <= i < 5 - s.stage ==> outcomes[i],
    ensures
        writes_of_run(s, outcomes) =~= Seq::new(
            (if s.stage == 0 { 4int } else { 5 - s.stage as int }) as nat,
            |i: int| (if s.stage == 0 { 0int } else { s.stage as int - 1 }) + i,
        ),
        run_result(s, outcomes) == Ok::<(), SessionFailure>(()),
    decreases 5 - s.stage,
{
    if s.stage == 5 {
        assert(writes_of_run(s, outcomes) =~= Seq::empty());
    } else {
        let s2 = step_spec(s, outcomes[0]);
        assert forall|i: int| 0 <= i < 5 - s2.stage implies outcomes.drop_first()[i] by {
            assert(outcomes.drop_first()[i] == outcomes[i + 1]);
        }
        lemma_run_succeeds_within(s2, outcomes.drop_first());
    }
}

} // verus!
