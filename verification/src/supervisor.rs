//! The connection lifecycle supervisor: a cancellable polling state machine
//! over one piece of memory, the last successfully handled candidate path.
//!
//! The loop around it runs elsewhere: each iteration it waits briefly for
//! the cancellation broadcast, checks whether the remembered path still
//! exists, asks discovery for a candidate, and hands all three observations
//! to [`Supervisor::poll`]. When the poll asks for a session, the loop runs
//! one and reports the outcome with [`Supervisor::on_session_success`] or
//! [`Supervisor::on_session_failure`], then sleeps until the next poll.
//!
//! The design is level-triggered over path identity: a path equal to the
//! remembered one counts as already handled, however many polls it stays
//! present; a session runs again only when the candidate differs from the
//! remembered path or the remembered path has disappeared.

use vstd::prelude::*;
use crate::opt_string_view;

verus! {

/// The supervisor's state as the specifications see it: the lifecycle memory
/// as a character sequence, and whether polling has stopped for good.
pub struct SupervisorModel {
    pub mem: Option<Seq<char>>,
    pub stopped: bool,
}

/// The lifecycle memory after the existence check: it is cleared exactly
/// when the path it names no longer exists on the host.
pub open spec fn clear_spec(mem: Option<Seq<char>>, still_exists: bool) -> Option<Seq<char>> {
    if mem is Some && !still_exists {
        None
    } else {
        mem
    }
}

/// Whether a poll with this memory and candidate runs a session: there must
/// be a candidate, and it must not equal the remembered path.
pub open spec fn should_run_spec(mem: Option<Seq<char>>, candidate: Option<Seq<char>>) -> bool {
    match candidate {
        Some(c) => match mem {
            Some(p) => p != c,
            None => true,
        },
        None => false,
    }
}

/// Everything one poll iteration observes of the outside world: whether the
/// cancellation broadcast has arrived, whether the remembered path still
/// exists, discovery's candidate, and — consulted only if a session actually
/// runs — whether that session succeeds.
pub struct PollInput {
    pub cancelled: bool,
    pub remembered_exists: bool,
    pub candidate: Option<Seq<char>>,
    pub session_ok: bool,
}

/// One poll iteration over the model: the next state, and whether a session
/// was run. Cancellation is terminal; a successful session sets the memory
/// to the candidate; a failed one leaves it unchanged, so the same candidate
/// is retried on the next poll.
pub open spec fn poll_once(m: SupervisorModel, inp: PollInput) -> (SupervisorModel, bool) {
    if m.stopped || inp.cancelled {
        (SupervisorModel { mem: m.mem, stopped: true }, false)
    } else {
        let mem = clear_spec(m.mem, inp.remembered_exists);
        if should_run_spec(mem, inp.candidate) {
            let new_mem = if inp.session_ok {
                inp.candidate
            } else {
                mem
            };
            (SupervisorModel { mem: new_mem, stopped: false }, true)
        } else {
            (SupervisorModel { mem, stopped: false }, false)
        }
    }
}

/// How many sessions a whole sequence of polls runs, starting from this
/// state.
pub open spec fn sessions_run(m: SupervisorModel, inputs: Seq<PollInput>) -> nat
    decreases inputs.len(),
{
    if inputs.len() == 0 {
        0
    } else {
        let stepped = poll_once(m, inputs[0]);
        (if stepped.1 {
            1nat
        } else {
            0nat
        }) + sessions_run(stepped.0, inputs.drop_first())
    }
}

/// What the supervisor asks its loop to do after one poll.
pub enum SupervisorAction {
    /// The cancellation broadcast has been observed: stop polling for good.
    Stop,
    /// Nothing to handle this iteration: sleep, then poll again.
    Idle,
    /// Run one connection session against this candidate path, then report
    /// the outcome.
    RunSession { path: String },
}

/// The supervisor itself: the lifecycle memory and the terminal flag.
pub struct Supervisor {
    /// The last candidate path a session succeeded on, if it still existed
    /// when last checked.
    pub last_handled: Option<String>,
    /// Set once the cancellation broadcast has been observed.
    pub stopped: bool,
}

impl Supervisor {
    /// This state as the specifications see it.
    pub open spec fn model(self) -> SupervisorModel {
        SupervisorModel { mem: opt_string_view(self.last_handled), stopped: self.stopped }
    }

    /// A fresh supervisor: no memory, polling.
    pub fn new() -> (r: Supervisor)
        ensures
            r.model() == (SupervisorModel { mem: None, stopped: false }),
    {
        Supervisor { last_handled: None, stopped: false }
    }

    /// The remembered path, for the loop's existence check.
    pub fn last_handled(&self) -> (r: Option<&String>)
        ensures
            match r {
                Some(p) => self.model().mem == Some(p@),
                None => self.model().mem is None,
            },
    {
        self.last_handled.as_ref()
    }

    /// One poll iteration, up to the session decision. The transition and
    /// the returned action follow [`poll_once`] exactly; when the action is
    /// to run a session, the model transition is completed by the outcome
    /// report that follows.
    pub fn poll(&mut self, cancelled: bool, remembered_exists: bool, candidate: Option<String>)
        -> (r: SupervisorAction)
        ensures
            (old(self).stopped || cancelled) ==> {
                &&& r is Stop
                &&& final(self).model() == (SupervisorModel {
                    mem: old(self).model().mem,
                    stopped: true,
                })
            },
            !(old(self).stopped || cancelled) ==> {
                let mem = clear_spec(old(self).model().mem, remembered_exists);
                &&& final(self).model() == (SupervisorModel { mem, stopped: false })
                &&& match r {
                    SupervisorAction::RunSession { path } => {
                        &&& should_run_spec(mem, opt_string_view(candidate))
                        &&& Some(path@) == opt_string_view(candidate)
                    },
                    SupervisorAction::Idle => !should_run_spec(mem, opt_string_view(candidate)),
                    SupervisorAction::Stop => false,
                }
            },
    {
        if self.stopped || cancelled {
            self.stopped = true;
            return SupervisorAction::Stop;
        }
        if self.last_handled.is_some() && !remembered_exists {
            self.last_handled = None;
        }
        match candidate {
            Some(c) => {
                let run = match &self.last_handled {
                    Some(prev) => !(*prev == c),
                    None => true,
                };
                if run {
                    SupervisorAction::RunSession { path: c }
                } else {
                    SupervisorAction::Idle
                }
            },
            None => SupervisorAction::Idle,
        }
    }

    /// Reports that the session against this path succeeded: the path
    /// becomes the lifecycle memory, so the same still-connected device is
    /// not handled again.
    pub fn on_session_success(&mut self, path: String)
        ensures
            final(self).model() == (SupervisorModel {
                mem: Some(path@),
                stopped: old(self).stopped,
            }),
    {
        self.last_handled = Some(path);
    }

    /// Reports that the session failed: the lifecycle memory is left
    /// untouched, so the same candidate is retried on the next poll.
    pub fn on_session_failure(&mut self)
        ensures
            *final(self) == *old(self),
    {
    }

    /// Drives one full poll iteration against scripted observations: polls,
    /// and if a session is requested, reports the scripted outcome. The
    /// combined transition is exactly [`poll_once`] on the model.
    pub fn run_poll(
        &mut self,
        cancelled: bool,
        remembered_exists: bool,
        candidate: Option<String>,
        session_ok: bool,
    ) -> (ran: bool)
        ensures
            ({
                let stepped = poll_once(old(self).model(), PollInput {
                    cancelled,
                    remembered_exists,
                    candidate: opt_string_view(candidate),
                    session_ok,
                });
                final(self).model() == stepped.0 && ran == stepped.1
            }),
    {
        let action = self.poll(cancelled, remembered_exists, candidate);
        match action {
            SupervisorAction::RunSession { path } => {
                if session_ok {
                    self.on_session_success(path);
                } else {
                    self.on_session_failure();
                }
                true
            },
            SupervisorAction::Idle => false,
            SupervisorAction::Stop => false,
        }
    }
}

/// While the memory holds the one candidate every poll keeps presenting, and
/// that path keeps existing, no further session runs.
proof fn lemma_handled_path_never_rerun(m: SupervisorModel, inputs: Seq<PollInput>, c: Seq<char>)
    requires
        m.mem == Some(c),
        forall|i: int| 0 <= i < inputs.len() ==> {
            &&& !#[trigger] inputs[i].cancelled
            &&& inputs[i].remembered_exists
            &&& inputs[i].candidate == Some(c)
        },
    ensures
        sessions_run(m, inputs) == 0,
    decreases inputs.len(),
{
    if inputs.len() > 0 {
        let stepped = poll_once(m, inputs[0]);
        assert(!stepped.1);
        assert(stepped.0.mem == Some(c));
        lemma_handled_path_never_rerun(stepped.0, inputs.drop_first(), c);
    }
}

/// A still-connected device is handled once: starting with no memory,
/// against polls that all present the same existing candidate and whose
/// sessions succeed, exactly one session runs, however many polls there are.
pub proof fn lemma_stable_candidate_runs_once(inputs: Seq<PollInput>, c: Seq<char>)
    requires
        inputs.len() >= 1,
        forall|i: int| 0 <= i < inputs.len() ==> {
            &&& !#[trigger] inputs[i].cancelled
            &&& inputs[i].remembered_exists
            &&& inputs[i].candidate == Some(c)
            &&& inputs[i].session_ok
        },
    ensures
        sessions_run((SupervisorModel { mem: None, stopped: false }), inputs) == 1,
{
    let m0 = SupervisorModel { mem: None, stopped: false };
    let stepped = poll_once(m0, inputs[0]);
    assert(stepped.1);
    assert(stepped.0.mem == Some(c));
    lemma_handled_path_never_rerun(stepped.0, inputs.drop_first(), c);
}

/// A poll that sees a candidate runs a session whenever the memory is empty,
/// names a different path, or names one that no longer exists.
pub proof fn lemma_new_or_changed_candidate_runs(m: SupervisorModel, inp: PollInput)
    requires
        !m.stopped,
        !inp.cancelled,
        inp.candidate is Some,
        m.mem is None || m.mem != inp.candidate || !inp.remembered_exists,
    ensures
        poll_once(m, inp).1,
{
}

/// A failed session leaves the lifecycle memory exactly as the existence
/// check left it, so the next poll sees the same memory.
pub proof fn lemma_failed_session_keeps_memory(m: SupervisorModel, inp: PollInput)
    requires
        !m.stopped,
        !inp.cancelled,
        !inp.session_ok,
    ensures
        poll_once(m, inp).0.mem == clear_spec(m.mem, inp.remembered_exists),
{
}

/// Polls that never present a candidate never run a session and never set
/// the lifecycle memory.
pub proof fn lemma_no_candidate_no_session(inputs: Seq<PollInput>)
    requires
        forall|i: int| 0 <= i < inputs.len() ==> {
            &&& !#[trigger] inputs[i].cancelled
            &&& inputs[i].candidate is None
        },
    ensures
        sessions_run((SupervisorModel { mem: None, stopped: false }), inputs) == 0,
{
    lemma_no_candidate_no_session_from((SupervisorModel { mem: None, stopped: false }), inputs);
}

/// Helper for [`lemma_no_candidate_no_session`], generalized over the
/// starting state with empty memory.
proof fn lemma_no_candidate_no_session_from(m: SupervisorModel, inputs: Seq<PollInput>)
    requires
        m.mem is None,
        forall|i: int| 0 <= i < inputs.len() ==> {
            &&& !#[trigger] inputs[i].cancelled
            &&& inputs[i].candidate is None
        },
    ensures
        sessions_run(m, inputs) == 0,
    decreases inputs.len(),
{
    if inputs.len() > 0 {
        let stepped = poll_once(m, inputs[0]);
        assert(!stepped.1);
        assert(stepped.0.mem is None);
        lemma_no_candidate_no_session_from(stepped.0, inputs.drop_first());
    }
}

/// Cancellation is terminal: a stopped supervisor never runs a session
/// again.
pub proof fn lemma_stopped_is_terminal(m: SupervisorModel, inputs: Seq<PollInput>)
    requires
        m.stopped,
    ensures
        sessions_run(m, inputs) == 0,
    decreases inputs.len(),
{
    if inputs.len() > 0 {
        let stepped = poll_once(m, inputs[0]);
        assert(!stepped.1);
        assert(stepped.0.stopped);
        lemma_stopped_is_terminal(stepped.0, inputs.drop_first());
    }
}

} // verus!
