//! Decision logic of the heartbeat loop.
//!
//! The loop itself lives outside the library: each iteration it asks
//! [`heartbeat_step`] what to do, given whether the cancellation broadcast
//! has been observed, and then either emits the configured message and
//! sleeps for the configured interval, or terminates for good.

use vstd::prelude::*;

verus! {

/// What the heartbeat loop does on one iteration.
pub enum HeartbeatAction {
    /// Emit the configured message, sleep the configured interval, poll again.
    Emit,
    /// The cancellation broadcast arrived: terminate the loop permanently.
    Stop,
}

/// One iteration of the heartbeat loop: it terminates exactly when the
/// cancellation broadcast has been observed, and otherwise emits.
pub fn heartbeat_step(cancelled: bool) -> (r: HeartbeatAction)
    ensures
        r is Stop <==> cancelled,
        r is Emit <==> !cancelled,
{
    if cancelled {
        HeartbeatAction::Stop
    } else {
        HeartbeatAction::Emit
    }
}

} // verus!
