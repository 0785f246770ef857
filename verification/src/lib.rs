//! Core logic of a host-side daemon that watches for a robot controller on a
//! serial device and, once per connection event, plays a fixed command
//! sequence over the wire.
//!
//! Everything here is pure decision logic and data construction: device-path
//! selection, wire-frame encoding, the per-connection session state machine,
//! and the polling lifecycle supervisor. The surrounding process (file
//! system scans, the serial port itself, signals, logging) feeds these
//! functions plain values and carries out the actions they return.

use vstd::prelude::*;

pub mod config;
pub mod encoder;
pub mod heartbeat;
pub mod locator;
pub mod session;
pub mod supervisor;

verus! {

/// The view of an optional owned string: the character sequence it holds, if
/// any.
pub open spec fn opt_string_view(o: Option<String>) -> Option<Seq<char>> {
    match o {
        Some(s) => Some(s@),
        None => None,
    }
}

} // verus!
