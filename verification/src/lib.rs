//! Event multiplexing and incremental state-reconciliation engine for a
//! terminal Matrix client.
//!
//! The library owns the pure core: ordered diff application, scroll and
//! cursor control, backward chunk-store reconstruction, the mode-scoped
//! message-dispatch state machine with bounded chaining, and the admission
//! policy of the input queue. Terminal I/O, the remote service layer and
//! rendering live outside, and talk to this core through plain values.

use vstd::prelude::*;

pub mod app;
pub mod chunk;
pub mod diff;
pub mod effect;
pub mod input;
pub mod mode;
pub mod queue;
pub mod room;
pub mod timeline;

verus! {

/// Process start-up options: which homeserver to contact and where session
/// data lives on disk.
pub struct Options {
    /// The homeserver the client should connect to.
    pub server_name: String,
    /// The path where session specific data should be stored.
    pub session_path: String,
}

} // verus!
