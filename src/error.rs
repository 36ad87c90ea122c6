use vstd::prelude::*;

verus! {

/// Why the source could not be read.
#[derive(Debug, Clone, Copy, PartialEq, Eq, Structural)]
pub enum IoFailure {
    NotFound,
    PermissionDenied,
    Other,
}

/// The errors of the agent.
#[derive(Debug, Clone, PartialEq, Eq)]
pub enum Error {
    Io(IoFailure),
    SendError,
    RecvError,
    SystemTime,
    Msg(String),
}

/// How a sink failed to take an event.
#[derive(Debug, Clone, Copy, PartialEq, Eq, Structural)]
pub enum SinkError {
    /// Worth retrying later (a reset connection, a timeout).
    Transient,
    /// Never worth retrying; the event is dropped for this sink.
    Permanent,
}

} // verus!
