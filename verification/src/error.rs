//! The error taxonomy shared by the codec, the buffer pool and the streaming
//! engines.

use vstd::prelude::*;

verus! {

/// Everything that can go wrong while negotiating formats or streaming
/// buffers.
///
/// `MalformedResponse` always means the driver returned data outside the
/// known schema; it is surfaced, never guessed at. `WouldBlock` is the only
/// condition a caller is expected to retry. `AlreadyActive`, `NotActive` and
/// `NothingQueued` report caller protocol-ordering violations.
#[derive(Clone, Copy, PartialEq, Eq, Structural, Debug)]
pub enum StreamError {
    /// The operation, format or buffer type is not implemented by this driver.
    Unsupported,
    /// The resource is already allocated or active.
    Busy,
    /// The driver returned data outside the known schema.
    MalformedResponse,
    /// Transient condition; the caller may retry.
    WouldBlock,
    /// The start request was issued while the stream was already started.
    AlreadyActive,
    /// The operation needs a started stream (or an engine not yet closed).
    NotActive,
    /// A retrieval was attempted while no slot was queued with the driver.
    NothingQueued,
    /// A hard device failure; the engine instance must be reconstructed.
    Io,
}

} // verus!
