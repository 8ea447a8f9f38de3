//! Active-message bridge core: per-id registration and dispatch, the inbound
//! message queue, the three payload-ownership representations with their
//! release and consumption rules, the outbound send/reply path, and the
//! completion-status classification that turns a native completion signal
//! into an ordinary result.
//!
//! The native transport itself (endpoint setup, the progress loop, raw
//! handles) is an external collaborator: this crate works on the plain values
//! that cross that boundary — attribute words, status codes, byte buffers and
//! raw handle words — and states exactly what each operation does with them.
use vstd::prelude::*;

pub mod bridge;
pub mod data;
pub mod msg;
pub mod registry;
pub mod send;

verus! {

/// Errors surfaced by the bridge. None of them terminates the process.
#[derive(Clone, Copy, Debug, PartialEq, Eq, Structural)]
pub enum AmError {
    /// A native completion reported a non-success status; the code is kept.
    TransportFailure(i64),
    /// A caller-supplied destination was smaller than the payload.
    BufferTooSmall,
    /// A reply was attempted on a message without reply capability.
    PreconditionViolated,
}

} // verus!
