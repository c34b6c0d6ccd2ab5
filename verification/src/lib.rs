//! The verified core of an adapter that presents one established HTTP
//! client connection as a request/response service.
//!
//! The transport owns the wire; this crate owns the contract around
//! it: the readiness handshake that grants one call per observed
//! readiness (`connection`), the single-shot response future and the
//! verbatim surfacing of the response head (`response`), the body
//! stream re-exposed one-to-one under the stack's common body contract
//! (`body`), and the once-broken-always-broken failure discipline. An
//! unverified rim owns the transport's send handle, polls it, and
//! feeds every report it gets into these types, which decide what the
//! adapter answers.

use vstd::prelude::*;

pub mod body;
pub mod connection;
pub mod message;
pub mod response;

verus! {

/// The kind of a transport-reported error, as the transport classifies it.
#[derive(Clone, Copy, Debug, PartialEq, Eq, Structural)]
pub enum ErrorKind {
    /// The peer closed the connection.
    Closed,
    /// The peer violated the wire protocol.
    Protocol,
    /// Transmission of an outbound body was aborted.
    BodyWrite,
    /// The pending request was cancelled before a response arrived.
    Canceled,
}

/// An error surfaced by the transport, either fatal to the whole
/// connection or scoped to a single request.
#[derive(Clone, Copy, Debug, PartialEq, Eq, Structural)]
pub struct TransportError {
    pub kind: ErrorKind,
    pub fatal: bool,
}

impl TransportError {
    /// Builds an error of the given kind, fatal to the connection.
    pub fn fatal(kind: ErrorKind) -> (r: TransportError)
        ensures
            r.kind == kind,
            r.fatal,
    {
        TransportError { kind, fatal: true }
    }
}

} // verus!
