//! Protocol names and the errors of a request/response stream.

use vstd::prelude::*;

verus! {

/// The request/response protocols.
#[derive(Debug, Clone, Copy, PartialEq, Eq, Structural)]
pub enum Protocol {
    Status,
    Goodbye,
    Ping,
    MetaData,
}

/// What can go wrong on a request/response stream.
#[derive(Debug, Clone, Copy, PartialEq, Eq, Structural)]
pub enum RPCError {
    /// The stream timed out.
    Timeout,
    /// A message could not be encoded or decoded.
    CodecFailure,
    /// The remote reset the stream.
    RemoteReset,
    /// The remote does not speak the protocol.
    UnsupportedProtocol,
    /// The message was malformed.
    InvalidData,
    /// The handler cancelled the request: work in flight for it is to be
    /// dropped.
    HandlerRejected,
}

} // verus!
