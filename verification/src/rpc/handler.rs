//! What the per-connection request/response handler reports.

use crate::rpc::methods::RequestId;
use crate::rpc::protocol::{Protocol, RPCError};
use vstd::prelude::*;

verus! {

/// Identifier of the inbound substream that carries one request. It is unique
/// within its connection only.
#[derive(Debug, Clone, Copy, PartialEq, Eq, Structural)]
pub struct SubstreamId(pub usize);

/// An error reported by the handler.
#[allow(inconsistent_fields)]
#[derive(Debug, Clone, Copy, PartialEq, Eq, Structural)]
pub enum HandlerErr {
    /// A request of the peer failed: an error was sent to the peer, or the
    /// stream timed out.
    Inbound { id: SubstreamId, proto: Protocol, error: RPCError },
    /// A request made to the peer failed.
    Outbound { id: RequestId, proto: Protocol, error: RPCError },
}

} // verus!
