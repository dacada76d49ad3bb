//! What crosses the boundary between the behaviour and the application: the
//! requests and responses the application may send and is shown, and the
//! events the behaviour reports.
//!
//! Ping and metadata are absent here on purpose. They are dealt with inside
//! the behaviour and never reach the application.

use crate::rpc::handler::SubstreamId;
use crate::rpc::methods::{
    RPCCodedResponse, RPCCodedResponseView, RPCRequest, RPCRequestView, RPCResponse,
    RPCResponseView, RequestId,
};
use crate::rpc::protocol::RPCError;
use libp2p::gossipsub::{MessageId, TopicHash};
use libp2p::PeerId;
use vstd::prelude::*;

verus! {

/// Identifier of a request made by a peer: the connection it came in on, and
/// the substream within that connection.
pub type PeerRequestId = (libp2p::core::connection::ConnectionId, SubstreamId);

/// A request that the application sends or is shown.
#[derive(Debug, Clone, PartialEq)]
pub enum Request {
    /// A status message.
    Status(Vec<u8>),
    /// A goodbye message.
    Goodbye(Vec<u8>),
}

/// A response that the application sends or is shown.
#[derive(Debug, Clone, PartialEq)]
pub enum Response {
    /// A status message.
    Status(Vec<u8>),
}

/// What the behaviour reports when polled.
#[derive(Debug, PartialEq)]
pub enum BehaviourEvent {
    /// A request that the application sent has failed.
    RPCFailed {
        /// The id the application gave the request.
        id: RequestId,
        /// The peer the request was sent to.
        peer_id: PeerId,
        /// What went wrong.
        error: RPCError,
    },
    /// A peer made a request.
    RequestReceived {
        /// The peer that made the request.
        peer_id: PeerId,
        /// Identifier of the request. Every response to it names this id.
        id: PeerRequestId,
        /// The request.
        request: Request,
    },
    /// A peer answered a request of the application.
    ResponseReceived {
        /// The peer that answered.
        peer_id: PeerId,
        /// The id the application gave the request.
        id: RequestId,
        /// The response.
        response: Response,
    },
    /// A gossip message arrived.
    PubsubMessage {
        /// The id of the message, by which it can be propagated later.
        id: MessageId,
        /// The peer the message was received from, which need not be the
        /// peer that published it.
        source: PeerId,
        /// The topics the message was sent on.
        topics: Vec<TopicHash>,
        /// The message itself.
        message: Vec<u8>,
    },
    /// A peer subscribed to a topic.
    PeerSubscribed(PeerId, TopicHash),
    /// It is time to send a status request to this peer.
    StatusPeer(PeerId),
}

/// What a [`Request`] is.
pub enum RequestView {
    Status(Seq<u8>),
    Goodbye(Seq<u8>),
}

/// What a [`Response`] is.
pub enum ResponseView {
    Status(Seq<u8>),
}

/// What a [`BehaviourEvent`] is.
pub enum BehaviourEventView {
    RPCFailed { id: RequestId, peer_id: PeerId, error: RPCError },
    RequestReceived { peer_id: PeerId, id: PeerRequestId, request: RequestView },
    ResponseReceived { peer_id: PeerId, id: RequestId, response: ResponseView },
    PubsubMessage { id: MessageId, source: PeerId, topics: Seq<TopicHash>, message: Seq<u8> },
    PeerSubscribed(PeerId, TopicHash),
    StatusPeer(PeerId),
}

impl View for Request {
    type V = RequestView;

    open spec fn view(&self) -> RequestView {
        match self {
            Request::Status(bytes) => RequestView::Status(bytes@),
            Request::Goodbye(bytes) => RequestView::Goodbye(bytes@),
        }
    }
}

impl View for Response {
    type V = ResponseView;

    open spec fn view(&self) -> ResponseView {
        match self {
            Response::Status(bytes) => ResponseView::Status(bytes@),
        }
    }
}

impl View for BehaviourEvent {
    type V = BehaviourEventView;

    open spec fn view(&self) -> BehaviourEventView {
        match self {
            BehaviourEvent::RPCFailed { id, peer_id, error } => BehaviourEventView::RPCFailed {
                id: *id,
                peer_id: *peer_id,
                error: *error,
            },
            BehaviourEvent::RequestReceived {
                peer_id,
                id,
                request,
            } => BehaviourEventView::RequestReceived {
                peer_id: *peer_id,
                id: *id,
                request: request@,
            },
            BehaviourEvent::ResponseReceived {
                peer_id,
                id,
                response,
            } => BehaviourEventView::ResponseReceived {
                peer_id: *peer_id,
                id: *id,
                response: response@,
            },
            BehaviourEvent::PubsubMessage {
                id,
                source,
                topics,
                message,
            } => BehaviourEventView::PubsubMessage {
                id: *id,
                source: *source,
                topics: topics@,
                message: message@,
            },
            BehaviourEvent::PeerSubscribed(peer_id, topic) => BehaviourEventView::PeerSubscribed(
                *peer_id,
                *topic,
            ),
            BehaviourEvent::StatusPeer(peer_id) => BehaviourEventView::StatusPeer(*peer_id),
        }
    }
}

impl RequestView {
    /// The request as the request/response protocol carries it.
    pub open spec fn to_rpc(self) -> RPCRequestView {
        match self {
            RequestView::Status(bytes) => RPCRequestView::Status(bytes),
            RequestView::Goodbye(bytes) => RPCRequestView::Goodbye(bytes),
        }
    }
}

impl ResponseView {
    /// The response as the request/response protocol carries it: a success.
    pub open spec fn to_rpc(self) -> RPCCodedResponseView {
        match self {
            ResponseView::Status(bytes) => RPCCodedResponseView::Success(
                RPCResponseView::Status(bytes),
            ),
        }
    }
}

impl RPCRequestView {
    /// The request that the application is shown when this one arrives from
    /// a peer: a status request is shown, every other request is not.
    pub open spec fn shown(self) -> Option<RequestView> {
        match self {
            RPCRequestView::Status(bytes) => Some(RequestView::Status(bytes)),
            _ => None,
        }
    }
}

impl RPCResponseView {
    /// The response that the application is shown when this one arrives from
    /// a peer: a status response is shown, every other response is not.
    pub open spec fn shown(self) -> Option<ResponseView> {
        match self {
            RPCResponseView::Status(bytes) => Some(ResponseView::Status(bytes)),
            _ => None,
        }
    }
}

impl From<Request> for RPCRequest {
    fn from(req: Request) -> (rpc: RPCRequest)
        ensures
            rpc@ == req@.to_rpc(),
    {
        match req {
            Request::Goodbye(reason) => RPCRequest::Goodbye(reason),
            Request::Status(status) => RPCRequest::Status(status),
        }
    }
}

impl vstd::std_specs::convert::FromSpecImpl<Request> for RPCRequest {
    open spec fn obeys_from_spec() -> bool {
        true
    }

    open spec fn from_spec(req: Request) -> RPCRequest {
        match req {
            Request::Goodbye(reason) => RPCRequest::Goodbye(reason),
            Request::Status(status) => RPCRequest::Status(status),
        }
    }
}

impl From<Response> for RPCCodedResponse {
    fn from(resp: Response) -> (rpc: RPCCodedResponse)
        ensures
            rpc@ == resp@.to_rpc(),
    {
        match resp {
            Response::Status(status) => RPCCodedResponse::Success(RPCResponse::Status(status)),
        }
    }
}

impl vstd::std_specs::convert::FromSpecImpl<Response> for RPCCodedResponse {
    open spec fn obeys_from_spec() -> bool {
        true
    }

    open spec fn from_spec(resp: Response) -> RPCCodedResponse {
        match resp {
            Response::Status(status) => RPCCodedResponse::Success(RPCResponse::Status(status)),
        }
    }
}

/// A status request that is sent and comes back is shown as it was sent.
pub proof fn lemma_status_request_round_trip(bytes: Seq<u8>)
    ensures
        RequestView::Status(bytes).to_rpc() == RPCRequestView::Status(bytes),
        RPCRequestView::Status(bytes).shown() == Some(RequestView::Status(bytes)),
        RequestView::Status(bytes).to_rpc().shown() == Some(RequestView::Status(bytes)),
{
}

/// A status response is carried as a successful status response with the
/// same bytes, and is shown with the same bytes where it arrives.
pub proof fn lemma_status_response_preserved(bytes: Seq<u8>)
    ensures
        ResponseView::Status(bytes).to_rpc() == RPCCodedResponseView::Success(
            RPCResponseView::Status(bytes),
        ),
        RPCResponseView::Status(bytes).shown() == Some(ResponseView::Status(bytes)),
{
}

} // verus!
