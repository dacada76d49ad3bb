//! The request/response behaviour.
//!
//! It keeps a queue of actions for the swarm. Sending a request or a response
//! appends a notification for the peer's connection handler; what a handler
//! reports is appended as an event for the composite behaviour. Polling takes
//! the oldest action off the queue.

pub mod handler;
pub mod methods;
pub mod protocol;
pub mod text;

use crate::rpc::handler::{HandlerErr, SubstreamId};
use crate::rpc::methods::{
    RPCCodedResponse, RPCCodedResponseView, RPCRequest, RPCRequestView, RPCResponse,
    RPCResponseView, RequestId,
};
use crate::swarm::{NetworkBehaviourAction, NotifyHandler, Poll};
use libp2p::PeerId;
use vstd::prelude::*;

verus! {

/// Seconds after which the handler gives up on a substream.
pub const SUBSTREAM_TIMEOUT_SECS: u64 = 30;

/// What the behaviour sends to a connection handler.
#[derive(Debug, Clone, PartialEq)]
pub enum RPCSend {
    /// A request. The `RequestId` is given by whoever makes the request.
    Request(RequestId, RPCRequest),
    /// A response to the request that arrived on the substream `SubstreamId`.
    Response(SubstreamId, RPCCodedResponse),
}

/// What a connection handler received from the peer.
#[derive(Debug, Clone, PartialEq)]
pub enum RPCReceived {
    /// A request. The handler stamps it with the substream it arrived on.
    Request(SubstreamId, RPCRequest),
    /// A response to the request that was sent under `RequestId`.
    Response(RequestId, RPCResponse),
}

/// A handler's report, with the peer and the connection it concerns.
#[derive(Debug, PartialEq)]
pub struct RPCMessage {
    /// The peer that sent the message.
    pub peer_id: PeerId,
    /// The connection whose handler reports.
    pub conn_id: libp2p::core::connection::ConnectionId,
    /// What was received, or the error of the stream.
    pub event: Result<RPCReceived, HandlerErr>,
}

/// What an [`RPCSend`] is.
pub enum RPCSendView {
    Request(RequestId, RPCRequestView),
    Response(SubstreamId, RPCCodedResponseView),
}

/// What an [`RPCReceived`] is.
pub enum RPCReceivedView {
    Request(SubstreamId, RPCRequestView),
    Response(RequestId, RPCResponseView),
}

/// What an [`RPCMessage`] is.
pub struct RPCMessageView {
    pub peer_id: PeerId,
    pub conn_id: libp2p::core::connection::ConnectionId,
    pub event: Result<RPCReceivedView, HandlerErr>,
}

impl View for RPCSend {
    type V = RPCSendView;

    open spec fn view(&self) -> RPCSendView {
        match self {
            RPCSend::Request(id, request) => RPCSendView::Request(*id, request@),
            RPCSend::Response(id, response) => RPCSendView::Response(*id, response@),
        }
    }
}

impl View for RPCReceived {
    type V = RPCReceivedView;

    open spec fn view(&self) -> RPCReceivedView {
        match self {
            RPCReceived::Request(id, request) => RPCReceivedView::Request(*id, request@),
            RPCReceived::Response(id, response) => RPCReceivedView::Response(*id, response@),
        }
    }
}

/// What a handler's report is.
pub open spec fn handler_event_view(
    event: Result<RPCReceived, HandlerErr>,
) -> Result<RPCReceivedView, HandlerErr> {
    match event {
        Ok(received) => Ok(received@),
        Err(error) => Err(error),
    }
}

impl View for RPCMessage {
    type V = RPCMessageView;

    open spec fn view(&self) -> RPCMessageView {
        RPCMessageView {
            peer_id: self.peer_id,
            conn_id: self.conn_id,
            event: handler_event_view(self.event),
        }
    }
}

/// An action of the request/response behaviour.
pub type RpcAction = NetworkBehaviourAction<RPCSend, RPCMessage>;

/// What an [`RpcAction`] is.
pub type RpcActionView = NetworkBehaviourAction<RPCSendView, RPCMessageView>;

/// The notification that carries a request to any one connection of a peer.
pub open spec fn request_action(
    peer_id: PeerId,
    request_id: RequestId,
    request: RPCRequestView,
) -> RpcActionView {
    NetworkBehaviourAction::NotifyHandler {
        peer_id,
        handler: NotifyHandler::Any,
        event: RPCSendView::Request(request_id, request),
    }
}

/// The notification that carries a response back on the connection and the
/// substream that its request came in on.
pub open spec fn response_action(
    peer_id: PeerId,
    id: (libp2p::core::connection::ConnectionId, SubstreamId),
    response: RPCCodedResponseView,
) -> RpcActionView {
    NetworkBehaviourAction::NotifyHandler {
        peer_id,
        handler: NotifyHandler::One(id.0),
        event: RPCSendView::Response(id.1, response),
    }
}

/// The event that hands a handler's report to the composite behaviour.
pub open spec fn report_action(
    peer_id: PeerId,
    conn_id: libp2p::core::connection::ConnectionId,
    event: Result<RPCReceivedView, HandlerErr>,
) -> RpcActionView {
    NetworkBehaviourAction::GenerateEvent(RPCMessageView { peer_id, conn_id, event })
}

/// The request/response behaviour: a queue of actions, oldest first.
pub struct RPC {
    events: Vec<RpcAction>,
}

impl View for RPC {
    type V = Seq<RpcActionView>;

    closed spec fn view(&self) -> Seq<RpcActionView> {
        self.events@.map_values(|action: RpcAction| action@)
    }
}

impl RPC {
    /// A behaviour with nothing queued.
    pub fn new() -> (rpc: Self)
        ensures
            rpc@ == Seq::<RpcActionView>::empty(),
    {
        let rpc = RPC { events: Vec::new() };
        assert(rpc@ =~= Seq::<RpcActionView>::empty());
        rpc
    }

    fn enqueue(&mut self, action: RpcAction)
        ensures
            final(self)@ == old(self)@.push(action@),
    {
        self.events.push(action);
        assert(self@ =~= old(self)@.push(action@));
    }

    /// Queues a response to the request `id`. It goes to the handler of the
    /// connection `id.0` and names the substream `id.1`.
    pub fn send_response(
        &mut self,
        peer_id: PeerId,
        id: (libp2p::core::connection::ConnectionId, SubstreamId),
        event: RPCCodedResponse,
    )
        ensures
            final(self)@ == old(self)@.push(response_action(peer_id, id, event@)),
    {
        self.enqueue(
            NetworkBehaviourAction::NotifyHandler {
                peer_id,
                handler: NotifyHandler::One(id.0),
                event: RPCSend::Response(id.1, event),
            },
        );
    }

    /// Queues a request to a peer. It goes to the handler of any one
    /// connection.
    pub fn send_request(&mut self, peer_id: PeerId, request_id: RequestId, event: RPCRequest)
        ensures
            final(self)@ == old(self)@.push(request_action(peer_id, request_id, event@)),
    {
        self.enqueue(
            NetworkBehaviourAction::NotifyHandler {
                peer_id,
                handler: NotifyHandler::Any,
                event: RPCSend::Request(request_id, event),
            },
        );
    }

    /// A peer connected: asks it for its metadata, on the behaviour's own
    /// account.
    pub fn inject_connected(&mut self, peer_id: &PeerId)
        ensures
            final(self)@ == old(self)@.push(
                request_action(*peer_id, RequestId::Behaviour, RPCRequestView::MetaData),
            ),
    {
        self.send_request(peer_id.clone(), RequestId::Behaviour, RPCRequest::MetaData);
    }

    /// Queues what a connection handler reported, for the composite behaviour
    /// to act on.
    pub fn inject_event(
        &mut self,
        peer_id: PeerId,
        conn_id: libp2p::core::connection::ConnectionId,
        event: Result<RPCReceived, HandlerErr>,
    )
        ensures
            final(self)@ == old(self)@.push(
                report_action(peer_id, conn_id, handler_event_view(event)),
            ),
    {
        self.enqueue(NetworkBehaviourAction::GenerateEvent(RPCMessage { peer_id, conn_id, event }));
    }

    /// Takes the oldest action off the queue, if there is one.
    pub fn poll(&mut self) -> (polled: Poll<RpcAction>)
        ensures
            old(self)@.len() == 0 ==> polled is Pending && final(self)@ == old(self)@,
            old(self)@.len() > 0 ==> polled@ == Poll::Ready(old(self)@.first()) && final(self)@
                == old(self)@.drop_first(),
    {
        if self.events.len() > 0 {
            let action = self.events.remove(0);
            assert(self@ =~= old(self)@.drop_first());
            return Poll::Ready(action);
        }
        Poll::Pending
    }

    /// How many actions are queued.
    pub fn len(&self) -> (n: usize)
        ensures
            n == self@.len(),
    {
        self.events.len()
    }
}

} // verus!
