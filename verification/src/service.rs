//! What the application asks of the network, and what the behaviour makes of
//! it.
//!
//! The application hands its wishes to the service that runs the swarm. The
//! service passes each of them to the behaviour, which queues what is to be
//! sent and says what is to be published.

use crate::behaviour::events::{PeerRequestId, Request, RequestView, Response, ResponseView};
use crate::behaviour::model::BehaviourView;
use crate::behaviour::Behaviour;
use crate::gossip::Publication;
use crate::rpc::methods::{error_response, RPCResponseErrorCode, RequestId};
use crate::rpc::{request_action, response_action};
use crate::types::globals::copy_bytes;
use crate::types::topics::GossipTopic;
use libp2p::PeerId;
use vstd::prelude::*;

verus! {

/// A message of the request/response protocols that the application wants
/// sent.
#[derive(Debug, PartialEq)]
pub enum RPCEvent {
    /// A request, under an id of the application's.
    Request(RequestId, Request),
    /// A response to the request of a peer.
    Response(PeerRequestId, Response),
    /// An error in answer to the request of a peer: its code and a reason.
    Error(PeerRequestId, RPCResponseErrorCode, String),
}

/// What the application wants sent to a peer.
#[derive(Debug, PartialEq)]
pub enum OutgoingMessage {
    /// A message of the request/response protocols.
    RPC(RPCEvent),
}

/// What the application asks of the network.
#[derive(Debug, PartialEq)]
pub enum NetworkMessage {
    /// Send a message to a peer.
    Send(PeerId, OutgoingMessage),
    /// Publish a message on topics.
    Publish { topics: Vec<GossipTopic>, message: Vec<u8> },
}

/// What an [`RPCEvent`] is.
pub enum RPCEventView {
    Request(RequestId, RequestView),
    Response(PeerRequestId, ResponseView),
    Error(PeerRequestId, RPCResponseErrorCode, Seq<char>),
}

impl View for RPCEvent {
    type V = RPCEventView;

    open spec fn view(&self) -> RPCEventView {
        match self {
            RPCEvent::Request(id, request) => RPCEventView::Request(*id, request@),
            RPCEvent::Response(id, response) => RPCEventView::Response(*id, response@),
            RPCEvent::Error(id, code, reason) => RPCEventView::Error(*id, *code, reason@),
        }
    }
}

impl RPCEventView {
    /// Whether the message is a request under the id that marks the
    /// behaviour's own requests. Such a request is not the application's to
    /// make.
    pub open spec fn reserved(self) -> bool {
        self matches RPCEventView::Request(id, _) && id == RequestId::Behaviour
    }
}

/// The publications of one message on each of the topics, in their order.
pub open spec fn publications_of(topics: Seq<GossipTopic>, message: Seq<u8>) -> Seq<
    (Seq<char>, Seq<u8>),
> {
    topics.map_values(|topic: GossipTopic| (topic@, message))
}

/// What a list of publications is.
pub open spec fn publications_view(publications: Seq<Publication>) -> Seq<(Seq<char>, Seq<u8>)> {
    publications.map_values(|publication: Publication| (publication.topic@, publication.data@))
}

impl BehaviourView {
    /// A message of the application for a peer is queued, unless it is a
    /// request under the reserved id.
    pub open spec fn send_rpc(self, peer_id: PeerId, event: RPCEventView) -> BehaviourView {
        match event {
            RPCEventView::Request(id, request) => if id == RequestId::Behaviour {
                self
            } else {
                self.send(request_action(peer_id, id, request.to_rpc()))
            },
            RPCEventView::Response(id, response) => self.send(
                response_action(peer_id, id, response.to_rpc()),
            ),
            RPCEventView::Error(id, code, reason) => self.send(
                response_action(peer_id, id, error_response(code, reason)),
            ),
        }
    }

    /// What the application asks is done, as far as it is for the behaviour
    /// to do.
    pub open spec fn on_network_message(self, message: NetworkMessage) -> BehaviourView {
        match message {
            NetworkMessage::Send(peer_id, OutgoingMessage::RPC(event)) => self.send_rpc(
                peer_id,
                event@,
            ),
            NetworkMessage::Publish { .. } => self,
        }
    }
}

/// The publications that a request of the application calls for.
pub open spec fn publications_for(message: NetworkMessage) -> Seq<(Seq<char>, Seq<u8>)> {
    match message {
        NetworkMessage::Send(..) => Seq::empty(),
        NetworkMessage::Publish { topics, message } => publications_of(topics@, message@),
    }
}

impl Behaviour {
    /// Queues a message of the application for a peer. A request under the
    /// reserved id is not queued; the answer tells whether the message was.
    pub fn send_rpc(&mut self, peer_id: PeerId, rpc_event: RPCEvent) -> (queued: bool)
        ensures
            final(self)@ == old(self)@.send_rpc(peer_id, rpc_event@),
            queued == !rpc_event@.reserved(),
    {
        match rpc_event {
            RPCEvent::Request(id, request) => {
                if id == RequestId::Behaviour {
                    return false;
                }
                self.send_request(peer_id, id, request);
            },
            RPCEvent::Response(id, response) => {
                self.send_successful_response(peer_id, id, response);
            },
            RPCEvent::Error(id, code, reason) => {
                self.send_error_response(peer_id, id, code, reason);
            },
        }
        true
    }

    /// Makes a message ready to be published on each of the topics, in their
    /// order.
    pub fn publish_all(&self, topics: Vec<GossipTopic>, message: Vec<u8>) -> (publications: Vec<
        Publication,
    >)
        ensures
            publications_view(publications@) == publications_of(topics@, message@),
    {
        let mut publications: Vec<Publication> = Vec::new();
        let mut i: usize = 0;
        while i < topics.len()
            invariant
                i <= topics.len(),
                publications_view(publications@) == publications_of(topics@.take(i as int), message@),
            decreases topics.len() - i,
        {
            let ghost before = publications@;
            let publication = self.publish(topics[i].duplicate(), copy_bytes(&message));
            let ghost added = (publication.topic@, publication.data@);
            publications.push(publication);
            proof {
                assert(topics@.take(i + 1) =~= topics@.take(i as int).push(topics@[i as int]));
                assert(publications_view(publications@) =~= publications_view(before).push(
                    added,
                ));
                assert(publications_of(topics@.take(i + 1), message@) =~= publications_of(
                    topics@.take(i as int),
                    message@,
                ).push(added));
            }
            i += 1;
        }
        proof {
            assert(topics@.take(i as int) =~= topics@);
        }
        publications
    }

    /// Does what the application asks, as far as it is for the behaviour to
    /// do: a message for a peer is queued, and for a message to be published
    /// the publications are handed back, for the gossip engine.
    pub fn on_network_message(&mut self, message: NetworkMessage) -> (publications: Vec<
        Publication,
    >)
        ensures
            final(self)@ == old(self)@.on_network_message(message),
            publications_view(publications@) == publications_for(message),
    {
        match message {
            NetworkMessage::Send(peer_id, OutgoingMessage::RPC(rpc_event)) => {
                self.send_rpc(peer_id, rpc_event);
                let publications: Vec<Publication> = Vec::new();
                assert(publications_view(publications@) =~= Seq::empty());
                publications
            },
            NetworkMessage::Publish { topics, message } => self.publish_all(topics, message),
        }
    }
}

} // verus!
