//! The behaviour as a value, and what each thing that happens to it makes of
//! it.
//!
//! [`BehaviourView`] holds what the behaviour consists of: the queue of the
//! request/response behaviour, the updates that wait for the peer manager,
//! the events that wait for the application, the peers that wait to be
//! disconnected, and the local payloads. Every function here says what the
//! behaviour is after something has happened; the executable behaviour is
//! held to them.

use crate::behaviour::disconnect::enqueued;
use crate::behaviour::events::{BehaviourEventView, PeerRequestId, RequestView, ResponseView};
use crate::gossip::GossipsubEvent;
use crate::identify::IdentifyEvent;
use crate::peer_manager::PeerManagerUpdateView;
use crate::rpc::handler::HandlerErr;
use crate::rpc::methods::{
    RPCCodedResponseView, RPCRequestView, RPCResponseView, RequestId,
};
use crate::rpc::{
    request_action, response_action, RPCMessageView, RPCReceivedView, RpcActionView,
};
use crate::seen_cache::keys_after_put;
use crate::types::globals::NetworkGlobalsView;
use crate::types::subscriptions::SubscriptionCallView;
use libp2p::gossipsub::{Gossipsub, MessageId};
use libp2p::PeerId;
use vstd::prelude::*;

verus! {

/// What a behaviour is.
pub struct BehaviourView {
    /// The gossip engine.
    pub gossipsub: Gossipsub,
    /// The queue of the request/response behaviour, oldest first.
    pub rpc: Seq<RpcActionView>,
    /// What waits to be told to the peer manager, oldest first.
    pub peer_manager: Seq<PeerManagerUpdateView>,
    /// The events that wait for the application, oldest first.
    pub events: Seq<BehaviourEventView>,
    /// The peers that wait to be disconnected, the next one first.
    pub peers_to_dc: Seq<PeerId>,
    /// The metadata of the local node.
    pub meta_data: Seq<u8>,
    /// The ping payload of the local node.
    pub ping_data: Seq<u8>,
    /// The ids of the gossip messages seen of late, the latest first.
    pub seen_gossip_messages: Seq<MessageId>,
    /// How many such ids are kept at most.
    pub seen_capacity: nat,
    /// The values shared with the embedder.
    pub network_globals: NetworkGlobalsView,
    /// The fork id of the local node.
    pub enr_fork_id: Seq<u8>,
}

impl BehaviourView {
    /// The same behaviour around another gossip engine.
    pub open spec fn with_gossipsub(self, gossipsub: Gossipsub) -> BehaviourView {
        BehaviourView { gossipsub, ..self }
    }

    /// An update joins those that wait for the peer manager.
    pub open spec fn notify(self, update: PeerManagerUpdateView) -> BehaviourView {
        BehaviourView { peer_manager: self.peer_manager.push(update), ..self }
    }

    /// An event joins those that wait for the application.
    pub open spec fn emit(self, event: BehaviourEventView) -> BehaviourView {
        BehaviourView { events: self.events.push(event), ..self }
    }

    /// An action joins the queue of the request/response behaviour.
    pub open spec fn send(self, action: RpcActionView) -> BehaviourView {
        BehaviourView { rpc: self.rpc.push(action), ..self }
    }

    /// A peer joins those that wait to be disconnected, unless it waits
    /// already.
    pub open spec fn disconnect(self, peer_id: PeerId) -> BehaviourView {
        BehaviourView { peers_to_dc: enqueued(self.peers_to_dc, peer_id), ..self }
    }

    /// A ping with the local ping payload is sent to a peer.
    pub open spec fn ping(self, id: RequestId, peer_id: PeerId) -> BehaviourView {
        self.send(request_action(peer_id, id, RPCRequestView::Ping(self.ping_data)))
    }

    /// A pong with the local ping payload answers the request `id`.
    pub open spec fn pong(self, id: PeerRequestId, peer_id: PeerId) -> BehaviourView {
        self.send(
            response_action(
                peer_id,
                id,
                RPCCodedResponseView::Success(RPCResponseView::Pong(self.ping_data)),
            ),
        )
    }

    /// A peer is asked for its metadata, on the behaviour's own account.
    pub open spec fn send_meta_data_request(self, peer_id: PeerId) -> BehaviourView {
        self.send(request_action(peer_id, RequestId::Behaviour, RPCRequestView::MetaData))
    }

    /// The local metadata answers the request `id`.
    pub open spec fn send_meta_data_response(
        self,
        id: PeerRequestId,
        peer_id: PeerId,
    ) -> BehaviourView {
        self.send(
            response_action(
                peer_id,
                id,
                RPCCodedResponseView::Success(RPCResponseView::MetaData(self.meta_data)),
            ),
        )
    }

    /// A response is shown to the application, unless the request was the
    /// behaviour's own.
    pub open spec fn propagate_response(
        self,
        id: RequestId,
        peer_id: PeerId,
        response: ResponseView,
    ) -> BehaviourView {
        if id == RequestId::Behaviour {
            self
        } else {
            self.emit(BehaviourEventView::ResponseReceived { peer_id, id, response })
        }
    }

    /// A request is shown to the application.
    pub open spec fn propagate_request(
        self,
        id: PeerRequestId,
        peer_id: PeerId,
        request: RequestView,
    ) -> BehaviourView {
        self.emit(BehaviourEventView::RequestReceived { peer_id, id, request })
    }

    /// A stream with a peer has failed. The peer manager is told. The
    /// application is told if the stream carried a request of its own.
    pub open spec fn on_rpc_error(self, peer_id: PeerId, error: HandlerErr) -> BehaviourView {
        match error {
            HandlerErr::Inbound { id, proto, error } => self.notify(
                PeerManagerUpdateView::HandleRpcError { peer_id, protocol: proto, error },
            ),
            HandlerErr::Outbound { id, proto, error } => {
                let told = self.notify(
                    PeerManagerUpdateView::HandleRpcError { peer_id, protocol: proto, error },
                );
                if id == RequestId::Behaviour {
                    told
                } else {
                    told.emit(BehaviourEventView::RPCFailed { id, peer_id, error })
                }
            },
        }
    }

    /// A peer has made the request `id`. Ping and metadata are answered on
    /// the spot, over the connection and the substream of the request. A
    /// goodbye puts the peer among those to disconnect. A status is shown to
    /// the application.
    pub open spec fn on_rpc_request(
        self,
        peer_id: PeerId,
        id: PeerRequestId,
        request: RPCRequestView,
    ) -> BehaviourView {
        match request {
            RPCRequestView::Ping(_) => self.pong(id, peer_id),
            RPCRequestView::MetaData => self.send_meta_data_response(id, peer_id),
            RPCRequestView::Goodbye(_) => self.notify(
                PeerManagerUpdateView::DisconnectingPeer(peer_id),
            ).disconnect(peer_id),
            RPCRequestView::Status(status) => self.notify(
                PeerManagerUpdateView::PeerStatusd(peer_id),
            ).propagate_request(id, peer_id, RequestView::Status(status)),
        }
    }

    /// A peer has answered the request `id`. Pong and metadata go to the peer
    /// manager and no further. A status goes to the peer manager and is shown
    /// to the application.
    pub open spec fn on_rpc_response(
        self,
        peer_id: PeerId,
        id: RequestId,
        response: RPCResponseView,
    ) -> BehaviourView {
        match response {
            RPCResponseView::Pong(data) => self.notify(
                PeerManagerUpdateView::PongResponse { peer_id, data },
            ),
            RPCResponseView::MetaData(meta_data) => self.notify(
                PeerManagerUpdateView::MetaDataResponse { peer_id, meta_data },
            ),
            RPCResponseView::Status(status) => self.notify(
                PeerManagerUpdateView::PeerStatusd(peer_id),
            ).propagate_response(id, peer_id, ResponseView::Status(status)),
        }
    }

    /// A connection handler has reported.
    pub open spec fn on_rpc_event(self, message: RPCMessageView) -> BehaviourView {
        match message.event {
            Err(error) => self.on_rpc_error(message.peer_id, error),
            Ok(RPCReceivedView::Request(id, request)) => self.on_rpc_request(
                message.peer_id,
                (message.conn_id, id),
                request,
            ),
            Ok(RPCReceivedView::Response(id, response)) => self.on_rpc_response(
                message.peer_id,
                id,
                response,
            ),
        }
    }

    /// The id of a gossip message is noted as seen.
    pub open spec fn remember(self, id: MessageId) -> BehaviourView {
        BehaviourView {
            seen_gossip_messages: keys_after_put(
                self.seen_gossip_messages,
                self.seen_capacity,
                id,
            ),
            ..self
        }
    }

    /// The gossip engine has reported. A message is shown to the application,
    /// whether its id has been seen before or not; a subscription of a peer
    /// is shown; the end of one is not.
    pub open spec fn on_gossip_event(self, event: GossipsubEvent) -> BehaviourView {
        match event {
            GossipsubEvent::Message(source, id, message) => self.remember(id).emit(
                BehaviourEventView::PubsubMessage {
                    id,
                    source,
                    topics: message.topics@,
                    message: message.data@,
                },
            ),
            GossipsubEvent::Subscribed { peer_id, topic } => self.emit(
                BehaviourEventView::PeerSubscribed(peer_id, topic),
            ),
            GossipsubEvent::Unsubscribed { .. } => self,
        }
    }

    /// The identify behaviour has reported. What a peer says of itself goes to
    /// the peer manager, with no more listen addresses than are kept.
    pub open spec fn on_identify_event(self, event: IdentifyEvent) -> BehaviourView {
        match event {
            IdentifyEvent::Received { peer_id, info, observed_addr } => self.notify(
                PeerManagerUpdateView::Identify { peer_id, info: info@.truncated() },
            ),
            IdentifyEvent::Sent { .. } => self,
            IdentifyEvent::Error { .. } => self,
        }
    }

    /// The subscription set holds the topic.
    pub open spec fn subscribed(self, topic: Seq<char>) -> BehaviourView {
        BehaviourView {
            network_globals: NetworkGlobalsView {
                gossipsub_subscriptions: self.network_globals.gossipsub_subscriptions.insert(
                    topic,
                ),
                ..self.network_globals
            },
            ..self
        }
    }

    /// The behaviour after a call about a topic.
    pub open spec fn called(self, call: SubscriptionCallView) -> BehaviourView {
        match call {
            SubscriptionCallView::Subscribe(topic) => self.subscribed(topic),
            SubscriptionCallView::Unsubscribe(topic) => self.unsubscribed(topic),
        }
    }

    /// The subscription set does not hold the topic.
    pub open spec fn unsubscribed(self, topic: Seq<char>) -> BehaviourView {
        BehaviourView {
            network_globals: NetworkGlobalsView {
                gossipsub_subscriptions: self.network_globals.gossipsub_subscriptions.remove(
                    topic,
                ),
                ..self.network_globals
            },
            ..self
        }
    }
}

} // verus!
