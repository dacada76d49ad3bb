//! The composite behaviour.
//!
//! It joins the gossip engine, the request/response behaviour and what the
//! identify behaviour reports into one behaviour for the swarm. Ping,
//! metadata and goodbye end here; status is passed on to the application.
//! What the peer manager is to learn is set aside for it, in order.

pub mod disconnect;
pub mod events;
pub mod handler;
pub mod laws;
pub mod model;
pub mod poll;

pub use crate::behaviour::events::{BehaviourEvent, PeerRequestId, Request, Response};

use crate::behaviour::disconnect::{occurrences, DisconnectQueue};
use crate::behaviour::handler::{BehaviourHandlerOut, DelegateOut};
use crate::behaviour::model::BehaviourView;
use crate::gossip::{
    engine_joined, engine_kept, engine_left, gossipsub_mesh_n, gossipsub_propagate,
    gossipsub_propagate_answer, gossipsub_subscribe, gossipsub_subscribed, gossipsub_unsubscribe,
    GossipsubEvent, Publication,
};
use crate::identify::IdentifyEvent;
use crate::peer_manager::PeerManagerUpdate;
use crate::rpc::handler::HandlerErr;
use crate::rpc::methods::{
    error_response, RPCCodedResponse, RPCRequest, RPCResponse, RPCResponseErrorCode, RequestId,
};
use crate::rpc::{
    handler_event_view, report_action, request_action, response_action, RPCMessage, RPCReceived,
    RpcAction, RPC,
};
use crate::swarm::Poll;
use crate::seen_cache::{lru_cap, lru_keys, lru_len, lru_new, lru_put};
use crate::types::globals::{copy_bytes, Enr, EnrForkId, NetworkGlobals, NetworkGlobalsView};
use crate::types::subscriptions::{
    calls_view, enumerates, leave_and_rejoin, lemma_take_one_more, names_of, SubscriptionCall,
    SubscriptionCallView,
};
use crate::types::topics::{GossipKind, GossipTopic};
use libp2p::gossipsub::{Gossipsub, MessageId};
use libp2p::PeerId;
use lru::LruCache;
use vstd::prelude::*;

verus! {

/// How many ids of gossip messages are kept as seen.
pub const SEEN_GOSSIP_CAPACITY: usize = 100_000;

/// The composite behaviour.
pub struct Behaviour {
    /// The gossip engine.
    gossipsub: Gossipsub,
    /// The request/response behaviour.
    mothra_rpc: RPC,
    /// What the peer manager is still to be told, oldest first.
    peer_manager: Vec<PeerManagerUpdate>,
    /// The events that wait for the application, oldest first.
    events: Vec<BehaviourEvent>,
    /// The peers that wait to be disconnected.
    peers_to_dc: DisconnectQueue,
    /// The metadata of the local node.
    meta_data: Vec<u8>,
    /// The ping payload of the local node.
    ping_data: Vec<u8>,
    /// The ids of the gossip messages seen of late. Nothing is ever held
    /// back on its account.
    seen_gossip_messages: LruCache<MessageId, ()>,
    /// The values shared with the embedder.
    network_globals: NetworkGlobals,
    /// The fork id of the local node.
    enr_fork_id: EnrForkId,
}

impl View for Behaviour {
    type V = BehaviourView;

    closed spec fn view(&self) -> BehaviourView {
        BehaviourView {
            gossipsub: self.gossipsub,
            rpc: self.mothra_rpc@,
            peer_manager: self.peer_manager@.map_values(|update: PeerManagerUpdate| update@),
            events: self.events@.map_values(|event: BehaviourEvent| event@),
            peers_to_dc: self.peers_to_dc@,
            meta_data: self.meta_data@,
            ping_data: self.ping_data@,
            seen_gossip_messages: lru_keys(self.seen_gossip_messages),
            seen_capacity: lru_cap(self.seen_gossip_messages),
            network_globals: self.network_globals@,
            enr_fork_id: self.enr_fork_id@,
        }
    }
}

impl Behaviour {
    /// A behaviour around a gossip engine. `peer_manager` is what came of
    /// building the peer manager. Where that has failed, no behaviour is
    /// made, and the failure is handed back as it is: it is the one failure
    /// of the construction. Otherwise the behaviour is made: nothing is
    /// queued, and the metadata, the ping payload and the fork id are those
    /// of the shared values.
    pub fn new(
        gossipsub: Gossipsub,
        network_globals: NetworkGlobals,
        peer_manager: Result<(), String>,
    ) -> (built: Result<Self, String>)
        ensures
            peer_manager is Err ==> built is Err && built->Err_0 == peer_manager->Err_0,
            peer_manager is Ok ==> built is Ok && built->Ok_0@ == (BehaviourView {
                gossipsub,
                rpc: Seq::empty(),
                peer_manager: Seq::empty(),
                events: Seq::empty(),
                peers_to_dc: Seq::empty(),
                meta_data: network_globals@.meta_data,
                ping_data: network_globals@.ping_data,
                seen_gossip_messages: Seq::empty(),
                seen_capacity: SEEN_GOSSIP_CAPACITY as nat,
                network_globals: network_globals@,
                enr_fork_id: network_globals@.fork_id,
            }),
    {
        match peer_manager {
            Err(failure) => {
                return Err(failure);
            },
            Ok(()) => {},
        }
        let enr_fork_id = network_globals.local_fork_id();
        let meta_data = copy_bytes(&network_globals.meta_data);
        let ping_data = copy_bytes(&network_globals.ping_data);
        let behaviour = Behaviour {
            gossipsub,
            mothra_rpc: RPC::new(),
            peer_manager: Vec::new(),
            events: Vec::new(),
            peers_to_dc: DisconnectQueue::new(),
            meta_data,
            ping_data,
            seen_gossip_messages: lru_new(SEEN_GOSSIP_CAPACITY),
            network_globals,
            enr_fork_id,
        };
        assert(behaviour@.peer_manager =~= Seq::empty());
        assert(behaviour@.events =~= Seq::empty());
        Ok(behaviour)
    }

    /// The local node record.
    pub fn local_enr(&self) -> (enr: Enr)
        ensures
            enr@ == self@.network_globals.local_enr,
    {
        self.network_globals.local_enr()
    }

    /// The gossip engine.
    pub fn gs(&self) -> (gossipsub: &Gossipsub)
        ensures
            *gossipsub == self@.gossipsub,
    {
        &self.gossipsub
    }

    /// The gossip engine, for the host to poll it and to hand it what its
    /// handlers report. Whatever the host does to the engine, the rest of the
    /// behaviour stays as it is.
    pub fn gs_mut(&mut self) -> (gossipsub: &mut Gossipsub)
        ensures
            *gossipsub == old(self)@.gossipsub,
            final(self)@ == old(self)@.with_gossipsub(*final(gossipsub)),
    {
        &mut self.gossipsub
    }

    /// The values shared with the embedder.
    pub fn network_globals(&self) -> (globals: &NetworkGlobals)
        ensures
            globals@ == self@.network_globals,
    {
        &self.network_globals
    }

    /// The values shared with the embedder, for those who own what they
    /// describe to write them. The rest of the behaviour stays as it is.
    pub fn network_globals_mut(&mut self) -> (globals: &mut NetworkGlobals)
        ensures
            globals@ == old(self)@.network_globals,
            final(self)@ == (BehaviourView {
                network_globals: final(globals)@,
                ..old(self)@
            }),
    {
        &mut self.network_globals
    }

    /* Pubsub behaviour functions */

    /// Subscribes to the topic of a kind.
    pub fn subscribe_kind(&mut self, kind: GossipKind) -> (accepted: bool)
        ensures
            final(self)@ == old(self)@.subscribed(kind@).with_gossipsub(final(self)@.gossipsub),
            accepted == !gossipsub_subscribed(old(self)@.gossipsub, kind@),
            engine_joined(old(self)@.gossipsub, final(self)@.gossipsub, kind@),
    {
        let gossip_topic = GossipTopic::new(kind);
        self.subscribe(gossip_topic)
    }

    /// Unsubscribes from the topic of a kind.
    pub fn unsubscribe_kind(&mut self, kind: GossipKind) -> (accepted: bool)
        ensures
            final(self)@ == old(self)@.unsubscribed(kind@).with_gossipsub(final(self)@.gossipsub),
            accepted == gossipsub_subscribed(old(self)@.gossipsub, kind@),
            engine_left(old(self)@.gossipsub, final(self)@.gossipsub, kind@),
    {
        let gossip_topic = GossipTopic::new(kind);
        self.unsubscribe(gossip_topic)
    }

    /// Subscribes to a topic. The subscription set takes the topic in first;
    /// then the gossip engine is asked, and its answer is handed back.
    pub fn subscribe(&mut self, topic: GossipTopic) -> (accepted: bool)
        ensures
            final(self)@ == old(self)@.subscribed(topic@).with_gossipsub(final(self)@.gossipsub),
            accepted == !gossipsub_subscribed(old(self)@.gossipsub, topic@),
            engine_joined(old(self)@.gossipsub, final(self)@.gossipsub, topic@),
    {
        self.network_globals.gossipsub_subscriptions.insert(topic.duplicate());
        gossipsub_subscribe(&mut self.gossipsub, topic.into_string())
    }

    /// Unsubscribes from a topic. The subscription set lets the topic go
    /// first; then the gossip engine is asked, and its answer is handed back.
    pub fn unsubscribe(&mut self, topic: GossipTopic) -> (accepted: bool)
        ensures
            final(self)@ == old(self)@.unsubscribed(topic@).with_gossipsub(
                final(self)@.gossipsub,
            ),
            accepted == gossipsub_subscribed(old(self)@.gossipsub, topic@),
            engine_left(old(self)@.gossipsub, final(self)@.gossipsub, topic@),
    {
        self.network_globals.gossipsub_subscriptions.remove(&topic);
        gossipsub_unsubscribe(&mut self.gossipsub, topic.into_string())
    }

    /// Makes a message ready to be published on a topic: the gossip engine
    /// is to be handed the string form of the topic and the message as it
    /// is. Nothing is held back or batched; the behaviour stays as it is.
    pub fn publish(&self, topic: GossipTopic, message: Vec<u8>) -> (publication: Publication)
        ensures
            publication.topic@ == topic@,
            publication.data == message,
    {
        Publication { topic: topic.into_string(), data: message }
    }

    /// Has the gossip engine forward a message that it still holds.
    /// `propagation_source` is the peer the message was received from. The
    /// engine is asked about this message and this peer, and its answer is
    /// handed back: whether it still held the message and has forwarded it.
    /// Only the gossip engine is touched.
    pub fn propagate_message(
        &mut self,
        propagation_source: &PeerId,
        message_id: MessageId,
    ) -> (forwarded: bool)
        ensures
            final(self)@ == old(self)@.with_gossipsub(final(self)@.gossipsub),
            forwarded == gossipsub_propagate_answer(
                old(self)@.gossipsub,
                message_id,
                *propagation_source,
            ),
            engine_kept(old(self)@.gossipsub, final(self)@.gossipsub),
    {
        gossipsub_propagate(&mut self.gossipsub, &message_id, propagation_source)
    }

    /// The calls that a change of the fork asks for: every topic the node is
    /// subscribed to is left, each once, and then every one of them is
    /// joined again, in the same order.
    pub fn fork_update_calls(&self) -> (calls: Vec<SubscriptionCall>)
        ensures
            exists|names: Seq<Seq<char>>|
                enumerates(names, self@.network_globals.gossipsub_subscriptions) && calls_view(
                    calls@,
                ) == leave_and_rejoin(names),
    {
        let topics = self.network_globals.gossipsub_subscriptions.to_vec();
        let ghost names = names_of(topics@);
        let ghost leave = names.map_values(|name: Seq<char>| SubscriptionCallView::Unsubscribe(name));
        let ghost rejoin = names.map_values(|name: Seq<char>| SubscriptionCallView::Subscribe(name));
        let mut calls: Vec<SubscriptionCall> = Vec::new();
        let mut i: usize = 0;
        while i < topics.len()
            invariant
                i <= topics.len(),
                names == names_of(topics@),
                leave == names.map_values(
                    |name: Seq<char>| SubscriptionCallView::Unsubscribe(name),
                ),
                calls_view(calls@) == leave.take(i as int),
            decreases topics.len() - i,
        {
            let ghost made = calls@;
            let call = SubscriptionCall::Unsubscribe(topics[i].duplicate());
            assert(call@ == leave[i as int]);
            calls.push(call);
            assert(calls_view(calls@) =~= calls_view(made).push(call@));
            assert(leave.take(i + 1) =~= leave.take(i as int).push(leave[i as int]));
            i += 1;
        }
        assert(leave.take(i as int) =~= leave);
        let mut j: usize = 0;
        while j < topics.len()
            invariant
                j <= topics.len(),
                names == names_of(topics@),
                rejoin == names.map_values(
                    |name: Seq<char>| SubscriptionCallView::Subscribe(name),
                ),
                calls_view(calls@) == leave + rejoin.take(j as int),
            decreases topics.len() - j,
        {
            let ghost made = calls@;
            let call = SubscriptionCall::Subscribe(topics[j].duplicate());
            assert(call@ == rejoin[j as int]);
            calls.push(call);
            assert(calls_view(calls@) =~= calls_view(made).push(call@));
            assert(leave + rejoin.take(j + 1) =~= (leave + rejoin.take(j as int)).push(
                rejoin[j as int],
            ));
            j += 1;
        }
        assert(rejoin.take(j as int) =~= rejoin);
        assert(enumerates(names, self@.network_globals.gossipsub_subscriptions) && calls_view(
            calls@,
        ) == leave_and_rejoin(names));
        calls
    }

    /// Makes one call about a topic: the subscription set and the gossip
    /// engine are told to subscribe or to unsubscribe.
    fn carry_out(&mut self, call: &SubscriptionCall)
        ensures
            final(self)@ == old(self)@.called(call@).with_gossipsub(final(self)@.gossipsub),
            call@ matches SubscriptionCallView::Subscribe(topic) ==> engine_joined(
                old(self)@.gossipsub,
                final(self)@.gossipsub,
                topic,
            ),
            call@ matches SubscriptionCallView::Unsubscribe(topic) ==> engine_left(
                old(self)@.gossipsub,
                final(self)@.gossipsub,
                topic,
            ),
    {
        match call {
            SubscriptionCall::Subscribe(topic) => {
                self.subscribe(topic.duplicate());
            },
            SubscriptionCall::Unsubscribe(topic) => {
                self.unsubscribe(topic.duplicate());
            },
        }
    }

    /// Takes up a new fork id. The calls of `fork_update_calls` are made one
    /// after the other: the node leaves every topic it is subscribed to and
    /// joins it again, so that the gossip engine announces the subscriptions
    /// afresh. The subscription set ends up as it was, and the engine ends
    /// up subscribed to every topic of the set, unless it was set up with a
    /// mesh degree of zero.
    pub fn update_fork_version(&mut self, enr_fork_id: EnrForkId)
        ensures
            final(self)@ == (BehaviourView {
                enr_fork_id: enr_fork_id@,
                ..old(self)@
            }).with_gossipsub(final(self)@.gossipsub),
            gossipsub_mesh_n(final(self)@.gossipsub) == gossipsub_mesh_n(old(self)@.gossipsub),
            gossipsub_mesh_n(old(self)@.gossipsub) > 0 ==> forall|topic: Seq<char>|
                old(self)@.network_globals.gossipsub_subscriptions.contains(topic)
                    ==> #[trigger] gossipsub_subscribed(final(self)@.gossipsub, topic),
    {
        let calls = self.fork_update_calls();
        let ghost before = self@;
        let ghost subscriptions = before.network_globals.gossipsub_subscriptions;
        let ghost names = choose|names: Seq<Seq<char>>|
            enumerates(names, subscriptions) && calls_view(calls@) == leave_and_rejoin(names);
        let n = calls.len() / 2;
        assert(calls_view(calls@).len() == 2 * names.len());
        let mut i: usize = 0;
        while i < n
            invariant
                i <= n,
                n == names.len(),
                calls@.len() == 2 * n,
                calls_view(calls@) == leave_and_rejoin(names),
                enumerates(names, subscriptions),
                subscriptions == before.network_globals.gossipsub_subscriptions,
                self@ == (BehaviourView {
                    network_globals: NetworkGlobalsView {
                        gossipsub_subscriptions: self@.network_globals.gossipsub_subscriptions,
                        ..before.network_globals
                    },
                    ..before
                }).with_gossipsub(self@.gossipsub),
                gossipsub_mesh_n(self@.gossipsub) == gossipsub_mesh_n(before.gossipsub),
                forall|name: Seq<char>|
                    self@.network_globals.gossipsub_subscriptions.contains(name) <==> (
                    names.contains(name) && !names.take(i as int).contains(name)),
            decreases n - i,
        {
            let ghost held = self@.network_globals.gossipsub_subscriptions;
            assert(calls_view(calls@)[i as int] == SubscriptionCallView::Unsubscribe(
                names[i as int],
            ));
            assert(calls@[i as int]@ == calls_view(calls@)[i as int]);
            let ghost k = i as int;
            assert(forall|name: Seq<char>|
                held.contains(name) <==> (names.contains(name) && !names.take(k).contains(name)));
            self.carry_out(&calls[i]);
            i += 1;
            proof {
                assert(self@.network_globals.gossipsub_subscriptions == held.remove(names[k]));
                assert forall|name: Seq<char>|
                    self@.network_globals.gossipsub_subscriptions.contains(name) <==> (
                    names.contains(name) && !names.take(i as int).contains(name)) by {
                    lemma_take_one_more(names, k, name);
                    assert(held.contains(name) <==> (names.contains(name) && !names.take(
                        k,
                    ).contains(name)));
                }
            }
        }
        proof {
            assert(names.take(n as int) =~= names);
            assert(names.take(0) =~= Seq::<Seq<char>>::empty());
            assert forall|name: Seq<char>|
                self@.network_globals.gossipsub_subscriptions.contains(name) <==> names.take(
                    0,
                ).contains(name) by {
                assert(self@.network_globals.gossipsub_subscriptions.contains(name) <==> (
                names.contains(name) && !names.take(n as int).contains(name)));
            }
        }
        let mut j: usize = 0;
        while j < n
            invariant
                j <= n,
                n == names.len(),
                calls@.len() == 2 * n,
                calls_view(calls@) == leave_and_rejoin(names),
                enumerates(names, subscriptions),
                subscriptions == before.network_globals.gossipsub_subscriptions,
                self@ == (BehaviourView {
                    network_globals: NetworkGlobalsView {
                        gossipsub_subscriptions: self@.network_globals.gossipsub_subscriptions,
                        ..before.network_globals
                    },
                    ..before
                }).with_gossipsub(self@.gossipsub),
                gossipsub_mesh_n(self@.gossipsub) == gossipsub_mesh_n(before.gossipsub),
                forall|name: Seq<char>|
                    self@.network_globals.gossipsub_subscriptions.contains(name)
                        <==> names.take(j as int).contains(name),
                gossipsub_mesh_n(before.gossipsub) > 0 ==> forall|name: Seq<char>|
                    names.take(j as int).contains(name) ==> #[trigger] gossipsub_subscribed(
                        self@.gossipsub,
                        name,
                    ),
            decreases n - j,
        {
            let ghost held = self@.network_globals.gossipsub_subscriptions;
            let ghost engine = self@.gossipsub;
            assert(calls_view(calls@)[n + j] == SubscriptionCallView::Subscribe(names[j as int]));
            assert(calls@[n + j]@ == calls_view(calls@)[n + j]);
            let ghost k = j as int;
            assert(forall|name: Seq<char>| held.contains(name) <==> names.take(k).contains(name));
            assert(n + j < calls.len());
            self.carry_out(&calls[n + j]);
            j += 1;
            proof {
                assert(self@.network_globals.gossipsub_subscriptions == held.insert(names[k]));
                assert forall|name: Seq<char>|
                    self@.network_globals.gossipsub_subscriptions.contains(name) <==> names.take(
                        j as int,
                    ).contains(name) by {
                    lemma_take_one_more(names, k, name);
                    assert(held.contains(name) <==> names.take(k).contains(name));
                }
                if gossipsub_mesh_n(before.gossipsub) > 0 {
                    assert forall|name: Seq<char>| names.take(j as int).contains(name) implies
                        #[trigger] gossipsub_subscribed(self@.gossipsub, name) by {
                        lemma_take_one_more(names, k, name);
                        if names.take(k).contains(name) {
                            assert(gossipsub_subscribed(engine, name));
                        }
                    }
                }
            }
        }
        proof {
            assert(names.take(n as int) =~= names);
            assert forall|name: Seq<char>|
                self@.network_globals.gossipsub_subscriptions.contains(name)
                    <==> subscriptions.contains(name) by {
                assert(self@.network_globals.gossipsub_subscriptions.contains(name)
                    <==> names.take(n as int).contains(name));
            }
            assert(self@.network_globals.gossipsub_subscriptions =~= subscriptions);
        }
        self.enr_fork_id = enr_fork_id;
    }

    /* Request/response functions */

    /// Sends a request of the application to a peer. The id is the
    /// application's: the id that marks the behaviour's own requests is not
    /// taken.
    pub fn send_request(&mut self, peer_id: PeerId, request_id: RequestId, request: Request)
        requires
            request_id != RequestId::Behaviour,
        ensures
            final(self)@ == old(self)@.send(
                request_action(peer_id, request_id, request@.to_rpc()),
            ),
    {
        self.mothra_rpc.send_request(peer_id, request_id, RPCRequest::from(request));
    }

    /// Answers the request `id` of a peer with a response.
    pub fn send_successful_response(&mut self, peer_id: PeerId, id: PeerRequestId, response: Response)
        ensures
            final(self)@ == old(self)@.send(response_action(peer_id, id, response@.to_rpc())),
    {
        self.mothra_rpc.send_response(peer_id, id, RPCCodedResponse::from(response));
    }

    /// Answers the request `id` of a peer with an error.
    pub fn send_error_response(
        &mut self,
        peer_id: PeerId,
        id: PeerRequestId,
        error: RPCResponseErrorCode,
        reason: String,
    )
        ensures
            final(self)@ == old(self)@.send(
                response_action(peer_id, id, error_response(error, reason@)),
            ),
    {
        self.mothra_rpc.send_response(
            peer_id,
            id,
            RPCCodedResponse::from_error_code(error, reason),
        );
    }

    /* Peer management functions */

    /// A peer has been banned. The behaviour keeps nothing about bans.
    pub fn peer_banned(&mut self, _peer_id: PeerId)
        ensures
            final(self)@ == old(self)@,
    {
    }

    /// A peer has been unbanned. The behaviour keeps nothing about bans.
    pub fn peer_unbanned(&mut self, _peer_id: &PeerId)
        ensures
            final(self)@ == old(self)@,
    {
    }

    /// Hands over what the peer manager is still to be told, oldest first,
    /// and keeps none of it.
    pub fn take_peer_manager_updates(&mut self) -> (updates: Vec<PeerManagerUpdate>)
        ensures
            updates@.map_values(|update: PeerManagerUpdate| update@) == old(self)@.peer_manager,
            final(self)@ == (BehaviourView { peer_manager: Seq::empty(), ..old(self)@ }),
    {
        let mut updates: Vec<PeerManagerUpdate> = Vec::new();
        std::mem::swap(&mut self.peer_manager, &mut updates);
        assert(self@.peer_manager =~= Seq::empty());
        updates
    }

    /// How often a peer occurs among those that wait to be disconnected:
    /// never more than once.
    pub fn pending_disconnects(&self, peer_id: &PeerId) -> (n: usize)
        ensures
            n == occurrences(self@.peers_to_dc, *peer_id),
            n <= 1,
    {
        self.peers_to_dc.count(peer_id)
    }

    /// How many ids of gossip messages are held as seen.
    pub fn seen_gossip_messages(&self) -> (n: usize)
        ensures
            n == self@.seen_gossip_messages.len(),
    {
        lru_len(&self.seen_gossip_messages)
    }

    /* Connection events */

    /// A peer connected: it is asked for its metadata.
    pub fn inject_connected(&mut self, peer_id: &PeerId)
        ensures
            final(self)@ == old(self)@.send_meta_data_request(*peer_id),
    {
        self.mothra_rpc.inject_connected(peer_id);
    }

    /// Takes in what the composite handler of a connection reports. A report
    /// of the request/response handler is queued for the behaviour. A report
    /// of the gossip or the identify handler is handed back: it is for the
    /// behaviour of that protocol. The reserved report has no effect.
    pub fn inject_event<G, I>(
        &mut self,
        peer_id: PeerId,
        conn_id: libp2p::core::connection::ConnectionId,
        event: BehaviourHandlerOut<G, I>,
    ) -> (passed_on: Option<DelegateOut<G, I>>)
        ensures
            match event {
                BehaviourHandlerOut::Delegate(delegate) => match *delegate {
                    DelegateOut::RPC(report) => passed_on is None && final(self)@ == old(
                        self,
                    )@.send(report_action(peer_id, conn_id, handler_event_view(report))),
                    _ => passed_on == Some(*delegate) && final(self)@ == old(self)@,
                },
                BehaviourHandlerOut::Custom => passed_on is None && final(self)@ == old(self)@,
            },
    {
        match event {
            BehaviourHandlerOut::Delegate(delegate) => match *delegate {
                DelegateOut::RPC(report) => {
                    self.mothra_rpc.inject_event(peer_id, conn_id, report);
                    None
                },
                DelegateOut::Gossipsub(report) => Some(DelegateOut::Gossipsub(report)),
                DelegateOut::Identify(report) => Some(DelegateOut::Identify(report)),
            },
            BehaviourHandlerOut::Custom => None,
        }
    }

    /* Private internal functions */

    /// Takes the oldest action off the queue of the request/response
    /// behaviour, if there is one.
    fn next_rpc_action(&mut self) -> (polled: Poll<RpcAction>)
        ensures
            old(self)@.rpc.len() == 0 ==> polled is Pending && final(self)@ == old(self)@,
            old(self)@.rpc.len() > 0 ==> polled@ == Poll::Ready(old(self)@.rpc.first())
                && final(self)@ == (BehaviourView {
                rpc: old(self)@.rpc.drop_first(),
                ..old(self)@
            }),
    {
        self.mothra_rpc.poll()
    }

    /// Takes the peer that is to be disconnected next off its queue, if there
    /// is one.
    fn next_disconnect(&mut self) -> (peer_id: Option<PeerId>)
        ensures
            old(self)@.peers_to_dc.len() == 0 ==> peer_id is None && final(self)@ == old(self)@,
            old(self)@.peers_to_dc.len() > 0 ==> peer_id == Some(old(self)@.peers_to_dc.first())
                && final(self)@ == (BehaviourView {
                peers_to_dc: old(self)@.peers_to_dc.drop_first(),
                ..old(self)@
            }),
    {
        self.peers_to_dc.pop_front()
    }

    /// Takes the oldest event that waits for the application off its queue,
    /// if there is one.
    fn next_public_event(&mut self) -> (event: Option<BehaviourEvent>)
        ensures
            old(self)@.events.len() == 0 ==> event is None && final(self)@ == old(self)@,
            old(self)@.events.len() > 0 ==> event is Some && event->0@ == old(self)@.events.first()
                && final(self)@ == (BehaviourView {
                events: old(self)@.events.drop_first(),
                ..old(self)@
            }),
    {
        if self.events.len() > 0 {
            let event = self.events.remove(0);
            assert(self@.events =~= old(self)@.events.drop_first());
            return Some(event);
        }
        None
    }

    /// Puts a peer among those that wait to be disconnected.
    fn disconnect(&mut self, peer_id: PeerId)
        ensures
            final(self)@ == old(self)@.disconnect(peer_id),
    {
        self.peers_to_dc.push(peer_id);
    }

    fn notify(&mut self, update: PeerManagerUpdate)
        ensures
            final(self)@ == old(self)@.notify(update@),
    {
        self.peer_manager.push(update);
        assert(self@.peer_manager =~= old(self)@.peer_manager.push(update@));
    }

    fn emit(&mut self, event: BehaviourEvent)
        ensures
            final(self)@ == old(self)@.emit(event@),
    {
        self.events.push(event);
        assert(self@.events =~= old(self)@.events.push(event@));
    }

    /// Sends a ping to a peer.
    fn ping(&mut self, id: RequestId, peer_id: PeerId)
        ensures
            final(self)@ == old(self)@.ping(id, peer_id),
    {
        let data = copy_bytes(&self.ping_data);
        self.mothra_rpc.send_request(peer_id, id, RPCRequest::Ping(data));
    }

    /// Answers a ping of a peer.
    fn pong(&mut self, id: PeerRequestId, peer_id: PeerId)
        ensures
            final(self)@ == old(self)@.pong(id, peer_id),
    {
        let event = RPCCodedResponse::Success(RPCResponse::Pong(copy_bytes(&self.ping_data)));
        self.mothra_rpc.send_response(peer_id, id, event);
    }

    /// Asks a peer for its metadata.
    fn send_meta_data_request(&mut self, peer_id: PeerId)
        ensures
            final(self)@ == old(self)@.send_meta_data_request(peer_id),
    {
        self.mothra_rpc.send_request(peer_id, RequestId::Behaviour, RPCRequest::MetaData);
    }

    /// Answers a peer that asked for the local metadata.
    fn send_meta_data_response(&mut self, id: PeerRequestId, peer_id: PeerId)
        ensures
            final(self)@ == old(self)@.send_meta_data_response(id, peer_id),
    {
        let event = RPCCodedResponse::Success(RPCResponse::MetaData(copy_bytes(&self.meta_data)));
        self.mothra_rpc.send_response(peer_id, id, event);
    }

    /// Shows a response to the application, unless the request was the
    /// behaviour's own.
    fn propagate_response(&mut self, id: RequestId, peer_id: PeerId, response: Response)
        ensures
            final(self)@ == old(self)@.propagate_response(id, peer_id, response@),
    {
        if id != RequestId::Behaviour {
            self.emit(BehaviourEvent::ResponseReceived { peer_id, id, response });
        }
    }

    /// Shows a request to the application.
    fn propagate_request(&mut self, id: PeerRequestId, peer_id: PeerId, request: Request)
        ensures
            final(self)@ == old(self)@.propagate_request(id, peer_id, request@),
    {
        self.emit(BehaviourEvent::RequestReceived { peer_id, id, request });
    }

    /// Acts on the report of a connection handler.
    pub fn on_rpc_event(&mut self, message: RPCMessage)
        ensures
            final(self)@ == old(self)@.on_rpc_event(message@),
    {
        let peer_id = message.peer_id;
        let handler_id = message.conn_id;
        match message.event {
            Err(handler_err) => {
                match handler_err {
                    HandlerErr::Inbound { id: _, proto, error } => {
                        self.notify(
                            PeerManagerUpdate::HandleRpcError { peer_id, protocol: proto, error },
                        );
                    },
                    HandlerErr::Outbound { id, proto, error } => {
                        self.notify(
                            PeerManagerUpdate::HandleRpcError {
                                peer_id: peer_id.clone(),
                                protocol: proto,
                                error,
                            },
                        );
                        if id != RequestId::Behaviour {
                            self.emit(BehaviourEvent::RPCFailed { peer_id, id, error });
                        }
                    },
                }
            },
            Ok(RPCReceived::Request(id, request)) => {
                let peer_request_id = (handler_id, id);
                match request {
                    RPCRequest::Ping(_) => {
                        self.pong(peer_request_id, peer_id);
                    },
                    RPCRequest::MetaData => {
                        self.send_meta_data_response(peer_request_id, peer_id);
                    },
                    RPCRequest::Goodbye(_) => {
                        self.notify(PeerManagerUpdate::DisconnectingPeer(peer_id.clone()));
                        self.peers_to_dc.push(peer_id);
                    },
                    RPCRequest::Status(msg) => {
                        self.notify(PeerManagerUpdate::PeerStatusd(peer_id.clone()));
                        self.propagate_request(peer_request_id, peer_id, Request::Status(msg));
                    },
                }
            },
            Ok(RPCReceived::Response(id, resp)) => {
                match resp {
                    RPCResponse::Pong(data) => {
                        self.notify(PeerManagerUpdate::PongResponse { peer_id, data });
                    },
                    RPCResponse::MetaData(meta_data) => {
                        self.notify(PeerManagerUpdate::MetaDataResponse { peer_id, meta_data });
                    },
                    RPCResponse::Status(msg) => {
                        self.notify(PeerManagerUpdate::PeerStatusd(peer_id.clone()));
                        self.propagate_response(id, peer_id, Response::Status(msg));
                    },
                }
            },
        }
    }

    /// Acts on a report of the gossip engine.
    pub fn on_gossip_event(&mut self, event: GossipsubEvent)
        ensures
            final(self)@ == old(self)@.on_gossip_event(event),
    {
        match event {
            GossipsubEvent::Message(propagation_source, id, gs_msg) => {
                lru_put(&mut self.seen_gossip_messages, &id);
                self.emit(
                    BehaviourEvent::PubsubMessage {
                        id,
                        source: propagation_source,
                        topics: gs_msg.topics,
                        message: gs_msg.data,
                    },
                );
            },
            GossipsubEvent::Subscribed { peer_id, topic } => {
                self.emit(BehaviourEvent::PeerSubscribed(peer_id, topic));
            },
            GossipsubEvent::Unsubscribed { .. } => {},
        }
    }

    /// Acts on a report of the identify behaviour.
    pub fn on_identify_event(&mut self, event: IdentifyEvent)
        ensures
            final(self)@ == old(self)@.on_identify_event(event),
    {
        match event {
            IdentifyEvent::Received { peer_id, info, observed_addr: _ } => {
                let mut info = info;
                info.truncate_addresses();
                self.notify(PeerManagerUpdate::Identify { peer_id, info });
            },
            IdentifyEvent::Sent { .. } => {},
            IdentifyEvent::Error { .. } => {},
        }
    }
}

} // verus!
