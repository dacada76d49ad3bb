//! What holds of the behaviour whatever happens to it.

use crate::behaviour::disconnect::{
    distinct_peers, lemma_at_most_once, lemma_enqueued_distinct, occurrences,
};
use crate::behaviour::events::{BehaviourEventView, PeerRequestId};
use crate::behaviour::handler::BehaviourHandlerInView;
use crate::behaviour::model::BehaviourView;
use crate::behaviour::poll::{
    lemma_on_rpc_event_reports, lemma_reports_drop_first, reports, BehaviourActionView, PollStep,
};
use crate::gossip::{
    engine_joined, engine_left, gossipsub_mesh_n, gossipsub_subscribed, GossipsubEvent,
    GossipsubMessage,
};
use crate::identify::IdentifyEvent;
use crate::peer_manager::PeerManagerEvent;
use crate::rpc::handler::HandlerErr;
use crate::rpc::methods::{RPCCodedResponseView, RPCRequestView, RPCResponseView, RequestId};
use crate::rpc::protocol::{Protocol, RPCError};
use crate::rpc::{response_action, RPCMessageView, RPCSendView, RpcActionView};
use crate::swarm::{peer_key, NetworkBehaviourAction, NotifyHandler, Poll};
use crate::types::subscriptions::SubscriptionCallView;
use libp2p::gossipsub::{Gossipsub, MessageId};
use libp2p::PeerId;
use vstd::prelude::*;

verus! {

/* Responses go back where the request came from */

/// Whether an action of the request/response behaviour is a response to the
/// request `id` of a peer: a notification for the handler of the connection
/// `id.0` and no other, naming the substream `id.1`.
pub open spec fn answers(action: RpcActionView, peer_id: PeerId, id: PeerRequestId) -> bool {
    &&& action matches NetworkBehaviourAction::NotifyHandler { peer_id: to, handler, event }
    &&& to == peer_id
    &&& handler == NotifyHandler::One(id.0)
    &&& event matches RPCSendView::Response(substream, _)
    &&& substream == id.1
}

/// Whatever the behaviour sends when a peer makes a request is a response
/// that carries the connection and the substream of that request. The same
/// holds of every response that the application sends.
pub proof fn lemma_response_carries_request_id(
    state: BehaviourView,
    peer_id: PeerId,
    id: PeerRequestId,
    request: RPCRequestView,
    response: RPCCodedResponseView,
)
    ensures
        state.rpc.is_prefix_of(state.on_rpc_request(peer_id, id, request).rpc),
        forall|k: int|
            state.rpc.len() <= k < state.on_rpc_request(peer_id, id, request).rpc.len()
                ==> answers(
                #[trigger] state.on_rpc_request(peer_id, id, request).rpc[k],
                peer_id,
                id,
            ),
        answers(response_action(peer_id, id, response), peer_id, id),
{
    let after = state.on_rpc_request(peer_id, id, request);
    assert(state.rpc =~= after.rpc.subrange(0, state.rpc.len() as int));
}

/* The behaviour's own requests stay inside */

/// When a request of the behaviour's own is answered or fails, no event for
/// the application comes of it.
pub proof fn lemma_own_requests_stay_inside(
    state: BehaviourView,
    peer_id: PeerId,
    response: RPCResponseView,
    proto: Protocol,
    error: RPCError,
)
    ensures
        state.on_rpc_response(peer_id, RequestId::Behaviour, response).events == state.events,
        state.on_rpc_error(
            peer_id,
            HandlerErr::Outbound { id: RequestId::Behaviour, proto, error },
        ).events == state.events,
{
}

/// Ping and metadata never reach the application, in either direction.
pub proof fn lemma_ping_and_metadata_stay_inside(
    state: BehaviourView,
    peer_id: PeerId,
    request_id: PeerRequestId,
    id: RequestId,
    data: Seq<u8>,
)
    ensures
        state.on_rpc_request(peer_id, request_id, RPCRequestView::Ping(data)).events
            == state.events,
        state.on_rpc_request(peer_id, request_id, RPCRequestView::MetaData).events
            == state.events,
        state.on_rpc_request(peer_id, request_id, RPCRequestView::Goodbye(data)).events
            == state.events,
        state.on_rpc_response(peer_id, id, RPCResponseView::Pong(data)).events == state.events,
        state.on_rpc_response(peer_id, id, RPCResponseView::MetaData(data)).events
            == state.events,
{
}

/* The subscription set */

/// The topics that a gossip engine reports as subscribed after a series of
/// calls, starting with none: a topic is subscribed if the last call about
/// it was a subscription.
pub open spec fn engine_subscriptions(calls: Seq<SubscriptionCallView>) -> Set<Seq<char>>
    decreases calls.len(),
{
    if calls.len() == 0 {
        Set::empty()
    } else {
        match calls.last() {
            SubscriptionCallView::Subscribe(topic) => engine_subscriptions(calls.drop_last()).insert(
                topic,
            ),
            SubscriptionCallView::Unsubscribe(topic) => engine_subscriptions(
                calls.drop_last(),
            ).remove(topic),
        }
    }
}

/// Where the subscription set holds what the gossip engine reports as
/// subscribed, it does so again after any call to subscribe or to
/// unsubscribe: the set and the engine do not drift apart.
pub proof fn lemma_subscription_set_mirrors_engine(
    state: BehaviourView,
    calls: Seq<SubscriptionCallView>,
    call: SubscriptionCallView,
)
    requires
        state.network_globals.gossipsub_subscriptions == engine_subscriptions(calls),
    ensures
        state.called(call).network_globals.gossipsub_subscriptions == engine_subscriptions(
            calls.push(call),
        ),
{
    assert(calls.push(call).drop_last() =~= calls);
}

/// Where every topic of the subscription set is subscribed at the gossip
/// engine, and the engine was set up with a mesh degree above zero, the same
/// holds after a call to subscribe: the set has not run ahead of the engine.
pub proof fn lemma_subscribe_keeps_set_subscribed(
    before: Gossipsub,
    after: Gossipsub,
    state: BehaviourView,
    topic: Seq<char>,
)
    requires
        engine_joined(before, after, topic),
        gossipsub_mesh_n(before) > 0,
        forall|held: Seq<char>|
            state.network_globals.gossipsub_subscriptions.contains(held)
                ==> #[trigger] gossipsub_subscribed(before, held),
    ensures
        forall|held: Seq<char>|
            state.subscribed(topic).network_globals.gossipsub_subscriptions.contains(held)
                ==> #[trigger] gossipsub_subscribed(after, held),
{
    assert forall|held: Seq<char>|
        state.subscribed(topic).network_globals.gossipsub_subscriptions.contains(
            held,
        ) implies #[trigger] gossipsub_subscribed(after, held) by {
        if held != topic {
            assert(gossipsub_subscribed(before, held));
        }
    }
}

/// Where every topic that the gossip engine is subscribed to is in the
/// subscription set, the same holds after a call to unsubscribe: the engine
/// keeps no subscription that the set has let go.
pub proof fn lemma_unsubscribe_keeps_engine_within_set(
    before: Gossipsub,
    after: Gossipsub,
    state: BehaviourView,
    topic: Seq<char>,
)
    requires
        engine_left(before, after, topic),
        forall|held: Seq<char>| #[trigger]
            gossipsub_subscribed(before, held)
                ==> state.network_globals.gossipsub_subscriptions.contains(held),
    ensures
        forall|held: Seq<char>| #[trigger]
            gossipsub_subscribed(after, held) ==> state.unsubscribed(
                topic,
            ).network_globals.gossipsub_subscriptions.contains(held),
{
    assert forall|held: Seq<char>| #[trigger]
        gossipsub_subscribed(after, held) implies state.unsubscribed(
        topic,
    ).network_globals.gossipsub_subscriptions.contains(held) by {
        assert(gossipsub_subscribed(before, held));
    }
}

/// After a call about a topic, the topic is in the subscription set exactly
/// if the call was a subscription, and every other topic is in it exactly if
/// it was before.
pub proof fn lemma_subscription_membership(
    state: BehaviourView,
    topic: Seq<char>,
    other: Seq<char>,
)
    ensures
        state.subscribed(topic).network_globals.gossipsub_subscriptions.contains(topic),
        !state.unsubscribed(topic).network_globals.gossipsub_subscriptions.contains(topic),
        other != topic ==> state.subscribed(topic).network_globals.gossipsub_subscriptions.contains(
            other,
        ) == state.network_globals.gossipsub_subscriptions.contains(other),
        other != topic
            ==> state.unsubscribed(topic).network_globals.gossipsub_subscriptions.contains(other)
            == state.network_globals.gossipsub_subscriptions.contains(other),
{
}

/// Subscribing to a topic that is not in the subscription set and then
/// unsubscribing from it leaves the set as it was.
pub proof fn lemma_subscribe_then_unsubscribe(state: BehaviourView, topic: Seq<char>)
    requires
        !state.network_globals.gossipsub_subscriptions.contains(topic),
    ensures
        state.subscribed(topic).unsubscribed(topic).network_globals.gossipsub_subscriptions
            == state.network_globals.gossipsub_subscriptions,
{
    assert(state.subscribed(topic).unsubscribed(topic).network_globals.gossipsub_subscriptions
        =~= state.network_globals.gossipsub_subscriptions);
}

/* The peers that wait to be disconnected */

/// Where no peer waits twice to be disconnected, none does after a peer has
/// been put among those that wait, nor after the next one has been served;
/// and every peer waits at most once.
pub proof fn lemma_pending_disconnect_at_most_once<G, I>(
    state: BehaviourView,
    peer_id: PeerId,
    other: PeerId,
)
    requires
        distinct_peers(state.peers_to_dc),
    ensures
        occurrences(state.peers_to_dc, other) <= 1,
        distinct_peers(state.disconnect(peer_id).peers_to_dc),
        occurrences(state.disconnect(peer_id).peers_to_dc, other) <= 1,
        distinct_peers(state.custom_poll::<G, I>().0.peers_to_dc),
        occurrences(state.custom_poll::<G, I>().0.peers_to_dc, other) <= 1,
{
    lemma_at_most_once(state.peers_to_dc, other);
    lemma_enqueued_distinct(state.peers_to_dc, peer_id);
    lemma_at_most_once(state.disconnect(peer_id).peers_to_dc, other);
    let served = state.custom_poll::<G, I>().0.peers_to_dc;
    assert forall|i: int, j: int| 0 <= i < j < served.len() implies peer_key(
        #[trigger] served[i],
    ) != peer_key(#[trigger] served[j]) by {
        assert(served[i] == state.peers_to_dc[i + 1]);
        assert(served[j] == state.peers_to_dc[j + 1]);
    }
    lemma_at_most_once(served, other);
}

/* The order of a pass */

/// What the sources that the host polls yield during one pass, each in the
/// order in which it yields it. A source that is polled after it has yielded
/// all of this has nothing.
pub struct PollScript<G, I> {
    pub gossipsub: Seq<Poll<NetworkBehaviourAction<G, GossipsubEvent>>>,
    pub identify: Seq<Poll<NetworkBehaviourAction<I, IdentifyEvent>>>,
    pub peer_manager: Seq<Poll<Option<PeerManagerEvent>>>,
}

/// What a source yields next.
pub open spec fn next_of<T>(script: Seq<Poll<T>>) -> Poll<T> {
    if script.len() > 0 {
        script.first()
    } else {
        Poll::Pending
    }
}

/// What a source has left after it has been polled once.
pub open spec fn rest_of<T>(script: Seq<Poll<T>>) -> Seq<Poll<T>> {
    if script.len() > 0 {
        script.drop_first()
    } else {
        script
    }
}

/// How far from its end a pass is at the least when it needs `step` next.
pub open spec fn rank<A>(step: PollStep<A>) -> nat {
    match step {
        PollStep::PollGossipsub => 3,
        PollStep::PollIdentify => 2,
        PollStep::PollPeerManager => 1,
        PollStep::Return(_) => 0,
    }
}

impl<G, I> PollScript<G, I> {
    /// How much the sources yield in all.
    pub open spec fn len(self) -> nat {
        self.gossipsub.len() + self.identify.len() + self.peer_manager.len()
    }
}

impl BehaviourView {
    /// The rest of a pass that needs `step` next, with the sources yielding
    /// what `script` says: the behaviour at the end of the pass, and what the
    /// swarm is handed.
    pub open spec fn run<G, I>(
        self,
        step: PollStep<BehaviourActionView<G, I>>,
        script: PollScript<G, I>,
    ) -> (BehaviourView, Poll<BehaviourActionView<G, I>>)
        decreases script.len(), rank(step),
    {
        match step {
            PollStep::Return(polled) => (self, polled),
            PollStep::PollGossipsub => {
                let (after, next) = self.gossipsub_polled::<G, I>(next_of(script.gossipsub));
                after.run(next, PollScript { gossipsub: rest_of(script.gossipsub), ..script })
            },
            PollStep::PollIdentify => {
                let (after, next) = self.identify_polled::<G, I>(next_of(script.identify));
                after.run(next, PollScript { identify: rest_of(script.identify), ..script })
            },
            PollStep::PollPeerManager => {
                let (after, next) = self.peer_manager_polled::<G, I>(
                    next_of(script.peer_manager),
                );
                after.run(
                    next,
                    PollScript { peer_manager: rest_of(script.peer_manager), ..script },
                )
            },
        }
    }

    /// A whole pass, with the sources yielding what `script` says.
    pub open spec fn poll_pass<G, I>(self, script: PollScript<G, I>) -> (
        BehaviourView,
        Poll<BehaviourActionView<G, I>>,
    ) {
        self.run(PollStep::PollGossipsub, script)
    }
}

/// Whether the swarm is handed the shutdown of connections of a peer.
pub open spec fn is_shutdown<G, I>(polled: Poll<BehaviourActionView<G, I>>) -> bool {
    polled matches Poll::Ready(
        NetworkBehaviourAction::NotifyHandler { event: BehaviourHandlerInView::Shutdown(_), .. },
    )
}

/// The event that shows a gossip message to the application.
pub open spec fn pubsub_event(
    source: PeerId,
    id: MessageId,
    message: GossipsubMessage,
) -> BehaviourEventView {
    BehaviourEventView::PubsubMessage {
        id,
        source,
        topics: message.topics@,
        message: message.data@,
    }
}

proof fn lemma_push_keeps<T>(items: Seq<T>, item: T, held: T)
    requires
        items.contains(held),
    ensures
        items.push(item).contains(held),
{
    let i = choose|i: int| 0 <= i < items.len() && items[i] == held;
    assert(items.push(item)[i] == held);
}

proof fn lemma_on_rpc_event_keeps(
    state: BehaviourView,
    message: RPCMessageView,
    held: BehaviourEventView,
)
    requires
        state.events.contains(held),
    ensures
        state.on_rpc_event(message).events.contains(held),
{
    let after = state.on_rpc_event(message);
    if after.events != state.events {
        let added = after.events.last();
        assert(after.events =~= state.events.push(added));
        lemma_push_keeps(state.events, added, held);
    }
}

proof fn lemma_poll_rpc_keeps<G, I>(state: BehaviourView, held: BehaviourEventView)
    requires
        state.events.contains(held),
    ensures
        state.poll_rpc::<G, I>().0.events.contains(held),
    decreases reports(state.rpc), state.rpc.len(),
{
    if state.rpc.len() > 0 {
        let rest = BehaviourView { rpc: state.rpc.drop_first(), ..state };
        if let NetworkBehaviourAction::GenerateEvent(message) = state.rpc.first() {
            lemma_reports_drop_first(state.rpc);
            lemma_on_rpc_event_reports(rest, message);
            lemma_on_rpc_event_keeps(rest, message, held);
            lemma_poll_rpc_keeps::<G, I>(rest.on_rpc_event(message), held);
        }
    }
}

proof fn lemma_run_keeps<G, I>(
    state: BehaviourView,
    step: PollStep<BehaviourActionView<G, I>>,
    script: PollScript<G, I>,
    held: BehaviourEventView,
)
    requires
        state.events.contains(held),
    ensures
        is_shutdown(state.run(step, script).1) ==> state.run(step, script).0.events.contains(
            held,
        ),
    decreases script.len(), rank(step),
{
    reveal_with_fuel(BehaviourView::run, 2);
    match step {
        PollStep::Return(_) => {},
        PollStep::PollGossipsub => {
            let polled = next_of(script.gossipsub);
            let (after, next) = state.gossipsub_polled::<G, I>(polled);
            match polled {
                Poll::Ready(NetworkBehaviourAction::GenerateEvent(event)) => {
                    let seen = match event {
                        GossipsubEvent::Message(_, id, _) => state.remember(id),
                        _ => state,
                    };
                    if after.events != state.events {
                        let added = after.events.last();
                        assert(after.events =~= seen.events.push(added));
                        lemma_push_keeps(state.events, added, held);
                    }
                },
                Poll::Ready(_) => {},
                Poll::Pending => {
                    lemma_poll_rpc_keeps::<G, I>(state, held);
                },
            }
            lemma_run_keeps(
                after,
                next,
                PollScript { gossipsub: rest_of(script.gossipsub), ..script },
                held,
            );
        },
        PollStep::PollIdentify => {
            let (after, next) = state.identify_polled::<G, I>(next_of(script.identify));
            lemma_run_keeps(
                after,
                next,
                PollScript { identify: rest_of(script.identify), ..script },
                held,
            );
        },
        PollStep::PollPeerManager => {
            let polled = next_of(script.peer_manager);
            let (after, next) = state.peer_manager_polled::<G, I>(polled);
            if after.events == state.events {
                lemma_run_keeps(
                    after,
                    next,
                    PollScript { peer_manager: rest_of(script.peer_manager), ..script },
                    held,
                );
            }
        },
    }
}

/// A gossip message that the engine has ready when a pass begins is shown to
/// the application before any shutdown of connections leaves the pass: where
/// the pass ends with a shutdown, whether the farewell that the peer manager
/// has just asked for or the shutdown of a peer that waited already, the
/// event for the message is among those that wait for the application. The
/// gossip engine is drained first.
pub proof fn lemma_gossip_drained_before_shutdown<G, I>(
    state: BehaviourView,
    script: PollScript<G, I>,
    source: PeerId,
    id: MessageId,
    message: GossipsubMessage,
)
    requires
        script.gossipsub.len() > 0,
        script.gossipsub.first() == Poll::Ready(
            NetworkBehaviourAction::<G, GossipsubEvent>::GenerateEvent(
                GossipsubEvent::Message(source, id, message),
            ),
        ),
    ensures
        is_shutdown(state.poll_pass(script).1) ==> state.poll_pass(script).0.events.contains(
            pubsub_event(source, id, message),
        ),
{
    let held = pubsub_event(source, id, message);
    let (after, next) = state.gossipsub_polled::<G, I>(script.gossipsub.first());
    assert(after.events == state.events.push(held));
    assert(after.events.last() == held);
    assert(after.events.contains(held));
    lemma_run_keeps(after, next, PollScript { gossipsub: rest_of(script.gossipsub), ..script }, held);
}

/// No shutdown of connections leaves a pass before the gossip engine has
/// been polled until it had nothing: a pass whose gossip engine yields an
/// action of its own ends with that action.
pub proof fn lemma_shutdown_waits_for_gossip<G, I>(
    state: BehaviourView,
    script: PollScript<G, I>,
)
    requires
        script.gossipsub.len() > 0,
        script.gossipsub.first() is Ready,
        !(script.gossipsub.first()->Ready_0 is GenerateEvent),
    ensures
        state.poll_pass(script).0 == state,
        !is_shutdown(state.poll_pass(script).1),
{
    reveal_with_fuel(BehaviourView::run, 2);
    let (after, next) = state.gossipsub_polled::<G, I>(script.gossipsub.first());
    assert(next is Return);
}

} // verus!
