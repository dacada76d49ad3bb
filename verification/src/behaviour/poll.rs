//! One pass of the swarm through the behaviour.
//!
//! The swarm polls the behaviour again and again. In each pass the sources of
//! work are drained in a fixed order: the gossip engine, the request/response
//! behaviour, the identify behaviour, and last the behaviour's own queues and
//! the peer manager. The first action for the swarm ends the pass.
//!
//! The gossip engine, the identify behaviour and the peer manager are polled
//! by the host. The behaviour says which of them is to be polled next
//! ([`PollStep`]), and is handed what came of it.

use crate::behaviour::events::{BehaviourEvent, BehaviourEventView};
use crate::behaviour::handler::{
    BehaviourHandlerIn, BehaviourHandlerInView, DelegateIn, DelegateInView,
};
use crate::behaviour::model::BehaviourView;
use crate::behaviour::Behaviour;
use crate::gossip::GossipsubEvent;
use crate::identify::IdentifyEvent;
use crate::peer_manager::PeerManagerEvent;
use crate::rpc::methods::{RPCRequest, RPCRequestView, RequestId};
use crate::rpc::{RPCMessage, RPCMessageView, RPCSendView, RpcAction, RpcActionView};
use crate::swarm::{DialPeerCondition, NetworkBehaviourAction, NotifyHandler, Poll};
use vstd::prelude::*;

verus! {

/// An action of the composite behaviour.
pub type BehaviourAction<G, I> = NetworkBehaviourAction<BehaviourHandlerIn<G, I>, BehaviourEvent>;

/// What a [`BehaviourAction`] is.
pub type BehaviourActionView<G, I> = NetworkBehaviourAction<
    BehaviourHandlerInView<G, I>,
    BehaviourEventView,
>;

/// What the pass needs next.
#[derive(Debug, PartialEq)]
pub enum PollStep<A> {
    /// The gossip engine is to be polled, and what comes of it handed to
    /// `gossipsub_polled`.
    PollGossipsub,
    /// The identify behaviour is to be polled, and what comes of it handed to
    /// `identify_polled`.
    PollIdentify,
    /// The peer manager is to be polled, and what comes of it handed to
    /// `peer_manager_polled`.
    PollPeerManager,
    /// The pass is over, with this for the swarm.
    Return(Poll<A>),
}

impl<A: View> View for PollStep<A> {
    type V = PollStep<A::V>;

    open spec fn view(&self) -> PollStep<A::V> {
        match self {
            PollStep::PollGossipsub => PollStep::PollGossipsub,
            PollStep::PollIdentify => PollStep::PollIdentify,
            PollStep::PollPeerManager => PollStep::PollPeerManager,
            PollStep::Return(polled) => PollStep::Return(polled@),
        }
    }
}

/// The action that the swarm is handed in place of an action of one of the
/// three protocol behaviours: the same action, the payload of a notification
/// wrapped by `wrap` so as to name the protocol it is for. An event is not
/// for the swarm: there is no action in place of it.
pub open spec fn passed_on<T, E, G, I>(
    action: NetworkBehaviourAction<T, E>,
    wrap: spec_fn(T) -> DelegateInView<G, I>,
) -> Option<BehaviourActionView<G, I>> {
    match action {
        NetworkBehaviourAction::GenerateEvent(_) => None,
        NetworkBehaviourAction::DialAddress { address } => Some(
            NetworkBehaviourAction::DialAddress { address },
        ),
        NetworkBehaviourAction::DialPeer { peer_id, condition } => Some(
            NetworkBehaviourAction::DialPeer { peer_id, condition },
        ),
        NetworkBehaviourAction::NotifyHandler { peer_id, handler, event } => Some(
            NetworkBehaviourAction::NotifyHandler {
                peer_id,
                handler,
                event: BehaviourHandlerInView::Delegate(wrap(event)),
            },
        ),
        NetworkBehaviourAction::ReportObservedAddr { address } => Some(
            NetworkBehaviourAction::ReportObservedAddr { address },
        ),
    }
}

/// The number of handler reports in a queue of the request/response
/// behaviour.
pub open spec fn reports(rpc: Seq<RpcActionView>) -> nat
    decreases rpc.len(),
{
    if rpc.len() == 0 {
        0
    } else {
        reports(rpc.drop_last()) + if rpc.last() is GenerateEvent {
            1nat
        } else {
            0nat
        }
    }
}

/// The shutdown that closes all connections of a peer.
pub open spec fn shutdown_action<G, I>(peer_id: libp2p::PeerId) -> BehaviourActionView<G, I> {
    NetworkBehaviourAction::NotifyHandler {
        peer_id,
        handler: NotifyHandler::All,
        event: BehaviourHandlerInView::Shutdown(None),
    }
}

/// The farewell: the shutdown of one connection of a peer, whichever, with a
/// goodbye of the behaviour's own and of no content sent first.
pub open spec fn goodbye_action<G, I>(peer_id: libp2p::PeerId) -> BehaviourActionView<G, I> {
    NetworkBehaviourAction::NotifyHandler {
        peer_id,
        handler: NotifyHandler::Any,
        event: BehaviourHandlerInView::Shutdown(
            Some((RequestId::Behaviour, RPCRequestView::Goodbye(Seq::empty()))),
        ),
    }
}

impl BehaviourView {
    /// The queue of the request/response behaviour is worked off from the
    /// front: every report is acted on, and the first action that is not a
    /// report ends the work and is for the swarm. Where the queue runs empty,
    /// nothing is for the swarm.
    pub open spec fn poll_rpc<G, I>(self) -> (BehaviourView, Poll<BehaviourActionView<G, I>>)
        decreases reports(self.rpc), self.rpc.len(),
        via Self::poll_rpc_decreases::<G, I>
    {
        if self.rpc.len() == 0 {
            (self, Poll::Pending)
        } else {
            let rest = BehaviourView { rpc: self.rpc.drop_first(), ..self };
            match self.rpc.first() {
                NetworkBehaviourAction::GenerateEvent(message) => rest.on_rpc_event(
                    message,
                ).poll_rpc(),
                action => (
                    rest,
                    Poll::Ready(
                        passed_on(
                            action,
                            |event: RPCSendView| DelegateInView::<G, I>::RPC(event),
                        ).unwrap(),
                    ),
                ),
            }
        }
    }

    #[via_fn]
    proof fn poll_rpc_decreases<G, I>(self) {
        if self.rpc.len() > 0 {
            if let NetworkBehaviourAction::GenerateEvent(message) = self.rpc.first() {
                let rest = BehaviourView { rpc: self.rpc.drop_first(), ..self };
                lemma_reports_drop_first(self.rpc);
                lemma_on_rpc_event_reports(rest, message);
            }
        }
    }

    /// The gossip engine has been polled. A report of it is acted on, and the
    /// engine is to be polled again. An action of it ends the pass. When it
    /// has nothing, the request/response behaviour is worked off; what that
    /// yields ends the pass, and if it yields nothing the identify behaviour
    /// comes next.
    pub open spec fn gossipsub_polled<G, I>(
        self,
        polled: Poll<NetworkBehaviourAction<G, GossipsubEvent>>,
    ) -> (BehaviourView, PollStep<BehaviourActionView<G, I>>) {
        match polled {
            Poll::Ready(NetworkBehaviourAction::GenerateEvent(event)) => (
                self.on_gossip_event(event),
                PollStep::PollGossipsub,
            ),
            Poll::Ready(action) => (
                self,
                PollStep::Return(
                    Poll::Ready(
                        passed_on(
                            action,
                            |event: G| DelegateInView::<G, I>::Gossipsub(event),
                        ).unwrap(),
                    ),
                ),
            ),
            Poll::Pending => {
                let (after, polled) = self.poll_rpc::<G, I>();
                match polled {
                    Poll::Ready(action) => (after, PollStep::Return(Poll::Ready(action))),
                    Poll::Pending => (after, PollStep::PollIdentify),
                }
            },
        }
    }

    /// The identify behaviour has been polled. A report of it is acted on,
    /// and it is to be polled again. An action of it ends the pass. When it
    /// has nothing, the behaviour's own work comes next.
    pub open spec fn identify_polled<G, I>(
        self,
        polled: Poll<NetworkBehaviourAction<I, IdentifyEvent>>,
    ) -> (BehaviourView, PollStep<BehaviourActionView<G, I>>) {
        match polled {
            Poll::Ready(NetworkBehaviourAction::GenerateEvent(event)) => (
                self.on_identify_event(event),
                PollStep::PollIdentify,
            ),
            Poll::Ready(action) => (
                self,
                PollStep::Return(
                    Poll::Ready(
                        passed_on(
                            action,
                            |event: I| DelegateInView::<G, I>::Identify(event),
                        ).unwrap(),
                    ),
                ),
            ),
            Poll::Pending => self.custom_poll(),
        }
    }

    /// The behaviour's own work begins. A peer that waits to be disconnected
    /// comes first: it leaves the queue, and all its connections are shut
    /// down. With nobody waiting, the peer manager is to be polled.
    pub open spec fn custom_poll<G, I>(self) -> (
        BehaviourView,
        PollStep<BehaviourActionView<G, I>>,
    ) {
        if self.peers_to_dc.len() > 0 {
            (
                BehaviourView { peers_to_dc: self.peers_to_dc.drop_first(), ..self },
                PollStep::Return(Poll::Ready(shutdown_action(self.peers_to_dc.first()))),
            )
        } else {
            (self, PollStep::PollPeerManager)
        }
    }

    /// The peer manager has nothing more. The oldest event that waits for the
    /// application ends the pass; with none waiting, the pass ends with
    /// nothing.
    pub open spec fn next_event<G, I>(self) -> (
        BehaviourView,
        PollStep<BehaviourActionView<G, I>>,
    ) {
        if self.events.len() > 0 {
            (
                BehaviourView { events: self.events.drop_first(), ..self },
                PollStep::Return(
                    Poll::Ready(NetworkBehaviourAction::GenerateEvent(self.events.first())),
                ),
            )
        } else {
            (self, PollStep::Return(Poll::Pending))
        }
    }

    /// The peer manager has been polled. A dial, a socket update and a status
    /// prompt end the pass with the action that stands for them. A ping and a
    /// metadata request are queued, and the peer manager is to be polled
    /// again. A disconnect puts the peer among those that wait, and ends the
    /// pass with the farewell. When the peer manager has nothing, or has
    /// ended, the events for the application come next.
    pub open spec fn peer_manager_polled<G, I>(
        self,
        polled: Poll<Option<PeerManagerEvent>>,
    ) -> (BehaviourView, PollStep<BehaviourActionView<G, I>>) {
        match polled {
            Poll::Ready(Some(PeerManagerEvent::Dial(peer_id))) => (
                self,
                PollStep::Return(
                    Poll::Ready(
                        NetworkBehaviourAction::DialPeer {
                            peer_id,
                            condition: DialPeerCondition::Disconnected,
                        },
                    ),
                ),
            ),
            Poll::Ready(Some(PeerManagerEvent::SocketUpdated(address))) => (
                self,
                PollStep::Return(
                    Poll::Ready(NetworkBehaviourAction::ReportObservedAddr { address }),
                ),
            ),
            Poll::Ready(Some(PeerManagerEvent::Status(peer_id))) => (
                self,
                PollStep::Return(
                    Poll::Ready(
                        NetworkBehaviourAction::GenerateEvent(
                            BehaviourEventView::StatusPeer(peer_id),
                        ),
                    ),
                ),
            ),
            Poll::Ready(Some(PeerManagerEvent::Ping(peer_id))) => (
                self.ping(RequestId::Behaviour, peer_id),
                PollStep::PollPeerManager,
            ),
            Poll::Ready(Some(PeerManagerEvent::MetaData(peer_id))) => (
                self.send_meta_data_request(peer_id),
                PollStep::PollPeerManager,
            ),
            Poll::Ready(Some(PeerManagerEvent::DisconnectPeer(peer_id))) => (
                self.disconnect(peer_id),
                PollStep::Return(Poll::Ready(goodbye_action(peer_id))),
            ),
            Poll::Ready(None) => self.next_event(),
            Poll::Pending => self.next_event(),
        }
    }
}

/// Sorts what the gossip engine yields: an action is handed on to the swarm,
/// with the payload of a notification marked as the gossip handler's; a
/// report is given back, for the behaviour to act on.
fn delegate_gossipsub<G, I>(action: NetworkBehaviourAction<G, GossipsubEvent>) -> (sorted: Result<
    BehaviourAction<G, I>,
    GossipsubEvent,
>)
    ensures
        match sorted {
            Ok(passed) => Some(passed@) == passed_on(
                action,
                |event: G| DelegateInView::<G, I>::Gossipsub(event),
            ),
            Err(report) => action == NetworkBehaviourAction::<G, GossipsubEvent>::GenerateEvent(
                report,
            ),
        },
{
    match action {
        NetworkBehaviourAction::GenerateEvent(report) => Err(report),
        NetworkBehaviourAction::DialAddress { address } => Ok(
            NetworkBehaviourAction::DialAddress { address },
        ),
        NetworkBehaviourAction::DialPeer { peer_id, condition } => Ok(
            NetworkBehaviourAction::DialPeer { peer_id, condition },
        ),
        NetworkBehaviourAction::NotifyHandler { peer_id, handler, event } => Ok(
            NetworkBehaviourAction::NotifyHandler {
                peer_id,
                handler,
                event: BehaviourHandlerIn::Delegate(DelegateIn::Gossipsub(event)),
            },
        ),
        NetworkBehaviourAction::ReportObservedAddr { address } => Ok(
            NetworkBehaviourAction::ReportObservedAddr { address },
        ),
    }
}

/// Sorts what the identify behaviour yields: an action is handed on to the
/// swarm, with the payload of a notification marked as the identify
/// handler's; a report is given back, for the behaviour to act on.
fn delegate_identify<G, I>(action: NetworkBehaviourAction<I, IdentifyEvent>) -> (sorted: Result<
    BehaviourAction<G, I>,
    IdentifyEvent,
>)
    ensures
        match sorted {
            Ok(passed) => Some(passed@) == passed_on(
                action,
                |event: I| DelegateInView::<G, I>::Identify(event),
            ),
            Err(report) => action == NetworkBehaviourAction::<I, IdentifyEvent>::GenerateEvent(
                report,
            ),
        },
{
    match action {
        NetworkBehaviourAction::GenerateEvent(report) => Err(report),
        NetworkBehaviourAction::DialAddress { address } => Ok(
            NetworkBehaviourAction::DialAddress { address },
        ),
        NetworkBehaviourAction::DialPeer { peer_id, condition } => Ok(
            NetworkBehaviourAction::DialPeer { peer_id, condition },
        ),
        NetworkBehaviourAction::NotifyHandler { peer_id, handler, event } => Ok(
            NetworkBehaviourAction::NotifyHandler {
                peer_id,
                handler,
                event: BehaviourHandlerIn::Delegate(DelegateIn::Identify(event)),
            },
        ),
        NetworkBehaviourAction::ReportObservedAddr { address } => Ok(
            NetworkBehaviourAction::ReportObservedAddr { address },
        ),
    }
}

/// Sorts what the request/response behaviour yields: an action is handed on
/// to the swarm, with the payload of a notification marked as the
/// request/response handler's; a report is given back, for the behaviour to
/// act on.
fn delegate_rpc<G, I>(action: RpcAction) -> (sorted: Result<BehaviourAction<G, I>, RPCMessage>)
    ensures
        match sorted {
            Ok(passed) => Some(passed@) == passed_on(
                action@,
                |event: RPCSendView| DelegateInView::<G, I>::RPC(event),
            ),
            Err(report) => action@ == NetworkBehaviourAction::<
                RPCSendView,
                RPCMessageView,
            >::GenerateEvent(report@),
        },
{
    match action {
        NetworkBehaviourAction::GenerateEvent(report) => Err(report),
        NetworkBehaviourAction::DialAddress { address } => Ok(
            NetworkBehaviourAction::DialAddress { address },
        ),
        NetworkBehaviourAction::DialPeer { peer_id, condition } => Ok(
            NetworkBehaviourAction::DialPeer { peer_id, condition },
        ),
        NetworkBehaviourAction::NotifyHandler { peer_id, handler, event } => Ok(
            NetworkBehaviourAction::NotifyHandler {
                peer_id,
                handler,
                event: BehaviourHandlerIn::Delegate(DelegateIn::RPC(event)),
            },
        ),
        NetworkBehaviourAction::ReportObservedAddr { address } => Ok(
            NetworkBehaviourAction::ReportObservedAddr { address },
        ),
    }
}

impl Behaviour {
    /// Begins a pass: the gossip engine is polled first.
    pub fn poll<G, I>(&mut self) -> (step: PollStep<BehaviourAction<G, I>>)
        ensures
            final(self)@ == old(self)@,
            step@ == PollStep::<BehaviourActionView<G, I>>::PollGossipsub,
    {
        PollStep::PollGossipsub
    }

    /// Works off the queue of the request/response behaviour.
    fn poll_rpc<G, I>(&mut self) -> (polled: Poll<BehaviourAction<G, I>>)
        ensures
            (final(self)@, polled@) == old(self)@.poll_rpc::<G, I>(),
    {
        loop
            invariant
                self@.poll_rpc::<G, I>() == old(self)@.poll_rpc::<G, I>(),
            decreases reports(self@.rpc), self@.rpc.len(),
        {
            let ghost before = self@;
            match self.next_rpc_action() {
                Poll::Ready(action) => {
                    match delegate_rpc::<G, I>(action) {
                        Ok(passed) => {
                            return Poll::Ready(passed);
                        },
                        Err(report) => {
                            proof {
                                lemma_reports_drop_first(before.rpc);
                                lemma_on_rpc_event_reports(self@, report@);
                            }
                            self.on_rpc_event(report);
                        },
                    }
                },
                Poll::Pending => {
                    return Poll::Pending;
                },
            }
        }
    }

    /// Takes in what polling the gossip engine has yielded, and says how the
    /// pass goes on.
    pub fn gossipsub_polled<G, I>(
        &mut self,
        polled: Poll<NetworkBehaviourAction<G, GossipsubEvent>>,
    ) -> (step: PollStep<BehaviourAction<G, I>>)
        ensures
            (final(self)@, step@) == old(self)@.gossipsub_polled::<G, I>(polled),
    {
        match polled {
            Poll::Ready(action) => match delegate_gossipsub::<G, I>(action) {
                Ok(passed) => PollStep::Return(Poll::Ready(passed)),
                Err(report) => {
                    self.on_gossip_event(report);
                    PollStep::PollGossipsub
                },
            },
            Poll::Pending => match self.poll_rpc::<G, I>() {
                Poll::Ready(action) => PollStep::Return(Poll::Ready(action)),
                Poll::Pending => PollStep::PollIdentify,
            },
        }
    }

    /// Takes in what polling the identify behaviour has yielded, and says how
    /// the pass goes on.
    pub fn identify_polled<G, I>(
        &mut self,
        polled: Poll<NetworkBehaviourAction<I, IdentifyEvent>>,
    ) -> (step: PollStep<BehaviourAction<G, I>>)
        ensures
            (final(self)@, step@) == old(self)@.identify_polled::<G, I>(polled),
    {
        match polled {
            Poll::Ready(action) => match delegate_identify::<G, I>(action) {
                Ok(passed) => PollStep::Return(Poll::Ready(passed)),
                Err(report) => {
                    self.on_identify_event(report);
                    PollStep::PollIdentify
                },
            },
            Poll::Pending => self.custom_poll(),
        }
    }

    /// Begins the behaviour's own work: the peers that wait to be
    /// disconnected come before the peer manager.
    pub fn custom_poll<G, I>(&mut self) -> (step: PollStep<BehaviourAction<G, I>>)
        ensures
            (final(self)@, step@) == old(self)@.custom_poll::<G, I>(),
    {
        match self.next_disconnect() {
            Some(peer_id) => PollStep::Return(
                Poll::Ready(
                    NetworkBehaviourAction::NotifyHandler {
                        peer_id,
                        handler: NotifyHandler::All,
                        event: BehaviourHandlerIn::Shutdown(None),
                    },
                ),
            ),
            None => PollStep::PollPeerManager,
        }
    }

    /// Takes in what polling the peer manager has yielded, and says how the
    /// pass goes on. `Ready(None)` stands for a peer manager that has ended.
    pub fn peer_manager_polled<G, I>(&mut self, polled: Poll<Option<PeerManagerEvent>>) -> (step:
        PollStep<BehaviourAction<G, I>>)
        ensures
            (final(self)@, step@) == old(self)@.peer_manager_polled::<G, I>(polled),
    {
        match polled {
            Poll::Ready(Some(event)) => match event {
                PeerManagerEvent::Dial(peer_id) => PollStep::Return(
                    Poll::Ready(
                        NetworkBehaviourAction::DialPeer {
                            peer_id,
                            condition: DialPeerCondition::Disconnected,
                        },
                    ),
                ),
                PeerManagerEvent::SocketUpdated(address) => PollStep::Return(
                    Poll::Ready(NetworkBehaviourAction::ReportObservedAddr { address }),
                ),
                PeerManagerEvent::Status(peer_id) => PollStep::Return(
                    Poll::Ready(
                        NetworkBehaviourAction::GenerateEvent(BehaviourEvent::StatusPeer(peer_id)),
                    ),
                ),
                PeerManagerEvent::Ping(peer_id) => {
                    self.ping(RequestId::Behaviour, peer_id);
                    PollStep::PollPeerManager
                },
                PeerManagerEvent::MetaData(peer_id) => {
                    self.send_meta_data_request(peer_id);
                    PollStep::PollPeerManager
                },
                PeerManagerEvent::DisconnectPeer(peer_id) => {
                    self.disconnect(peer_id.clone());
                    PollStep::Return(
                        Poll::Ready(
                            NetworkBehaviourAction::NotifyHandler {
                                peer_id,
                                handler: NotifyHandler::Any,
                                event: BehaviourHandlerIn::Shutdown(
                                    Some((RequestId::Behaviour, RPCRequest::Goodbye(Vec::new()))),
                                ),
                            },
                        ),
                    )
                },
            },
            Poll::Ready(None) => self.next_event(),
            Poll::Pending => self.next_event(),
        }
    }

    /// Ends the pass with the oldest event that waits for the application, or
    /// with nothing.
    fn next_event<G, I>(&mut self) -> (step: PollStep<BehaviourAction<G, I>>)
        ensures
            (final(self)@, step@) == old(self)@.next_event::<G, I>(),
    {
        match self.next_public_event() {
            Some(event) => PollStep::Return(
                Poll::Ready(NetworkBehaviourAction::GenerateEvent(event)),
            ),
            None => PollStep::Return(Poll::Pending),
        }
    }
}

/// A queue with an action added at the back has one report more if the
/// action is a report, and as many as before if it is not.
pub proof fn lemma_reports_push(rpc: Seq<RpcActionView>, action: RpcActionView)
    ensures
        reports(rpc.push(action)) == reports(rpc) + if action is GenerateEvent {
            1nat
        } else {
            0nat
        },
{
    assert(rpc.push(action).drop_last() =~= rpc);
}

/// A queue without its first action has one report less if that action is a
/// report, and as many as before if it is not.
pub proof fn lemma_reports_drop_first(rpc: Seq<RpcActionView>)
    requires
        rpc.len() > 0,
    ensures
        reports(rpc) == reports(rpc.drop_first()) + if rpc.first() is GenerateEvent {
            1nat
        } else {
            0nat
        },
    decreases rpc.len(),
{
    if rpc.len() == 1 {
        assert(rpc.drop_last() =~= rpc.drop_first());
        assert(rpc.first() == rpc.last());
    } else {
        lemma_reports_drop_first(rpc.drop_last());
        assert(rpc.drop_last().drop_first() =~= rpc.drop_first().drop_last());
        assert(rpc.drop_last().first() == rpc.first());
        assert(rpc.drop_first().last() == rpc.last());
    }
}

/// Acting on a report adds no report to the queue of the request/response
/// behaviour.
pub proof fn lemma_on_rpc_event_reports(state: BehaviourView, message: RPCMessageView)
    ensures
        reports(state.on_rpc_event(message).rpc) == reports(state.rpc),
{
    let after = state.on_rpc_event(message);
    if after.rpc != state.rpc {
        let added = after.rpc.last();
        assert(after.rpc =~= state.rpc.push(added));
        lemma_reports_push(state.rpc, added);
    }
}

} // verus!
