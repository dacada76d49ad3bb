use libp2p::gossipsub::{
    Gossipsub, GossipsubConfig, GossipsubConfigBuilder, MessageId, Topic, TopicHash,
};
use libp2p::PeerId;
use mothra_network::behaviour::events::BehaviourEvent;
use mothra_network::behaviour::handler::{BehaviourHandlerIn, DelegateIn};
use mothra_network::behaviour::poll::{BehaviourAction, PollStep};
use mothra_network::behaviour::{Behaviour, SEEN_GOSSIP_CAPACITY};
use mothra_network::gossip::{GossipsubEvent, GossipsubMessage, Publication};
use mothra_network::peer_manager::PeerManagerEvent;
use mothra_network::rpc::methods::{RPCRequest, RequestId};
use mothra_network::swarm::{DialPeerCondition, NetworkBehaviourAction, NotifyHandler, Poll};
use mothra_network::types::globals::{Enr, NetworkGlobals};
use mothra_network::types::subscriptions::SubscriptionCall;
use mothra_network::types::topics::{GossipKind, GossipTopic};

type Action = BehaviourAction<u32, ()>;

fn behaviour() -> Behaviour {
    let local = PeerId::random();
    let enr = Enr { peer_id: local.clone(), text: "enr:local".to_string() };
    let globals = NetworkGlobals::new(enr, vec![1, 2, 3, 4], vec![], vec![], 9000, 9001);
    Behaviour::new(Gossipsub::new(local, GossipsubConfig::default()), globals, Ok(())).unwrap()
}

fn topic(name: &str) -> GossipTopic {
    GossipTopic::new(GossipKind::new(name.to_string()))
}

fn message(source: &PeerId, data: Vec<u8>, topics: Vec<&str>) -> GossipsubMessage {
    GossipsubMessage {
        source: source.clone(),
        data,
        sequence_number: 1,
        topics: topics.into_iter().map(TopicHash::from_raw).collect(),
    }
}

fn next_event(b: &mut Behaviour) -> Poll<Action> {
    match b.peer_manager_polled(Poll::Pending) {
        PollStep::Return(polled) => polled,
        step => panic!("the pass goes on: {:?}", step),
    }
}

#[test]
fn the_seen_cache_is_made_for_a_hundred_thousand_ids() {
    assert_eq!(SEEN_GOSSIP_CAPACITY, 100_000);
    assert_eq!(behaviour().seen_gossip_messages(), 0);
}

#[test]
fn a_gossip_message_is_shown_with_the_peer_it_came_from() {
    let publisher = PeerId::random();
    let forwarder = PeerId::random();
    let mut b = behaviour();
    b.on_gossip_event(GossipsubEvent::Message(
        forwarder.clone(),
        MessageId("m1".to_string()),
        message(&publisher, vec![1, 2, 3], vec!["a", "b"]),
    ));
    assert_eq!(
        next_event(&mut b),
        Poll::Ready(NetworkBehaviourAction::GenerateEvent(BehaviourEvent::PubsubMessage {
            id: MessageId("m1".to_string()),
            source: forwarder,
            topics: vec![TopicHash::from_raw("a"), TopicHash::from_raw("b")],
            message: vec![1, 2, 3],
        }))
    );
    assert_eq!(next_event(&mut b), Poll::Pending);
}

#[test]
fn a_duplicate_gossip_message_is_shown_again() {
    let peer = PeerId::random();
    let mut b = behaviour();
    for _ in 0..2 {
        b.on_gossip_event(GossipsubEvent::Message(
            peer.clone(),
            MessageId("same".to_string()),
            message(&peer, vec![5], vec!["a"]),
        ));
    }
    b.on_gossip_event(GossipsubEvent::Message(
        peer.clone(),
        MessageId("other".to_string()),
        message(&peer, vec![6], vec!["a"]),
    ));
    // Two ids have been seen, and all three messages are shown.
    assert_eq!(b.seen_gossip_messages(), 2);
    for data in vec![vec![5u8], vec![5u8], vec![6u8]] {
        match next_event(&mut b) {
            Poll::Ready(NetworkBehaviourAction::GenerateEvent(BehaviourEvent::PubsubMessage {
                message,
                ..
            })) => assert_eq!(message, data),
            other => panic!("not a gossip message: {:?}", other),
        }
    }
    assert_eq!(next_event(&mut b), Poll::Pending);
}

#[test]
fn a_peer_subscription_is_shown_and_its_end_is_not() {
    let peer = PeerId::random();
    let mut b = behaviour();
    b.on_gossip_event(GossipsubEvent::Unsubscribed {
        peer_id: peer.clone(),
        topic: TopicHash::from_raw("a"),
    });
    assert_eq!(next_event(&mut b), Poll::Pending);
    b.on_gossip_event(GossipsubEvent::Subscribed {
        peer_id: peer.clone(),
        topic: TopicHash::from_raw("a"),
    });
    assert_eq!(
        next_event(&mut b),
        Poll::Ready(NetworkBehaviourAction::GenerateEvent(BehaviourEvent::PeerSubscribed(
            peer,
            TopicHash::from_raw("a")
        )))
    );
}

#[test]
fn subscribe_updates_the_set_and_returns_the_answer_of_the_engine() {
    let mut b = behaviour();
    assert!(!b.network_globals().gossipsub_subscriptions.contains(&topic("blocks")));
    // The engine accepts a new subscription and turns a repeated one down.
    assert!(b.subscribe(topic("blocks")));
    assert!(b.network_globals().gossipsub_subscriptions.contains(&topic("blocks")));
    assert!(!b.subscribe(topic("blocks")));
    assert!(b.network_globals().gossipsub_subscriptions.contains(&topic("blocks")));
    assert!(!b.network_globals().gossipsub_subscriptions.contains(&topic("votes")));
}

#[test]
fn unsubscribe_updates_the_set_and_returns_the_answer_of_the_engine() {
    let mut b = behaviour();
    // The engine was never subscribed.
    assert!(!b.unsubscribe(topic("blocks")));
    assert!(b.subscribe(topic("blocks")));
    assert!(b.unsubscribe(topic("blocks")));
    assert!(!b.network_globals().gossipsub_subscriptions.contains(&topic("blocks")));
    assert!(!b.unsubscribe(topic("blocks")));
}

#[test]
fn subscribe_then_unsubscribe_restores_the_set() {
    let mut b = behaviour();
    b.subscribe(topic("a"));
    b.subscribe(topic("b"));
    let before: Vec<String> =
        b.network_globals().gossipsub_subscriptions.to_vec().into_iter().map(|t| t.into_string()).collect();
    b.subscribe(topic("c"));
    b.unsubscribe(topic("c"));
    let after: Vec<String> =
        b.network_globals().gossipsub_subscriptions.to_vec().into_iter().map(|t| t.into_string()).collect();
    assert_eq!(before, vec!["a".to_string(), "b".to_string()]);
    assert_eq!(after, before);
}

#[test]
fn subscribe_then_unsubscribe_of_a_held_topic_drops_it() {
    let mut b = behaviour();
    b.subscribe(topic("a"));
    b.subscribe(topic("a"));
    b.unsubscribe(topic("a"));
    assert!(b.network_globals().gossipsub_subscriptions.to_vec().is_empty());
}

#[test]
fn subscribe_kind_subscribes_to_the_topic_of_the_kind() {
    let mut b = behaviour();
    assert!(b.subscribe_kind(GossipKind::new("blocks".to_string())));
    assert!(b.network_globals().gossipsub_subscriptions.contains(&topic("blocks")));
    assert!(b.unsubscribe_kind(GossipKind::new("blocks".to_string())));
    assert!(!b.network_globals().gossipsub_subscriptions.contains(&topic("blocks")));
}

#[test]
fn update_fork_version_keeps_the_subscriptions() {
    let mut b = behaviour();
    b.subscribe(topic("a"));
    b.subscribe(topic("b"));
    b.update_fork_version(vec![9, 9, 9, 9]);
    let topics: Vec<String> =
        b.network_globals().gossipsub_subscriptions.to_vec().into_iter().map(|t| t.into_string()).collect();
    assert_eq!(topics, vec!["a".to_string(), "b".to_string()]);
    // The engine is subscribed again to both.
    assert!(!b.subscribe(topic("a")));
    assert!(!b.subscribe(topic("b")));
}

#[test]
fn publish_names_the_topic_and_keeps_the_message() {
    let b = behaviour();
    assert_eq!(
        b.publish(topic("/mothra/topic1"), vec![1, 2, 3]),
        Publication { topic: "/mothra/topic1".to_string(), data: vec![1, 2, 3] }
    );
    assert_eq!(b.publish(topic(""), vec![]), Publication { topic: String::new(), data: vec![] });
}

fn id_by_content(message: &libp2p::gossipsub::GossipsubMessage) -> MessageId {
    MessageId(format!("{:?}", message.data))
}

#[test]
fn propagate_returns_the_answer_of_the_engine() {
    let local = PeerId::random();
    let peer = PeerId::random();
    let enr = Enr { peer_id: local.clone(), text: "enr:local".to_string() };
    let globals = NetworkGlobals::new(enr, vec![], vec![], vec![], 9000, 9001);
    let config = GossipsubConfigBuilder::new().message_id_fn(id_by_content).build();
    let mut b = Behaviour::new(Gossipsub::new(local, config), globals, Ok(())).unwrap();
    // The engine holds what it has published, under the id of the content.
    b.gs_mut().publish(&Topic::new("a".to_string()), vec![1u8, 2, 3]);
    assert!(b.propagate_message(&peer, MessageId("[1, 2, 3]".to_string())));
    assert!(!b.propagate_message(&peer, MessageId("[4]".to_string())));
}

#[test]
fn propagate_touches_nothing_but_the_engine() {
    let peer = PeerId::random();
    let mut b = behaviour();
    assert!(!b.propagate_message(&peer, MessageId("unknown".to_string())));
    assert_eq!(next_event(&mut b), Poll::Pending);
    assert_eq!(b.take_peer_manager_updates(), vec![]);
    assert!(b.network_globals().gossipsub_subscriptions.to_vec().is_empty());
}

#[test]
fn an_action_of_the_gossip_engine_ends_the_pass_wrapped_for_its_handler() {
    let peer = PeerId::random();
    let mut b = behaviour();
    let step: PollStep<Action> = b.gossipsub_polled(Poll::Ready(
        NetworkBehaviourAction::NotifyHandler {
            peer_id: peer.clone(),
            handler: NotifyHandler::Any,
            event: 17u32,
        },
    ));
    assert_eq!(
        step,
        PollStep::Return(Poll::Ready(NetworkBehaviourAction::NotifyHandler {
            peer_id: peer.clone(),
            handler: NotifyHandler::Any,
            event: BehaviourHandlerIn::Delegate(DelegateIn::Gossipsub(17u32)),
        }))
    );
    let step: PollStep<Action> = b.gossipsub_polled(Poll::Ready(NetworkBehaviourAction::DialPeer {
        peer_id: peer.clone(),
        condition: DialPeerCondition::NotDialing,
    }));
    assert_eq!(
        step,
        PollStep::Return(Poll::Ready(NetworkBehaviourAction::DialPeer {
            peer_id: peer,
            condition: DialPeerCondition::NotDialing,
        }))
    );
}

#[test]
fn an_action_of_the_identify_behaviour_ends_the_pass_wrapped_for_its_handler() {
    let peer = PeerId::random();
    let address: libp2p::Multiaddr = "/ip4/10.0.0.1/tcp/1".parse().unwrap();
    let mut b = behaviour();
    let step: PollStep<Action> = b.identify_polled(Poll::Ready(
        NetworkBehaviourAction::NotifyHandler {
            peer_id: peer.clone(),
            handler: NotifyHandler::All,
            event: (),
        },
    ));
    assert_eq!(
        step,
        PollStep::Return(Poll::Ready(NetworkBehaviourAction::NotifyHandler {
            peer_id: peer,
            handler: NotifyHandler::All,
            event: BehaviourHandlerIn::Delegate(DelegateIn::Identify(())),
        }))
    );
    let step: PollStep<Action> = b.identify_polled(Poll::Ready(
        NetworkBehaviourAction::DialAddress { address: address.clone() },
    ));
    assert_eq!(
        step,
        PollStep::Return(Poll::Ready(NetworkBehaviourAction::DialAddress { address: address.clone() }))
    );
    let step: PollStep<Action> = b.identify_polled(Poll::Ready(
        NetworkBehaviourAction::ReportObservedAddr { address: address.clone() },
    ));
    assert_eq!(
        step,
        PollStep::Return(Poll::Ready(NetworkBehaviourAction::ReportObservedAddr { address }))
    );
}

#[test]
fn the_pass_polls_gossip_then_identify_then_the_peer_manager() {
    let mut b = behaviour();
    let step: PollStep<Action> = b.poll();
    assert_eq!(step, PollStep::PollGossipsub);
    let step: PollStep<Action> = b.gossipsub_polled(Poll::Pending);
    assert_eq!(step, PollStep::PollIdentify);
    let step: PollStep<Action> = b.identify_polled(Poll::Pending);
    assert_eq!(step, PollStep::PollPeerManager);
    let step: PollStep<Action> = b.peer_manager_polled(Poll::Pending);
    assert_eq!(step, PollStep::Return(Poll::Pending));
}

#[test]
fn a_gossip_message_is_drained_before_a_disconnect_leaves_the_pass() {
    let peer = PeerId::random();
    let doomed = PeerId::random();
    let mut b = behaviour();
    // Both are available: the gossip engine has a message, the peer manager
    // wants a peer disconnected.
    let mut step: PollStep<Action> = b.poll();
    assert_eq!(step, PollStep::PollGossipsub);
    step = b.gossipsub_polled(Poll::Ready(NetworkBehaviourAction::GenerateEvent(
        GossipsubEvent::Message(
            peer.clone(),
            MessageId("m".to_string()),
            message(&peer, vec![1], vec!["a"]),
        ),
    )));
    assert_eq!(step, PollStep::PollGossipsub);
    step = b.gossipsub_polled(Poll::Pending);
    assert_eq!(step, PollStep::PollIdentify);
    step = b.identify_polled(Poll::Pending);
    assert_eq!(step, PollStep::PollPeerManager);
    step = b.peer_manager_polled(Poll::Ready(Some(PeerManagerEvent::DisconnectPeer(doomed.clone()))));
    assert_eq!(
        step,
        PollStep::Return(Poll::Ready(NetworkBehaviourAction::NotifyHandler {
            peer_id: doomed.clone(),
            handler: NotifyHandler::Any,
            event: BehaviourHandlerIn::Shutdown(Some((
                RequestId::Behaviour,
                RPCRequest::Goodbye(vec![])
            ))),
        }))
    );
    // The message is already among the events. The shutdown of the peer
    // that waits comes first in the next pass, the message after it.
    step = b.custom_poll();
    assert_eq!(
        step,
        PollStep::Return(Poll::Ready(NetworkBehaviourAction::NotifyHandler {
            peer_id: doomed,
            handler: NotifyHandler::All,
            event: BehaviourHandlerIn::Shutdown(None),
        }))
    );
    match next_event(&mut b) {
        Poll::Ready(NetworkBehaviourAction::GenerateEvent(BehaviourEvent::PubsubMessage {
            id,
            ..
        })) => assert_eq!(id, MessageId("m".to_string())),
        other => panic!("not the gossip message: {:?}", other),
    }
}

#[test]
fn the_seen_cache_lets_the_oldest_id_go_when_it_is_full() {
    let peer = PeerId::random();
    let mut b = behaviour();
    for n in 0..SEEN_GOSSIP_CAPACITY {
        b.on_gossip_event(GossipsubEvent::Message(
            peer.clone(),
            MessageId(n.to_string()),
            message(&peer, vec![], vec![]),
        ));
    }
    assert_eq!(b.seen_gossip_messages(), SEEN_GOSSIP_CAPACITY);
    b.on_gossip_event(GossipsubEvent::Message(
        peer.clone(),
        MessageId("one more".to_string()),
        message(&peer, vec![], vec![]),
    ));
    assert_eq!(b.seen_gossip_messages(), SEEN_GOSSIP_CAPACITY);
    // An id that is held already takes no room.
    b.on_gossip_event(GossipsubEvent::Message(
        peer.clone(),
        MessageId("one more".to_string()),
        message(&peer, vec![], vec![]),
    ));
    assert_eq!(b.seen_gossip_messages(), SEEN_GOSSIP_CAPACITY);
}

#[test]
fn a_fork_update_leaves_every_topic_and_joins_it_again() {
    let mut b = behaviour();
    assert_eq!(b.fork_update_calls(), vec![]);
    b.subscribe(topic("a"));
    b.subscribe(topic("b"));
    assert_eq!(
        b.fork_update_calls(),
        vec![
            SubscriptionCall::Unsubscribe(topic("a")),
            SubscriptionCall::Unsubscribe(topic("b")),
            SubscriptionCall::Subscribe(topic("a")),
            SubscriptionCall::Subscribe(topic("b")),
        ]
    );
}

#[test]
fn a_fork_update_subscribes_the_engine_to_topics_it_had_lost() {
    let mut b = behaviour();
    b.subscribe(topic("a"));
    // The host takes the subscription away behind the back of the set.
    assert!(b.gs_mut().unsubscribe(Topic::new("a".to_string())));
    b.update_fork_version(vec![7]);
    assert!(b.network_globals().gossipsub_subscriptions.contains(&topic("a")));
    assert!(!b.subscribe(topic("a")));
}

#[test]
fn an_engine_with_a_mesh_degree_of_zero_does_not_keep_a_subscription() {
    let local = PeerId::random();
    let enr = Enr { peer_id: local.clone(), text: "enr:local".to_string() };
    let globals = NetworkGlobals::new(enr, vec![], vec![], vec![], 9000, 9001);
    let mut config = GossipsubConfig::default();
    config.mesh_n = 0;
    let mut b = Behaviour::new(Gossipsub::new(local, config), globals, Ok(())).unwrap();
    // The engine accepts the subscription and has no entry for it
    // afterwards, so it accepts it again. The set holds the topic.
    assert!(b.subscribe(topic("a")));
    assert!(b.subscribe(topic("a")));
    assert!(b.network_globals().gossipsub_subscriptions.contains(&topic("a")));
    assert!(!b.unsubscribe(topic("a")));
}
