use libp2p::identity::Keypair;
use libp2p::gossipsub::{Gossipsub, GossipsubConfig};
use libp2p::{Multiaddr, PeerId};
use mothra_network::behaviour::events::{Request, Response};
use mothra_network::behaviour::Behaviour;
use mothra_network::identify::{IdentifyEvent, IdentifyInfo, MAX_IDENTIFY_ADDRESSES};
use mothra_network::peer_manager::peerdb::{Client, PeerConnectionStatus, PeerDB, PeerInfo};
use mothra_network::peer_manager::PeerManagerUpdate;
use mothra_network::rpc::methods::{
    RPCCodedResponse, RPCRequest, RPCResponse, RPCResponseErrorCode,
};
use mothra_network::rpc::{RPC, SUBSTREAM_TIMEOUT_SECS};
use mothra_network::types::globals::{Enr, NetworkGlobals};
use mothra_network::types::subscriptions::TopicSet;
use mothra_network::types::topics::{GossipKind, GossipTopic};

fn addresses(n: usize) -> Vec<Multiaddr> {
    (0..n).map(|i| format!("/ip4/10.0.0.1/tcp/{}", 1000 + i).parse().unwrap()).collect()
}

fn info(n: usize) -> IdentifyInfo {
    IdentifyInfo {
        public_key: Keypair::generate_ed25519().public(),
        protocol_version: "mothra/1".to_string(),
        agent_version: "agent/0.1".to_string(),
        listen_addrs: addresses(n),
        protocols: vec!["/a/1".to_string(), "/b/2".to_string()],
    }
}

fn globals(local: &PeerId) -> NetworkGlobals {
    let enr = Enr { peer_id: local.clone(), text: "enr:abc".to_string() };
    NetworkGlobals::new(enr, vec![1, 2, 3, 4], vec![5, 6], vec![7, 8], 9000, 9001)
}

fn peer_info(agent: Option<&str>, status: PeerConnectionStatus) -> PeerInfo {
    PeerInfo {
        client: Client { agent_string: agent.map(|a| a.to_string()) },
        connection_status: status,
    }
}

#[test]
fn constants() {
    assert_eq!(MAX_IDENTIFY_ADDRESSES, 10);
    assert_eq!(SUBSTREAM_TIMEOUT_SECS, 30);
}

#[test]
fn identify_keeps_ten_addresses_or_fewer_untouched() {
    let mut short = info(10);
    short.truncate_addresses();
    assert_eq!(short.listen_addrs, addresses(10));
    let mut none = info(0);
    none.truncate_addresses();
    assert_eq!(none.listen_addrs, addresses(0));
}

#[test]
fn identify_cuts_eleven_addresses_down_to_the_first_ten() {
    let mut long = info(11);
    long.truncate_addresses();
    assert_eq!(long.listen_addrs, addresses(10));
    assert_eq!(long.protocols, vec!["/a/1".to_string(), "/b/2".to_string()]);
    assert_eq!(long.agent_version, "agent/0.1".to_string());
}

#[test]
fn identify_information_reaches_the_peer_manager_truncated() {
    let local = PeerId::random();
    let peer = PeerId::random();
    let mut b = Behaviour::new(Gossipsub::new(local.clone(), GossipsubConfig::default()), globals(&local), Ok(())).unwrap();
    let received = info(25);
    let public_key = received.public_key.clone();
    b.on_identify_event(IdentifyEvent::Received {
        peer_id: peer.clone(),
        info: received,
        observed_addr: "/ip4/1.2.3.4/tcp/5".parse().unwrap(),
    });
    assert_eq!(
        b.take_peer_manager_updates(),
        vec![PeerManagerUpdate::Identify {
            peer_id: peer,
            info: IdentifyInfo {
                public_key,
                protocol_version: "mothra/1".to_string(),
                agent_version: "agent/0.1".to_string(),
                listen_addrs: addresses(10),
                protocols: vec!["/a/1".to_string(), "/b/2".to_string()],
            },
        }]
    );
    assert_eq!(b.take_peer_manager_updates(), vec![]);
}

#[test]
fn request_conversion_keeps_the_payload() {
    assert_eq!(RPCRequest::from(Request::Status(vec![1, 2])), RPCRequest::Status(vec![1, 2]));
    assert_eq!(RPCRequest::from(Request::Goodbye(vec![3])), RPCRequest::Goodbye(vec![3]));
    assert_eq!(RPCRequest::from(Request::Status(vec![])), RPCRequest::Status(vec![]));
}

#[test]
fn response_conversion_keeps_the_payload() {
    assert_eq!(
        RPCCodedResponse::from(Response::Status(vec![4, 5, 6])),
        RPCCodedResponse::Success(RPCResponse::Status(vec![4, 5, 6]))
    );
}

#[test]
fn error_codes_map_to_their_responses() {
    assert_eq!(
        RPCCodedResponse::from_error_code(RPCResponseErrorCode::InvalidRequest, "a".to_string()),
        RPCCodedResponse::InvalidRequest("a".to_string())
    );
    assert_eq!(
        RPCCodedResponse::from_error_code(RPCResponseErrorCode::ServerError, "b".to_string()),
        RPCCodedResponse::ServerError("b".to_string())
    );
    assert_eq!(
        RPCCodedResponse::from_error_code(RPCResponseErrorCode::Unknown, "c".to_string()),
        RPCCodedResponse::Unknown("c".to_string())
    );
}

#[test]
fn rpc_queue_is_first_in_first_out() {
    let peer = PeerId::random();
    let mut rpc = RPC::new();
    rpc.inject_connected(&peer);
    rpc.inject_event(peer.clone(), libp2p::core::connection::ConnectionId::new(1), Err(
        mothra_network::rpc::handler::HandlerErr::Inbound {
            id: mothra_network::rpc::handler::SubstreamId(0),
            proto: mothra_network::rpc::protocol::Protocol::Goodbye,
            error: mothra_network::rpc::protocol::RPCError::CodecFailure,
        },
    ));
    assert_eq!(rpc.len(), 2);
    assert!(matches!(
        rpc.poll(),
        mothra_network::swarm::Poll::Ready(
            mothra_network::swarm::NetworkBehaviourAction::NotifyHandler { .. }
        )
    ));
    assert!(matches!(
        rpc.poll(),
        mothra_network::swarm::Poll::Ready(
            mothra_network::swarm::NetworkBehaviourAction::GenerateEvent(_)
        )
    ));
    assert_eq!(rpc.len(), 0);
}

#[test]
fn topics_are_told_apart_by_their_string_form() {
    let a = GossipTopic::new(GossipKind::new("a".to_string()));
    let b = GossipTopic::new(GossipKind::new("b".to_string()));
    assert!(a.same_as(&a.duplicate()));
    assert!(!a.same_as(&b));
    assert_eq!(a.kind().name, "a".to_string());
    assert_eq!(b.into_string(), "b".to_string());
}

#[test]
fn topic_set_insert_remove_contains() {
    let topic = |name: &str| GossipTopic::new(GossipKind::new(name.to_string()));
    let mut set = TopicSet::new();
    assert!(!set.contains(&topic("a")));
    assert!(set.insert(topic("a")));
    assert!(!set.insert(topic("a")));
    assert!(set.insert(topic("b")));
    assert!(set.contains(&topic("a")));
    assert_eq!(set.to_vec().len(), 2);
    assert!(set.remove(&topic("a")));
    assert!(!set.remove(&topic("a")));
    assert!(!set.contains(&topic("a")));
    assert!(set.contains(&topic("b")));
    assert_eq!(set.to_vec().len(), 1);
}

#[test]
fn new_globals_hold_what_they_were_given() {
    let local = PeerId::random();
    let g = globals(&local);
    assert_eq!(g.local_enr(), Enr { peer_id: local.clone(), text: "enr:abc".to_string() });
    assert_eq!(g.local_fork_id(), vec![1, 2, 3, 4]);
    assert_eq!(g.local_peer_id(), local);
    assert_eq!(g.meta_data, vec![5, 6]);
    assert_eq!(g.ping_data, vec![7, 8]);
    assert_eq!(g.listen_multiaddrs(), Vec::<Multiaddr>::new());
    assert_eq!(g.listen_port_tcp(), 9000);
    assert_eq!(g.listen_port_udp(), 9001);
    assert_eq!(g.connected_peers(), 0);
    assert_eq!(g.connected_or_dialing_peers(), 0);
    assert!(g.gossipsub_subscriptions.to_vec().is_empty());
}

#[test]
fn globals_report_listen_addresses_in_order() {
    let local = PeerId::random();
    let mut g = globals(&local);
    g.listen_multiaddrs = addresses(3);
    assert_eq!(g.listen_multiaddrs(), addresses(3));
}

#[test]
fn globals_count_peers_by_status() {
    let local = PeerId::random();
    let mut g = globals(&local);
    let (a, b, c, d) = (PeerId::random(), PeerId::random(), PeerId::random(), PeerId::random());
    g.peers.update(a.clone(), peer_info(None, PeerConnectionStatus::Connected));
    g.peers.update(b.clone(), peer_info(None, PeerConnectionStatus::Dialing));
    g.peers.update(c.clone(), peer_info(None, PeerConnectionStatus::Disconnected));
    g.peers.update(d.clone(), peer_info(None, PeerConnectionStatus::Connected));
    assert_eq!(g.connected_peers(), 2);
    assert_eq!(g.connected_or_dialing_peers(), 3);
    // A second record for a peer takes the place of the first.
    g.peers.update(a.clone(), peer_info(None, PeerConnectionStatus::Banned));
    assert_eq!(g.connected_peers(), 1);
    assert_eq!(g.connected_or_dialing_peers(), 2);
}

#[test]
fn globals_know_the_client_of_a_recorded_peer_only() {
    let local = PeerId::random();
    let mut g = globals(&local);
    let known = PeerId::random();
    let unknown = PeerId::random();
    g.peers.update(known.clone(), peer_info(Some("teku"), PeerConnectionStatus::Connected));
    assert_eq!(g.client(&known), Client { agent_string: Some("teku".to_string()) });
    assert_eq!(g.client(&unknown), Client { agent_string: None });
    assert_eq!(g.client(&unknown), Client::default());
}

#[test]
fn peer_table_finds_a_peer_by_its_id() {
    let mut db = PeerDB::new();
    let a = PeerId::random();
    let b = PeerId::random();
    assert_eq!(db.peer_info(&a), None);
    db.update(a.clone(), peer_info(Some("x"), PeerConnectionStatus::Dialing));
    db.update(b.clone(), peer_info(Some("y"), PeerConnectionStatus::Unknown));
    assert_eq!(db.peer_info(&a), Some(&peer_info(Some("x"), PeerConnectionStatus::Dialing)));
    assert_eq!(db.peer_info(&b), Some(&peer_info(Some("y"), PeerConnectionStatus::Unknown)));
    assert_eq!(db.connected_peers(), 0);
    assert_eq!(db.connected_or_dialing_peers(), 1);
}

#[test]
fn behaviour_takes_its_payloads_from_the_globals() {
    let local = PeerId::random();
    let b = Behaviour::new(Gossipsub::new(local.clone(), GossipsubConfig::default()), globals(&local), Ok(())).unwrap();
    assert_eq!(b.local_enr(), Enr { peer_id: local, text: "enr:abc".to_string() });
    assert_eq!(b.network_globals().meta_data, vec![5, 6]);
    assert_eq!(b.network_globals().listen_port_tcp(), 9000);
}

#[test]
fn a_failed_peer_manager_is_the_failure_of_the_construction() {
    let local = PeerId::random();
    let built = Behaviour::new(
        Gossipsub::new(local.clone(), GossipsubConfig::default()),
        globals(&local),
        Err("no peer manager".to_string()),
    );
    match built {
        Err(failure) => assert_eq!(failure, "no peer manager".to_string()),
        Ok(_) => panic!("a behaviour was made"),
    }
}

#[test]
fn a_built_peer_manager_lets_the_construction_succeed() {
    let local = PeerId::random();
    let built =
        Behaviour::new(Gossipsub::new(local.clone(), GossipsubConfig::default()), globals(&local), Ok(()));
    assert!(built.is_ok());
}
