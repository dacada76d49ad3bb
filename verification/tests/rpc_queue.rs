use libp2p::PeerId;
use mothra_network::rpc::handler::SubstreamId;
use mothra_network::rpc::methods::{RPCCodedResponse, RPCRequest, RPCResponse, RequestId};
use mothra_network::rpc::{RPCSend, RPC};
use mothra_network::swarm::{NetworkBehaviourAction, NotifyHandler, Poll};

#[test]
fn rpc_poll_on_empty_queue_is_pending() {
    let mut rpc = RPC::new();
    assert_eq!(rpc.poll(), Poll::Pending);
}

#[test]
fn rpc_send_request_targets_any_connection() {
    let peer = PeerId::random();
    let mut rpc = RPC::new();
    rpc.send_request(peer.clone(), RequestId::Application(42), RPCRequest::Status(vec![0x09]));
    assert_eq!(
        rpc.poll(),
        Poll::Ready(NetworkBehaviourAction::NotifyHandler {
            peer_id: peer,
            handler: NotifyHandler::Any,
            event: RPCSend::Request(RequestId::Application(42), RPCRequest::Status(vec![0x09])),
        })
    );
    assert_eq!(rpc.poll(), Poll::Pending);
}

#[test]
fn rpc_send_response_targets_the_request_connection() {
    let peer = PeerId::random();
    let mut rpc = RPC::new();
    rpc.send_response(
        peer.clone(),
        (libp2p::core::connection::ConnectionId::new(3), SubstreamId(7)),
        RPCCodedResponse::Success(RPCResponse::Pong(vec![0xAA, 0xBB])),
    );
    assert_eq!(
        rpc.poll(),
        Poll::Ready(NetworkBehaviourAction::NotifyHandler {
            peer_id: peer,
            handler: NotifyHandler::One(libp2p::core::connection::ConnectionId::new(3)),
            event: RPCSend::Response(
                SubstreamId(7),
                RPCCodedResponse::Success(RPCResponse::Pong(vec![0xAA, 0xBB]))
            ),
        })
    );
}
