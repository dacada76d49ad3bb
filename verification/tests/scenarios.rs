use libp2p::gossipsub::{Gossipsub, GossipsubConfig};
use libp2p::PeerId;
use mothra_network::behaviour::events::{BehaviourEvent, Request, Response};
use mothra_network::behaviour::handler::{BehaviourHandlerIn, BehaviourHandlerOut, DelegateIn, DelegateOut};
use mothra_network::behaviour::poll::{BehaviourAction, PollStep};
use mothra_network::behaviour::Behaviour;
use mothra_network::gossip::GossipsubEvent;
use mothra_network::identify::IdentifyEvent;
use mothra_network::peer_manager::{PeerManagerEvent, PeerManagerUpdate};
use mothra_network::rpc::handler::{HandlerErr, SubstreamId};
use mothra_network::rpc::methods::{
    RPCCodedResponse, RPCRequest, RPCResponse, RPCResponseErrorCode, RequestId,
};
use mothra_network::rpc::protocol::{Protocol, RPCError};
use mothra_network::rpc::{RPCMessage, RPCReceived, RPCSend};
use mothra_network::swarm::{DialPeerCondition, NetworkBehaviourAction, NotifyHandler, Poll};
use mothra_network::types::globals::{Enr, NetworkGlobals};

type Action = BehaviourAction<(), ()>;

fn conn(id: usize) -> libp2p::core::connection::ConnectionId {
    libp2p::core::connection::ConnectionId::new(id)
}

fn behaviour() -> Behaviour {
    let local = PeerId::random();
    let enr = Enr { peer_id: local.clone(), text: "enr:local".to_string() };
    let globals = NetworkGlobals::new(enr, vec![0; 4], vec![0x4D, 0x44], vec![0xAA, 0xBB], 9000, 9001);
    Behaviour::new(Gossipsub::new(local, GossipsubConfig::default()), globals, Ok(())).unwrap()
}

/// One pass in which the gossip engine and the identify behaviour have
/// nothing, and the peer manager yields `commands` and then nothing.
fn pass(behaviour: &mut Behaviour, commands: Vec<PeerManagerEvent>) -> Poll<Action> {
    let mut commands = commands.into_iter();
    let mut step: PollStep<Action> = behaviour.poll();
    loop {
        step = match step {
            PollStep::PollGossipsub => behaviour.gossipsub_polled(Poll::Pending),
            PollStep::PollIdentify => behaviour.identify_polled(Poll::Pending),
            PollStep::PollPeerManager => match commands.next() {
                Some(command) => behaviour.peer_manager_polled(Poll::Ready(Some(command))),
                None => behaviour.peer_manager_polled(Poll::Pending),
            },
            PollStep::Return(polled) => return polled,
        };
    }
}

fn report(peer: &PeerId, conn_id: usize, event: Result<RPCReceived, HandlerErr>) -> RPCMessage {
    RPCMessage { peer_id: peer.clone(), conn_id: conn(conn_id), event }
}

fn to_rpc_handler(peer: &PeerId, handler: NotifyHandler, event: RPCSend) -> Poll<Action> {
    Poll::Ready(NetworkBehaviourAction::NotifyHandler {
        peer_id: peer.clone(),
        handler,
        event: BehaviourHandlerIn::Delegate(DelegateIn::RPC(event)),
    })
}

#[test]
fn ping_is_terminated_locally() {
    let peer = PeerId::random();
    let mut b = behaviour();
    b.on_rpc_event(report(
        &peer,
        3,
        Ok(RPCReceived::Request(SubstreamId(7), RPCRequest::Ping(vec![0x11, 0x22]))),
    ));
    assert_eq!(
        pass(&mut b, vec![]),
        to_rpc_handler(
            &peer,
            NotifyHandler::One(conn(3)),
            RPCSend::Response(
                SubstreamId(7),
                RPCCodedResponse::Success(RPCResponse::Pong(vec![0xAA, 0xBB]))
            )
        )
    );
    assert_eq!(pass(&mut b, vec![]), Poll::Pending);
    assert_eq!(b.take_peer_manager_updates(), vec![]);
    assert_eq!(b.pending_disconnects(&peer), 0);
}

#[test]
fn ping_report_through_the_handler_envelope() {
    let peer = PeerId::random();
    let mut b = behaviour();
    let passed_on: Option<DelegateOut<(), ()>> = b.inject_event(
        peer.clone(),
        conn(3),
        BehaviourHandlerOut::Delegate(Box::new(DelegateOut::RPC(Ok(RPCReceived::Request(
            SubstreamId(7),
            RPCRequest::Ping(vec![0x11, 0x22]),
        ))))),
    );
    assert_eq!(passed_on, None);
    assert_eq!(
        pass(&mut b, vec![]),
        to_rpc_handler(
            &peer,
            NotifyHandler::One(conn(3)),
            RPCSend::Response(
                SubstreamId(7),
                RPCCodedResponse::Success(RPCResponse::Pong(vec![0xAA, 0xBB]))
            )
        )
    );
}

#[test]
fn metadata_request_is_answered_with_local_metadata() {
    let peer = PeerId::random();
    let mut b = behaviour();
    b.on_rpc_event(report(&peer, 5, Ok(RPCReceived::Request(SubstreamId(1), RPCRequest::MetaData))));
    assert_eq!(
        pass(&mut b, vec![]),
        to_rpc_handler(
            &peer,
            NotifyHandler::One(conn(5)),
            RPCSend::Response(
                SubstreamId(1),
                RPCCodedResponse::Success(RPCResponse::MetaData(vec![0x4D, 0x44]))
            )
        )
    );
    assert_eq!(pass(&mut b, vec![]), Poll::Pending);
    assert_eq!(b.take_peer_manager_updates(), vec![]);
}

#[test]
fn goodbye_triggers_disconnect() {
    let peer = PeerId::random();
    let mut b = behaviour();
    b.on_rpc_event(report(
        &peer,
        1,
        Ok(RPCReceived::Request(SubstreamId(9), RPCRequest::Goodbye(vec![0x04]))),
    ));
    assert_eq!(b.take_peer_manager_updates(), vec![PeerManagerUpdate::DisconnectingPeer(peer.clone())]);
    assert_eq!(b.pending_disconnects(&peer), 1);
    assert_eq!(
        pass(&mut b, vec![]),
        Poll::Ready(NetworkBehaviourAction::NotifyHandler {
            peer_id: peer.clone(),
            handler: NotifyHandler::All,
            event: BehaviourHandlerIn::Shutdown(None),
        })
    );
    assert_eq!(b.pending_disconnects(&peer), 0);
    assert_eq!(pass(&mut b, vec![]), Poll::Pending);
}

#[test]
fn status_is_propagated() {
    let peer = PeerId::random();
    let mut b = behaviour();
    b.on_rpc_event(report(
        &peer,
        4,
        Ok(RPCReceived::Request(SubstreamId(2), RPCRequest::Status(vec![0x01, 0x02]))),
    ));
    assert_eq!(b.take_peer_manager_updates(), vec![PeerManagerUpdate::PeerStatusd(peer.clone())]);
    assert_eq!(
        pass(&mut b, vec![]),
        Poll::Ready(NetworkBehaviourAction::GenerateEvent(BehaviourEvent::RequestReceived {
            peer_id: peer.clone(),
            id: (conn(4), SubstreamId(2)),
            request: Request::Status(vec![0x01, 0x02]),
        }))
    );
    assert_eq!(pass(&mut b, vec![]), Poll::Pending);
}

#[test]
fn application_request_then_error() {
    let peer = PeerId::random();
    let mut b = behaviour();
    b.send_request(peer.clone(), RequestId::Application(42), Request::Status(vec![0x09]));
    assert_eq!(
        pass(&mut b, vec![]),
        to_rpc_handler(
            &peer,
            NotifyHandler::Any,
            RPCSend::Request(RequestId::Application(42), RPCRequest::Status(vec![0x09]))
        )
    );
    b.on_rpc_event(report(
        &peer,
        1,
        Err(HandlerErr::Outbound {
            id: RequestId::Application(42),
            proto: Protocol::Status,
            error: RPCError::Timeout,
        }),
    ));
    assert_eq!(
        b.take_peer_manager_updates(),
        vec![PeerManagerUpdate::HandleRpcError {
            peer_id: peer.clone(),
            protocol: Protocol::Status,
            error: RPCError::Timeout,
        }]
    );
    assert_eq!(
        pass(&mut b, vec![]),
        Poll::Ready(NetworkBehaviourAction::GenerateEvent(BehaviourEvent::RPCFailed {
            id: RequestId::Application(42),
            peer_id: peer.clone(),
            error: RPCError::Timeout,
        }))
    );
    assert_eq!(pass(&mut b, vec![]), Poll::Pending);
}

#[test]
fn internal_metadata_request_is_silent() {
    let peer = PeerId::random();
    let mut b = behaviour();
    b.inject_connected(&peer);
    assert_eq!(
        pass(&mut b, vec![]),
        to_rpc_handler(
            &peer,
            NotifyHandler::Any,
            RPCSend::Request(RequestId::Behaviour, RPCRequest::MetaData)
        )
    );
    b.on_rpc_event(report(
        &peer,
        2,
        Ok(RPCReceived::Response(RequestId::Behaviour, RPCResponse::MetaData(vec![1, 2, 3]))),
    ));
    assert_eq!(
        b.take_peer_manager_updates(),
        vec![PeerManagerUpdate::MetaDataResponse { peer_id: peer.clone(), meta_data: vec![1, 2, 3] }]
    );
    assert_eq!(pass(&mut b, vec![]), Poll::Pending);
}

#[test]
fn peer_manager_initiated_disconnect() {
    let peer = PeerId::random();
    let mut b = behaviour();
    assert_eq!(
        pass(&mut b, vec![PeerManagerEvent::DisconnectPeer(peer.clone())]),
        Poll::Ready(NetworkBehaviourAction::NotifyHandler {
            peer_id: peer.clone(),
            handler: NotifyHandler::Any,
            event: BehaviourHandlerIn::Shutdown(Some((
                RequestId::Behaviour,
                RPCRequest::Goodbye(vec![])
            ))),
        })
    );
    assert_eq!(
        pass(&mut b, vec![]),
        Poll::Ready(NetworkBehaviourAction::NotifyHandler {
            peer_id: peer.clone(),
            handler: NotifyHandler::All,
            event: BehaviourHandlerIn::Shutdown(None),
        })
    );
    assert_eq!(pass(&mut b, vec![]), Poll::Pending);
    assert_eq!(b.take_peer_manager_updates(), vec![]);
}

#[test]
fn inbound_error_reaches_only_the_peer_manager() {
    let peer = PeerId::random();
    let mut b = behaviour();
    b.on_rpc_event(report(
        &peer,
        1,
        Err(HandlerErr::Inbound {
            id: SubstreamId(3),
            proto: Protocol::Ping,
            error: RPCError::HandlerRejected,
        }),
    ));
    assert_eq!(
        b.take_peer_manager_updates(),
        vec![PeerManagerUpdate::HandleRpcError {
            peer_id: peer.clone(),
            protocol: Protocol::Ping,
            error: RPCError::HandlerRejected,
        }]
    );
    assert_eq!(pass(&mut b, vec![]), Poll::Pending);
}

#[test]
fn failure_of_an_internal_request_is_not_reported() {
    let peer = PeerId::random();
    let mut b = behaviour();
    b.on_rpc_event(report(
        &peer,
        1,
        Err(HandlerErr::Outbound {
            id: RequestId::Behaviour,
            proto: Protocol::MetaData,
            error: RPCError::RemoteReset,
        }),
    ));
    assert_eq!(b.take_peer_manager_updates().len(), 1);
    assert_eq!(pass(&mut b, vec![]), Poll::Pending);
}

#[test]
fn status_response_to_an_internal_request_is_not_reported() {
    let peer = PeerId::random();
    let mut b = behaviour();
    b.on_rpc_event(report(
        &peer,
        1,
        Ok(RPCReceived::Response(RequestId::Behaviour, RPCResponse::Status(vec![7]))),
    ));
    assert_eq!(b.take_peer_manager_updates(), vec![PeerManagerUpdate::PeerStatusd(peer.clone())]);
    assert_eq!(pass(&mut b, vec![]), Poll::Pending);
}

#[test]
fn status_response_to_an_application_request_is_reported() {
    let peer = PeerId::random();
    let mut b = behaviour();
    b.on_rpc_event(report(
        &peer,
        1,
        Ok(RPCReceived::Response(RequestId::Application(5), RPCResponse::Status(vec![7]))),
    ));
    assert_eq!(b.take_peer_manager_updates(), vec![PeerManagerUpdate::PeerStatusd(peer.clone())]);
    assert_eq!(
        pass(&mut b, vec![]),
        Poll::Ready(NetworkBehaviourAction::GenerateEvent(BehaviourEvent::ResponseReceived {
            peer_id: peer.clone(),
            id: RequestId::Application(5),
            response: Response::Status(vec![7]),
        }))
    );
}

#[test]
fn pong_goes_to_the_peer_manager_only() {
    let peer = PeerId::random();
    let mut b = behaviour();
    b.on_rpc_event(report(
        &peer,
        1,
        Ok(RPCReceived::Response(RequestId::Behaviour, RPCResponse::Pong(vec![9, 9]))),
    ));
    assert_eq!(
        b.take_peer_manager_updates(),
        vec![PeerManagerUpdate::PongResponse { peer_id: peer.clone(), data: vec![9, 9] }]
    );
    assert_eq!(pass(&mut b, vec![]), Poll::Pending);
}

#[test]
fn successful_response_goes_back_on_the_request_connection() {
    let peer = PeerId::random();
    let mut b = behaviour();
    b.send_successful_response(peer.clone(), (conn(8), SubstreamId(6)), Response::Status(vec![1]));
    assert_eq!(
        pass(&mut b, vec![]),
        to_rpc_handler(
            &peer,
            NotifyHandler::One(conn(8)),
            RPCSend::Response(SubstreamId(6), RPCCodedResponse::Success(RPCResponse::Status(vec![1])))
        )
    );
}

#[test]
fn error_response_carries_code_and_reason() {
    let peer = PeerId::random();
    let mut b = behaviour();
    let id = (conn(8), SubstreamId(6));
    b.send_error_response(peer.clone(), id, RPCResponseErrorCode::InvalidRequest, "bad".to_string());
    b.send_error_response(peer.clone(), id, RPCResponseErrorCode::ServerError, "oops".to_string());
    b.send_error_response(peer.clone(), id, RPCResponseErrorCode::Unknown, "?".to_string());
    for expected in vec![
        RPCCodedResponse::InvalidRequest("bad".to_string()),
        RPCCodedResponse::ServerError("oops".to_string()),
        RPCCodedResponse::Unknown("?".to_string()),
    ] {
        assert_eq!(
            pass(&mut b, vec![]),
            to_rpc_handler(
                &peer,
                NotifyHandler::One(conn(8)),
                RPCSend::Response(SubstreamId(6), expected)
            )
        );
    }
    assert_eq!(pass(&mut b, vec![]), Poll::Pending);
}

#[test]
fn peer_manager_commands_become_actions() {
    let peer = PeerId::random();
    let address: libp2p::Multiaddr = "/ip4/127.0.0.1/tcp/9000".parse().unwrap();
    let mut b = behaviour();
    assert_eq!(
        pass(&mut b, vec![PeerManagerEvent::Dial(peer.clone())]),
        Poll::Ready(NetworkBehaviourAction::DialPeer {
            peer_id: peer.clone(),
            condition: DialPeerCondition::Disconnected,
        })
    );
    assert_eq!(
        pass(&mut b, vec![PeerManagerEvent::SocketUpdated(address.clone())]),
        Poll::Ready(NetworkBehaviourAction::ReportObservedAddr { address })
    );
    assert_eq!(
        pass(&mut b, vec![PeerManagerEvent::Status(peer.clone())]),
        Poll::Ready(NetworkBehaviourAction::GenerateEvent(BehaviourEvent::StatusPeer(peer.clone())))
    );
}

#[test]
fn ping_and_metadata_commands_do_not_end_the_pass() {
    let peer = PeerId::random();
    let mut b = behaviour();
    assert_eq!(
        pass(
            &mut b,
            vec![PeerManagerEvent::Ping(peer.clone()), PeerManagerEvent::MetaData(peer.clone())]
        ),
        Poll::Pending
    );
    assert_eq!(
        pass(&mut b, vec![]),
        to_rpc_handler(
            &peer,
            NotifyHandler::Any,
            RPCSend::Request(RequestId::Behaviour, RPCRequest::Ping(vec![0xAA, 0xBB]))
        )
    );
    assert_eq!(
        pass(&mut b, vec![]),
        to_rpc_handler(
            &peer,
            NotifyHandler::Any,
            RPCSend::Request(RequestId::Behaviour, RPCRequest::MetaData)
        )
    );
    assert_eq!(pass(&mut b, vec![]), Poll::Pending);
}

#[test]
fn a_peer_waits_at_most_once_to_be_disconnected() {
    let peer = PeerId::random();
    let other = PeerId::random();
    let mut b = behaviour();
    for substream in 0..3 {
        b.on_rpc_event(report(
            &peer,
            1,
            Ok(RPCReceived::Request(SubstreamId(substream), RPCRequest::Goodbye(vec![]))),
        ));
    }
    b.on_rpc_event(report(
        &other,
        2,
        Ok(RPCReceived::Request(SubstreamId(0), RPCRequest::Goodbye(vec![]))),
    ));
    assert_eq!(b.pending_disconnects(&peer), 1);
    assert_eq!(b.pending_disconnects(&other), 1);
    assert_eq!(b.take_peer_manager_updates().len(), 4);
    let shutdown = |peer: &PeerId| -> Poll<Action> {
        Poll::Ready(NetworkBehaviourAction::NotifyHandler {
            peer_id: peer.clone(),
            handler: NotifyHandler::All,
            event: BehaviourHandlerIn::Shutdown(None),
        })
    };
    assert_eq!(pass(&mut b, vec![]), shutdown(&peer));
    assert_eq!(pass(&mut b, vec![]), shutdown(&other));
    assert_eq!(pass(&mut b, vec![]), Poll::Pending);
}

#[test]
fn a_disconnect_command_for_a_waiting_peer_still_sends_the_farewell() {
    let peer = PeerId::random();
    let mut b = behaviour();
    b.on_rpc_event(report(
        &peer,
        1,
        Ok(RPCReceived::Request(SubstreamId(0), RPCRequest::Goodbye(vec![]))),
    ));
    // The peer waits already, so the pass serves it before the peer manager
    // is asked.
    assert_eq!(
        pass(&mut b, vec![]),
        Poll::Ready(NetworkBehaviourAction::NotifyHandler {
            peer_id: peer.clone(),
            handler: NotifyHandler::All,
            event: BehaviourHandlerIn::Shutdown(None),
        })
    );
    let mut step: PollStep<Action> = b.peer_manager_polled(Poll::Ready(Some(
        PeerManagerEvent::DisconnectPeer(peer.clone()),
    )));
    assert!(matches!(
        step,
        PollStep::Return(Poll::Ready(NetworkBehaviourAction::NotifyHandler {
            handler: NotifyHandler::Any,
            ..
        }))
    ));
    step = b.peer_manager_polled(Poll::Ready(Some(PeerManagerEvent::DisconnectPeer(peer.clone()))));
    assert!(matches!(step, PollStep::Return(Poll::Ready(_))));
    assert_eq!(b.pending_disconnects(&peer), 1);
}

#[test]
fn a_peer_manager_that_has_ended_is_treated_as_having_nothing() {
    let peer = PeerId::random();
    let mut b = behaviour();
    b.on_gossip_event(GossipsubEvent::Subscribed {
        peer_id: peer.clone(),
        topic: libp2p::gossipsub::TopicHash::from_raw("t"),
    });
    let step: PollStep<Action> = b.peer_manager_polled(Poll::Ready(None));
    assert_eq!(
        step,
        PollStep::Return(Poll::Ready(NetworkBehaviourAction::GenerateEvent(
            BehaviourEvent::PeerSubscribed(peer, libp2p::gossipsub::TopicHash::from_raw("t"))
        )))
    );
    let step: PollStep<Action> = b.peer_manager_polled(Poll::Ready(None));
    assert_eq!(step, PollStep::Return(Poll::Pending));
}

#[test]
fn reports_of_other_handlers_are_handed_back() {
    let peer = PeerId::random();
    let mut b = behaviour();
    let passed_on: Option<DelegateOut<u8, u16>> = b.inject_event(
        peer.clone(),
        conn(1),
        BehaviourHandlerOut::Delegate(Box::new(DelegateOut::Gossipsub(7u8))),
    );
    assert_eq!(passed_on, Some(DelegateOut::Gossipsub(7u8)));
    let passed_on: Option<DelegateOut<u8, u16>> = b.inject_event(
        peer.clone(),
        conn(1),
        BehaviourHandlerOut::Delegate(Box::new(DelegateOut::Identify(9u16))),
    );
    assert_eq!(passed_on, Some(DelegateOut::Identify(9u16)));
    let passed_on: Option<DelegateOut<u8, u16>> =
        b.inject_event(peer, conn(1), BehaviourHandlerOut::Custom);
    assert_eq!(passed_on, None);
    assert_eq!(pass(&mut b, vec![]), Poll::Pending);
}

#[test]
fn identify_events_without_information_are_ignored() {
    let peer = PeerId::random();
    let mut b = behaviour();
    b.on_identify_event(IdentifyEvent::Sent { peer_id: peer.clone() });
    b.on_identify_event(IdentifyEvent::Error { peer_id: peer });
    assert_eq!(b.take_peer_manager_updates(), vec![]);
    assert_eq!(pass(&mut b, vec![]), Poll::Pending);
}

#[test]
fn a_status_request_comes_back_as_it_was_sent() {
    let peer = PeerId::random();
    let mut sender = behaviour();
    let mut receiver = behaviour();
    sender.send_request(peer.clone(), RequestId::Application(1), Request::Status(vec![3, 1, 4]));
    let carried = match pass(&mut sender, vec![]) {
        Poll::Ready(NetworkBehaviourAction::NotifyHandler {
            event: BehaviourHandlerIn::Delegate(DelegateIn::RPC(RPCSend::Request(_, request))),
            ..
        }) => request,
        other => panic!("not a request: {:?}", other),
    };
    assert_eq!(carried, RPCRequest::Status(vec![3, 1, 4]));
    receiver.on_rpc_event(report(&peer, 1, Ok(RPCReceived::Request(SubstreamId(0), carried))));
    assert_eq!(
        pass(&mut receiver, vec![]),
        Poll::Ready(NetworkBehaviourAction::GenerateEvent(BehaviourEvent::RequestReceived {
            peer_id: peer,
            id: (conn(1), SubstreamId(0)),
            request: Request::Status(vec![3, 1, 4]),
        }))
    );
}
