//! The interface to the peer manager.
//!
//! The peer manager keeps the state and the health of peers and decides on
//! their life cycle. The behaviour talks to it in two directions: it is told
//! what the peer manager wants done ([`PeerManagerEvent`]), and it tells the
//! peer manager what it has learnt about a peer ([`PeerManagerUpdate`]).

pub mod peerdb;

use crate::identify::{IdentifyInfo, IdentifyInfoView};
use crate::rpc::protocol::{Protocol, RPCError};
use libp2p::Multiaddr;
use libp2p::PeerId;
use vstd::prelude::*;

verus! {

/// What the peer manager wants done.
#[derive(Debug, PartialEq)]
pub enum PeerManagerEvent {
    /// Dial a peer.
    Dial(PeerId),
    /// The local socket changed.
    SocketUpdated(Multiaddr),
    /// It is time to exchange status with a peer.
    Status(PeerId),
    /// It is time to ping a peer.
    Ping(PeerId),
    /// Ask a peer for its metadata.
    MetaData(PeerId),
    /// Disconnect from a peer.
    DisconnectPeer(PeerId),
}

/// What the behaviour has learnt about a peer, for the peer manager.
#[derive(Debug, PartialEq)]
pub enum PeerManagerUpdate {
    /// A request/response stream with the peer failed.
    HandleRpcError { peer_id: PeerId, protocol: Protocol, error: RPCError },
    /// The peer said goodbye and is about to be disconnected.
    DisconnectingPeer(PeerId),
    /// A status message of the peer arrived.
    PeerStatusd(PeerId),
    /// The peer answered a ping.
    PongResponse { peer_id: PeerId, data: Vec<u8> },
    /// The peer sent its metadata.
    MetaDataResponse { peer_id: PeerId, meta_data: Vec<u8> },
    /// The peer identified itself.
    Identify { peer_id: PeerId, info: IdentifyInfo },
}

/// What a [`PeerManagerUpdate`] is.
pub enum PeerManagerUpdateView {
    HandleRpcError { peer_id: PeerId, protocol: Protocol, error: RPCError },
    DisconnectingPeer(PeerId),
    PeerStatusd(PeerId),
    PongResponse { peer_id: PeerId, data: Seq<u8> },
    MetaDataResponse { peer_id: PeerId, meta_data: Seq<u8> },
    Identify { peer_id: PeerId, info: IdentifyInfoView },
}

impl View for PeerManagerUpdate {
    type V = PeerManagerUpdateView;

    open spec fn view(&self) -> PeerManagerUpdateView {
        match self {
            PeerManagerUpdate::HandleRpcError {
                peer_id,
                protocol,
                error,
            } => PeerManagerUpdateView::HandleRpcError {
                peer_id: *peer_id,
                protocol: *protocol,
                error: *error,
            },
            PeerManagerUpdate::DisconnectingPeer(peer_id) => PeerManagerUpdateView::DisconnectingPeer(
                *peer_id,
            ),
            PeerManagerUpdate::PeerStatusd(peer_id) => PeerManagerUpdateView::PeerStatusd(*peer_id),
            PeerManagerUpdate::PongResponse { peer_id, data } => PeerManagerUpdateView::PongResponse {
                peer_id: *peer_id,
                data: data@,
            },
            PeerManagerUpdate::MetaDataResponse {
                peer_id,
                meta_data,
            } => PeerManagerUpdateView::MetaDataResponse { peer_id: *peer_id, meta_data: meta_data@ },
            PeerManagerUpdate::Identify { peer_id, info } => PeerManagerUpdateView::Identify {
                peer_id: *peer_id,
                info: info@,
            },
        }
    }
}

} // verus!
