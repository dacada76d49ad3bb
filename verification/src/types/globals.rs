//! The record of values that the behaviour shares with its embedder.
//!
//! The behaviour writes only the subscription set; the other fields are
//! written by those who own what they describe.

use crate::peer_manager::peerdb::{
    count_status, record_position, Client, PeerConnectionStatus, PeerDB, PeerRecordView,
};
use crate::swarm::peer_key;
use crate::types::subscriptions::TopicSet;
use libp2p::Multiaddr;
use libp2p::PeerId;
use vstd::prelude::*;

verus! {

/// The fork of the chain that the local node follows: a short byte string
/// that is not looked into.
pub type EnrForkId = Vec<u8>;

/// A copy of a byte string.
pub fn copy_bytes(bytes: &Vec<u8>) -> (copy: Vec<u8>)
    ensures
        copy@ == bytes@,
{
    bytes.clone()
}

/// The local node record: the peer id it stands for, and its textual form.
#[derive(Debug, Clone, PartialEq, Eq)]
pub struct Enr {
    pub peer_id: PeerId,
    pub text: String,
}

/// What an [`Enr`] is.
pub struct EnrView {
    pub peer_id: PeerId,
    pub text: Seq<char>,
}

impl View for Enr {
    type V = EnrView;

    open spec fn view(&self) -> EnrView {
        EnrView { peer_id: self.peer_id, text: self.text@ }
    }
}

impl Enr {
    /// The peer id the record stands for.
    pub fn peer_id(&self) -> (peer_id: PeerId)
        ensures
            peer_id == self.peer_id,
    {
        self.peer_id.clone()
    }

    /// A copy of the record.
    pub fn duplicate(&self) -> (copy: Self)
        ensures
            copy@ == self@,
    {
        Enr { peer_id: self.peer_id.clone(), text: self.text.clone() }
    }
}

/// The values shared between the behaviour and its embedder.
#[derive(Debug)]
pub struct NetworkGlobals {
    /// The local node record.
    pub local_enr: Enr,
    /// The fork id of the local node.
    pub fork_id: EnrForkId,
    /// The metadata of the local node.
    pub meta_data: Vec<u8>,
    /// The ping payload of the local node.
    pub ping_data: Vec<u8>,
    /// The peer id of the local node.
    pub peer_id: PeerId,
    /// The addresses the local node listens on.
    pub listen_multiaddrs: Vec<Multiaddr>,
    /// The TCP port the local node listens on.
    pub listen_port_tcp: u16,
    /// The UDP port of the discovery service.
    pub listen_port_udp: u16,
    /// The table of known peers.
    pub peers: PeerDB,
    /// The gossip topics the local node is subscribed to.
    pub gossipsub_subscriptions: TopicSet,
}

/// What a [`NetworkGlobals`] is.
pub struct NetworkGlobalsView {
    pub local_enr: EnrView,
    pub fork_id: Seq<u8>,
    pub meta_data: Seq<u8>,
    pub ping_data: Seq<u8>,
    pub peer_id: PeerId,
    pub listen_multiaddrs: Seq<Multiaddr>,
    pub listen_port_tcp: u16,
    pub listen_port_udp: u16,
    pub peers: Seq<PeerRecordView>,
    pub gossipsub_subscriptions: Set<Seq<char>>,
}

impl View for NetworkGlobals {
    type V = NetworkGlobalsView;

    open spec fn view(&self) -> NetworkGlobalsView {
        NetworkGlobalsView {
            local_enr: self.local_enr@,
            fork_id: self.fork_id@,
            meta_data: self.meta_data@,
            ping_data: self.ping_data@,
            peer_id: self.peer_id,
            listen_multiaddrs: self.listen_multiaddrs@,
            listen_port_tcp: self.listen_port_tcp,
            listen_port_udp: self.listen_port_udp,
            peers: self.peers@,
            gossipsub_subscriptions: self.gossipsub_subscriptions@,
        }
    }
}

impl NetworkGlobals {
    /// The record of a node that has just started: it listens nowhere yet,
    /// knows no peers and is subscribed to nothing. Its peer id is that of
    /// its node record.
    pub fn new(
        enr: Enr,
        fork_id: EnrForkId,
        meta_data: Vec<u8>,
        ping_data: Vec<u8>,
        tcp_port: u16,
        udp_port: u16,
    ) -> (globals: Self)
        ensures
            globals@ == (NetworkGlobalsView {
                local_enr: enr@,
                fork_id: fork_id@,
                meta_data: meta_data@,
                ping_data: ping_data@,
                peer_id: enr.peer_id,
                listen_multiaddrs: Seq::empty(),
                listen_port_tcp: tcp_port,
                listen_port_udp: udp_port,
                peers: Seq::empty(),
                gossipsub_subscriptions: Set::empty(),
            }),
    {
        let peer_id = enr.peer_id();
        NetworkGlobals {
            local_enr: enr,
            fork_id,
            meta_data,
            ping_data,
            peer_id,
            listen_multiaddrs: Vec::new(),
            listen_port_tcp: tcp_port,
            listen_port_udp: udp_port,
            peers: PeerDB::new(),
            gossipsub_subscriptions: TopicSet::new(),
        }
    }

    /// The local node record.
    pub fn local_enr(&self) -> (enr: Enr)
        ensures
            enr@ == self@.local_enr,
    {
        self.local_enr.duplicate()
    }

    /// The fork id of the local node.
    pub fn local_fork_id(&self) -> (fork_id: EnrForkId)
        ensures
            fork_id@ == self@.fork_id,
    {
        copy_bytes(&self.fork_id)
    }

    /// The peer id of the local node.
    pub fn local_peer_id(&self) -> (peer_id: PeerId)
        ensures
            peer_id == self@.peer_id,
    {
        self.peer_id.clone()
    }

    /// The addresses the local node listens on.
    pub fn listen_multiaddrs(&self) -> (addresses: Vec<Multiaddr>)
        ensures
            addresses@ == self@.listen_multiaddrs,
    {
        let mut addresses: Vec<Multiaddr> = Vec::new();
        let mut i: usize = 0;
        while i < self.listen_multiaddrs.len()
            invariant
                i <= self.listen_multiaddrs.len(),
                addresses@ == self.listen_multiaddrs@.take(i as int),
            decreases self.listen_multiaddrs.len() - i,
        {
            addresses.push(self.listen_multiaddrs[i].clone());
            assert(self.listen_multiaddrs@.take(i + 1) =~= self.listen_multiaddrs@.take(
                i as int,
            ).push(self.listen_multiaddrs@[i as int]));
            i += 1;
        }
        assert(self.listen_multiaddrs@.take(i as int) =~= self.listen_multiaddrs@);
        addresses
    }

    /// The TCP port the local node listens on.
    pub fn listen_port_tcp(&self) -> (port: u16)
        ensures
            port == self@.listen_port_tcp,
    {
        self.listen_port_tcp
    }

    /// The UDP port of the discovery service.
    pub fn listen_port_udp(&self) -> (port: u16)
        ensures
            port == self@.listen_port_udp,
    {
        self.listen_port_udp
    }

    /// The number of connected peers.
    pub fn connected_peers(&self) -> (n: usize)
        ensures
            n == count_status(self@.peers, PeerConnectionStatus::Connected),
    {
        self.peers.connected_peers()
    }

    /// The number of peers that are connected or being dialed.
    pub fn connected_or_dialing_peers(&self) -> (n: usize)
        ensures
            n == count_status(self@.peers, PeerConnectionStatus::Connected) + count_status(
                self@.peers,
                PeerConnectionStatus::Dialing,
            ),
    {
        self.peers.connected_or_dialing_peers()
    }

    /// The client a peer runs: what the table of peers records for it, and the
    /// client of which nothing is known where the table has no record.
    pub fn client(&self, peer_id: &PeerId) -> (client: Client)
        ensures
            record_position(self@.peers, peer_key(*peer_id)) < self@.peers.len() ==> client@
                == self@.peers[record_position(self@.peers, peer_key(*peer_id))].info.agent_string,
            record_position(self@.peers, peer_key(*peer_id)) >= self@.peers.len() ==> client@
                == None::<Seq<char>>,
    {
        match self.peers.peer_info(peer_id) {
            Some(info) => info.client.duplicate(),
            None => Client::default(),
        }
    }
}

} // verus!
