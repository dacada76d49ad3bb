//! What the identify protocol reports about a peer.

use libp2p::identity::PublicKey;
use libp2p::Multiaddr;
use libp2p::PeerId;
use vstd::prelude::*;

verus! {

/// The number of listen addresses kept from a peer's identify information.
pub const MAX_IDENTIFY_ADDRESSES: usize = 10;

/// The information a peer gives about itself.
#[derive(Debug, PartialEq)]
pub struct IdentifyInfo {
    /// The public key underlying the peer's id.
    pub public_key: PublicKey,
    /// Version of the protocol family the peer uses.
    pub protocol_version: String,
    /// Name and version of the peer's software.
    pub agent_version: String,
    /// The addresses the peer listens on.
    pub listen_addrs: Vec<Multiaddr>,
    /// The protocols the peer supports.
    pub protocols: Vec<String>,
}

/// What the identify behaviour reports.
#[derive(Debug, PartialEq)]
pub enum IdentifyEvent {
    /// A peer's information was received.
    Received { peer_id: PeerId, info: IdentifyInfo, observed_addr: Multiaddr },
    /// The local node's information was sent to a peer.
    Sent { peer_id: PeerId },
    /// Identifying a peer failed.
    Error { peer_id: PeerId },
}

/// What an [`IdentifyInfo`] is.
pub struct IdentifyInfoView {
    pub public_key: PublicKey,
    pub protocol_version: Seq<char>,
    pub agent_version: Seq<char>,
    pub listen_addrs: Seq<Multiaddr>,
    pub protocols: Seq<Seq<char>>,
}

impl View for IdentifyInfo {
    type V = IdentifyInfoView;

    open spec fn view(&self) -> IdentifyInfoView {
        IdentifyInfoView {
            public_key: self.public_key,
            protocol_version: self.protocol_version@,
            agent_version: self.agent_version@,
            listen_addrs: self.listen_addrs@,
            protocols: self.protocols@.map_values(|protocol: String| protocol@),
        }
    }
}

impl IdentifyInfoView {
    /// The information with its listen addresses cut down to the first
    /// `MAX_IDENTIFY_ADDRESSES`.
    pub open spec fn truncated(self) -> IdentifyInfoView {
        IdentifyInfoView {
            listen_addrs: if self.listen_addrs.len() > MAX_IDENTIFY_ADDRESSES {
                self.listen_addrs.take(MAX_IDENTIFY_ADDRESSES as int)
            } else {
                self.listen_addrs
            },
            ..self
        }
    }
}

impl IdentifyInfo {
    /// Cuts the listen addresses down to the first `MAX_IDENTIFY_ADDRESSES`.
    pub fn truncate_addresses(&mut self)
        ensures
            final(self)@ == old(self)@.truncated(),
    {
        if self.listen_addrs.len() > MAX_IDENTIFY_ADDRESSES {
            self.listen_addrs.truncate(MAX_IDENTIFY_ADDRESSES);
        }
    }
}

} // verus!
