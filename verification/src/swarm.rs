//! The vocabulary this crate shares with the libp2p swarm.
//!
//! Identifiers (`PeerId`, `ConnectionId`, `Multiaddr`, `PublicKey`) are
//! libp2p's own and are carried through unread; the only thing ever asked of
//! one is whether two peer ids are the same peer. The swarm's action enums are
//! restated here as plain enums so that the driver can build them and callers
//! can take them apart.

use libp2p::identity::PublicKey;
use libp2p::Multiaddr;
use libp2p::PeerId;
use vstd::prelude::*;

verus! {

/// libp2p's identifier of a peer.
#[verifier::external_type_specification]
#[verifier::external_body]
pub struct ExPeerId(PeerId);

/// libp2p's identifier of a connection.
#[verifier::external_type_specification]
#[verifier::external_body]
pub struct ExConnectionId(libp2p::core::connection::ConnectionId);

/// libp2p's network address.
#[verifier::external_type_specification]
#[verifier::external_body]
pub struct ExMultiaddr(Multiaddr);

/// libp2p's public key of a peer.
#[verifier::external_type_specification]
#[verifier::external_body]
pub struct ExPublicKey(PublicKey);

/// The canonical digest of a peer id: the bytes that libp2p's `PeerId`
/// compares and hashes by.
pub uninterp spec fn peer_key(peer: PeerId) -> Seq<u8>;

/// `PeerId`'s `==`. libp2p compares the canonical digests of the two ids, so
/// the answer is `true` exactly when those byte strings are the same.
#[verifier::external_body]
pub(crate) fn same_peer(a: &PeerId, b: &PeerId) -> (same: bool)
    ensures
        same == (peer_key(*a) == peer_key(*b)),
{
    a == b
}

/// `PeerId::clone` is the derived field-by-field copy: the clone is the id it
/// was made from.
pub assume_specification[ <PeerId as Clone>::clone ](peer: &PeerId) -> (copy: PeerId)
    ensures
        copy == *peer,
;

/// `ConnectionId::clone` is the derived copy of a `Copy` type.
pub assume_specification[ <libp2p::core::connection::ConnectionId as Clone>::clone ](
    id: &libp2p::core::connection::ConnectionId,
) -> (copy: libp2p::core::connection::ConnectionId)
    ensures
        copy == *id,
;

/// `Multiaddr::clone` is the derived copy: the clone is the address it was
/// made from.
pub assume_specification[ <Multiaddr as Clone>::clone ](address: &Multiaddr) -> (copy: Multiaddr)
    ensures
        copy == *address,
;

/// Outcome of polling a source of work once.
#[derive(Debug, Clone, PartialEq)]
pub enum Poll<T> {
    /// A value is available.
    Ready(T),
    /// Nothing is available now.
    Pending,
}

/// Which of a peer's connection handlers receive a notification.
#[derive(Debug, Clone, PartialEq)]
pub enum NotifyHandler {
    /// The handler of one particular connection.
    One(libp2p::core::connection::ConnectionId),
    /// The handler of any one connection.
    Any,
    /// The handlers of all connections.
    All,
}

/// Under which condition the swarm starts a new dialing attempt.
#[derive(Debug, Clone, Copy, PartialEq, Eq)]
pub enum DialPeerCondition {
    /// Only if the peer is neither connected nor being dialed.
    Disconnected,
    /// Only if the peer is not being dialed.
    NotDialing,
    /// Always.
    Always,
}

/// An action that a behaviour hands to the swarm when polled.
#[derive(Debug, Clone, PartialEq)]
pub enum NetworkBehaviourAction<TInEvent, TOutEvent> {
    /// Report an event to the embedder.
    GenerateEvent(TOutEvent),
    /// Dial an address.
    DialAddress { address: Multiaddr },
    /// Dial a known peer.
    DialPeer { peer_id: PeerId, condition: DialPeerCondition },
    /// Deliver an event to connection handlers of a peer.
    NotifyHandler { peer_id: PeerId, handler: NotifyHandler, event: TInEvent },
    /// Report an address under which a remote observed the local node.
    ReportObservedAddr { address: Multiaddr },
}

impl<T: View> View for Poll<T> {
    type V = Poll<T::V>;

    open spec fn view(&self) -> Poll<T::V> {
        match self {
            Poll::Ready(value) => Poll::Ready(value@),
            Poll::Pending => Poll::Pending,
        }
    }
}

impl<TInEvent: View, TOutEvent: View> View for NetworkBehaviourAction<TInEvent, TOutEvent> {
    type V = NetworkBehaviourAction<TInEvent::V, TOutEvent::V>;

    open spec fn view(&self) -> NetworkBehaviourAction<TInEvent::V, TOutEvent::V> {
        match self {
            NetworkBehaviourAction::GenerateEvent(event) => NetworkBehaviourAction::GenerateEvent(
                event@,
            ),
            NetworkBehaviourAction::DialAddress { address } => NetworkBehaviourAction::DialAddress {
                address: *address,
            },
            NetworkBehaviourAction::DialPeer {
                peer_id,
                condition,
            } => NetworkBehaviourAction::DialPeer { peer_id: *peer_id, condition: *condition },
            NetworkBehaviourAction::NotifyHandler {
                peer_id,
                handler,
                event,
            } => NetworkBehaviourAction::NotifyHandler {
                peer_id: *peer_id,
                handler: *handler,
                event: event@,
            },
            NetworkBehaviourAction::ReportObservedAddr {
                address,
            } => NetworkBehaviourAction::ReportObservedAddr { address: *address },
        }
    }
}

} // verus!
