//! The queue of peers that are to be disconnected.
//!
//! Peers wait here, first come first served, until the shutdown of their
//! connections is handed to the swarm. A peer that is already waiting is not
//! queued a second time.

use crate::swarm::{peer_key, same_peer};
use libp2p::PeerId;
use vstd::prelude::*;

verus! {

/// Whether `peer` is one of `peers`.
pub open spec fn holds_peer(peers: Seq<PeerId>, peer: PeerId) -> bool {
    exists|i: int| 0 <= i < peers.len() && peer_key(#[trigger] peers[i]) == peer_key(peer)
}

/// Whether no peer occurs twice in `peers`.
pub open spec fn distinct_peers(peers: Seq<PeerId>) -> bool {
    forall|i: int, j: int|
        0 <= i < j < peers.len() ==> peer_key(#[trigger] peers[i]) != peer_key(
            #[trigger] peers[j],
        )
}

/// How often `peer` occurs in `peers`.
pub open spec fn occurrences(peers: Seq<PeerId>, peer: PeerId) -> nat
    decreases peers.len(),
{
    if peers.len() == 0 {
        0
    } else {
        occurrences(peers.drop_last(), peer) + if peer_key(peers.last()) == peer_key(peer) {
            1nat
        } else {
            0nat
        }
    }
}

/// The queue after `peer` has been put in: it joins at the back unless it is
/// waiting already.
pub open spec fn enqueued(peers: Seq<PeerId>, peer: PeerId) -> Seq<PeerId> {
    if holds_peer(peers, peer) {
        peers
    } else {
        peers.push(peer)
    }
}

/// A peer that does not occur among the peers occurs zero times.
pub proof fn lemma_absent_peer(peers: Seq<PeerId>, peer: PeerId)
    requires
        !holds_peer(peers, peer),
    ensures
        occurrences(peers, peer) == 0,
    decreases peers.len(),
{
    if peers.len() > 0 {
        let front = peers.drop_last();
        assert(peer_key(peers[peers.len() - 1]) != peer_key(peer));
        assert forall|i: int| 0 <= i < front.len() implies peer_key(#[trigger] front[i])
            != peer_key(peer) by {
            assert(front[i] == peers[i]);
        }
        lemma_absent_peer(front, peer);
    }
}

/// Where no peer occurs twice, every peer occurs at most once.
pub proof fn lemma_at_most_once(peers: Seq<PeerId>, peer: PeerId)
    requires
        distinct_peers(peers),
    ensures
        occurrences(peers, peer) <= 1,
    decreases peers.len(),
{
    if peers.len() > 0 {
        let front = peers.drop_last();
        assert forall|i: int, j: int| 0 <= i < j < front.len() implies peer_key(
            #[trigger] front[i],
        ) != peer_key(#[trigger] front[j]) by {
            assert(front[i] == peers[i] && front[j] == peers[j]);
        }
        if peer_key(peers.last()) == peer_key(peer) {
            assert forall|i: int| 0 <= i < front.len() implies peer_key(#[trigger] front[i])
                != peer_key(peer) by {
                assert(front[i] == peers[i]);
            }
            lemma_absent_peer(front, peer);
        } else {
            lemma_at_most_once(front, peer);
        }
    }
}

/// Putting a peer into a queue in which no peer occurs twice leaves a queue in
/// which no peer occurs twice.
pub proof fn lemma_enqueued_distinct(peers: Seq<PeerId>, peer: PeerId)
    requires
        distinct_peers(peers),
    ensures
        distinct_peers(enqueued(peers, peer)),
{
    if !holds_peer(peers, peer) {
        let after = peers.push(peer);
        assert forall|i: int, j: int| 0 <= i < j < after.len() implies peer_key(
            #[trigger] after[i],
        ) != peer_key(#[trigger] after[j]) by {
            assert(after[i] == peers[i]);
            if j < peers.len() {
                assert(after[j] == peers[j]);
            }
        }
    }
}

/// The queue of peers to disconnect.
#[derive(Debug)]
pub struct DisconnectQueue {
    peers: Vec<PeerId>,
}

impl View for DisconnectQueue {
    type V = Seq<PeerId>;

    /// The waiting peers, the one to be served next first.
    closed spec fn view(&self) -> Seq<PeerId> {
        self.peers@
    }
}

impl DisconnectQueue {
    #[verifier::type_invariant]
    spec fn well_formed(self) -> bool {
        distinct_peers(self.peers@)
    }

    /// The empty queue.
    pub fn new() -> (queue: Self)
        ensures
            queue@ == Seq::<PeerId>::empty(),
    {
        DisconnectQueue { peers: Vec::new() }
    }

    /// Whether nobody waits. No peer ever occurs twice in the queue.
    pub fn is_empty(&self) -> (empty: bool)
        ensures
            empty == (self@.len() == 0),
            distinct_peers(self@),
    {
        proof {
            use_type_invariant(self);
        }
        self.peers.len() == 0
    }

    /// Whether the peer waits in the queue.
    pub fn contains(&self, peer: &PeerId) -> (held: bool)
        ensures
            held == holds_peer(self@, *peer),
    {
        let mut i: usize = 0;
        while i < self.peers.len()
            invariant
                i <= self.peers.len(),
                forall|k: int| 0 <= k < i ==> peer_key(#[trigger] self.peers[k]) != peer_key(*peer),
            decreases self.peers.len() - i,
        {
            if same_peer(&self.peers[i], peer) {
                return true;
            }
            i += 1;
        }
        false
    }

    /// How often the peer occurs in the queue: never more than once.
    pub fn count(&self, peer: &PeerId) -> (n: usize)
        ensures
            n == occurrences(self@, *peer),
            n <= 1,
    {
        proof {
            use_type_invariant(self);
            lemma_at_most_once(self@, *peer);
        }
        if self.contains(peer) {
            proof {
                if occurrences(self@, *peer) == 0 {
                    lemma_present_peer(self@, *peer);
                }
            }
            1
        } else {
            proof {
                lemma_absent_peer(self@, *peer);
            }
            0
        }
    }

    /// Puts a peer at the back of the queue, unless it waits there already.
    pub fn push(&mut self, peer: PeerId)
        ensures
            final(self)@ == enqueued(old(self)@, peer),
    {
        proof {
            use_type_invariant(&*self);
            lemma_enqueued_distinct(self@, peer);
        }
        if !self.contains(&peer) {
            let mut peers: Vec<PeerId> = Vec::new();
            std::mem::swap(&mut self.peers, &mut peers);
            peers.push(peer);
            std::mem::swap(&mut self.peers, &mut peers);
        }
    }

    /// Takes the peer at the front off the queue, if there is one.
    pub fn pop_front(&mut self) -> (peer: Option<PeerId>)
        ensures
            old(self)@.len() == 0 ==> peer is None && final(self)@ == old(self)@,
            old(self)@.len() > 0 ==> peer == Some(old(self)@.first()) && final(self)@ == old(
                self,
            )@.drop_first(),
    {
        proof {
            use_type_invariant(&*self);
        }
        if self.peers.len() == 0 {
            return None;
        }
        let ghost before = self.peers@;
        let mut peers: Vec<PeerId> = Vec::new();
        std::mem::swap(&mut self.peers, &mut peers);
        let peer = peers.remove(0);
        proof {
            assert(peers@ =~= before.drop_first());
            assert forall|i: int, j: int| 0 <= i < j < peers@.len() implies peer_key(
                #[trigger] peers@[i],
            ) != peer_key(#[trigger] peers@[j]) by {
                assert(peers@[i] == before[i + 1] && peers@[j] == before[j + 1]);
            }
        }
        std::mem::swap(&mut self.peers, &mut peers);
        Some(peer)
    }
}

/// A peer that occurs among the peers occurs at least once.
pub proof fn lemma_present_peer(peers: Seq<PeerId>, peer: PeerId)
    requires
        holds_peer(peers, peer),
    ensures
        occurrences(peers, peer) >= 1,
    decreases peers.len(),
{
    let i = choose|i: int| 0 <= i < peers.len() && peer_key(#[trigger] peers[i]) == peer_key(peer);
    if i < peers.len() - 1 {
        let front = peers.drop_last();
        assert(front[i] == peers[i]);
        lemma_present_peer(front, peer);
    }
}

} // verus!
