//! The table of known peers.
//!
//! The table belongs to the peer manager. The behaviour and its embedder only
//! read it: how many peers are connected, and which client a peer runs.

use crate::swarm::{peer_key, same_peer};
use libp2p::PeerId;
use vstd::prelude::*;

verus! {

/// The software a peer runs, as far as it is known.
#[derive(Debug, Clone, PartialEq, Eq)]
pub struct Client {
    /// What the peer calls itself, if it has said so.
    pub agent_string: Option<String>,
}

/// Where a peer is in its life cycle.
#[derive(Debug, Clone, Copy, PartialEq, Eq, Structural)]
pub enum PeerConnectionStatus {
    Connected,
    Dialing,
    Disconnected,
    Banned,
    Unknown,
}

/// What is known about a peer.
#[derive(Debug, Clone, PartialEq, Eq)]
pub struct PeerInfo {
    pub client: Client,
    pub connection_status: PeerConnectionStatus,
}

/// What a [`PeerInfo`] is.
pub struct PeerInfoView {
    pub agent_string: Option<Seq<char>>,
    pub connection_status: PeerConnectionStatus,
}

/// One entry of the table, as a value.
pub struct PeerRecordView {
    pub peer_id: PeerId,
    pub info: PeerInfoView,
}

impl View for Client {
    type V = Option<Seq<char>>;

    open spec fn view(&self) -> Option<Seq<char>> {
        match self.agent_string {
            Some(agent) => Some(agent@),
            None => None,
        }
    }
}

impl View for PeerInfo {
    type V = PeerInfoView;

    open spec fn view(&self) -> PeerInfoView {
        PeerInfoView { agent_string: self.client@, connection_status: self.connection_status }
    }
}

impl Default for Client {
    /// The client of which nothing is known.
    fn default() -> (client: Self)
        ensures
            client@ == None::<Seq<char>>,
    {
        Client { agent_string: None }
    }
}

impl Client {
    /// A copy of the client.
    pub fn duplicate(&self) -> (copy: Self)
        ensures
            copy@ == self@,
    {
        match &self.agent_string {
            Some(agent) => Client { agent_string: Some(agent.clone()) },
            None => Client { agent_string: None },
        }
    }
}

/// Whether no two records are about the same peer.
pub open spec fn one_record_per_peer(records: Seq<PeerRecordView>) -> bool {
    forall|i: int, j: int|
        0 <= i < j < records.len() ==> peer_key((#[trigger] records[i]).peer_id) != peer_key(
            (#[trigger] records[j]).peer_id,
        )
}

/// The position of the first record about `key`, or the number of records
/// if there is none.
pub open spec fn record_position(records: Seq<PeerRecordView>, key: Seq<u8>) -> int
    decreases records.len(),
{
    if records.len() == 0 {
        0
    } else if peer_key(records.first().peer_id) == key {
        0
    } else {
        1 + record_position(records.drop_first(), key)
    }
}

/// How many of the records have the status `status`.
pub open spec fn count_status(records: Seq<PeerRecordView>, status: PeerConnectionStatus) -> nat
    decreases records.len(),
{
    if records.len() == 0 {
        0
    } else {
        count_status(records.drop_last(), status) + if records.last().info.connection_status
            == status {
            1nat
        } else {
            0nat
        }
    }
}

/// The table of known peers: at most one record for each peer.
#[derive(Debug)]
pub struct PeerDB {
    peers: Vec<(PeerId, PeerInfo)>,
}

impl View for PeerDB {
    type V = Seq<PeerRecordView>;

    closed spec fn view(&self) -> Seq<PeerRecordView> {
        records_of(self.peers@)
    }
}

/// The records as values.
pub open spec fn records_of(peers: Seq<(PeerId, PeerInfo)>) -> Seq<PeerRecordView> {
    peers.map_values(
        |record: (PeerId, PeerInfo)| PeerRecordView { peer_id: record.0, info: record.1@ },
    )
}

/// `record_position` stays within the records, and points at a record about
/// `key` unless there is none.
pub proof fn lemma_record_position(records: Seq<PeerRecordView>, key: Seq<u8>)
    ensures
        0 <= record_position(records, key) <= records.len(),
        record_position(records, key) < records.len() ==> peer_key(
            records[record_position(records, key)].peer_id,
        ) == key,
        forall|k: int|
            0 <= k < record_position(records, key) ==> peer_key((#[trigger] records[k]).peer_id)
                != key,
    decreases records.len(),
{
    if records.len() > 0 && peer_key(records.first().peer_id) != key {
        let rest = records.drop_first();
        lemma_record_position(rest, key);
        assert forall|k: int| 0 <= k < record_position(records, key) implies peer_key(
            (#[trigger] records[k]).peer_id,
        ) != key by {
            if k > 0 {
                assert(rest[k - 1] == records[k]);
            }
        }
    }
}

impl PeerDB {
    #[verifier::type_invariant]
    spec fn well_formed(self) -> bool {
        one_record_per_peer(self@)
    }

    /// The table without records.
    pub fn new() -> (db: Self)
        ensures
            db@ == Seq::<PeerRecordView>::empty(),
    {
        let db = PeerDB { peers: Vec::new() };
        assert(db@ =~= Seq::<PeerRecordView>::empty());
        db
    }

    fn position(&self, peer_id: &PeerId) -> (i: usize)
        ensures
            i == record_position(self@, peer_key(*peer_id)),
    {
        let mut i: usize = 0;
        proof {
            lemma_record_position(self@, peer_key(*peer_id));
        }
        while i < self.peers.len()
            invariant
                i <= self.peers.len(),
                self@.len() == self.peers.len(),
                forall|k: int|
                    0 <= k < self@.len() ==> (#[trigger] self@[k]).peer_id == self.peers[k].0,
                i <= record_position(self@, peer_key(*peer_id)) <= self@.len(),
                record_position(self@, peer_key(*peer_id)) < self@.len() ==> peer_key(
                    self@[record_position(self@, peer_key(*peer_id))].peer_id,
                ) == peer_key(*peer_id),
                forall|k: int|
                    0 <= k < record_position(self@, peer_key(*peer_id)) ==> peer_key(
                        (#[trigger] self@[k]).peer_id,
                    ) != peer_key(*peer_id),
            decreases self.peers.len() - i,
        {
            if same_peer(&self.peers[i].0, peer_id) {
                assert(self@[i as int].peer_id == self.peers[i as int].0);
                return i;
            }
            assert(self@[i as int].peer_id == self.peers[i as int].0);
            i += 1;
        }
        i
    }

    /// What is known about a peer, if anything.
    pub fn peer_info(&self, peer_id: &PeerId) -> (info: Option<&PeerInfo>)
        ensures
            info is Some == (record_position(self@, peer_key(*peer_id)) < self@.len()),
            info is Some ==> info->0@ == self@[record_position(self@, peer_key(*peer_id))].info,
    {
        let i = self.position(peer_id);
        assert(self@.len() == self.peers.len());
        if i < self.peers.len() {
            assert(self@[i as int].info == self.peers[i as int].1@);
            Some(&self.peers[i].1)
        } else {
            None
        }
    }

    /// Records what is known about a peer, in place of what was known before.
    pub fn update(&mut self, peer_id: PeerId, info: PeerInfo)
        ensures
            record_position(old(self)@, peer_key(peer_id)) < old(self)@.len() ==> final(self)@
                == old(self)@.update(
                record_position(old(self)@, peer_key(peer_id)),
                PeerRecordView { peer_id, info: info@ },
            ),
            record_position(old(self)@, peer_key(peer_id)) == old(self)@.len() ==> final(self)@
                == old(self)@.push(PeerRecordView { peer_id, info: info@ }),
    {
        proof {
            use_type_invariant(&*self);
            lemma_record_position(self@, peer_key(peer_id));
        }
        let i = self.position(&peer_id);
        let ghost before = self@;
        let ghost record = PeerRecordView { peer_id, info: info@ };
        let mut peers: Vec<(PeerId, PeerInfo)> = Vec::new();
        std::mem::swap(&mut self.peers, &mut peers);
        assert(self@ =~= Seq::<PeerRecordView>::empty());
        assert(records_of(peers@) == before);
        if i < peers.len() {
            peers[i] = (peer_id, info);
            proof {
                let after = records_of(peers@);
                assert(after =~= before.update(i as int, record));
                assert forall|a: int, b: int| 0 <= a < b < after.len() implies peer_key(
                    (#[trigger] after[a]).peer_id,
                ) != peer_key((#[trigger] after[b]).peer_id) by {
                    assert(peer_key(before[a].peer_id) != peer_key(before[b].peer_id));
                }
            }
            std::mem::swap(&mut self.peers, &mut peers);
        } else {
            peers.push((peer_id, info));
            proof {
                let after = records_of(peers@);
                assert(after =~= before.push(record));
                assert forall|a: int, b: int| 0 <= a < b < after.len() implies peer_key(
                    (#[trigger] after[a]).peer_id,
                ) != peer_key((#[trigger] after[b]).peer_id) by {
                    if b < before.len() {
                        assert(peer_key(before[a].peer_id) != peer_key(before[b].peer_id));
                    } else {
                        assert(peer_key(before[a].peer_id) != peer_key(peer_id));
                    }
                }
            }
            std::mem::swap(&mut self.peers, &mut peers);
        }
    }

    fn count(&self, status: PeerConnectionStatus) -> (n: usize)
        ensures
            n == count_status(self@, status),
    {
        let mut n: usize = 0;
        let mut i: usize = 0;
        while i < self.peers.len()
            invariant
                i <= self.peers.len(),
                self@.len() == self.peers.len(),
                forall|k: int|
                    0 <= k < self@.len() ==> (#[trigger] self@[k]).info.connection_status
                        == self.peers[k].1.connection_status,
                n == count_status(self@.take(i as int), status),
                n <= i,
            decreases self.peers.len() - i,
        {
            proof {
                assert(self@.take(i + 1).drop_last() =~= self@.take(i as int));
                assert(self@.take(i + 1).last() == self@[i as int]);
            }
            if self.peers[i].1.connection_status == status {
                n += 1;
            }
            i += 1;
        }
        assert(self@.take(i as int) =~= self@);
        n
    }

    /// The number of connected peers.
    pub fn connected_peers(&self) -> (n: usize)
        ensures
            n == count_status(self@, PeerConnectionStatus::Connected),
    {
        self.count(PeerConnectionStatus::Connected)
    }

    /// The number of peers that are connected or being dialed.
    pub fn connected_or_dialing_peers(&self) -> (n: usize)
        ensures
            n == count_status(self@, PeerConnectionStatus::Connected) + count_status(
                self@,
                PeerConnectionStatus::Dialing,
            ),
    {
        let connected = self.count(PeerConnectionStatus::Connected);
        let dialing = self.count(PeerConnectionStatus::Dialing);
        proof {
            lemma_counts_fit(self@);
            assert(self@.len() == self.peers.len());
        }
        connected + dialing
    }
}

/// Records with one status and records with another are no more than all
/// records.
pub proof fn lemma_counts_fit(records: Seq<PeerRecordView>)
    ensures
        count_status(records, PeerConnectionStatus::Connected) + count_status(
            records,
            PeerConnectionStatus::Dialing,
        ) <= records.len(),
    decreases records.len(),
{
    if records.len() > 0 {
        lemma_counts_fit(records.drop_last());
    }
}

} // verus!
