//! The table of the peers that are known at the moment.

use crate::peer::{Peer, PeerView};
use crate::string_map::{key_views, lemma_lists_entries, lists, value_views, StringMap};
use vstd::prelude::*;

verus! {

/// The known peers as a plain value: each under its name.
pub type PeerTable = Map<Seq<char>, PeerView>;

/// The name of each peer of a sequence.
pub open spec fn names(peers: Seq<PeerView>) -> Seq<Seq<char>> {
    peers.map_values(|p: PeerView| p.name)
}

/// The view of each peer of a sequence.
pub open spec fn peer_views(peers: Seq<Peer>) -> Seq<PeerView> {
    peers.map_values(|p: Peer| p@)
}

/// `peers` holds the peers of `table`, each once, in some order.
pub open spec fn is_snapshot(peers: Seq<PeerView>, table: PeerTable) -> bool {
    lists(names(peers), peers, table)
}

/// Every peer of `table` stands under its own name.
pub open spec fn keyed_by_name(table: PeerTable) -> bool {
    forall|k: Seq<char>| #[trigger] table.contains_key(k) ==> table[k].name == k
}

/// The peers that are known at the moment, at most one under each name.
#[derive(Debug)]
pub struct PeerRegistry {
    peers: StringMap<Peer>,
}

impl View for PeerRegistry {
    type V = PeerTable;

    closed spec fn view(&self) -> PeerTable {
        self.peers@
    }
}

impl PeerRegistry {
    /// Every peer stands under its own name.
    #[verifier::type_invariant]
    pub open spec fn well_formed(self) -> bool {
        keyed_by_name(self@)
    }

    /// A registry that knows no peer.
    pub fn new() -> (r: Self)
        ensures
            r@ == PeerTable::empty(),
            keyed_by_name(r@),
    {
        PeerRegistry { peers: StringMap::new() }
    }

    /// The number of known peers.
    pub fn len(&self) -> (n: usize)
        ensures
            self@.dom().finite(),
            n == self@.len(),
            keyed_by_name(self@),
    {
        proof {
            use_type_invariant(self);
        }
        self.peers.len()
    }

    /// Whether no peer is known.
    pub fn is_empty(&self) -> (b: bool)
        ensures
            b == (self@ == PeerTable::empty()),
    {
        self.peers.is_empty()
    }

    /// Records `peer` under its name, in place of what was known under that
    /// name, and hands the earlier record back.
    pub fn upsert(&mut self, peer: Peer) -> (previous: Option<Peer>)
        ensures
            final(self)@ == old(self)@.insert(peer@.name, peer@),
            keyed_by_name(final(self)@),
            match previous {
                Some(p) => old(self)@.contains_key(peer@.name) && p@ == old(self)@[peer@.name],
                None => !old(self)@.contains_key(peer@.name),
            },
    {
        proof {
            use_type_invariant(&*self);
        }
        let key = peer.name.clone();
        let mut peers = StringMap::new();
        std::mem::swap(&mut peers, &mut self.peers);
        let previous = peers.insert(key, peer);
        *self = PeerRegistry { peers };
        previous
    }

    /// Forgets the peer named `id`, and hands its record back.
    pub fn remove(&mut self, id: &str) -> (removed: Option<Peer>)
        ensures
            final(self)@ == old(self)@.remove(id@),
            keyed_by_name(final(self)@),
            match removed {
                Some(p) => old(self)@.contains_key(id@) && p@ == old(self)@[id@],
                None => !old(self)@.contains_key(id@),
            },
    {
        proof {
            use_type_invariant(&*self);
        }
        let mut peers = StringMap::new();
        std::mem::swap(&mut peers, &mut self.peers);
        let removed = peers.remove(id);
        *self = PeerRegistry { peers };
        removed
    }

    /// A copy of the record of the peer named `id`.
    pub fn get(&self, id: &str) -> (found: Option<Peer>)
        ensures
            match found {
                Some(p) => self@.contains_key(id@) && p@ == self@[id@] && p@.name == id@,
                None => !self@.contains_key(id@),
            },
            keyed_by_name(self@),
    {
        proof {
            use_type_invariant(self);
        }
        match self.peers.get(id) {
            Some(p) => Some(p.clone()),
            None => None,
        }
    }

    /// Copies of the records of all known peers, in no particular order.
    pub fn snapshot(&self) -> (peers: Vec<Peer>)
        ensures
            is_snapshot(peer_views(peers@), self@),
            keyed_by_name(self@),
    {
        proof {
            use_type_invariant(self);
        }
        let keys = self.peers.keys();
        let vals = self.peers.values();
        proof {
            lemma_lists_entries(key_views(keys@), value_views(vals@), self@);
        }
        let mut peers: Vec<Peer> = Vec::new();
        let mut i: usize = 0;
        while i < vals.len()
            invariant
                i <= vals.len(),
                peers.len() == i,
                forall|j: int| 0 <= j < i ==> peers[j]@ == vals[j]@,
            decreases vals.len() - i,
        {
            peers.push(vals[i].clone());
            i += 1;
        }
        proof {
            assert(peer_views(peers@) =~= value_views(vals@));
            assert(names(peer_views(peers@)) =~= key_views(keys@));
        }
        peers
    }

    /// Forgets every peer.
    pub fn clear(&mut self)
        ensures
            final(self)@ == PeerTable::empty(),
            keyed_by_name(final(self)@),
    {
        *self = PeerRegistry { peers: StringMap::new() };
    }
}

/// A snapshot holds each peer of the table, under an index of its own, and
/// nothing else.
pub proof fn snapshot_is_complete(peers: Seq<PeerView>, table: PeerTable)
    requires
        is_snapshot(peers, table),
    ensures
        table.dom().finite(),
        peers.len() == table.len(),
        forall|i: int| 0 <= i < peers.len() ==> table.contains_key(#[trigger] peers[i].name) && table[peers[i].name] == peers[i],
        forall|k: Seq<char>| #[trigger] table.contains_key(k) ==> exists|i: int| 0 <= i < peers.len() && peers[i] == table[k],
{
    lemma_lists_entries(names(peers), peers, table);
    assert forall|i: int| 0 <= i < peers.len() implies table.contains_key(#[trigger] peers[i].name)
        && table[peers[i].name] == peers[i] by {
        assert(names(peers)[i] == peers[i].name);
    }
    assert forall|k: Seq<char>| #[trigger] table.contains_key(k) implies exists|i: int|
        0 <= i < peers.len() && peers[i] == table[k] by {
        let i = names(peers).index_of(k);
    }
}

} // verus!
