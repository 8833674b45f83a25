//! The initiator's table of connected peers, keyed by peer identifier.

use vstd::prelude::*;
use crate::offerer::{OffererPeerState, OffererPeerStateView};

verus! {

/// One connected peer of the initiator.
#[derive(Debug)]
pub struct OffererPeer {
    peer_id: String,
    state: OffererPeerState,
}

/// The connected peers by their identifier.
pub type PeerMap = Map<Seq<char>, OffererPeerStateView>;

/// The peers of the initiator. No identifier occurs twice.
#[derive(Debug)]
pub struct PeerTable {
    entries: Vec<OffererPeer>,
}

/// Whether entry `j` of `s` belongs to the peer `id`.
spec fn holds(s: Seq<OffererPeer>, id: Seq<char>, j: int) -> bool {
    0 <= j < s.len() && s[j].peer_id@ == id
}

/// Whether no identifier occurs twice in `s`.
spec fn ids_distinct(s: Seq<OffererPeer>) -> bool {
    forall|i: int, j: int| 0 <= i < j < s.len() ==> s[i].peer_id@ != s[j].peer_id@
}

/// The map that a sequence of entries stands for.
spec fn entries_map(s: Seq<OffererPeer>) -> PeerMap
    decreases s.len(),
{
    if s.len() == 0 {
        Map::empty()
    } else {
        entries_map(s.drop_last()).insert(s.last().peer_id@, s.last().state@)
    }
}

/// The map holds exactly the identifiers of the entries.
proof fn lemma_entries_dom(s: Seq<OffererPeer>, id: Seq<char>)
    ensures
        entries_map(s).contains_key(id) <==> exists|j: int| holds(s, id, j),
    decreases s.len(),
{
    if s.len() > 0 {
        let head = s.drop_last();
        lemma_entries_dom(head, id);
        if entries_map(s).contains_key(id) {
            if s.last().peer_id@ == id {
                assert(holds(s, id, s.len() - 1));
            } else {
                let j = choose|j: int| holds(head, id, j);
                assert(holds(s, id, j));
            }
        }
        if exists|j: int| holds(s, id, j) {
            let j = choose|j: int| holds(s, id, j);
            if j < s.len() - 1 {
                assert(holds(head, id, j));
            }
        }
    }
}

/// Where no identifier occurs twice, the map gives each entry's state under
/// its identifier.
proof fn lemma_entries_value(s: Seq<OffererPeer>, j: int)
    requires
        ids_distinct(s),
        0 <= j < s.len(),
    ensures
        entries_map(s).contains_key(s[j].peer_id@),
        entries_map(s)[s[j].peer_id@] == s[j].state@,
    decreases s.len(),
{
    if j < s.len() - 1 {
        lemma_entries_value(s.drop_last(), j);
    }
}

/// Taking entry `i` out by moving the last entry into its place removes
/// its identifier from the map and nothing else.
proof fn lemma_entries_swap_remove(s: Seq<OffererPeer>, i: int)
    requires
        ids_distinct(s),
        0 <= i < s.len(),
    ensures
        ids_distinct(s.update(i, s.last()).drop_last()),
        entries_map(s.update(i, s.last()).drop_last()) == entries_map(s).remove(s[i].peer_id@),
{
    let t = s.update(i, s.last()).drop_last();
    let id = s[i].peer_id@;
    assert forall|k: Seq<char>| #[trigger]
        entries_map(t).contains_key(k) <==> entries_map(s).remove(id).contains_key(k) by {
        lemma_entries_dom(t, k);
        lemma_entries_dom(s, k);
        if exists|j: int| holds(t, k, j) {
            let j = choose|j: int| holds(t, k, j);
            if j == i {
                assert(holds(s, k, s.len() - 1));
            } else {
                assert(holds(s, k, j));
            }
        }
        if k != id && exists|j: int| holds(s, k, j) {
            let j = choose|j: int| holds(s, k, j);
            if j == s.len() - 1 {
                assert(holds(t, k, i));
            } else {
                assert(holds(t, k, j));
            }
        }
    }
    assert forall|k: Seq<char>| #[trigger] entries_map(t).contains_key(k) implies entries_map(t)[k]
        == entries_map(s).remove(id)[k] by {
        lemma_entries_dom(t, k);
        let j = choose|j: int| holds(t, k, j);
        lemma_entries_value(t, j);
        if j == i {
            lemma_entries_value(s, s.len() - 1);
        } else {
            lemma_entries_value(s, j);
        }
    }
    assert(entries_map(t) =~= entries_map(s).remove(id));
}

impl View for PeerTable {
    type V = PeerMap;

    closed spec fn view(&self) -> PeerMap {
        entries_map(self.entries@)
    }
}

impl PeerTable {
    /// The table is in order: no identifier occurs twice.
    #[verifier::type_invariant]
    spec fn wf(&self) -> bool {
        ids_distinct(self.entries@)
    }

    /// A table without peers.
    pub fn new() -> (t: PeerTable)
        ensures
            t@ == PeerMap::empty(),
    {
        PeerTable { entries: Vec::new() }
    }

    /// The place of the peer `id` among the entries.
    fn find(&self, id: &String) -> (at: Option<usize>)
        ensures
            match at {
                Some(i) => holds(self.entries@, id@, i as int),
                None => !self@.contains_key(id@),
            },
    {
        proof {
            use_type_invariant(self);
        }
        let mut i: usize = 0;
        while i < self.entries.len()
            invariant
                i <= self.entries.len(),
                forall|j: int| 0 <= j < i ==> !holds(self.entries@, id@, j),
            decreases self.entries.len() - i,
        {
            if self.entries[i].peer_id == *id {
                return Some(i);
            }
            i += 1;
        }
        proof {
            lemma_entries_dom(self.entries@, id@);
        }
        None
    }

    /// Whether the peer `id` is connected.
    pub fn contains(&self, id: &String) -> (b: bool)
        ensures
            b == self@.contains_key(id@),
    {
        let at = self.find(id);
        proof {
            lemma_entries_dom(self.entries@, id@);
        }
        at.is_some()
    }

    /// The state of the peer `id`, if it is connected.
    pub fn get(&self, id: &String) -> (st: Option<&OffererPeerState>)
        ensures
            match st {
                Some(s) => self@.contains_key(id@) && self@[id@] == s@,
                None => !self@.contains_key(id@),
            },
    {
        proof {
            use_type_invariant(self);
        }
        match self.find(id) {
            Some(i) => {
                proof {
                    lemma_entries_value(self.entries@, i as int);
                }
                Some(&self.entries[i].state)
            },
            None => None,
        }
    }

    /// How many peers are connected.
    pub fn len(&self) -> (n: usize)
        ensures
            n == self@.dom().len(),
            self@.dom().finite(),
    {
        proof {
            use_type_invariant(self);
            lemma_entries_count(self.entries@);
        }
        self.entries.len()
    }

    /// Takes the peer `id` out of the table and returns its state.
    pub fn take(&mut self, id: &String) -> (st: Option<OffererPeerState>)
        ensures
            final(self)@ == old(self)@.remove(id@),
            match st {
                Some(s) => old(self)@.contains_key(id@) && old(self)@[id@] == s@,
                None => !old(self)@.contains_key(id@),
            },
    {
        proof {
            use_type_invariant(&*self);
        }
        match self.find(id) {
            Some(i) => {
                proof {
                    lemma_entries_value(self.entries@, i as int);
                    lemma_entries_swap_remove(self.entries@, i as int);
                }
                let mut entries: Vec<OffererPeer> = Vec::new();
                core::mem::swap(&mut self.entries, &mut entries);
                let peer = entries.swap_remove(i);
                self.entries = entries;
                Some(peer.state)
            },
            None => {
                assert(self@ =~= old(self)@.remove(id@));
                None
            },
        }
    }

    /// Puts the peer `id` into the table with the state `st`, in place of
    /// any state it had.
    pub fn put(&mut self, id: String, st: OffererPeerState)
        ensures
            final(self)@ == old(self)@.insert(id@, st@),
    {
        let _ = self.take(&id);
        let ghost rest = self.entries@;
        proof {
            use_type_invariant(&*self);
            assert forall|j: int| 0 <= j < rest.len() implies rest[j].peer_id@ != id@ by {
                lemma_entries_dom(rest, id@);
                if rest[j].peer_id@ == id@ {
                    assert(holds(rest, id@, j));
                }
            }
        }
        let mut entries: Vec<OffererPeer> = Vec::new();
        core::mem::swap(&mut self.entries, &mut entries);
        entries.push(OffererPeer { peer_id: id, state: st });
        proof {
            assert(entries@.drop_last() =~= rest);
            assert forall|i: int, j: int| 0 <= i < j < entries@.len() implies entries@[i].peer_id@
                != entries@[j].peer_id@ by {
                if j < rest.len() {
                    assert(rest[i].peer_id@ != rest[j].peer_id@);
                }
            }
        }
        self.entries = entries;
        proof {
            assert(self.entries@.drop_last() =~= rest);
            assert(self@ =~= old(self)@.insert(id@, st@));
        }
    }
}

/// Where no identifier occurs twice, there are as many peers as entries.
proof fn lemma_entries_count(s: Seq<OffererPeer>)
    requires
        ids_distinct(s),
    ensures
        entries_map(s).dom().finite(),
        entries_map(s).dom().len() == s.len(),
    decreases s.len(),
{
    if s.len() > 0 {
        let head = s.drop_last();
        lemma_entries_count(head);
        lemma_entries_dom(head, s.last().peer_id@);
        if exists|j: int| holds(head, s.last().peer_id@, j) {
            let j = choose|j: int| holds(head, s.last().peer_id@, j);
            assert(s[j].peer_id@ == s[s.len() - 1].peer_id@);
        }
        assert(entries_map(s).dom() =~= entries_map(head).dom().insert(s.last().peer_id@));
    }
}

} // verus!
