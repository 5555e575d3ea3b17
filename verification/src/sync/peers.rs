//! The table of peers: the last status received from each.

use crate::core_types::Height;
use crate::peer::PeerId;
use crate::sync::messages::Status;
use vstd::prelude::*;

verus! {

/// The peers that hold the value decided at `height`, but for `except`.
pub open spec fn peers_with_value(
    peers: Map<PeerId, Status>,
    height: Height,
    except: Option<PeerId>,
) -> Set<PeerId> {
    Set::new(
        |p: PeerId| peers.contains_key(p) && peers[p].spec_has_value(height) && except != Some(p),
    )
}

/// Last known status of each peer, at most one per peer.
#[derive(Debug)]
pub struct PeerTable {
    entries: Vec<Status>,
}

impl View for PeerTable {
    type V = Map<PeerId, Status>;

    /// The table as a map from peer to status.
    closed spec fn view(&self) -> Map<PeerId, Status> {
        Map::new(
            |p: PeerId| exists|i: int| 0 <= i < self.entries@.len() && self.entries@[i].peer_id == p,
            |p: PeerId|
                self.entries@[choose|i: int|
                    0 <= i < self.entries@.len() && self.entries@[i].peer_id == p],
        )
    }
}

impl PeerTable {
    /// No peer has two entries.
    #[verifier::type_invariant]
    pub closed spec fn wf(self) -> bool {
        forall|i: int, j: int|
            0 <= i < j < self.entries@.len() ==> self.entries@[i].peer_id
                != self.entries@[j].peer_id
    }

    proof fn lemma_entries(self)
        requires
            self.wf(),
        ensures
            forall|i: int|
                0 <= i < self.entries@.len() ==> self@.contains_key(
                    #[trigger] self.entries@[i].peer_id,
                ) && self@[self.entries@[i].peer_id] == self.entries@[i],
            forall|p: PeerId| #[trigger]
                self@.contains_key(p) ==> exists|i: int|
                    0 <= i < self.entries@.len() && self.entries@[i] == self@[p]
                        && self.entries@[i].peer_id == p,
    {
        assert forall|p: PeerId| #[trigger] self@.contains_key(p) implies exists|i: int|
            0 <= i < self.entries@.len() && self.entries@[i] == self@[p] && self.entries@[i].peer_id
                == p by {
            let i = choose|i: int| 0 <= i < self.entries@.len() && self.entries@[i].peer_id == p;
            assert(self.entries@[i] == self@[p]);
        }
        assert forall|i: int| 0 <= i < self.entries@.len() implies self@.contains_key(
            #[trigger] self.entries@[i].peer_id,
        ) && self@[self.entries@[i].peer_id] == self.entries@[i] by {
            let p = self.entries@[i].peer_id;
            let k = choose|k: int| 0 <= k < self.entries@.len() && self.entries@[k].peer_id == p;
            assert(k == i);
        }
    }

    /// The empty table.
    pub fn new() -> (t: PeerTable)
        ensures
            t@ == Map::<PeerId, Status>::empty(),
            t.wf(),
    {
        let t = PeerTable { entries: Vec::new() };
        assert(t@ =~= Map::<PeerId, Status>::empty());
        t
    }

    /// Number of peers in the table.
    pub fn len(&self) -> (n: usize)
        ensures
            n == self@.dom().len(),
    {
        proof {
            use_type_invariant(self);
            self.lemma_len();
        }
        self.entries.len()
    }

    proof fn lemma_len(self)
        requires
            self.wf(),
        ensures
            self@.dom().len() == self.entries@.len(),
    {
        self.lemma_entries();
        let ids = self.entries@.map_values(|s: Status| s.peer_id);
        assert(ids.no_duplicates());
        assert(self@.dom() =~= ids.to_set()) by {
            assert forall|p: PeerId| self@.dom().contains(p) <==> ids.to_set().contains(p) by {
                if self@.dom().contains(p) {
                    let i = choose|i: int|
                        0 <= i < self.entries@.len() && self.entries@[i].peer_id == p;
                    assert(ids[i] == p);
                }
                if ids.to_set().contains(p) {
                    let i = choose|i: int| 0 <= i < ids.len() && ids[i] == p;
                    assert(self.entries@[i].peer_id == p);
                }
            }
        }
        ids.unique_seq_to_set();
    }

    /// The status last recorded for `peer`, if any.
    pub fn get(&self, peer: PeerId) -> (r: Option<Status>)
        ensures
            r == (if self@.contains_key(peer) {
                Some(self@[peer])
            } else {
                None
            }),
    {
        proof {
            use_type_invariant(self);
            self.lemma_entries();
        }
        let mut i: usize = 0;
        while i < self.entries.len()
            invariant
                i <= self.entries@.len(),
                forall|j: int| 0 <= j < i ==> self.entries@[j].peer_id != peer,
            decreases self.entries@.len() - i,
        {
            if self.entries[i].peer_id == peer {
                proof {
                    use_type_invariant(self);
                    self.lemma_entries();
                    assert(self@[self.entries@[i as int].peer_id] == self.entries@[i as int]);
                }
                return Some(self.entries[i]);
            }
            i += 1;
        }
        None
    }

    /// Records `status` as the last one of its peer, in place of an earlier one.
    pub fn insert(&mut self, status: Status)
        ensures
            final(self)@ == old(self)@.insert(status.peer_id, status),
            final(self).wf(),
    {
        proof {
            use_type_invariant(&*self);
            self.lemma_entries();
        }
        let ghost before = *self;
        let mut taken = PeerTable::new();
        core::mem::swap(self, &mut taken);
        let PeerTable { entries } = taken;
        let mut entries = entries;
        let mut i: usize = 0;
        let mut found = false;
        while i < entries.len() && !found
            invariant
                entries == before.entries,
                i <= entries@.len(),
                found ==> i < entries@.len() && entries@[i as int].peer_id == status.peer_id,
                forall|j: int| 0 <= j < i ==> entries@[j].peer_id != status.peer_id,
            decreases entries@.len() - i + (if found { 0int } else { 1int }),
        {
            if entries[i].peer_id == status.peer_id {
                found = true;
            } else {
                i += 1;
            }
        }
        if found {
            entries[i] = status;
        } else {
            entries.push(status);
        }
        *self = PeerTable { entries };
        proof {
            self.lemma_entries();
            assert(self@ =~= before@.insert(status.peer_id, status)) by {
                assert forall|p: PeerId|
                    self@.contains_key(p) <==> before@.insert(status.peer_id, status).contains_key(
                        p,
                    ) by {
                    if before@.contains_key(p) {
                        let k = choose|k: int|
                            0 <= k < before.entries@.len() && before.entries@[k].peer_id == p;
                        assert(self.entries@[k].peer_id == p || p == status.peer_id);
                    }
                    if p == status.peer_id {
                        assert(self.entries@[i as int].peer_id == p);
                    }
                }
                assert forall|p: PeerId| self@.contains_key(p) implies self@[p] == before@.insert(
                    status.peer_id,
                    status,
                )[p] by {
                    let k = choose|k: int|
                        0 <= k < self.entries@.len() && self.entries@[k] == self@[p]
                            && self.entries@[k].peer_id == p;
                    if k != i {
                        assert(before.entries@[k] == self.entries@[k]);
                    }
                }
            }
        }
    }

    /// The peers that hold the value decided at `height`, but for `except`,
    /// each once.
    pub fn with_value(&self, height: Height, except: Option<PeerId>) -> (found: Vec<PeerId>)
        ensures
            found@.no_duplicates(),
            found@.to_set() == peers_with_value(self@, height, except),
    {
        proof {
            use_type_invariant(self);
            self.lemma_entries();
        }
        let mut found: Vec<PeerId> = Vec::new();
        let mut i: usize = 0;
        while i < self.entries.len()
            invariant
                i <= self.entries@.len(),
                self.wf(),
                found@.no_duplicates(),
                forall|p: PeerId|
                    found@.contains(p) <==> exists|j: int|
                        0 <= j < i && #[trigger] self.entries@[j].peer_id == p
                            && self.entries@[j].spec_has_value(height) && except != Some(p),
            decreases self.entries@.len() - i,
        {
            let status = self.entries[i];
            let excluded = match except {
                Some(bad) => bad == status.peer_id,
                None => false,
            };
            let ghost prev = found@;
            if status.has_value(height) && !excluded {
                found.push(status.peer_id);
                proof {
                    assert(!prev.contains(status.peer_id));
                    assert(found@ =~= prev.push(status.peer_id));
                    assert forall|p: PeerId| found@.contains(p) <==> exists|j: int|
                        0 <= j < i + 1 && #[trigger] self.entries@[j].peer_id == p
                            && self.entries@[j].spec_has_value(height) && except != Some(p) by {
                        if found@.contains(p) {
                            let k = choose|k: int| 0 <= k < found@.len() && found@[k] == p;
                            if k < prev.len() {
                                assert(prev.contains(p));
                            } else {
                                assert(self.entries@[i as int].peer_id == p);
                            }
                        }
                        if exists|j: int|
                            0 <= j < i + 1 && #[trigger] self.entries@[j].peer_id == p
                                && self.entries@[j].spec_has_value(height) && except != Some(p) {
                            let j = choose|j: int|
                                0 <= j < i + 1 && #[trigger] self.entries@[j].peer_id == p
                                    && self.entries@[j].spec_has_value(height) && except != Some(p);
                            if j < i {
                                assert(prev.contains(p));
                                let k = choose|k: int| 0 <= k < prev.len() && prev[k] == p;
                                assert(found@[k] == p);
                            } else {
                                assert(found@[prev.len() as int] == p);
                            }
                        }
                    }
                }
            }
            i += 1;
        }
        proof {
            assert(found@.to_set() =~= peers_with_value(self@, height, except)) by {
                assert forall|p: PeerId|
                    found@.to_set().contains(p) <==> peers_with_value(
                        self@,
                        height,
                        except,
                    ).contains(p) by {
                    if found@.contains(p) {
                        let j = choose|j: int|
                            0 <= j < i && #[trigger] self.entries@[j].peer_id == p
                                && self.entries@[j].spec_has_value(height) && except != Some(p);
                        assert(self@[p] == self.entries@[j]);
                    }
                    if peers_with_value(self@, height, except).contains(p) {
                        let k = choose|k: int|
                            0 <= k < self.entries@.len() && self.entries@[k] == self@[p]
                                && self.entries@[k].peer_id == p;
                        assert(self.entries@[k].peer_id == p);
                    }
                }
            }
        }
        found
    }
}

} // verus!
