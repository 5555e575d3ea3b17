//! What the synchronisation engine remembers between inputs.

use crate::core_types::Height;
use crate::core_types::Round;
use crate::peer::PeerId;
use crate::sync::messages::Status;
use crate::sync::peers::peers_with_value;
use crate::sync::peers::PeerTable;
use rand::rngs::StdRng;
use rand::seq::IteratorRandom;
use std::collections::BTreeMap;
use vstd::prelude::*;

verus! {

#[verifier::external_type_specification]
#[verifier::external_body]
pub struct ExStdRng(StdRng);

/// The state of the engine as mathematical maps. The random-number
/// generator is left out: nothing is known of it.
pub struct StateView {
    /// Highest height that the local consensus has decided.
    pub tip_height: Height,
    /// Height that the local consensus is working on.
    pub sync_height: Height,
    /// Last status received from each peer.
    pub peers: Map<PeerId, Status>,
    /// For each height with a value request in flight, the peer it went to.
    pub pending_value_requests: Map<u64, PeerId>,
    /// For each height and round number with a vote-set request in flight,
    /// the peer it went to.
    pub pending_vote_set_requests: Map<(u64, i64), PeerId>,
}

/// Key of a vote-set request: the height and the round as a signed integer.
pub open spec fn vote_set_key(height: Height, round: Round) -> (u64, i64) {
    (height.0, round.spec_as_i64())
}

/// `choice` was picked from `candidates`: a member of it, or nothing where it
/// is empty.
pub open spec fn picked_from(choice: Option<PeerId>, candidates: Set<PeerId>) -> bool {
    match choice {
        Some(p) => candidates.contains(p),
        None => candidates == Set::<PeerId>::empty(),
    }
}

/// The element of `candidates` at the chosen index, or nothing where no index
/// was chosen or it lies outside.
pub fn pick(candidates: &Vec<PeerId>, choice: Option<usize>) -> (r: Option<PeerId>)
    ensures
        r == (match choice {
            Some(i) => if i < candidates@.len() {
                Some(candidates@[i as int])
            } else {
                None
            },
            None => None,
        }),
{
    match choice {
        Some(i) => if i < candidates.len() {
            Some(candidates[i])
        } else {
            None
        },
        None => None,
    }
}

/// Calls `IteratorRandom::choose_stable` on the range `0..n`: `None` if and
/// only if the range is empty, else one of its elements. Which one depends on
/// the generator.
#[verifier::external_body]
fn choose_index(rng: &mut StdRng, n: usize) -> (r: Option<usize>)
    ensures
        match r {
            Some(i) => i < n,
            None => n == 0,
        },
{
    (0..n).choose_stable(rng)
}

/// State of the synchronisation engine.
pub struct State {
    rng: StdRng,
    tip_height: Height,
    sync_height: Height,
    peers: PeerTable,
    pending_decided_value_requests: BTreeMap<u64, PeerId>,
    pending_vote_set_requests: BTreeMap<(u64, i64), PeerId>,
}

impl View for State {
    type V = StateView;

    closed spec fn view(&self) -> StateView {
        StateView {
            tip_height: self.tip_height,
            sync_height: self.sync_height,
            peers: self.peers@,
            pending_value_requests: self.pending_decided_value_requests@,
            pending_vote_set_requests: self.pending_vote_set_requests@,
        }
    }
}

impl State {
    /// A state that knows no peer and has no request in flight, with
    /// consensus at `tip_height`.
    pub fn new(rng: StdRng, tip_height: Height) -> (s: State)
        ensures
            s@ == (StateView {
                tip_height,
                sync_height: tip_height,
                peers: Map::empty(),
                pending_value_requests: Map::empty(),
                pending_vote_set_requests: Map::empty(),
            }),
    {
        State {
            rng,
            tip_height,
            sync_height: tip_height,
            peers: PeerTable::new(),
            pending_decided_value_requests: BTreeMap::new(),
            pending_vote_set_requests: BTreeMap::new(),
        }
    }

    pub fn tip_height(&self) -> (h: Height)
        ensures
            h == self@.tip_height,
    {
        self.tip_height
    }

    pub fn sync_height(&self) -> (h: Height)
        ensures
            h == self@.sync_height,
    {
        self.sync_height
    }

    pub fn set_tip_height(&mut self, height: Height)
        ensures
            final(self)@ == (StateView { tip_height: height, ..old(self)@ }),
    {
        self.tip_height = height;
    }

    pub fn set_sync_height(&mut self, height: Height)
        ensures
            final(self)@ == (StateView { sync_height: height, ..old(self)@ }),
    {
        self.sync_height = height;
    }

    /// The status last received from `peer`, if any.
    pub fn peer_status(&self, peer: PeerId) -> (r: Option<Status>)
        ensures
            r == (if self@.peers.contains_key(peer) {
                Some(self@.peers[peer])
            } else {
                None
            }),
    {
        self.peers.get(peer)
    }

    /// Records the status of a peer, in place of its earlier one.
    pub fn update_status(&mut self, status: Status)
        ensures
            final(self)@ == (StateView {
                peers: old(self)@.peers.insert(status.peer_id, status),
                ..old(self)@
            }),
    {
        self.peers.insert(status);
    }

    /// Picks at random a peer that holds the value decided at `height`.
    pub fn random_peer_with_value(&mut self, height: Height) -> (r: Option<PeerId>)
        ensures
            final(self)@ == old(self)@,
            picked_from(r, peers_with_value(old(self)@.peers, height, None)),
    {
        self.random_peer(height, None)
    }

    /// Picks at random a peer other than `except` that holds the value
    /// decided at `height`.
    pub fn random_peer_with_value_except(&mut self, height: Height, except: PeerId) -> (r: Option<
        PeerId,
    >)
        ensures
            final(self)@ == old(self)@,
            picked_from(r, peers_with_value(old(self)@.peers, height, Some(except))),
    {
        self.random_peer(height, Some(except))
    }

    /// Picks at random a peer to ask for the votes of `height` and `round`:
    /// one that holds that height.
    pub fn random_peer_for_votes(&mut self, height: Height, round: Round) -> (r: Option<PeerId>)
        ensures
            final(self)@ == old(self)@,
            picked_from(r, peers_with_value(old(self)@.peers, height, None)),
    {
        self.random_peer(height, None)
    }

    fn random_peer(&mut self, height: Height, except: Option<PeerId>) -> (r: Option<PeerId>)
        ensures
            final(self)@ == old(self)@,
            picked_from(r, peers_with_value(old(self)@.peers, height, except)),
    {
        let found = self.peers.with_value(height, except);
        let choice = choose_index(&mut self.rng, found.len());
        let r = pick(&found, choice);
        proof {
            let candidates = peers_with_value(self@.peers, height, except);
            match r {
                Some(p) => {
                    assert(found@.contains(p));
                },
                None => {
                    assert(found@.len() == 0);
                    assert(candidates =~= Set::<PeerId>::empty());
                },
            }
        }
        r
    }

    /// Whether a value request for `height` is in flight.
    pub fn has_pending_decided_value_request(&self, height: &Height) -> (b: bool)
        ensures
            b == self@.pending_value_requests.contains_key(height.0),
    {
        broadcast use vstd::laws_cmp::group_laws_cmp;
        broadcast use vstd::std_specs::btree::group_btree_axioms;

        self.pending_decided_value_requests.contains_key(&height.0)
    }

    /// The peer that the value request for `height` went to, if one is in flight.
    pub fn pending_decided_value_request(&self, height: Height) -> (r: Option<PeerId>)
        ensures
            r == (if self@.pending_value_requests.contains_key(height.0) {
                Some(self@.pending_value_requests[height.0])
            } else {
                None
            }),
    {
        broadcast use vstd::laws_cmp::group_laws_cmp;
        broadcast use vstd::std_specs::btree::group_btree_axioms;

        match self.pending_decided_value_requests.get(&height.0) {
            Some(p) => Some(*p),
            None => None,
        }
    }

    /// Notes that a value request for `height` went to `peer`.
    pub fn store_pending_decided_value_request(&mut self, height: Height, peer: PeerId)
        ensures
            final(self)@ == (StateView {
                pending_value_requests: old(self)@.pending_value_requests.insert(height.0, peer),
                ..old(self)@
            }),
    {
        broadcast use vstd::laws_cmp::group_laws_cmp;
        broadcast use vstd::std_specs::btree::group_btree_axioms;

        self.pending_decided_value_requests.insert(height.0, peer);
    }

    /// Forgets the value request for `height`, if one is in flight.
    pub fn remove_pending_decided_value_request(&mut self, height: Height)
        ensures
            final(self)@ == (StateView {
                pending_value_requests: old(self)@.pending_value_requests.remove(height.0),
                ..old(self)@
            }),
    {
        broadcast use vstd::laws_cmp::group_laws_cmp;
        broadcast use vstd::std_specs::btree::group_btree_axioms;

        self.pending_decided_value_requests.remove(&height.0);
    }

    /// Whether a vote-set request for `height` and `round` is in flight.
    pub fn has_pending_vote_set_request(&self, height: Height, round: Round) -> (b: bool)
        ensures
            b == self@.pending_vote_set_requests.contains_key(vote_set_key(height, round)),
    {
        broadcast use vstd::laws_cmp::group_laws_cmp;
        broadcast use vstd::std_specs::btree::group_btree_axioms;

        let key = (height.0, round.as_i64());
        self.pending_vote_set_requests.contains_key(&key)
    }

    /// The peer that the vote-set request for `height` and `round` went to,
    /// if one is in flight.
    pub fn pending_vote_set_request(&self, height: Height, round: Round) -> (r: Option<PeerId>)
        ensures
            r == (if self@.pending_vote_set_requests.contains_key(vote_set_key(height, round)) {
                Some(self@.pending_vote_set_requests[vote_set_key(height, round)])
            } else {
                None
            }),
    {
        broadcast use vstd::laws_cmp::group_laws_cmp;
        broadcast use vstd::std_specs::btree::group_btree_axioms;

        let key = (height.0, round.as_i64());
        match self.pending_vote_set_requests.get(&key) {
            Some(p) => Some(*p),
            None => None,
        }
    }

    /// Notes that a vote-set request for `height` and `round` went to `peer`.
    pub fn store_pending_vote_set_request(&mut self, height: Height, round: Round, peer: PeerId)
        ensures
            final(self)@ == (StateView {
                pending_vote_set_requests: old(self)@.pending_vote_set_requests.insert(
                    vote_set_key(height, round),
                    peer,
                ),
                ..old(self)@
            }),
    {
        broadcast use vstd::laws_cmp::group_laws_cmp;
        broadcast use vstd::std_specs::btree::group_btree_axioms;

        self.pending_vote_set_requests.insert((height.0, round.as_i64()), peer);
    }

    /// Forgets the vote-set request for `height` and `round`, if one is in flight.
    pub fn remove_pending_vote_set_request(&mut self, height: Height, round: Round)
        ensures
            final(self)@ == (StateView {
                pending_vote_set_requests: old(self)@.pending_vote_set_requests.remove(
                    vote_set_key(height, round),
                ),
                ..old(self)@
            }),
    {
        broadcast use vstd::laws_cmp::group_laws_cmp;
        broadcast use vstd::std_specs::btree::group_btree_axioms;

        let key = (height.0, round.as_i64());
        self.pending_vote_set_requests.remove(&key);
    }
}

} // verus!
