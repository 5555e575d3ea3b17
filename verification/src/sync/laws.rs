//! What holds of every transition of the engine, and of every run.

use crate::core_types::lemma_round_number_injective;
use crate::core_types::Height;
use crate::core_types::Round;
use crate::peer::PeerId;
use crate::sync::handle::certificate_rejected;
use crate::sync::handle::request_timed_out;
use crate::sync::handle::step;
use crate::sync::handle::value_requested;
use crate::sync::handle::Effect;
use crate::sync::handle::Input;
use crate::sync::messages::CertificateError;
use crate::sync::messages::CommitCertificate;
use crate::sync::messages::Request;
use crate::sync::messages::ValueRequest;
use crate::sync::messages::VoteSetRequest;
use crate::sync::peers::peers_with_value;
use crate::sync::state::vote_set_key;
use crate::sync::state::StateView;
use vstd::prelude::*;

verus! {

/// A run of the engine: each input takes a state to the next one and yields
/// its effects.
pub open spec fn is_run(states: Seq<StateView>, inputs: Seq<Input>, effects: Seq<Seq<Effect>>) -> bool {
    &&& states.len() == inputs.len() + 1
    &&& effects.len() == inputs.len()
    &&& forall|i: int|
        0 <= i < inputs.len() ==> step(
            #[trigger] states[i],
            inputs[i],
            states[i + 1],
            effects[i],
        )
}

/// No input lowers the tip.
pub proof fn law_tip_height_monotone(
    pre: StateView,
    input: Input,
    post: StateView,
    effects: Seq<Effect>,
)
    requires
        step(pre, input, post, effects),
    ensures
        pre.tip_height.0 <= post.tip_height.0,
{
}

/// Along a run the tip never goes down.
pub proof fn law_tip_height_monotone_along_run(
    states: Seq<StateView>,
    inputs: Seq<Input>,
    effects: Seq<Seq<Effect>>,
    i: int,
    j: int,
)
    requires
        is_run(states, inputs, effects),
        0 <= i <= j < states.len(),
    ensures
        states[i].tip_height.0 <= states[j].tip_height.0,
    decreases j - i,
{
    if i < j {
        law_tip_height_monotone_along_run(states, inputs, effects, i, j - 1);
        assert(step(states[j - 1], inputs[j - 1], states[j - 1 + 1], effects[j - 1]));
        law_tip_height_monotone(states[j - 1], inputs[j - 1], states[j], effects[j - 1]);
    }
}

/// An input yields at most one effect.
pub proof fn law_at_most_one_effect(
    pre: StateView,
    input: Input,
    post: StateView,
    effects: Seq<Effect>,
)
    requires
        step(pre, input, post, effects),
    ensures
        effects.len() <= 1,
{
}

/// A value request is sent only for a height that has none pending, and is
/// then the one pending for that height. The one exception is the retry after
/// a rejected certificate, which first drops the request for that height.
pub proof fn law_one_pending_value_request(
    pre: StateView,
    input: Input,
    post: StateView,
    effects: Seq<Effect>,
    peer: PeerId,
    height: Height,
)
    requires
        step(pre, input, post, effects),
        effects.len() > 0,
        effects[0] == Effect::SendValueRequest(
            peer,
            ValueRequest { height },
        ),
    ensures
        post.pending_value_requests.contains_key(height.0),
        post.pending_value_requests[height.0] == peer,
        post.peers.contains_key(peer) && post.peers[peer].spec_has_value(height),
        pre.pending_value_requests.contains_key(height.0) ==> (input matches Input::InvalidCertificate(
            _,
            certificate,
            _,
        ) && certificate.height == height),
{
}

/// A vote-set request is sent only for a height and round that have none
/// pending, and is then the one pending for them.
pub proof fn law_one_pending_vote_set_request(
    pre: StateView,
    input: Input,
    post: StateView,
    effects: Seq<Effect>,
    peer: PeerId,
    request: VoteSetRequest,
)
    requires
        step(pre, input, post, effects),
        effects.len() > 0,
        effects[0] == Effect::SendVoteSetRequest(peer, request),
    ensures
        !pre.pending_vote_set_requests.contains_key(vote_set_key(request.height, request.round)),
        post.pending_vote_set_requests.contains_key(vote_set_key(request.height, request.round)),
        post.pending_vote_set_requests[vote_set_key(request.height, request.round)] == peer,
        post.peers.contains_key(peer) && post.peers[peer].spec_has_value(request.height),
{
}

/// Requests in flight for other heights, and for other heights and rounds,
/// are left alone by an input that sends a request.
pub proof fn law_requests_in_flight_kept(
    pre: StateView,
    input: Input,
    post: StateView,
    effects: Seq<Effect>,
    height: u64,
)
    requires
        step(pre, input, post, effects),
        effects.len() > 0,
        pre.pending_value_requests.contains_key(height),
        !(input matches Input::InvalidCertificate(_, certificate, _) && certificate.height.0
            == height),
    ensures
        post.pending_value_requests.contains_key(height),
        post.pending_value_requests[height] == pre.pending_value_requests[height],
{
}

/// After a rejected certificate, a value request that follows at once is
/// for the height of that certificate and goes to another peer than the one
/// that sent it.
pub proof fn law_retry_avoids_rejected_peer(
    pre: StateView,
    from: PeerId,
    certificate: CommitCertificate,
    error: CertificateError,
    post: StateView,
    effects: Seq<Effect>,
    peer: PeerId,
    request: ValueRequest,
)
    requires
        step(pre, Input::InvalidCertificate(from, certificate, error), post, effects),
        effects.len() > 0,
        effects[0] == Effect::SendValueRequest(peer, request),
    ensures
        request.height == certificate.height,
        peer != from,
        effects.len() == 1,
{
}

/// A rejected certificate always clears the pending request of its height
/// before anything else: afterwards the height has no pending request, or
/// one to another peer than the one that sent the certificate.
pub proof fn law_rejected_certificate_clears_request(
    pre: StateView,
    from: PeerId,
    height: Height,
    post: StateView,
    effects: Seq<Effect>,
)
    requires
        certificate_rejected(pre, from, height, post, effects),
    ensures
        post.pending_value_requests.contains_key(height.0)
            ==> post.pending_value_requests[height.0] != from,
{
}

/// With no peer at or above the height being synchronised, requesting the
/// value yields no effect and changes nothing.
pub proof fn law_no_peer_no_request(pre: StateView, post: StateView, effects: Seq<Effect>)
    requires
        value_requested(pre, post, effects),
        forall|p: PeerId| #[trigger]
            pre.peers.contains_key(p) ==> pre.peers[p].height.0 < pre.sync_height.0,
    ensures
        effects == Seq::<Effect>::empty(),
        post == pre,
{
    let candidates = peers_with_value(pre.peers, pre.sync_height, None);
    assert(candidates =~= Set::<PeerId>::empty());
}

/// The height being synchronised stays at or above the tip as long as
/// consensus starts no height below the tip and decides none above the one it
/// started.
pub proof fn law_sync_height_not_below_tip(
    pre: StateView,
    input: Input,
    post: StateView,
    effects: Seq<Effect>,
)
    requires
        step(pre, input, post, effects),
        pre.tip_height.0 <= pre.sync_height.0,
        input matches Input::StartHeight(h) ==> pre.tip_height.0 <= h.0,
        input matches Input::UpdateHeight(h) ==> h.0 <= pre.sync_height.0,
    ensures
        post.tip_height.0 <= post.sync_height.0,
{
}

/// Along a run in which consensus starts no height below the tip and
/// decides none above the one it started, the height being synchronised is
/// never below the tip.
pub proof fn law_sync_height_not_below_tip_along_run(
    states: Seq<StateView>,
    inputs: Seq<Input>,
    effects: Seq<Seq<Effect>>,
    j: int,
)
    requires
        is_run(states, inputs, effects),
        0 <= j < states.len(),
        states[0].tip_height.0 <= states[0].sync_height.0,
        forall|i: int|
            0 <= i < inputs.len() ==> (#[trigger] inputs[i] matches Input::StartHeight(h)
                ==> states[i].tip_height.0 <= h.0),
        forall|i: int|
            0 <= i < inputs.len() ==> (#[trigger] inputs[i] matches Input::UpdateHeight(h) ==> h.0
                <= states[i].sync_height.0),
    ensures
        states[j].tip_height.0 <= states[j].sync_height.0,
    decreases j,
{
    if j > 0 {
        law_sync_height_not_below_tip_along_run(states, inputs, effects, j - 1);
        assert(step(states[j - 1], inputs[j - 1], states[j - 1 + 1], effects[j - 1]));
        law_sync_height_not_below_tip(states[j - 1], inputs[j - 1], states[j], effects[j - 1]);
    }
}

/// Dropping a pending request is idempotent: a second time-out of the same
/// request changes nothing.
pub proof fn law_time_out_idempotent(
    pre: StateView,
    request: Request,
    mid: StateView,
    post: StateView,
    first: Seq<Effect>,
    second: Seq<Effect>,
)
    requires
        request_timed_out(pre, request, mid, first),
        request_timed_out(mid, request, post, second),
    ensures
        post == mid,
{
    match request {
        Request::ValueRequest(r) => {
            assert(mid.pending_value_requests.remove(r.height.0)
                =~= mid.pending_value_requests);
        },
        Request::VoteSetRequest(r) => {
            assert(mid.pending_vote_set_requests.remove(vote_set_key(r.height, r.round))
                =~= mid.pending_vote_set_requests);
        },
    }
}

/// Vote-set requests for different heights or rounds are noted under
/// different keys.
pub proof fn law_vote_set_keys_distinct(h1: Height, r1: Round, h2: Height, r2: Round)
    requires
        vote_set_key(h1, r1) == vote_set_key(h2, r2),
    ensures
        h1 == h2,
        r1 == r2,
{
    lemma_round_number_injective(r1, r2);
}

/// Every status is filed under the peer that it names, before and after
/// every input.
pub proof fn law_statuses_filed_under_their_peer(
    pre: StateView,
    input: Input,
    post: StateView,
    effects: Seq<Effect>,
)
    requires
        step(pre, input, post, effects),
        forall|p: PeerId| #[trigger] pre.peers.contains_key(p) ==> pre.peers[p].peer_id == p,
    ensures
        forall|p: PeerId| #[trigger] post.peers.contains_key(p) ==> post.peers[p].peer_id == p,
{
}

/// Only a status changes what is known of the peers.
pub proof fn law_peers_change_on_status_only(
    pre: StateView,
    input: Input,
    post: StateView,
    effects: Seq<Effect>,
)
    requires
        step(pre, input, post, effects),
        !(input is Status),
    ensures
        post.peers == pre.peers,
{
}

} // verus!
