//! The handler of the synchronisation engine: each input changes the state
//! and yields the effects that the host has to carry out, in order.
//!
//! Every transition is stated as a relation between the state before, the
//! input, the state after and the effects. Where a peer is picked at random
//! the relation admits every peer that qualifies.

use crate::core_types::Height;
use crate::core_types::Round;
use crate::peer::PeerId;
use crate::sync::messages::CertificateError;
use crate::sync::messages::CommitCertificate;
use crate::sync::messages::InboundRequestId;
use crate::sync::messages::OutboundRequestId;
use crate::sync::messages::RawDecidedValue;
use crate::sync::messages::Request;
use crate::sync::messages::Status;
use crate::sync::messages::ValueRequest;
use crate::sync::messages::ValueResponse;
use crate::sync::messages::VoteSetRequest;
use crate::sync::messages::VoteSetResponse;
use crate::sync::peers::peers_with_value;
use crate::sync::state::vote_set_key;
use crate::sync::state::State;
use crate::sync::state::StateView;
use vstd::prelude::*;

verus! {

/// What the host answers once it has carried out an effect.
#[derive(Clone, Copy, Debug, PartialEq, Eq, Structural)]
pub enum Resume {
    /// The effect was carried out; the handler goes on.
    Continue,
}

impl Default for Resume {
    fn default() -> (r: Resume)
        ensures
            r == Resume::Continue,
    {
        Resume::Continue
    }
}

/// Failure of the handler itself, as opposed to a failure of a peer.
#[derive(Debug)]
pub enum HandleError {
    /// The host answered an effect with a value of the wrong kind; the
    /// second field names the kinds that were expected.
    UnexpectedResume(Resume, &'static str),
}

/// An action that the engine asks its host to carry out.
#[derive(Debug, PartialEq, Eq)]
pub enum Effect {
    /// Broadcast our status to our direct peers.
    BroadcastStatus(Height),
    /// Send a request for a decided value to a peer.
    SendValueRequest(PeerId, ValueRequest),
    /// Answer a peer's request for a decided value.
    SendValueResponse(InboundRequestId, ValueResponse),
    /// Fetch a decided value from the application.
    GetValue(InboundRequestId, Height),
    /// Send a request for a vote set to a peer.
    SendVoteSetRequest(PeerId, VoteSetRequest),
}

/// An event delivered to the engine.
#[derive(Debug)]
pub enum Input {
    /// A tick has occurred.
    Tick,
    /// A peer advertised its status.
    Status(Status),
    /// Consensus started a height.
    StartHeight(Height),
    /// Consensus decided a height.
    UpdateHeight(Height),
    /// A peer asks for a decided value.
    ValueRequest(InboundRequestId, PeerId, ValueRequest),
    /// A peer answered our request for a decided value.
    ValueResponse(OutboundRequestId, PeerId, ValueResponse),
    /// The application answered our `GetValue`.
    GotDecidedValue(InboundRequestId, Height, Option<RawDecidedValue>),
    /// A request to a peer timed out.
    SyncRequestTimedOut(PeerId, Request),
    /// Consensus rejected the certificate of a value that a peer sent.
    InvalidCertificate(PeerId, CommitCertificate, CertificateError),
    /// Consensus needs the votes of a height and round.
    GetVoteSet(Height, Round),
    /// A peer asks for a vote set.
    VoteSetRequest(InboundRequestId, PeerId, VoteSetRequest),
    /// Consensus answered a peer's request for a vote set.
    GotVoteSet(InboundRequestId, Height, Round),
    /// A peer answered our request for a vote set.
    VoteSetResponse(OutboundRequestId, PeerId, VoteSetResponse),
}

/// Nothing changes and nothing is asked of the host.
pub open spec fn unchanged(pre: StateView, post: StateView, effects: Seq<Effect>) -> bool {
    post == pre && effects == Seq::<Effect>::empty()
}

/// A value request for `height` goes to one of the peers that hold it, but
/// for `except`, and is noted as pending; with no such peer nothing happens.
pub open spec fn value_request_sent(
    pre: StateView,
    height: Height,
    except: Option<PeerId>,
    post: StateView,
    effects: Seq<Effect>,
) -> bool {
    let candidates = peers_with_value(pre.peers, height, except);
    if candidates == Set::<PeerId>::empty() {
        unchanged(pre, post, effects)
    } else {
        exists|p: PeerId|
            {
                &&& candidates.contains(p)
                &&& effects == seq![Effect::SendValueRequest(p, ValueRequest { height })]
                &&& post == (StateView {
                    pending_value_requests: pre.pending_value_requests.insert(height.0, p),
                    ..pre
                })
            }
    }
}

/// A vote-set request for `height` and `round` goes to one of the peers that
/// hold the height and is noted as pending; with no such peer nothing happens.
pub open spec fn vote_set_request_sent(
    pre: StateView,
    height: Height,
    round: Round,
    post: StateView,
    effects: Seq<Effect>,
) -> bool {
    let candidates = peers_with_value(pre.peers, height, None);
    if candidates == Set::<PeerId>::empty() {
        unchanged(pre, post, effects)
    } else {
        exists|p: PeerId|
            {
                &&& candidates.contains(p)
                &&& effects == seq![Effect::SendVoteSetRequest(p, VoteSetRequest { height, round })]
                &&& post == (StateView {
                    pending_vote_set_requests: pre.pending_vote_set_requests.insert(
                        vote_set_key(height, round),
                        p,
                    ),
                    ..pre
                })
            }
    }
}

/// The value at the height being synchronised is requested, unless a request
/// for it is pending already.
pub open spec fn value_requested(pre: StateView, post: StateView, effects: Seq<Effect>) -> bool {
    if pre.pending_value_requests.contains_key(pre.sync_height.0) {
        unchanged(pre, post, effects)
    } else {
        value_request_sent(pre, pre.sync_height, None, post, effects)
    }
}

/// Transition on `Tick`: our tip is broadcast.
pub open spec fn ticked(pre: StateView, post: StateView, effects: Seq<Effect>) -> bool {
    post == pre && effects == seq![Effect::BroadcastStatus(pre.tip_height)]
}

/// Transition on `Status`: the status replaces the peer's earlier one, and
/// a peer ahead of our tip makes us request the value we are missing.
pub open spec fn status_received(
    pre: StateView,
    status: Status,
    post: StateView,
    effects: Seq<Effect>,
) -> bool {
    let noted = StateView { peers: pre.peers.insert(status.peer_id, status), ..pre };
    if status.height.0 > pre.tip_height.0 {
        value_requested(noted, post, effects)
    } else {
        unchanged(noted, post, effects)
    }
}

/// Transition on `StartHeight`: the height becomes the one to synchronise,
/// and its value is requested.
pub open spec fn height_started(
    pre: StateView,
    height: Height,
    post: StateView,
    effects: Seq<Effect>,
) -> bool {
    value_requested(StateView { sync_height: height, ..pre }, post, effects)
}

/// Transition on `UpdateHeight`: a height above the tip becomes the tip and
/// its pending value request is dropped; any other height is ignored.
pub open spec fn height_updated(
    pre: StateView,
    height: Height,
    post: StateView,
    effects: Seq<Effect>,
) -> bool {
    if pre.tip_height.0 < height.0 {
        unchanged(
            StateView {
                tip_height: height,
                pending_value_requests: pre.pending_value_requests.remove(height.0),
                ..pre
            },
            post,
            effects,
        )
    } else {
        unchanged(pre, post, effects)
    }
}

/// Transition on `ValueRequest`: the application is asked for the value.
pub open spec fn value_request_received(
    pre: StateView,
    request_id: InboundRequestId,
    request: ValueRequest,
    post: StateView,
    effects: Seq<Effect>,
) -> bool {
    post == pre && effects == seq![Effect::GetValue(request_id, request.height)]
}

/// The value to answer a request for `height` with: the one that the
/// application gave, if its certificate is for that height.
pub open spec fn value_for_height(height: Height, value: Option<RawDecidedValue>) -> Option<
    RawDecidedValue,
> {
    match value {
        Some(v) => if v.certificate.height == height {
            Some(v)
        } else {
            None
        },
        None => None,
    }
}

/// Transition on `GotDecidedValue`: the peer is answered, with the value
/// only where it is for the height that was asked.
pub open spec fn value_answered(
    pre: StateView,
    request_id: InboundRequestId,
    height: Height,
    value: Option<RawDecidedValue>,
    post: StateView,
    effects: Seq<Effect>,
) -> bool {
    post == pre && effects == seq![
        Effect::SendValueResponse(
            request_id,
            ValueResponse { height, value: value_for_height(height, value) },
        ),
    ]
}

/// Transition on `SyncRequestTimedOut`: the pending request is dropped.
pub open spec fn request_timed_out(
    pre: StateView,
    request: Request,
    post: StateView,
    effects: Seq<Effect>,
) -> bool {
    match request {
        Request::ValueRequest(r) => unchanged(
            StateView {
                pending_value_requests: pre.pending_value_requests.remove(r.height.0),
                ..pre
            },
            post,
            effects,
        ),
        Request::VoteSetRequest(r) => unchanged(
            StateView {
                pending_vote_set_requests: pre.pending_vote_set_requests.remove(
                    vote_set_key(r.height, r.round),
                ),
                ..pre
            },
            post,
            effects,
        ),
    }
}

/// Transition on `InvalidCertificate`: the pending request for the height
/// of the certificate is dropped and the value is requested from a peer other
/// than the one that sent it.
pub open spec fn certificate_rejected(
    pre: StateView,
    from: PeerId,
    height: Height,
    post: StateView,
    effects: Seq<Effect>,
) -> bool {
    value_request_sent(
        StateView { pending_value_requests: pre.pending_value_requests.remove(height.0), ..pre },
        height,
        Some(from),
        post,
        effects,
    )
}

/// Transition on `GetVoteSet`: the votes are requested, unless a request
/// for them is pending already.
pub open spec fn vote_set_wanted(
    pre: StateView,
    height: Height,
    round: Round,
    post: StateView,
    effects: Seq<Effect>,
) -> bool {
    if pre.pending_vote_set_requests.contains_key(vote_set_key(height, round)) {
        unchanged(pre, post, effects)
    } else {
        vote_set_request_sent(pre, height, round, post, effects)
    }
}

/// Transition on `VoteSetResponse`: the pending request is dropped.
pub open spec fn vote_set_received(
    pre: StateView,
    height: Height,
    round: Round,
    post: StateView,
    effects: Seq<Effect>,
) -> bool {
    unchanged(
        StateView {
            pending_vote_set_requests: pre.pending_vote_set_requests.remove(
                vote_set_key(height, round),
            ),
            ..pre
        },
        post,
        effects,
    )
}

/// The transition relation of the engine: `input` may take the state from
/// `pre` to `post` while yielding `effects`.
pub open spec fn step(pre: StateView, input: Input, post: StateView, effects: Seq<Effect>) -> bool {
    match input {
        Input::Tick => ticked(pre, post, effects),
        Input::Status(status) => status_received(pre, status, post, effects),
        Input::StartHeight(height) => height_started(pre, height, post, effects),
        Input::UpdateHeight(height) => height_updated(pre, height, post, effects),
        Input::ValueRequest(request_id, _, request) => value_request_received(
            pre,
            request_id,
            request,
            post,
            effects,
        ),
        Input::ValueResponse(_, _, _) => unchanged(pre, post, effects),
        Input::GotDecidedValue(request_id, height, value) => value_answered(
            pre,
            request_id,
            height,
            value,
            post,
            effects,
        ),
        Input::SyncRequestTimedOut(_, request) => request_timed_out(pre, request, post, effects),
        Input::InvalidCertificate(from, certificate, _) => certificate_rejected(
            pre,
            from,
            certificate.height,
            post,
            effects,
        ),
        Input::GetVoteSet(height, round) => vote_set_wanted(pre, height, round, post, effects),
        Input::VoteSetRequest(_, _, _) => unchanged(pre, post, effects),
        Input::GotVoteSet(_, _, _) => unchanged(pre, post, effects),
        Input::VoteSetResponse(_, _, response) => vote_set_received(
            pre,
            response.height,
            response.round,
            post,
            effects,
        ),
    }
}

/// Handles one input: changes the state and returns the effects for the
/// host to carry out in order. It never fails.
pub fn handle(state: &mut State, input: Input) -> (r: Result<Vec<Effect>, HandleError>)
    ensures
        r matches Ok(effects) && step(old(state)@, input, final(state)@, effects@),
{
    match input {
        Input::Tick => on_tick(state),
        Input::Status(status) => on_status(state, status),
        Input::StartHeight(height) => on_start_height(state, height),
        Input::UpdateHeight(height) => on_update_height(state, height),
        Input::ValueRequest(request_id, peer_id, request) => on_value_request(
            state,
            request_id,
            peer_id,
            request,
        ),
        Input::ValueResponse(request_id, peer_id, response) => on_value_response(
            state,
            request_id,
            peer_id,
            response,
        ),
        Input::GotDecidedValue(request_id, height, value) => on_value(
            state,
            request_id,
            height,
            value,
        ),
        Input::SyncRequestTimedOut(peer_id, request) => on_sync_request_timed_out(
            state,
            peer_id,
            request,
        ),
        Input::InvalidCertificate(peer, certificate, error) => on_invalid_certificate(
            state,
            peer,
            certificate,
            error,
        ),
        Input::GetVoteSet(height, round) => on_get_vote_set(state, height, round),
        Input::VoteSetRequest(request_id, peer_id, request) => on_vote_set_request(
            state,
            request_id,
            peer_id,
            request,
        ),
        Input::VoteSetResponse(request_id, peer_id, response) => on_vote_set_response(
            state,
            request_id,
            peer_id,
            response,
        ),
        Input::GotVoteSet(request_id, height, round) => on_vote_set_response_sent(
            state,
            request_id,
            height,
            round,
        ),
    }
}

pub fn on_tick(state: &mut State) -> (r: Result<Vec<Effect>, HandleError>)
    ensures
        r matches Ok(effects) && ticked(old(state)@, final(state)@, effects@),
{
    let mut effects: Vec<Effect> = Vec::new();
    effects.push(Effect::BroadcastStatus(state.tip_height()));
    assert(effects@ =~= seq![Effect::BroadcastStatus(state@.tip_height)]);
    Ok(effects)
}

pub fn on_status(state: &mut State, status: Status) -> (r: Result<Vec<Effect>, HandleError>)
    ensures
        r matches Ok(effects) && status_received(old(state)@, status, final(state)@, effects@),
{
    let peer_height = status.height;
    state.update_status(status);
    if peer_height.0 > state.tip_height().0 {
        // We are lagging behind one of our peers at least: request the value
        // from any peer that holds it.
        request_value(state)
    } else {
        Ok(Vec::new())
    }
}

pub fn on_value_request(
    state: &mut State,
    request_id: InboundRequestId,
    peer: PeerId,
    request: ValueRequest,
) -> (r: Result<Vec<Effect>, HandleError>)
    ensures
        r matches Ok(effects) && value_request_received(
            old(state)@,
            request_id,
            request,
            final(state)@,
            effects@,
        ),
{
    let mut effects: Vec<Effect> = Vec::new();
    effects.push(Effect::GetValue(request_id, request.height));
    assert(effects@ =~= seq![Effect::GetValue(request_id, request.height)]);
    Ok(effects)
}

pub fn on_value_response(
    state: &mut State,
    request_id: OutboundRequestId,
    peer: PeerId,
    response: ValueResponse,
) -> (r: Result<Vec<Effect>, HandleError>)
    ensures
        r matches Ok(effects) && unchanged(old(state)@, final(state)@, effects@),
{
    Ok(Vec::new())
}

pub fn on_start_height(state: &mut State, height: Height) -> (r: Result<Vec<Effect>, HandleError>)
    ensures
        r matches Ok(effects) && height_started(old(state)@, height, final(state)@, effects@),
{
    state.set_sync_height(height);
    // Check if there is any peer that holds the height we just started, and
    // request the value from that peer in order to catch up.
    request_value(state)
}

pub fn on_update_height(state: &mut State, height: Height) -> (r: Result<Vec<Effect>, HandleError>)
    ensures
        r matches Ok(effects) && height_updated(old(state)@, height, final(state)@, effects@),
{
    if state.tip_height().0 < height.0 {
        state.set_tip_height(height);
        state.remove_pending_decided_value_request(height);
    }
    Ok(Vec::new())
}

pub fn on_value(
    state: &mut State,
    request_id: InboundRequestId,
    height: Height,
    value: Option<RawDecidedValue>,
) -> (r: Result<Vec<Effect>, HandleError>)
    ensures
        r matches Ok(effects) && value_answered(
            old(state)@,
            request_id,
            height,
            value,
            final(state)@,
            effects@,
        ),
{
    let response = match value {
        None => None,
        Some(value) => if value.certificate.height.0 != height.0 {
            None
        } else {
            Some(value)
        },
    };
    let mut effects: Vec<Effect> = Vec::new();
    effects.push(Effect::SendValueResponse(request_id, ValueResponse::new(height, response)));
    assert(effects@ =~= seq![
        Effect::SendValueResponse(
            request_id,
            ValueResponse { height, value: value_for_height(height, value) },
        ),
    ]);
    Ok(effects)
}

pub fn on_sync_request_timed_out(state: &mut State, peer_id: PeerId, request: Request) -> (r:
    Result<Vec<Effect>, HandleError>)
    ensures
        r matches Ok(effects) && request_timed_out(old(state)@, request, final(state)@, effects@),
{
    match request {
        Request::ValueRequest(value_request) => {
            state.remove_pending_decided_value_request(value_request.height);
        },
        Request::VoteSetRequest(vote_set_request) => {
            state.remove_pending_vote_set_request(vote_set_request.height, vote_set_request.round);
        },
    };
    Ok(Vec::new())
}

/// If no value request is pending for the height being synchronised, and a
/// peer holds that height, requests the value from such a peer.
pub fn request_value(state: &mut State) -> (r: Result<Vec<Effect>, HandleError>)
    ensures
        r matches Ok(effects) && value_requested(old(state)@, final(state)@, effects@),
{
    let sync_height = state.sync_height();
    if state.has_pending_decided_value_request(&sync_height) {
        return Ok(Vec::new());
    }
    match state.random_peer_with_value(sync_height) {
        Some(peer) => request_value_from_peer(state, sync_height, peer),
        None => Ok(Vec::new()),
    }
}

/// Sends a value request for `height` to `peer` and notes it as pending.
pub fn request_value_from_peer(state: &mut State, height: Height, peer: PeerId) -> (r: Result<
    Vec<Effect>,
    HandleError,
>)
    ensures
        r matches Ok(effects) && effects@ == seq![
            Effect::SendValueRequest(peer, ValueRequest { height }),
        ] && final(state)@ == (StateView {
            pending_value_requests: old(state)@.pending_value_requests.insert(height.0, peer),
            ..old(state)@
        }),
{
    let mut effects: Vec<Effect> = Vec::new();
    effects.push(Effect::SendValueRequest(peer, ValueRequest::new(height)));
    state.store_pending_decided_value_request(height, peer);
    assert(effects@ =~= seq![Effect::SendValueRequest(peer, ValueRequest { height })]);
    Ok(effects)
}

pub fn on_invalid_certificate(
    state: &mut State,
    from: PeerId,
    certificate: CommitCertificate,
    error: CertificateError,
) -> (r: Result<Vec<Effect>, HandleError>)
    ensures
        r matches Ok(effects) && certificate_rejected(
            old(state)@,
            from,
            certificate.height,
            final(state)@,
            effects@,
        ),
{
    state.remove_pending_decided_value_request(certificate.height);
    match state.random_peer_with_value_except(certificate.height, from) {
        Some(peer) => request_value_from_peer(state, certificate.height, peer),
        None => Ok(Vec::new()),
    }
}

pub fn on_get_vote_set(state: &mut State, height: Height, round: Round) -> (r: Result<
    Vec<Effect>,
    HandleError,
>)
    ensures
        r matches Ok(effects) && vote_set_wanted(
            old(state)@,
            height,
            round,
            final(state)@,
            effects@,
        ),
{
    if state.has_pending_vote_set_request(height, round) {
        return Ok(Vec::new());
    }
    match state.random_peer_for_votes(height, round) {
        Some(peer) => request_vote_set_from_peer(state, height, round, peer),
        None => Ok(Vec::new()),
    }
}

/// Sends a vote-set request for `height` and `round` to `peer` and notes it
/// as pending.
pub fn request_vote_set_from_peer(
    state: &mut State,
    height: Height,
    round: Round,
    peer: PeerId,
) -> (r: Result<Vec<Effect>, HandleError>)
    ensures
        r matches Ok(effects) && effects@ == seq![
            Effect::SendVoteSetRequest(peer, VoteSetRequest { height, round }),
        ] && final(state)@ == (StateView {
            pending_vote_set_requests: old(state)@.pending_vote_set_requests.insert(
                vote_set_key(height, round),
                peer,
            ),
            ..old(state)@
        }),
{
    let mut effects: Vec<Effect> = Vec::new();
    effects.push(Effect::SendVoteSetRequest(peer, VoteSetRequest::new(height, round)));
    state.store_pending_vote_set_request(height, round, peer);
    assert(effects@ =~= seq![Effect::SendVoteSetRequest(peer, VoteSetRequest { height, round })]);
    Ok(effects)
}

pub fn on_vote_set_request(
    state: &mut State,
    request_id: InboundRequestId,
    peer: PeerId,
    request: VoteSetRequest,
) -> (r: Result<Vec<Effect>, HandleError>)
    ensures
        r matches Ok(effects) && unchanged(old(state)@, final(state)@, effects@),
{
    Ok(Vec::new())
}

pub fn on_vote_set_response_sent(
    state: &mut State,
    request_id: InboundRequestId,
    height: Height,
    round: Round,
) -> (r: Result<Vec<Effect>, HandleError>)
    ensures
        r matches Ok(effects) && unchanged(old(state)@, final(state)@, effects@),
{
    Ok(Vec::new())
}

pub fn on_vote_set_response(
    state: &mut State,
    request_id: OutboundRequestId,
    peer: PeerId,
    response: VoteSetResponse,
) -> (r: Result<Vec<Effect>, HandleError>)
    ensures
        r matches Ok(effects) && vote_set_received(
            old(state)@,
            response.height,
            response.round,
            final(state)@,
            effects@,
        ),
{
    state.remove_pending_vote_set_request(response.height, response.round);
    Ok(Vec::new())
}

} // verus!
