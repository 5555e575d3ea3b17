use bft_sync::core_types::Height;
use bft_sync::core_types::Round;
use bft_sync::core_types::ValueId;
use bft_sync::peer::PeerId;
use bft_sync::sync::handle::handle;
use bft_sync::sync::handle::on_get_vote_set;
use bft_sync::sync::handle::on_invalid_certificate;
use bft_sync::sync::handle::on_start_height;
use bft_sync::sync::handle::on_status;
use bft_sync::sync::handle::on_sync_request_timed_out;
use bft_sync::sync::handle::on_tick;
use bft_sync::sync::handle::on_update_height;
use bft_sync::sync::handle::on_value;
use bft_sync::sync::handle::on_value_request;
use bft_sync::sync::handle::on_value_response;
use bft_sync::sync::handle::on_vote_set_request;
use bft_sync::sync::handle::on_vote_set_response;
use bft_sync::sync::handle::on_vote_set_response_sent;
use bft_sync::sync::handle::request_value;
use bft_sync::sync::handle::request_value_from_peer;
use bft_sync::sync::handle::request_vote_set_from_peer;
use bft_sync::sync::handle::Effect;
use bft_sync::sync::handle::Input;
use bft_sync::sync::handle::Resume;
use bft_sync::sync::messages::CertificateError;
use bft_sync::sync::messages::CommitCertificate;
use bft_sync::sync::messages::InboundRequestId;
use bft_sync::sync::messages::OutboundRequestId;
use bft_sync::sync::messages::RawDecidedValue;
use bft_sync::sync::messages::Request;
use bft_sync::sync::messages::Status;
use bft_sync::sync::messages::ValueRequest;
use bft_sync::sync::messages::ValueResponse;
use bft_sync::sync::messages::VoteSetRequest;
use bft_sync::sync::messages::VoteSetResponse;
use bft_sync::sync::peers::PeerTable;
use bft_sync::sync::state::pick;
use bft_sync::sync::state::State;
use rand::rngs::StdRng;
use rand::SeedableRng;

fn peer(n: u8) -> PeerId {
    PeerId::from_bytes(&[0x00, 0x01, n]).unwrap()
}

fn state(tip: u64) -> State {
    State::new(StdRng::seed_from_u64(7), Height(tip))
}

fn status(n: u8, height: u64, earliest: u64) -> Status {
    Status::new(peer(n), Height(height), Height(earliest))
}

fn certificate(height: u64) -> CommitCertificate {
    CommitCertificate {
        height: Height(height),
        round: Round::Defined(0),
        value_id: ValueId(vec![1, 2, 3]),
        aggregated_signatures: vec![],
    }
}

fn decided_value(height: u64) -> RawDecidedValue {
    RawDecidedValue { certificate: certificate(height), value_bytes: vec![9, 9] }
}

/// The state after "simple catch-up": tip 5, peer 1 at 10, request for 5 pending at peer 1.
fn caught_up_state() -> State {
    let mut st = state(5);
    let effects = handle(&mut st, Input::Status(status(1, 10, 0))).unwrap();
    assert_eq!(effects, vec![Effect::SendValueRequest(peer(1), ValueRequest::new(Height(5)))]);
    st
}

#[test]
fn new_state_knows_nothing() {
    let st = state(5);
    assert_eq!(st.tip_height(), Height(5));
    assert_eq!(st.sync_height(), Height(5));
    assert_eq!(st.peer_status(peer(1)), None);
    assert!(!st.has_pending_decided_value_request(&Height(5)));
    assert!(!st.has_pending_vote_set_request(Height(5), Round::Nil));
}

#[test]
fn simple_catch_up() {
    let mut st = state(5);
    let effects = handle(&mut st, Input::Status(status(1, 10, 0))).unwrap();
    assert_eq!(effects, vec![Effect::SendValueRequest(peer(1), ValueRequest { height: Height(5) })]);
    assert_eq!(st.pending_decided_value_request(Height(5)), Some(peer(1)));
    assert!(st.has_pending_decided_value_request(&Height(5)));
    assert_eq!(st.peer_status(peer(1)), Some(status(1, 10, 0)));
    assert_eq!(st.tip_height(), Height(5));
    assert_eq!(st.sync_height(), Height(5));
}

#[test]
fn dedup() {
    let mut st = caught_up_state();
    let effects = handle(&mut st, Input::Status(status(2, 12, 0))).unwrap();
    assert_eq!(effects, vec![]);
    assert_eq!(st.pending_decided_value_request(Height(5)), Some(peer(1)));
    assert_eq!(st.peer_status(peer(2)), Some(status(2, 12, 0)));
}

#[test]
fn retry_on_bad_certificate() {
    let mut st = caught_up_state();
    assert_eq!(handle(&mut st, Input::Status(status(2, 12, 0))).unwrap(), vec![]);
    let effects = handle(
        &mut st,
        Input::InvalidCertificate(peer(1), certificate(5), CertificateError::SignatureInvalid),
    )
    .unwrap();
    assert_eq!(effects, vec![Effect::SendValueRequest(peer(2), ValueRequest { height: Height(5) })]);
    assert_eq!(st.pending_decided_value_request(Height(5)), Some(peer(2)));
}

#[test]
fn bad_certificate_with_no_other_peer_clears_the_request() {
    let mut st = caught_up_state();
    let effects = handle(
        &mut st,
        Input::InvalidCertificate(peer(1), certificate(5), CertificateError::SignatureInvalid),
    )
    .unwrap();
    assert_eq!(effects, vec![]);
    assert_eq!(st.pending_decided_value_request(Height(5)), None);
}

#[test]
fn retry_never_goes_back_to_the_rejected_peer() {
    for seed in 0..50u64 {
        let mut st = State::new(StdRng::seed_from_u64(seed), Height(5));
        for n in 1..=4u8 {
            st.update_status(status(n, 10, 0));
        }
        let effects = on_invalid_certificate(
            &mut st,
            peer(3),
            certificate(5),
            CertificateError::DuplicateVote(bft_sync::core_types::Address(vec![1])),
        )
        .unwrap();
        assert_eq!(effects.len(), 1);
        match &effects[0] {
            Effect::SendValueRequest(to, request) => {
                assert_ne!(*to, peer(3));
                assert_eq!(request.height, Height(5));
                assert_eq!(st.pending_decided_value_request(Height(5)), Some(*to));
            }
            other => panic!("unexpected effect: {:?}", other),
        }
    }
}

#[test]
fn timeout() {
    let mut st = caught_up_state();
    let effects = handle(
        &mut st,
        Input::SyncRequestTimedOut(peer(1), Request::ValueRequest(ValueRequest::new(Height(5)))),
    )
    .unwrap();
    assert_eq!(effects, vec![]);
    assert_eq!(st.pending_decided_value_request(Height(5)), None);
}

#[test]
fn timeout_twice_is_the_same_as_once() {
    let mut st = caught_up_state();
    let request = Request::ValueRequest(ValueRequest::new(Height(5)));
    assert_eq!(on_sync_request_timed_out(&mut st, peer(1), request).unwrap(), vec![]);
    assert_eq!(on_sync_request_timed_out(&mut st, peer(1), request).unwrap(), vec![]);
    assert_eq!(st.pending_decided_value_request(Height(5)), None);
    assert_eq!(st.peer_status(peer(1)), Some(status(1, 10, 0)));
}

#[test]
fn timeout_of_a_vote_set_request() {
    let mut st = state(5);
    st.update_status(status(1, 10, 0));
    let sent = on_get_vote_set(&mut st, Height(6), Round::Defined(2)).unwrap();
    assert_eq!(
        sent,
        vec![Effect::SendVoteSetRequest(peer(1), VoteSetRequest::new(Height(6), Round::Defined(2)))]
    );
    assert_eq!(st.pending_vote_set_request(Height(6), Round::Defined(2)), Some(peer(1)));
    let effects = handle(
        &mut st,
        Input::SyncRequestTimedOut(
            peer(1),
            Request::VoteSetRequest(VoteSetRequest::new(Height(6), Round::Defined(2))),
        ),
    )
    .unwrap();
    assert_eq!(effects, vec![]);
    assert_eq!(st.pending_vote_set_request(Height(6), Round::Defined(2)), None);
}

#[test]
fn retry_after_timeout_comes_with_the_next_status() {
    let mut st = caught_up_state();
    let request = Request::ValueRequest(ValueRequest::new(Height(5)));
    assert_eq!(on_sync_request_timed_out(&mut st, peer(1), request).unwrap(), vec![]);
    let effects = handle(&mut st, Input::Status(status(1, 11, 0))).unwrap();
    assert_eq!(effects, vec![Effect::SendValueRequest(peer(1), ValueRequest::new(Height(5)))]);
}

#[test]
fn tick_broadcasts() {
    let mut st = state(7);
    let effects = handle(&mut st, Input::Tick).unwrap();
    assert_eq!(effects, vec![Effect::BroadcastStatus(Height(7))]);
    assert_eq!(on_tick(&mut st).unwrap(), vec![Effect::BroadcastStatus(Height(7))]);
    assert_eq!(st.tip_height(), Height(7));
}

#[test]
fn tick_broadcasts_the_tip_not_the_sync_height() {
    let mut st = state(7);
    on_start_height(&mut st, Height(8)).unwrap();
    on_update_height(&mut st, Height(8)).unwrap();
    on_start_height(&mut st, Height(9)).unwrap();
    assert_eq!(on_tick(&mut st).unwrap(), vec![Effect::BroadcastStatus(Height(8))]);
}

#[test]
fn mismatch_response() {
    let mut st = state(5);
    let effects = handle(
        &mut st,
        Input::GotDecidedValue(InboundRequestId(42), Height(5), Some(decided_value(6))),
    )
    .unwrap();
    assert_eq!(
        effects,
        vec![Effect::SendValueResponse(
            InboundRequestId(42),
            ValueResponse { height: Height(5), value: None }
        )]
    );
}

#[test]
fn matching_response_carries_the_value() {
    let mut st = state(5);
    let effects = on_value(&mut st, InboundRequestId(42), Height(5), Some(decided_value(5))).unwrap();
    assert_eq!(
        effects,
        vec![Effect::SendValueResponse(
            InboundRequestId(42),
            ValueResponse::new(Height(5), Some(decided_value(5)))
        )]
    );
}

#[test]
fn empty_response_is_forwarded_as_none() {
    let mut st = state(5);
    let effects = on_value(&mut st, InboundRequestId(1), Height(5), None).unwrap();
    assert_eq!(
        effects,
        vec![Effect::SendValueResponse(InboundRequestId(1), ValueResponse::new(Height(5), None))]
    );
}

#[test]
fn value_request_asks_the_application() {
    let mut st = state(5);
    let effects = handle(
        &mut st,
        Input::ValueRequest(InboundRequestId(3), peer(1), ValueRequest::new(Height(4))),
    )
    .unwrap();
    assert_eq!(effects, vec![Effect::GetValue(InboundRequestId(3), Height(4))]);
    let again =
        on_value_request(&mut st, InboundRequestId(4), peer(2), ValueRequest::new(Height(2))).unwrap();
    assert_eq!(again, vec![Effect::GetValue(InboundRequestId(4), Height(2))]);
    assert_eq!(st.peer_status(peer(1)), None);
}

#[test]
fn value_response_leaves_the_request_pending() {
    let mut st = caught_up_state();
    let effects = handle(
        &mut st,
        Input::ValueResponse(
            OutboundRequestId(1),
            peer(1),
            ValueResponse::new(Height(5), Some(decided_value(5))),
        ),
    )
    .unwrap();
    assert_eq!(effects, vec![]);
    assert_eq!(st.pending_decided_value_request(Height(5)), Some(peer(1)));
    let again = on_value_response(
        &mut st,
        OutboundRequestId(2),
        peer(1),
        ValueResponse::new(Height(5), None),
    )
    .unwrap();
    assert_eq!(again, vec![]);
    assert_eq!(st.pending_decided_value_request(Height(5)), Some(peer(1)));
}

#[test]
fn status_at_or_below_the_tip_requests_nothing() {
    let mut st = state(5);
    assert_eq!(on_status(&mut st, status(1, 5, 0)).unwrap(), vec![]);
    assert_eq!(on_status(&mut st, status(2, 3, 0)).unwrap(), vec![]);
    assert_eq!(st.peer_status(peer(1)), Some(status(1, 5, 0)));
    assert_eq!(st.peer_status(peer(2)), Some(status(2, 3, 0)));
    assert_eq!(st.pending_decided_value_request(Height(5)), None);
}

#[test]
fn status_overwrites_the_earlier_one() {
    let mut st = state(5);
    on_status(&mut st, status(1, 4, 0)).unwrap();
    on_status(&mut st, status(1, 5, 2)).unwrap();
    assert_eq!(st.peer_status(peer(1)), Some(status(1, 5, 2)));
}

#[test]
fn peer_that_pruned_the_height_is_not_asked() {
    let mut st = state(5);
    // holds heights 6 to 10 only
    assert_eq!(on_status(&mut st, status(1, 10, 6)).unwrap(), vec![]);
    assert_eq!(st.pending_decided_value_request(Height(5)), None);
    // holds 5 to 10
    assert_eq!(
        on_status(&mut st, status(2, 10, 5)).unwrap(),
        vec![Effect::SendValueRequest(peer(2), ValueRequest::new(Height(5)))]
    );
}

#[test]
fn start_height_sets_the_sync_height_and_requests() {
    let mut st = state(5);
    st.update_status(status(1, 10, 0));
    let effects = handle(&mut st, Input::StartHeight(Height(6))).unwrap();
    assert_eq!(effects, vec![Effect::SendValueRequest(peer(1), ValueRequest::new(Height(6)))]);
    assert_eq!(st.sync_height(), Height(6));
    assert_eq!(st.tip_height(), Height(5));
    assert_eq!(st.pending_decided_value_request(Height(6)), Some(peer(1)));
    // a second start of the same height finds the request pending
    assert_eq!(on_start_height(&mut st, Height(6)).unwrap(), vec![]);
}

#[test]
fn start_height_beyond_all_peers_requests_nothing() {
    let mut st = state(5);
    st.update_status(status(1, 10, 0));
    assert_eq!(on_start_height(&mut st, Height(11)).unwrap(), vec![]);
    assert_eq!(st.sync_height(), Height(11));
    assert_eq!(st.pending_decided_value_request(Height(11)), None);
}

#[test]
fn update_height_raises_the_tip_and_clears_the_request() {
    let mut st = caught_up_state();
    on_start_height(&mut st, Height(6)).unwrap();
    assert_eq!(st.pending_decided_value_request(Height(6)), Some(peer(1)));
    let effects = handle(&mut st, Input::UpdateHeight(Height(6))).unwrap();
    assert_eq!(effects, vec![]);
    assert_eq!(st.tip_height(), Height(6));
    assert_eq!(st.pending_decided_value_request(Height(6)), None);
    // the request for another height stays
    assert_eq!(st.pending_decided_value_request(Height(5)), Some(peer(1)));
}

#[test]
fn update_height_at_or_below_the_tip_is_ignored() {
    let mut st = caught_up_state();
    assert_eq!(on_update_height(&mut st, Height(5)).unwrap(), vec![]);
    assert_eq!(st.tip_height(), Height(5));
    assert_eq!(st.pending_decided_value_request(Height(5)), Some(peer(1)));
    assert_eq!(on_update_height(&mut st, Height(3)).unwrap(), vec![]);
    assert_eq!(st.tip_height(), Height(5));
}

#[test]
fn tip_height_never_goes_down() {
    let mut st = state(5);
    let mut last = st.tip_height();
    let inputs = vec![
        Input::Status(status(1, 10, 0)),
        Input::UpdateHeight(Height(7)),
        Input::UpdateHeight(Height(6)),
        Input::StartHeight(Height(2)),
        Input::Tick,
        Input::UpdateHeight(Height(0)),
        Input::InvalidCertificate(peer(1), certificate(7), CertificateError::SignatureInvalid),
        Input::UpdateHeight(Height(9)),
        Input::GetVoteSet(Height(9), Round::Nil),
        Input::UpdateHeight(Height(8)),
    ];
    for input in inputs {
        handle(&mut st, input).unwrap();
        assert!(st.tip_height() >= last);
        last = st.tip_height();
    }
    assert_eq!(last, Height(9));
}

#[test]
fn request_value_without_peers_yields_nothing() {
    let mut st = state(5);
    assert_eq!(request_value(&mut st).unwrap(), vec![]);
    assert_eq!(st.pending_decided_value_request(Height(5)), None);
}

#[test]
fn request_value_with_all_peers_below_the_sync_height_yields_nothing() {
    let mut st = state(5);
    st.update_status(status(1, 4, 0));
    st.update_status(status(2, 3, 1));
    assert_eq!(request_value(&mut st).unwrap(), vec![]);
    assert_eq!(st.pending_decided_value_request(Height(5)), None);
}

#[test]
fn request_value_picks_among_the_peers_that_hold_the_height() {
    for seed in 0..50u64 {
        let mut st = State::new(StdRng::seed_from_u64(seed), Height(5));
        st.update_status(status(1, 4, 0));
        st.update_status(status(2, 9, 0));
        st.update_status(status(3, 9, 6));
        st.update_status(status(4, 5, 5));
        let effects = request_value(&mut st).unwrap();
        assert_eq!(effects.len(), 1);
        match &effects[0] {
            Effect::SendValueRequest(to, request) => {
                assert!(*to == peer(2) || *to == peer(4));
                assert_eq!(*request, ValueRequest::new(Height(5)));
                assert_eq!(st.pending_decided_value_request(Height(5)), Some(*to));
            }
            other => panic!("unexpected effect: {:?}", other),
        }
    }
}

#[test]
fn every_qualifying_peer_can_be_picked() {
    let mut seen = vec![false; 3];
    for seed in 0..200u64 {
        let mut st = State::new(StdRng::seed_from_u64(seed), Height(5));
        for n in 0..3u8 {
            st.update_status(status(n, 9, 0));
        }
        match st.random_peer_with_value(Height(5)) {
            Some(p) => {
                for n in 0..3u8 {
                    if p == peer(n) {
                        seen[n as usize] = true;
                    }
                }
            }
            None => panic!("no peer picked"),
        }
    }
    assert_eq!(seen, vec![true, true, true]);
}

#[test]
fn request_value_from_peer_sends_and_records() {
    let mut st = state(5);
    let effects = request_value_from_peer(&mut st, Height(8), peer(3)).unwrap();
    assert_eq!(effects, vec![Effect::SendValueRequest(peer(3), ValueRequest::new(Height(8)))]);
    assert_eq!(st.pending_decided_value_request(Height(8)), Some(peer(3)));
}

#[test]
fn request_vote_set_from_peer_sends_and_records() {
    let mut st = state(5);
    let effects = request_vote_set_from_peer(&mut st, Height(8), Round::Nil, peer(3)).unwrap();
    assert_eq!(
        effects,
        vec![Effect::SendVoteSetRequest(peer(3), VoteSetRequest::new(Height(8), Round::Nil))]
    );
    assert_eq!(st.pending_vote_set_request(Height(8), Round::Nil), Some(peer(3)));
    assert_eq!(st.pending_vote_set_request(Height(8), Round::Defined(0)), None);
}

#[test]
fn get_vote_set_requests_once_per_height_and_round() {
    let mut st = state(5);
    st.update_status(status(1, 10, 0));
    let first = handle(&mut st, Input::GetVoteSet(Height(6), Round::Defined(1))).unwrap();
    assert_eq!(
        first,
        vec![Effect::SendVoteSetRequest(peer(1), VoteSetRequest::new(Height(6), Round::Defined(1)))]
    );
    // pending: dropped
    assert_eq!(on_get_vote_set(&mut st, Height(6), Round::Defined(1)).unwrap(), vec![]);
    // another round of the same height is another request
    let other = on_get_vote_set(&mut st, Height(6), Round::Defined(2)).unwrap();
    assert_eq!(
        other,
        vec![Effect::SendVoteSetRequest(peer(1), VoteSetRequest::new(Height(6), Round::Defined(2)))]
    );
    assert!(st.has_pending_vote_set_request(Height(6), Round::Defined(1)));
    assert!(st.has_pending_vote_set_request(Height(6), Round::Defined(2)));
    assert!(!st.has_pending_vote_set_request(Height(6), Round::Nil));
}

#[test]
fn get_vote_set_without_a_peer_at_the_height_does_nothing() {
    let mut st = state(5);
    st.update_status(status(1, 5, 0));
    assert_eq!(on_get_vote_set(&mut st, Height(6), Round::Defined(0)).unwrap(), vec![]);
    assert!(!st.has_pending_vote_set_request(Height(6), Round::Defined(0)));
}

#[test]
fn vote_set_response_clears_the_request() {
    let mut st = state(5);
    st.update_status(status(1, 10, 0));
    on_get_vote_set(&mut st, Height(6), Round::Defined(1)).unwrap();
    on_get_vote_set(&mut st, Height(6), Round::Defined(2)).unwrap();
    let effects = handle(
        &mut st,
        Input::VoteSetResponse(
            OutboundRequestId(9),
            peer(1),
            VoteSetResponse::new(Height(6), Round::Defined(1), vec![]),
        ),
    )
    .unwrap();
    assert_eq!(effects, vec![]);
    assert!(!st.has_pending_vote_set_request(Height(6), Round::Defined(1)));
    assert!(st.has_pending_vote_set_request(Height(6), Round::Defined(2)));
    let again = on_vote_set_response(
        &mut st,
        OutboundRequestId(10),
        peer(1),
        VoteSetResponse::new(Height(6), Round::Defined(2), vec![]),
    )
    .unwrap();
    assert_eq!(again, vec![]);
    assert!(!st.has_pending_vote_set_request(Height(6), Round::Defined(2)));
}

#[test]
fn vote_set_request_and_sent_response_are_observed_only() {
    let mut st = caught_up_state();
    let a = handle(
        &mut st,
        Input::VoteSetRequest(
            InboundRequestId(1),
            peer(2),
            VoteSetRequest::new(Height(5), Round::Defined(0)),
        ),
    )
    .unwrap();
    assert_eq!(a, vec![]);
    let b = handle(&mut st, Input::GotVoteSet(InboundRequestId(1), Height(5), Round::Defined(0)))
        .unwrap();
    assert_eq!(b, vec![]);
    let c = on_vote_set_request(
        &mut st,
        InboundRequestId(2),
        peer(2),
        VoteSetRequest::new(Height(5), Round::Nil),
    )
    .unwrap();
    assert_eq!(c, vec![]);
    let d = on_vote_set_response_sent(&mut st, InboundRequestId(2), Height(5), Round::Nil).unwrap();
    assert_eq!(d, vec![]);
    assert_eq!(st.pending_decided_value_request(Height(5)), Some(peer(1)));
    assert_eq!(st.peer_status(peer(2)), None);
}

#[test]
fn pending_requests_are_stored_and_removed_by_key() {
    let mut st = state(5);
    st.store_pending_decided_value_request(Height(5), peer(1));
    st.store_pending_decided_value_request(Height(5), peer(2));
    assert_eq!(st.pending_decided_value_request(Height(5)), Some(peer(2)));
    st.remove_pending_decided_value_request(Height(6));
    assert_eq!(st.pending_decided_value_request(Height(5)), Some(peer(2)));
    st.remove_pending_decided_value_request(Height(5));
    st.remove_pending_decided_value_request(Height(5));
    assert_eq!(st.pending_decided_value_request(Height(5)), None);

    st.store_pending_vote_set_request(Height(5), Round::Nil, peer(1));
    st.store_pending_vote_set_request(Height(5), Round::Defined(0), peer(2));
    assert_eq!(st.pending_vote_set_request(Height(5), Round::Nil), Some(peer(1)));
    assert_eq!(st.pending_vote_set_request(Height(5), Round::Defined(0)), Some(peer(2)));
    st.remove_pending_vote_set_request(Height(5), Round::Nil);
    st.remove_pending_vote_set_request(Height(5), Round::Nil);
    assert_eq!(st.pending_vote_set_request(Height(5), Round::Nil), None);
    assert_eq!(st.pending_vote_set_request(Height(5), Round::Defined(0)), Some(peer(2)));
}

#[test]
fn random_peer_except_leaves_out_the_named_peer() {
    let mut st = state(5);
    st.update_status(status(1, 10, 0));
    assert_eq!(st.random_peer_with_value(Height(5)), Some(peer(1)));
    assert_eq!(st.random_peer_with_value_except(Height(5), peer(1)), None);
    assert_eq!(st.random_peer_with_value_except(Height(5), peer(2)), Some(peer(1)));
    assert_eq!(st.random_peer_for_votes(Height(5), Round::Nil), Some(peer(1)));
    assert_eq!(st.random_peer_for_votes(Height(11), Round::Nil), None);
    assert_eq!(st.random_peer_with_value(Height(11)), None);
}

#[test]
fn setters_change_one_height_each() {
    let mut st = state(5);
    st.set_sync_height(Height(8));
    assert_eq!((st.tip_height(), st.sync_height()), (Height(5), Height(8)));
    st.set_tip_height(Height(7));
    assert_eq!((st.tip_height(), st.sync_height()), (Height(7), Height(8)));
}

#[test]
fn pick_takes_the_element_at_the_index() {
    let candidates = vec![peer(1), peer(2), peer(3)];
    assert_eq!(pick(&candidates, Some(0)), Some(peer(1)));
    assert_eq!(pick(&candidates, Some(2)), Some(peer(3)));
    assert_eq!(pick(&candidates, Some(3)), None);
    assert_eq!(pick(&candidates, None), None);
    assert_eq!(pick(&vec![], Some(0)), None);
}

#[test]
fn peer_table_keeps_one_status_per_peer() {
    let mut table = PeerTable::new();
    assert_eq!(table.len(), 0);
    table.insert(status(1, 10, 0));
    table.insert(status(2, 3, 0));
    table.insert(status(1, 11, 2));
    assert_eq!(table.len(), 2);
    assert_eq!(table.get(peer(1)), Some(status(1, 11, 2)));
    assert_eq!(table.get(peer(2)), Some(status(2, 3, 0)));
    assert_eq!(table.get(peer(3)), None);
}

#[test]
fn peer_table_lists_the_peers_with_a_value() {
    let mut table = PeerTable::new();
    table.insert(status(1, 10, 0));
    table.insert(status(2, 3, 0));
    table.insert(status(3, 10, 6));
    table.insert(status(4, 5, 5));
    assert_eq!(table.with_value(Height(5), None), vec![peer(1), peer(4)]);
    assert_eq!(table.with_value(Height(5), Some(peer(1))), vec![peer(4)]);
    assert_eq!(table.with_value(Height(5), Some(peer(9))), vec![peer(1), peer(4)]);
    assert_eq!(table.with_value(Height(3), None), vec![peer(1), peer(2)]);
    assert_eq!(table.with_value(Height(11), None), vec![]);
}

#[test]
fn status_has_value_between_earliest_and_height() {
    let s = status(1, 10, 4);
    assert!(!s.has_value(Height(3)));
    assert!(s.has_value(Height(4)));
    assert!(s.has_value(Height(7)));
    assert!(s.has_value(Height(10)));
    assert!(!s.has_value(Height(11)));
}

#[test]
fn resume_defaults_to_continue() {
    assert_eq!(Resume::default(), Resume::Continue);
}
