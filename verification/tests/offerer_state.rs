use share_files::candidates::CandidateOutcome;
use share_files::offerer::OffererPeerState;
use share_files::payload::IceCandidate;

fn candidate(text: &str) -> IceCandidate {
    IceCandidate {
        candidate: text.to_string(),
        sdp_mid: None,
        sdp_mline_index: Some(1),
        username_fragment: Some("u".to_string()),
    }
}

#[test]
fn fresh_peer_has_offered_nothing() {
    let st = OffererPeerState::new();
    assert_eq!(st.signal_sid(), 0);
    assert_eq!(st.active_sid(), None);
    assert!(!st.remote_desc_set());
    assert!(!st.sending());
    assert_eq!(st.pending_len(), 0);
}

#[test]
fn first_offer_gets_session_id_one() {
    let mut st = OffererPeerState::new();
    assert_eq!(st.send_offer(), Some(1));
    assert_eq!(st.signal_sid(), 1);
    assert_eq!(st.active_sid(), Some(1));
}

#[test]
fn send_offer_does_nothing_while_a_session_is_active() {
    let mut st = OffererPeerState::new();
    st.send_offer();
    let before = st.clone();
    assert_eq!(st.send_offer(), None);
    assert_eq!(st, before);
}

#[test]
fn renegotiation_counts_up_and_waits_for_a_new_answer() {
    let mut st = OffererPeerState::new();
    st.send_offer();
    assert_eq!(st.handle_answer(1), Some(vec![]));
    assert!(st.remote_desc_set());
    assert_eq!(st.renegotiate(), Some(2));
    assert_eq!(st.active_sid(), Some(2));
    assert!(!st.remote_desc_set());
    assert_eq!(st.renegotiate(), Some(3));
    assert_eq!(st.signal_sid(), 3);
}

#[test]
fn stale_answer_changes_nothing() {
    let mut st = OffererPeerState::new();
    st.send_offer();
    st.handle_offer_candidate(1, candidate("a"));
    let before = st.clone();
    assert_eq!(st.handle_answer(2), None);
    assert_eq!(st, before);
}

#[test]
fn answer_flushes_the_matching_candidates() {
    let mut st = OffererPeerState::new();
    st.send_offer();
    assert_eq!(st.handle_offer_candidate(1, candidate("a")), CandidateOutcome::Buffered);
    assert_eq!(st.handle_offer_candidate(3, candidate("x")), CandidateOutcome::Buffered);
    assert_eq!(st.handle_offer_candidate(1, candidate("b")), CandidateOutcome::Buffered);
    assert_eq!(st.handle_answer(1), Some(vec![candidate("a"), candidate("b")]));
    assert_eq!(st.pending_len(), 0);
    assert_eq!(
        st.handle_offer_candidate(1, candidate("c")),
        CandidateOutcome::Apply(candidate("c"))
    );
    assert_eq!(st.handle_offer_candidate(3, candidate("y")), CandidateOutcome::Dropped);
}

#[test]
fn flush_on_its_own_drains_the_queue() {
    let mut st = OffererPeerState::new();
    st.send_offer();
    st.handle_offer_candidate(1, candidate("a"));
    st.handle_offer_candidate(2, candidate("x"));
    assert_eq!(st.flush_offer_candidates(), vec![candidate("a")]);
    assert_eq!(st.pending_len(), 0);
    assert!(!st.remote_desc_set());
}

#[test]
fn the_latch_is_set_once() {
    let mut st = OffererPeerState::new();
    assert!(st.begin_sending());
    assert!(st.sending());
    assert!(!st.begin_sending());
    assert!(!st.begin_sending());
    assert!(st.sending());
}
