use share_files::offerer::OffererPeerState;
use share_files::payload::IceCandidate;
use share_files::peers::PeerTable;
use share_files::responder::ReceiverState;
use share_files::candidates::CandidateOutcome;

fn id(peer: &str) -> String {
    peer.to_string()
}

fn offered() -> OffererPeerState {
    let mut st = OffererPeerState::new();
    st.send_offer();
    st
}

fn candidate(text: &str) -> IceCandidate {
    IceCandidate {
        candidate: text.to_string(),
        sdp_mid: None,
        sdp_mline_index: None,
        username_fragment: None,
    }
}

#[test]
fn empty_table_holds_nobody() {
    let mut t = PeerTable::new();
    assert_eq!(t.len(), 0);
    assert!(!t.contains(&id("a")));
    assert!(t.get(&id("a")).is_none());
    assert!(t.take(&id("a")).is_none());
}

#[test]
fn put_inserts_and_replaces() {
    let mut t = PeerTable::new();
    t.put(id("a"), OffererPeerState::new());
    t.put(id("b"), offered());
    assert_eq!(t.len(), 2);
    assert_eq!(t.get(&id("a")), Some(&OffererPeerState::new()));
    assert_eq!(t.get(&id("b")), Some(&offered()));
    t.put(id("a"), offered());
    assert_eq!(t.len(), 2);
    assert_eq!(t.get(&id("a")), Some(&offered()));
}

#[test]
fn take_removes_only_the_named_peer() {
    let mut t = PeerTable::new();
    for name in ["a", "b", "c", "d"] {
        t.put(id(name), OffererPeerState::new());
    }
    t.put(id("b"), offered());
    assert_eq!(t.take(&id("b")), Some(offered()));
    assert_eq!(t.len(), 3);
    assert!(!t.contains(&id("b")));
    for name in ["a", "c", "d"] {
        assert!(t.contains(&id(name)), "{name}");
    }
    assert_eq!(t.take(&id("b")), None);
    assert_eq!(t.take(&id("a")), Some(OffererPeerState::new()));
    assert_eq!(t.take(&id("d")), Some(OffererPeerState::new()));
    assert_eq!(t.take(&id("c")), Some(OffererPeerState::new()));
    assert_eq!(t.len(), 0);
}

#[test]
fn identifiers_are_compared_whole() {
    let mut t = PeerTable::new();
    t.put(id("peer"), OffererPeerState::new());
    assert!(!t.contains(&id("pee")));
    assert!(!t.contains(&id("peer ")));
    assert!(!t.contains(&id("")));
    assert!(t.contains(&id("peer")));
}

#[test]
fn receiver_state_binds_the_peer_of_the_offer() {
    let mut st = ReceiverState::new();
    assert_eq!(st.handle_receiver_candidate(1, candidate("a")), CandidateOutcome::Buffered);
    assert_eq!(st.handle_receiver_candidate(2, candidate("b")), CandidateOutcome::Buffered);
    assert_eq!(st.flush_receiver_candidates(), Vec::<IceCandidate>::new());
    assert_eq!(st.accept_offer(id("p0"), 2), vec![candidate("b")]);
    assert_eq!(
        st.handle_receiver_candidate(2, candidate("c")),
        CandidateOutcome::Apply(candidate("c"))
    );
    assert_eq!(st.handle_receiver_candidate(1, candidate("d")), CandidateOutcome::Dropped);
    assert_eq!(st.flush_receiver_candidates(), Vec::<IceCandidate>::new());
}
