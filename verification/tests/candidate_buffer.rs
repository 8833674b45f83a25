use share_files::candidates::{CandidateBuffer, CandidateOutcome};
use share_files::payload::IceCandidate;

fn candidate(text: &str) -> IceCandidate {
    IceCandidate {
        candidate: text.to_string(),
        sdp_mid: None,
        sdp_mline_index: None,
        username_fragment: None,
    }
}

/// Feeds the tagged candidates to the buffer, the first `k` of them before
/// the remote description is set, and returns what reached the transport.
fn applied_with_answer_after(k: usize, sid: u64, arrivals: &[(u64, &str)]) -> Vec<IceCandidate> {
    let mut buffer = CandidateBuffer::new();
    buffer.activate(sid);
    let mut applied = Vec::new();
    for (i, (tag, text)) in arrivals.iter().enumerate() {
        if i == k {
            applied.extend(buffer.remote_description_set());
        }
        if let CandidateOutcome::Apply(c) = buffer.accept(*tag, candidate(text)) {
            applied.push(c);
        }
    }
    if k >= arrivals.len() {
        applied.extend(buffer.remote_description_set());
    }
    assert_eq!(buffer.pending_len(), 0);
    assert!(buffer.remote_desc_set());
    applied
}

#[test]
fn new_buffer_is_empty_and_inactive() {
    let buffer = CandidateBuffer::new();
    assert_eq!(buffer.active_sid(), None);
    assert!(!buffer.remote_desc_set());
    assert_eq!(buffer.pending_len(), 0);
}

#[test]
fn candidates_wait_until_the_description_is_set() {
    let mut buffer = CandidateBuffer::new();
    buffer.activate(1);
    assert_eq!(buffer.accept(1, candidate("a")), CandidateOutcome::Buffered);
    assert_eq!(buffer.accept(2, candidate("other")), CandidateOutcome::Buffered);
    assert_eq!(buffer.pending_len(), 2);
    assert_eq!(buffer.remote_description_set(), vec![candidate("a")]);
    assert_eq!(buffer.pending_len(), 0);
}

#[test]
fn candidates_are_queued_even_without_a_session() {
    let mut buffer = CandidateBuffer::new();
    assert_eq!(buffer.accept(5, candidate("early")), CandidateOutcome::Buffered);
    assert_eq!(buffer.pending_len(), 1);
}

#[test]
fn flush_without_a_session_leaves_the_queue_alone() {
    let mut buffer = CandidateBuffer::new();
    buffer.accept(5, candidate("early"));
    assert_eq!(buffer.flush(), Vec::<IceCandidate>::new());
    assert_eq!(buffer.pending_len(), 1);
}

#[test]
fn after_the_description_matching_candidates_apply_at_once() {
    let mut buffer = CandidateBuffer::new();
    buffer.activate(3);
    buffer.remote_description_set();
    assert_eq!(buffer.accept(3, candidate("now")), CandidateOutcome::Apply(candidate("now")));
    assert_eq!(buffer.accept(2, candidate("stale")), CandidateOutcome::Dropped);
    assert_eq!(buffer.accept(4, candidate("future")), CandidateOutcome::Dropped);
    assert_eq!(buffer.pending_len(), 0);
}

#[test]
fn flush_keeps_arrival_order_and_discards_the_rest() {
    let mut buffer = CandidateBuffer::new();
    buffer.activate(1);
    for (sid, text) in [(1, "a"), (2, "x"), (1, "b"), (9, "y"), (1, "c")] {
        buffer.accept(sid, candidate(text));
    }
    assert_eq!(buffer.flush(), vec![candidate("a"), candidate("b"), candidate("c")]);
    assert_eq!(buffer.pending_len(), 0);
    assert_eq!(buffer.flush(), Vec::<IceCandidate>::new());
}

#[test]
fn the_place_of_the_answer_among_candidates_does_not_matter() {
    let arrivals = [(1, "a"), (2, "x"), (1, "b"), (1, "c"), (7, "y"), (1, "d")];
    let expected = vec![candidate("a"), candidate("b"), candidate("c"), candidate("d")];
    for k in 0..=arrivals.len() {
        assert_eq!(applied_with_answer_after(k, 1, &arrivals), expected, "answer after {k}");
    }
}

#[test]
fn only_the_active_session_is_ever_applied() {
    let arrivals = [(2, "x"), (3, "y"), (2, "z")];
    for k in 0..=arrivals.len() {
        assert_eq!(applied_with_answer_after(k, 1, &arrivals), Vec::<IceCandidate>::new());
    }
}

#[test]
fn a_new_session_discards_the_candidates_of_the_old_one() {
    let mut buffer = CandidateBuffer::new();
    buffer.activate(1);
    assert_eq!(buffer.accept(1, candidate("old")), CandidateOutcome::Buffered);
    buffer.activate(2);
    assert!(!buffer.remote_desc_set());
    assert_eq!(buffer.accept(1, candidate("late")), CandidateOutcome::Buffered);
    assert_eq!(buffer.accept(2, candidate("new")), CandidateOutcome::Buffered);
    assert_eq!(buffer.remote_description_set(), vec![candidate("new")]);
    assert_eq!(buffer.pending_len(), 0);
    assert_eq!(buffer.accept(1, candidate("later")), CandidateOutcome::Dropped);
    assert_eq!(buffer.active_sid(), Some(2));
}
