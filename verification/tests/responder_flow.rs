use share_files::payload::{IceCandidate, SdpKind, SessionDescription};
use share_files::responder::{Responder, ResponderAction, ResponderEvent};
use share_files::signal::{ClientMessage, ServerMessage, SessionError};

fn candidate(text: &str) -> IceCandidate {
    IceCandidate {
        candidate: text.to_string(),
        sdp_mid: Some(String::new()),
        sdp_mline_index: Some(0),
        username_fragment: None,
    }
}

fn offer_sdp() -> SessionDescription {
    SessionDescription { kind: SdpKind::Offer, sdp: "v=0\r\n".to_string() }
}

fn remote_candidate(sid: u64, text: &str) -> ResponderEvent {
    ResponderEvent::Signal(ServerMessage::Candidate {
        from: "p0".to_string(),
        sid,
        candidate: candidate(text),
    })
}

fn offer(sid: u64) -> ResponderEvent {
    ResponderEvent::Signal(ServerMessage::Offer {
        from: "p0".to_string(),
        sid,
        sdp: offer_sdp(),
    })
}

#[test]
fn responder_rejects_initiator_role() {
    let mut r = Responder::new();
    let out = r.handle(ResponderEvent::Signal(ServerMessage::Role {
        role: "initiator".to_string(),
        cid: "c1".to_string(),
    }));
    assert_eq!(out, Err(SessionError::RoleMismatch { assigned: "initiator".to_string() }));
    assert!(!r.is_started());
}

#[test]
fn responder_accepts_its_own_role() {
    let mut r = Responder::new();
    let out = r.handle(ResponderEvent::Signal(ServerMessage::Role {
        role: "responder".to_string(),
        cid: "c1".to_string(),
    }));
    assert_eq!(out, Ok(vec![]));
}

#[test]
fn offer_before_start_is_fatal() {
    let mut r = Responder::new();
    assert_eq!(r.handle(offer(1)), Err(SessionError::NotInitialized));
}

#[test]
fn early_candidates_are_flushed_by_the_offer() {
    let mut r = Responder::new();
    assert_eq!(
        r.handle(ResponderEvent::Signal(ServerMessage::Start { peer_id: None })),
        Ok(vec![ResponderAction::CreateSession])
    );
    assert_eq!(r.handle(remote_candidate(1, "a")), Ok(vec![]));
    assert_eq!(r.handle(remote_candidate(7, "stale")), Ok(vec![]));
    assert_eq!(r.handle(remote_candidate(1, "b")), Ok(vec![]));
    assert_eq!(r.pending_len(), 3);
    assert_eq!(
        r.handle(offer(1)),
        Ok(vec![
            ResponderAction::SetRemoteDescription(offer_sdp()),
            ResponderAction::AddCandidate(candidate("a")),
            ResponderAction::AddCandidate(candidate("b")),
            ResponderAction::CreateAnswer,
        ])
    );
    assert_eq!(r.pending_len(), 0);
    assert_eq!(r.active_sid(), Some(1));
    assert_eq!(r.peer_id(), Some("p0".to_string()));
    assert!(r.remote_desc_set());
}

#[test]
fn late_candidate_of_a_replaced_session_is_dropped() {
    let mut r = Responder::new();
    r.handle(ResponderEvent::Signal(ServerMessage::Start { peer_id: None })).unwrap();
    r.handle(offer(1)).unwrap();
    r.handle(offer(2)).unwrap();
    assert_eq!(r.active_sid(), Some(2));
    assert_eq!(r.handle(remote_candidate(1, "late")), Ok(vec![]));
    assert_eq!(r.pending_len(), 0);
    assert_eq!(
        r.handle(remote_candidate(2, "fresh")),
        Ok(vec![ResponderAction::AddCandidate(candidate("fresh"))])
    );
}

#[test]
fn answer_and_local_candidates_go_to_the_bound_peer() {
    let mut r = Responder::new();
    r.handle(ResponderEvent::Signal(ServerMessage::Start { peer_id: None })).unwrap();
    assert_eq!(r.handle(ResponderEvent::LocalCandidate(candidate("x"))), Ok(vec![]));
    r.handle(offer(4)).unwrap();
    let answer = SessionDescription { kind: SdpKind::Answer, sdp: "v=0\r\n".to_string() };
    assert_eq!(
        r.handle(ResponderEvent::LocalDescription(answer.clone())),
        Ok(vec![ResponderAction::Send(ClientMessage::Answer {
            to: "p0".to_string(),
            sid: 4,
            sdp: answer,
        })])
    );
    assert_eq!(
        r.handle(ResponderEvent::LocalCandidate(candidate("x"))),
        Ok(vec![ResponderAction::Send(ClientMessage::Candidate {
            to: "p0".to_string(),
            sid: 4,
            candidate: candidate("x"),
        })])
    );
}

#[test]
fn the_place_of_the_offer_among_candidates_does_not_matter() {
    let arrivals = [(1, "a"), (2, "x"), (1, "b"), (1, "c"), (5, "y")];
    let expected = vec![
        ResponderAction::AddCandidate(candidate("a")),
        ResponderAction::AddCandidate(candidate("b")),
        ResponderAction::AddCandidate(candidate("c")),
    ];
    for k in 0..=arrivals.len() {
        let mut r = Responder::new();
        r.handle(ResponderEvent::Signal(ServerMessage::Start { peer_id: None })).unwrap();
        let mut applied = Vec::new();
        for (n, (sid, text)) in arrivals.iter().enumerate() {
            if n == k {
                let asked = r.handle(offer(1)).unwrap();
                applied.extend(asked.into_iter().filter(|a| matches!(a, ResponderAction::AddCandidate(_))));
            }
            applied.extend(r.handle(remote_candidate(*sid, text)).unwrap());
        }
        if k == arrivals.len() {
            let asked = r.handle(offer(1)).unwrap();
            applied.extend(asked.into_iter().filter(|a| matches!(a, ResponderAction::AddCandidate(_))));
        }
        assert_eq!(applied, expected, "offer after {k} candidates");
        assert_eq!(r.pending_len(), 0);
    }
}

#[test]
fn candidates_before_any_session_are_ignored() {
    let mut r = Responder::new();
    assert_eq!(r.handle(remote_candidate(1, "a")), Ok(vec![]));
    assert_eq!(r.pending_len(), 0);
    assert!(!r.is_started());
    assert_eq!(r.peer_id(), None);
    assert_eq!(r.active_sid(), None);
    assert!(!r.remote_desc_set());
}

#[test]
fn a_second_start_begins_anew() {
    let mut r = Responder::new();
    r.handle(ResponderEvent::Signal(ServerMessage::Start { peer_id: None })).unwrap();
    r.handle(remote_candidate(1, "a")).unwrap();
    r.handle(offer(1)).unwrap();
    assert_eq!(
        r.handle(ResponderEvent::Signal(ServerMessage::Start { peer_id: Some("x".to_string()) })),
        Ok(vec![ResponderAction::CreateSession])
    );
    assert_eq!(r.peer_id(), None);
    assert_eq!(r.active_sid(), None);
    assert!(!r.remote_desc_set());
    assert_eq!(r.pending_len(), 0);
}

#[test]
fn candidates_are_taken_from_any_sender() {
    let mut r = Responder::new();
    r.handle(ResponderEvent::Signal(ServerMessage::Start { peer_id: None })).unwrap();
    r.handle(offer(1)).unwrap();
    let from_stranger = ResponderEvent::Signal(ServerMessage::Candidate {
        from: "someone-else".to_string(),
        sid: 1,
        candidate: candidate("s"),
    });
    assert_eq!(r.handle(from_stranger), Ok(vec![ResponderAction::AddCandidate(candidate("s"))]));
    assert_eq!(r.peer_id(), Some("p0".to_string()));
}

#[test]
fn notices_and_foreign_messages_change_nothing() {
    let mut r = Responder::new();
    r.handle(ResponderEvent::Signal(ServerMessage::Start { peer_id: None })).unwrap();
    for message in [
        ServerMessage::Peers { count: 2 },
        ServerMessage::Wait { position: None },
        ServerMessage::PeerLeft { peer_id: "p0".to_string() },
        ServerMessage::Answer { from: "p0".to_string(), sid: 1, sdp: offer_sdp() },
    ] {
        assert_eq!(r.handle(ResponderEvent::Signal(message)), Ok(vec![]));
    }
    assert!(r.is_started());
    assert_eq!(r.active_sid(), None);
}
