//! The receiving side of a negotiation: a single session that consumes an
//! offer, produces an answer and takes the candidates of the initiator.

use vstd::prelude::*;
use crate::candidates::{
    candidates_view, payloads, CandidateBuffer, CandidateBufferView, CandidateOutcome,
    CandidateOutcomeView, PendingCandidateView,
};
use crate::payload::{
    opt_text, IceCandidate, IceCandidateView, SessionDescription, SessionDescriptionView,
};
use crate::text::text_is;
use crate::signal::{
    responder_role, ClientMessage, ClientMessageView, ServerMessage,
    ServerMessageView, SessionError, SessionErrorView,
};

verus! {

/// The responder's session with the initiator it is paired with.
#[derive(Clone, Debug, PartialEq, Eq)]
pub struct ReceiverState {
    peer_id: Option<String>,
    candidates: CandidateBuffer,
}

/// Mathematical model of a [`ReceiverState`].
pub struct ReceiverStateView {
    pub peer_id: Option<Seq<char>>,
    pub candidates: CandidateBufferView,
}

impl View for ReceiverState {
    type V = ReceiverStateView;

    closed spec fn view(&self) -> ReceiverStateView {
        ReceiverStateView { peer_id: opt_text(self.peer_id), candidates: self.candidates@ }
    }
}

/// Something that happens to the responder.
#[derive(Clone, Debug, PartialEq, Eq)]
pub enum ResponderEvent {
    /// A message arrived on the signaling stream.
    Signal(ServerMessage),
    /// The transport has made the answer its local description.
    LocalDescription(SessionDescription),
    /// The transport has discovered a local candidate.
    LocalCandidate(IceCandidate),
}

/// Mathematical model of a [`ResponderEvent`].
pub enum ResponderEventView {
    Signal(ServerMessageView),
    LocalDescription(SessionDescriptionView),
    LocalCandidate(IceCandidateView),
}

impl View for ResponderEvent {
    type V = ResponderEventView;

    open spec fn view(&self) -> ResponderEventView {
        match self {
            ResponderEvent::Signal(m) => ResponderEventView::Signal(m@),
            ResponderEvent::LocalDescription(d) => ResponderEventView::LocalDescription(d@),
            ResponderEvent::LocalCandidate(c) => ResponderEventView::LocalCandidate(c@),
        }
    }
}

/// Something the caller has to do for the responder, in the order given.
#[derive(Clone, Debug, PartialEq, Eq)]
pub enum ResponderAction {
    /// Create the transport session and register its event handlers.
    CreateSession,
    /// Apply the initiator's description to the transport.
    SetRemoteDescription(SessionDescription),
    /// Hand a candidate of the initiator to the transport.
    AddCandidate(IceCandidate),
    /// Create an answer and make it the local description.
    CreateAnswer,
    /// Write a message to the signaling stream.
    Send(ClientMessage),
}

/// Mathematical model of a [`ResponderAction`].
pub enum ResponderActionView {
    CreateSession,
    SetRemoteDescription(SessionDescriptionView),
    AddCandidate(IceCandidateView),
    CreateAnswer,
    Send(ClientMessageView),
}

impl View for ResponderAction {
    type V = ResponderActionView;

    open spec fn view(&self) -> ResponderActionView {
        match self {
            ResponderAction::CreateSession => ResponderActionView::CreateSession,
            ResponderAction::SetRemoteDescription(d) => ResponderActionView::SetRemoteDescription(
                d@,
            ),
            ResponderAction::AddCandidate(c) => ResponderActionView::AddCandidate(c@),
            ResponderAction::CreateAnswer => ResponderActionView::CreateAnswer,
            ResponderAction::Send(m) => ResponderActionView::Send(m@),
        }
    }
}

/// Models of a sequence of actions.
pub open spec fn actions_view(s: Seq<ResponderAction>) -> Seq<ResponderActionView> {
    s.map_values(|a: ResponderAction| a@)
}

/// One action per candidate, in order: hand it to the transport.
pub open spec fn add_all(cs: Seq<IceCandidateView>) -> Seq<ResponderActionView> {
    cs.map_values(|c: IceCandidateView| ResponderActionView::AddCandidate(c))
}

/// The outcome of one event: the actions to perform, or the error that ends the run.
pub type ResponderOutcome = Result<Seq<ResponderActionView>, SessionErrorView>;

/// What the responder sends for the transport's local description or
/// candidate: nothing until an offer has bound a peer and a session id.
pub open spec fn reply(
    s: Option<ReceiverStateView>,
    message: spec_fn(Seq<char>, u64) -> ClientMessageView,
) -> Seq<ResponderActionView> {
    match s {
        Some(st) => match (st.peer_id, st.candidates.active_sid) {
            (Some(to), Some(sid)) => seq![ResponderActionView::Send(message(to, sid))],
            _ => Seq::empty(),
        },
        None => Seq::empty(),
    }
}

/// The responder's transition: the state after an event, and what the event
/// asks of the caller.
pub open spec fn responder_step(s: Option<ReceiverStateView>, e: ResponderEventView) -> (
    Option<ReceiverStateView>,
    ResponderOutcome,
) {
    match e {
        ResponderEventView::Signal(ServerMessageView::Role { role, cid }) => if role
            == responder_role() {
            (s, Ok(Seq::empty()))
        } else {
            (s, Err(SessionErrorView::RoleMismatch { assigned: role }))
        },
        ResponderEventView::Signal(ServerMessageView::Start { peer_id }) => (
            Some(ReceiverStateView { peer_id: None, candidates: CandidateBufferView::fresh() }),
            Ok(seq![ResponderActionView::CreateSession]),
        ),
        ResponderEventView::Signal(ServerMessageView::Offer { from, sid, sdp }) => match s {
            None => (s, Err(SessionErrorView::NotInitialized)),
            Some(st) => {
                let (candidates, flushed) = st.candidates.activate(sid).remote_description_set();
                (
                    Some(ReceiverStateView { peer_id: Some(from), candidates }),
                    Ok(
                        seq![ResponderActionView::SetRemoteDescription(sdp)] + add_all(
                            payloads(flushed),
                        ) + seq![ResponderActionView::CreateAnswer],
                    ),
                )
            },
        },
        ResponderEventView::Signal(ServerMessageView::Candidate { from, sid, candidate }) => match s {
            None => (s, Ok(Seq::empty())),
            Some(st) => {
                let (candidates, outcome) = st.candidates.accept(
                    PendingCandidateView { sid, candidate },
                );
                (
                    Some(ReceiverStateView { candidates, ..st }),
                    Ok(
                        match outcome {
                            CandidateOutcomeView::Apply(c) => seq![
                                ResponderActionView::AddCandidate(c),
                            ],
                            _ => Seq::empty(),
                        },
                    ),
                )
            },
        },
        ResponderEventView::Signal(_) => (s, Ok(Seq::empty())),
        ResponderEventView::LocalDescription(sdp) => (
            s,
            Ok(reply(s, |to: Seq<char>, sid: u64| ClientMessageView::Answer { to, sid, sdp })),
        ),
        ResponderEventView::LocalCandidate(candidate) => (
            s,
            Ok(
                reply(
                    s,
                    |to: Seq<char>, sid: u64| ClientMessageView::Candidate { to, sid, candidate },
                ),
            ),
        ),
    }
}

/// Model of what `handle` returns.
pub open spec fn outcome_view(r: Result<Vec<ResponderAction>, SessionError>) -> ResponderOutcome {
    match r {
        Ok(actions) => Ok(actions_view(actions@)),
        Err(e) => Err(e@),
    }
}

impl ReceiverState {
    /// The state of a session that has seen no offer yet.
    pub fn new() -> (st: ReceiverState)
        ensures
            st@ == (ReceiverStateView { peer_id: None, candidates: CandidateBufferView::fresh() }),
    {
        ReceiverState { peer_id: None, candidates: CandidateBuffer::new() }
    }

    /// Routes a candidate of the initiator through the candidate buffer.
    pub fn handle_receiver_candidate(&mut self, sid: u64, candidate: IceCandidate) -> (outcome:
        CandidateOutcome)
        ensures
            final(self)@.peer_id == old(self)@.peer_id,
            (final(self)@.candidates, outcome@) == old(self)@.candidates.accept(
                PendingCandidateView { sid, candidate: candidate@ },
            ),
    {
        self.candidates.accept(sid, candidate)
    }

    /// Drains the queue: the candidates of the active session are returned
    /// in arrival order, the others are discarded.
    pub fn flush_receiver_candidates(&mut self) -> (applied: Vec<IceCandidate>)
        ensures
            final(self)@.peer_id == old(self)@.peer_id,
            final(self)@.candidates == old(self)@.candidates.flush().0,
            candidates_view(applied@) == payloads(old(self)@.candidates.flush().1),
    {
        self.candidates.flush()
    }

    /// Binds the session to the peer and session id of an offer and records
    /// that its description is applied; returns the waiting candidates of
    /// that session, in arrival order.
    pub fn accept_offer(&mut self, from: String, sid: u64) -> (applied: Vec<IceCandidate>)
        ensures
            final(self)@.peer_id == Some(from@),
            final(self)@.candidates == old(self)@.candidates.activate(
                sid,
            ).remote_description_set().0,
            candidates_view(applied@) == payloads(
                old(self)@.candidates.activate(sid).remote_description_set().1,
            ),
    {
        self.peer_id = Some(from);
        self.candidates.activate(sid);
        self.candidates.remote_description_set()
    }
}

/// The receiving side of the exchange.
#[derive(Clone, Debug, PartialEq, Eq)]
pub struct Responder {
    state: Option<ReceiverState>,
}

impl View for Responder {
    type V = Option<ReceiverStateView>;

    closed spec fn view(&self) -> Option<ReceiverStateView> {
        match self.state {
            Some(st) => Some(st@),
            None => None,
        }
    }
}

impl Responder {
    /// A responder for which no session has started.
    pub fn new() -> (r: Responder)
        ensures
            r@ is None,
    {
        Responder { state: None }
    }

    /// Whether a session has started.
    pub fn is_started(&self) -> (b: bool)
        ensures
            b == self@ is Some,
    {
        self.state.is_some()
    }

    /// The peer that the last offer came from.
    pub fn peer_id(&self) -> (id: Option<String>)
        ensures
            opt_text(id) == (match self@ {
                Some(st) => st.peer_id,
                None => None,
            }),
    {
        match &self.state {
            Some(st) => crate::payload::clone_opt_text(&st.peer_id),
            None => None,
        }
    }

    /// The session id of the last offer.
    pub fn active_sid(&self) -> (sid: Option<u64>)
        ensures
            sid == (match self@ {
                Some(st) => st.candidates.active_sid,
                None => None,
            }),
    {
        match &self.state {
            Some(st) => st.candidates.active_sid(),
            None => None,
        }
    }

    /// Whether an offer has been applied to the transport.
    pub fn remote_desc_set(&self) -> (set: bool)
        ensures
            set == (self@ matches Some(st) && st.candidates.remote_desc_set),
    {
        match &self.state {
            Some(st) => st.candidates.remote_desc_set(),
            None => false,
        }
    }

    /// How many candidates wait for an offer.
    pub fn pending_len(&self) -> (n: usize)
        ensures
            n == (match self@ {
                Some(st) => st.candidates.pending.len(),
                None => 0,
            }),
    {
        match &self.state {
            Some(st) => st.candidates.pending_len(),
            None => 0,
        }
    }

    /// The message that reports a local description or candidate to the
    /// bound peer, if an offer has bound one.
    fn address(&self) -> (target: Option<(String, u64)>)
        ensures
            match self@ {
                Some(st) => match (st.peer_id, st.candidates.active_sid) {
                    (Some(to), Some(sid)) => target matches Some(t) && t.0@ == to && t.1 == sid,
                    _ => target is None,
                },
                None => target is None,
            },
    {
        match &self.state {
            Some(st) => match (&st.peer_id, st.candidates.active_sid()) {
                (Some(to), Some(sid)) => Some((to.clone(), sid)),
                _ => None,
            },
            None => None,
        }
    }

    /// Takes one event and says what the caller has to do. The caller
    /// performs the actions in order before it hands in the next event; a
    /// transport failure while doing so ends the run.
    pub fn handle(&mut self, event: ResponderEvent) -> (r: Result<
        Vec<ResponderAction>,
        SessionError,
    >)
        ensures
            (final(self)@, outcome_view(r)) == responder_step(old(self)@, event@),
    {
        let mut actions: Vec<ResponderAction> = Vec::new();
        assert(actions_view(actions@) =~= Seq::empty());
        match event {
            ResponderEvent::Signal(ServerMessage::Role { role, cid }) => {
                if text_is(&role, "responder") {
                    Ok(actions)
                } else {
                    Err(SessionError::RoleMismatch { assigned: role })
                }
            },
            ResponderEvent::Signal(ServerMessage::Start { peer_id }) => {
                self.state = Some(ReceiverState::new());
                actions.push(ResponderAction::CreateSession);
                assert(actions_view(actions@) =~= seq![ResponderActionView::CreateSession]);
                Ok(actions)
            },
            ResponderEvent::Signal(ServerMessage::Offer { from, sid, sdp }) => {
                match self.state.take() {
                    None => Err(SessionError::NotInitialized),
                    Some(mut st) => {
                        let ghost first = ResponderActionView::SetRemoteDescription(sdp@);
                        let flushed = st.accept_offer(from, sid);
                        self.state = Some(st);
                        actions.push(ResponderAction::SetRemoteDescription(sdp));
                        let ghost all = candidates_view(flushed@);
                        assert(actions_view(actions@) =~= seq![first] + add_all(all.take(0)));
                        for c in it: flushed
                            invariant
                                all == candidates_view(it.seq()),
                                actions_view(actions@) == seq![first] + add_all(
                                    all.take(it.index() as int),
                                ),
                        {
                            let ghost i = it.index() as int;
                            let ghost before = actions@;
                            actions.push(ResponderAction::AddCandidate(c));
                            assert(c@ == all[i]);
                            assert(all.take(i + 1) =~= all.take(i).push(all[i]));
                            assert(add_all(all.take(i).push(all[i])) =~= add_all(
                                all.take(i),
                            ).push(ResponderActionView::AddCandidate(all[i])));
                            assert(actions_view(actions@) =~= actions_view(before).push(
                                ResponderActionView::AddCandidate(c@),
                            ));
                            assert(actions_view(actions@) =~= seq![first] + add_all(
                                all.take(i + 1),
                            ));
                        }
                        assert(all.take(all.len() as int) =~= all);
                        actions.push(ResponderAction::CreateAnswer);
                        assert(actions_view(actions@) =~= seq![first] + add_all(all) + seq![
                            ResponderActionView::CreateAnswer,
                        ]);
                        Ok(actions)
                    },
                }
            },
            ResponderEvent::Signal(ServerMessage::Candidate { from, sid, candidate }) => {
                match self.state.take() {
                    None => Ok(actions),
                    Some(mut st) => {
                        let outcome = st.handle_receiver_candidate(sid, candidate);
                        self.state = Some(st);
                        match outcome {
                            CandidateOutcome::Apply(c) => {
                                actions.push(ResponderAction::AddCandidate(c));
                                assert(actions_view(actions@) =~= seq![
                                    ResponderActionView::AddCandidate(c@),
                                ]);
                            },
                            _ => {},
                        }
                        Ok(actions)
                    },
                }
            },
            ResponderEvent::Signal(_) => Ok(actions),
            ResponderEvent::LocalDescription(sdp) => {
                match self.address() {
                    Some((to, sid)) => {
                        let ghost sent = ClientMessageView::Answer { to: to@, sid, sdp: sdp@ };
                        actions.push(ResponderAction::Send(ClientMessage::Answer { to, sid, sdp }));
                        assert(actions_view(actions@) =~= seq![ResponderActionView::Send(sent)]);
                    },
                    None => {},
                }
                Ok(actions)
            },
            ResponderEvent::LocalCandidate(candidate) => {
                match self.address() {
                    Some((to, sid)) => {
                        let ghost sent = ClientMessageView::Candidate {
                            to: to@,
                            sid,
                            candidate: candidate@,
                        };
                        actions.push(
                            ResponderAction::Send(ClientMessage::Candidate { to, sid, candidate }),
                        );
                        assert(actions_view(actions@) =~= seq![ResponderActionView::Send(sent)]);
                    },
                    None => {},
                }
                Ok(actions)
            },
        }
    }
}

} // verus!
