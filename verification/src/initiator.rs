//! The sending side of a negotiation: one session per connected peer.

use vstd::prelude::*;
use crate::candidates::{
    candidates_view, payloads, CandidateOutcome, CandidateOutcomeView, PendingCandidateView,
};
use crate::offerer::{OffererPeerState, OffererPeerStateView};
use crate::peers::{PeerMap, PeerTable};
use crate::payload::{IceCandidate, IceCandidateView, SessionDescription, SessionDescriptionView};
use crate::text::text_is;
use crate::signal::{
    initiator_role, ClientMessage, ClientMessageView, ServerMessage,
    ServerMessageView, SessionError, SessionErrorView,
};

verus! {

/// Something that happens to the initiator.
#[derive(Clone, Debug, PartialEq, Eq)]
pub enum InitiatorEvent {
    /// A message arrived on the signaling stream.
    Signal(ServerMessage),
    /// The transport of this peer has made the offer its local description.
    LocalDescription { peer_id: String, sdp: SessionDescription },
    /// The transport of this peer has discovered a local candidate.
    LocalCandidate { peer_id: String, candidate: IceCandidate },
    /// The data channel to this peer reports that it is open.
    ChannelOpen { peer_id: String },
    /// The file has been sent to this peer without a failure.
    TransferFinished { peer_id: String },
    /// The negotiation with this peer is to be started over.
    Renegotiate { peer_id: String },
}

/// Mathematical model of an [`InitiatorEvent`].
pub enum InitiatorEventView {
    Signal(ServerMessageView),
    LocalDescription { peer_id: Seq<char>, sdp: SessionDescriptionView },
    LocalCandidate { peer_id: Seq<char>, candidate: IceCandidateView },
    ChannelOpen { peer_id: Seq<char> },
    TransferFinished { peer_id: Seq<char> },
    Renegotiate { peer_id: Seq<char> },
}

impl View for InitiatorEvent {
    type V = InitiatorEventView;

    open spec fn view(&self) -> InitiatorEventView {
        match self {
            InitiatorEvent::Signal(m) => InitiatorEventView::Signal(m@),
            InitiatorEvent::LocalDescription { peer_id, sdp } => InitiatorEventView::LocalDescription {
                peer_id: peer_id@,
                sdp: sdp@,
            },
            InitiatorEvent::LocalCandidate { peer_id, candidate } => InitiatorEventView::LocalCandidate {
                peer_id: peer_id@,
                candidate: candidate@,
            },
            InitiatorEvent::ChannelOpen { peer_id } => InitiatorEventView::ChannelOpen {
                peer_id: peer_id@,
            },
            InitiatorEvent::TransferFinished { peer_id } => InitiatorEventView::TransferFinished {
                peer_id: peer_id@,
            },
            InitiatorEvent::Renegotiate { peer_id } => InitiatorEventView::Renegotiate {
                peer_id: peer_id@,
            },
        }
    }
}

/// Something the caller has to do for the initiator, in the order given.
#[derive(Clone, Debug, PartialEq, Eq)]
pub enum InitiatorAction {
    /// Create the transport session of this peer, with its event handlers
    /// and the reliable ordered data channel that will carry the file.
    CreateSession { peer_id: String },
    /// Create an offer on the session of this peer and make it the local
    /// description.
    CreateOffer { peer_id: String },
    /// Apply the peer's answer to its transport session.
    SetRemoteDescription { peer_id: String, sdp: SessionDescription },
    /// Hand a candidate of the peer to its transport session.
    AddCandidate { peer_id: String, candidate: IceCandidate },
    /// Write a message to the signaling stream.
    Send(ClientMessage),
    /// Send the file on the data channel of this peer.
    SendFile { peer_id: String },
    /// Let go of the transport session of this peer.
    DropSession { peer_id: String },
}

/// Mathematical model of an [`InitiatorAction`].
pub enum InitiatorActionView {
    CreateSession { peer_id: Seq<char> },
    CreateOffer { peer_id: Seq<char> },
    SetRemoteDescription { peer_id: Seq<char>, sdp: SessionDescriptionView },
    AddCandidate { peer_id: Seq<char>, candidate: IceCandidateView },
    Send(ClientMessageView),
    SendFile { peer_id: Seq<char> },
    DropSession { peer_id: Seq<char> },
}

impl View for InitiatorAction {
    type V = InitiatorActionView;

    open spec fn view(&self) -> InitiatorActionView {
        match self {
            InitiatorAction::CreateSession { peer_id } => InitiatorActionView::CreateSession {
                peer_id: peer_id@,
            },
            InitiatorAction::CreateOffer { peer_id } => InitiatorActionView::CreateOffer {
                peer_id: peer_id@,
            },
            InitiatorAction::SetRemoteDescription { peer_id, sdp } => InitiatorActionView::SetRemoteDescription {
                peer_id: peer_id@,
                sdp: sdp@,
            },
            InitiatorAction::AddCandidate { peer_id, candidate } => InitiatorActionView::AddCandidate {
                peer_id: peer_id@,
                candidate: candidate@,
            },
            InitiatorAction::Send(m) => InitiatorActionView::Send(m@),
            InitiatorAction::SendFile { peer_id } => InitiatorActionView::SendFile {
                peer_id: peer_id@,
            },
            InitiatorAction::DropSession { peer_id } => InitiatorActionView::DropSession {
                peer_id: peer_id@,
            },
        }
    }
}

/// Models of a sequence of actions.
pub open spec fn actions_view(s: Seq<InitiatorAction>) -> Seq<InitiatorActionView> {
    s.map_values(|a: InitiatorAction| a@)
}

/// One action per candidate, in order: hand it to the transport of `peer_id`.
pub open spec fn add_all(peer_id: Seq<char>, cs: Seq<IceCandidateView>) -> Seq<InitiatorActionView> {
    cs.map_values(|c: IceCandidateView| InitiatorActionView::AddCandidate { peer_id, candidate: c })
}

/// The outcome of one event: the actions to perform, or the error that ends the run.
pub type InitiatorOutcome = Result<Seq<InitiatorActionView>, SessionErrorView>;

/// No action.
pub open spec fn nothing() -> Seq<InitiatorActionView> {
    Seq::empty()
}

/// A session starts with `peer_id`: the peer gets a new state, replacing any
/// it had, and its first offer is under way.
pub open spec fn step_start(peers: PeerMap, peer_id: Seq<char>) -> (
    PeerMap,
    Seq<InitiatorActionView>,
) {
    (
        peers.insert(peer_id, OffererPeerStateView::fresh().send_offer().0),
        seq![
            InitiatorActionView::CreateSession { peer_id },
            InitiatorActionView::CreateOffer { peer_id },
        ],
    )
}

/// An answer arrives from `from`. It counts only for a known peer and the
/// peer's active session.
pub open spec fn step_answer(peers: PeerMap, from: Seq<char>, sid: u64, sdp: SessionDescriptionView) -> (
    PeerMap,
    Seq<InitiatorActionView>,
) {
    if peers.contains_key(from) {
        match peers[from].handle_answer(sid) {
            (st, Some(flushed)) => (
                peers.insert(from, st),
                seq![InitiatorActionView::SetRemoteDescription { peer_id: from, sdp }] + add_all(
                    from,
                    payloads(flushed),
                ),
            ),
            (_, None) => (peers, nothing()),
        }
    } else {
        (peers, nothing())
    }
}

/// A candidate arrives from `from` and goes through that peer's buffer.
pub open spec fn step_candidate(peers: PeerMap, from: Seq<char>, c: PendingCandidateView) -> (
    PeerMap,
    Seq<InitiatorActionView>,
) {
    if peers.contains_key(from) {
        let (candidates, outcome) = peers[from].candidates.accept(c);
        (
            peers.insert(from, OffererPeerStateView { candidates, ..peers[from] }),
            match outcome {
                CandidateOutcomeView::Apply(candidate) => seq![
                    InitiatorActionView::AddCandidate { peer_id: from, candidate },
                ],
                _ => nothing(),
            },
        )
    } else {
        (peers, nothing())
    }
}

/// A peer leaves: its state goes, with everything that waited in it.
pub open spec fn step_peer_left(peers: PeerMap, peer_id: Seq<char>) -> (
    PeerMap,
    Seq<InitiatorActionView>,
) {
    if peers.contains_key(peer_id) {
        (peers.remove(peer_id), seq![InitiatorActionView::DropSession { peer_id }])
    } else {
        (peers, nothing())
    }
}

/// The data channel of a peer opens: the first time, the file is sent.
pub open spec fn step_channel_open(peers: PeerMap, peer_id: Seq<char>) -> (
    PeerMap,
    Seq<InitiatorActionView>,
) {
    if peers.contains_key(peer_id) {
        let (st, first) = peers[peer_id].begin_sending();
        (
            peers.insert(peer_id, st),
            if first {
                seq![InitiatorActionView::SendFile { peer_id }]
            } else {
                nothing()
            },
        )
    } else {
        (peers, nothing())
    }
}

/// The negotiation with a peer starts over under the next session id.
pub open spec fn step_renegotiate(peers: PeerMap, peer_id: Seq<char>) -> (
    PeerMap,
    Seq<InitiatorActionView>,
) {
    if peers.contains_key(peer_id) {
        match peers[peer_id].renegotiate() {
            (st, Some(_)) => (
                peers.insert(peer_id, st),
                seq![InitiatorActionView::CreateOffer { peer_id }],
            ),
            (_, None) => (peers, nothing()),
        }
    } else {
        (peers, nothing())
    }
}

/// What the initiator sends for a local description or candidate of a
/// peer's transport: nothing unless the peer is known and has an active
/// session, whose id the message then carries.
pub open spec fn announce(
    peers: PeerMap,
    peer_id: Seq<char>,
    message: spec_fn(u64) -> ClientMessageView,
) -> Seq<InitiatorActionView> {
    if peers.contains_key(peer_id) {
        match peers[peer_id].candidates.active_sid {
            Some(sid) => seq![InitiatorActionView::Send(message(sid))],
            None => nothing(),
        }
    } else {
        nothing()
    }
}

/// The initiator's transition: the peers after an event, and what the event
/// asks of the caller.
pub open spec fn initiator_step(peers: PeerMap, e: InitiatorEventView) -> (PeerMap, InitiatorOutcome) {
    match e {
        InitiatorEventView::Signal(ServerMessageView::Role { role, cid }) => if role
            == initiator_role() {
            (peers, Ok(nothing()))
        } else {
            (peers, Err(SessionErrorView::RoleMismatch { assigned: role }))
        },
        InitiatorEventView::Signal(ServerMessageView::Start { peer_id: Some(p) }) => {
            let (next, actions) = step_start(peers, p);
            (next, Ok(actions))
        },
        InitiatorEventView::Signal(ServerMessageView::Answer { from, sid, sdp }) => {
            let (next, actions) = step_answer(peers, from, sid, sdp);
            (next, Ok(actions))
        },
        InitiatorEventView::Signal(ServerMessageView::Candidate { from, sid, candidate }) => {
            let (next, actions) = step_candidate(
                peers,
                from,
                PendingCandidateView { sid, candidate },
            );
            (next, Ok(actions))
        },
        InitiatorEventView::Signal(ServerMessageView::PeerLeft { peer_id }) => {
            let (next, actions) = step_peer_left(peers, peer_id);
            (next, Ok(actions))
        },
        InitiatorEventView::Signal(_) => (peers, Ok(nothing())),
        InitiatorEventView::LocalDescription { peer_id, sdp } => (
            peers,
            Ok(announce(peers, peer_id, |sid: u64| ClientMessageView::Offer { to: peer_id, sid, sdp })),
        ),
        InitiatorEventView::LocalCandidate { peer_id, candidate } => (
            peers,
            Ok(
                announce(
                    peers,
                    peer_id,
                    |sid: u64| ClientMessageView::Candidate { to: peer_id, sid, candidate },
                ),
            ),
        ),
        InitiatorEventView::ChannelOpen { peer_id } => {
            let (next, actions) = step_channel_open(peers, peer_id);
            (next, Ok(actions))
        },
        InitiatorEventView::TransferFinished { peer_id } => (
            peers,
            Ok(seq![InitiatorActionView::Send(ClientMessageView::TransferDone { peer_id })]),
        ),
        InitiatorEventView::Renegotiate { peer_id } => {
            let (next, actions) = step_renegotiate(peers, peer_id);
            (next, Ok(actions))
        },
    }
}

/// Model of what `handle` returns.
pub open spec fn outcome_view(r: Result<Vec<InitiatorAction>, SessionError>) -> InitiatorOutcome {
    match r {
        Ok(actions) => Ok(actions_view(actions@)),
        Err(e) => Err(e@),
    }
}

/// The sending side of the exchange.
#[derive(Debug)]
pub struct Initiator {
    peers: PeerTable,
}

impl View for Initiator {
    type V = PeerMap;

    closed spec fn view(&self) -> PeerMap {
        self.peers@
    }
}

/// An empty list of actions.
fn no_actions() -> (actions: Vec<InitiatorAction>)
    ensures
        actions_view(actions@) == nothing(),
{
    let actions: Vec<InitiatorAction> = Vec::new();
    assert(actions_view(actions@) =~= nothing());
    actions
}

/// A list of one action.
fn one_action(a: InitiatorAction) -> (actions: Vec<InitiatorAction>)
    ensures
        actions_view(actions@) == seq![a@],
{
    let mut actions: Vec<InitiatorAction> = Vec::new();
    actions.push(a);
    assert(actions_view(actions@) =~= seq![a@]);
    actions
}

impl Initiator {
    /// An initiator without peers.
    pub fn new() -> (i: Initiator)
        ensures
            i@ == PeerMap::empty(),
    {
        Initiator { peers: PeerTable::new() }
    }

    /// How many peers are connected.
    pub fn peer_count(&self) -> (n: usize)
        ensures
            n == self@.dom().len(),
    {
        self.peers.len()
    }

    /// The state of the peer `peer_id`, if it is connected.
    pub fn peer(&self, peer_id: &String) -> (st: Option<&OffererPeerState>)
        ensures
            match st {
                Some(s) => self@.contains_key(peer_id@) && self@[peer_id@] == s@,
                None => !self@.contains_key(peer_id@),
            },
    {
        self.peers.get(peer_id)
    }

    /// A session starts with `peer_id`: the peer gets a new state, in place
    /// of any it had, and its first offer is numbered.
    pub fn create_offerer_peer(&mut self, peer_id: String) -> (actions: Vec<InitiatorAction>)
        ensures
            (final(self)@, actions_view(actions@)) == step_start(old(self)@, peer_id@),
    {
        let mut st = OffererPeerState::new();
        let _ = st.send_offer();
        let mut actions: Vec<InitiatorAction> = Vec::new();
        actions.push(InitiatorAction::CreateSession { peer_id: peer_id.clone() });
        actions.push(InitiatorAction::CreateOffer { peer_id: peer_id.clone() });
        self.peers.put(peer_id, st);
        assert(actions_view(actions@) =~= step_start(old(self)@, peer_id@).1);
        actions
    }

    /// Takes the answer that `from` sent for the session `sid`.
    pub fn handle_answer(&mut self, from: String, sid: u64, sdp: SessionDescription) -> (actions:
        Vec<InitiatorAction>)
        ensures
            (final(self)@, actions_view(actions@)) == step_answer(old(self)@, from@, sid, sdp@),
    {
        let mut st = match self.peers.take(&from) {
            Some(st) => st,
            None => {
                assert(self@ =~= old(self)@);
                return no_actions();
            },
        };
        let flushed = st.handle_answer(sid);
        self.peers.put(from.clone(), st);
        assert(self@ =~= old(self)@.insert(from@, old(self)@[from@].handle_answer(sid).0));
        match flushed {
            None => {
                assert(self@ =~= old(self)@);
                no_actions()
            },
            Some(flushed) => {
                let ghost first = InitiatorActionView::SetRemoteDescription {
                    peer_id: from@,
                    sdp: sdp@,
                };
                let mut actions: Vec<InitiatorAction> = Vec::new();
                actions.push(InitiatorAction::SetRemoteDescription { peer_id: from.clone(), sdp });
                let ghost all = candidates_view(flushed@);
                assert(actions_view(actions@) =~= seq![first] + add_all(from@, all.take(0)));
                for c in it: flushed
                    invariant
                        all == candidates_view(it.seq()),
                        actions_view(actions@) == seq![first] + add_all(
                            from@,
                            all.take(it.index() as int),
                        ),
                {
                    let ghost i = it.index() as int;
                    let ghost before = actions@;
                    let ghost added = InitiatorActionView::AddCandidate {
                        peer_id: from@,
                        candidate: all[i],
                    };
                    actions.push(InitiatorAction::AddCandidate { peer_id: from.clone(), candidate: c });
                    assert(c@ == all[i]);
                    assert(all.take(i + 1) =~= all.take(i).push(all[i]));
                    assert(add_all(from@, all.take(i).push(all[i])) =~= add_all(
                        from@,
                        all.take(i),
                    ).push(added));
                    assert(actions_view(actions@) =~= actions_view(before).push(added));
                }
                assert(all.take(all.len() as int) =~= all);
                actions
            },
        }
    }

    /// Routes a candidate that `from` sent under the session `sid`.
    pub fn handle_offer_candidate(&mut self, from: String, sid: u64, candidate: IceCandidate) -> (actions:
        Vec<InitiatorAction>)
        ensures
            (final(self)@, actions_view(actions@)) == step_candidate(
                old(self)@,
                from@,
                PendingCandidateView { sid, candidate: candidate@ },
            ),
    {
        let mut st = match self.peers.take(&from) {
            Some(st) => st,
            None => {
                assert(self@ =~= old(self)@);
                return no_actions();
            },
        };
        let outcome = st.handle_offer_candidate(sid, candidate);
        self.peers.put(from.clone(), st);
        assert(self@ =~= step_candidate(
            old(self)@,
            from@,
            PendingCandidateView { sid, candidate: candidate@ },
        ).0);
        match outcome {
            CandidateOutcome::Apply(c) => one_action(
                InitiatorAction::AddCandidate { peer_id: from, candidate: c },
            ),
            _ => no_actions(),
        }
    }

    /// The peer `peer_id` has left: its session and what waited for it go.
    /// For a peer that is not connected nothing happens.
    pub fn remove_peer(&mut self, peer_id: String) -> (actions: Vec<InitiatorAction>)
        ensures
            (final(self)@, actions_view(actions@)) == step_peer_left(old(self)@, peer_id@),
    {
        match self.peers.take(&peer_id) {
            Some(_) => one_action(InitiatorAction::DropSession { peer_id }),
            None => {
                assert(self@ =~= old(self)@);
                no_actions()
            },
        }
    }

    /// The data channel to `peer_id` reports open.
    pub fn channel_open(&mut self, peer_id: String) -> (actions: Vec<InitiatorAction>)
        ensures
            (final(self)@, actions_view(actions@)) == step_channel_open(old(self)@, peer_id@),
    {
        let mut st = match self.peers.take(&peer_id) {
            Some(st) => st,
            None => {
                assert(self@ =~= old(self)@);
                return no_actions();
            },
        };
        let first = st.begin_sending();
        self.peers.put(peer_id.clone(), st);
        if first {
            one_action(InitiatorAction::SendFile { peer_id })
        } else {
            no_actions()
        }
    }

    /// Starts the negotiation with `peer_id` over under the next session id.
    pub fn renegotiate(&mut self, peer_id: String) -> (actions: Vec<InitiatorAction>)
        ensures
            (final(self)@, actions_view(actions@)) == step_renegotiate(old(self)@, peer_id@),
    {
        let mut st = match self.peers.take(&peer_id) {
            Some(st) => st,
            None => {
                assert(self@ =~= old(self)@);
                return no_actions();
            },
        };
        let sid = st.renegotiate();
        self.peers.put(peer_id.clone(), st);
        match sid {
            Some(_) => one_action(InitiatorAction::CreateOffer { peer_id }),
            None => {
                assert(self@ =~= old(self)@);
                no_actions()
            },
        }
    }

    /// The session id under which `peer_id` is addressed, if it is connected
    /// and has one.
    fn session_of(&self, peer_id: &String) -> (sid: Option<u64>)
        ensures
            sid == (if self@.contains_key(peer_id@) {
                self@[peer_id@].candidates.active_sid
            } else {
                None
            }),
    {
        match self.peers.get(peer_id) {
            Some(st) => st.active_sid(),
            None => None,
        }
    }

    /// Takes one event and says what the caller has to do. The caller
    /// performs the actions in order before it hands in the next event of
    /// the signaling stream; a transport failure while doing so ends the run.
    pub fn handle(&mut self, event: InitiatorEvent) -> (r: Result<
        Vec<InitiatorAction>,
        SessionError,
    >)
        ensures
            (final(self)@, outcome_view(r)) == initiator_step(old(self)@, event@),
    {
        match event {
            InitiatorEvent::Signal(ServerMessage::Role { role, cid }) => {
                if text_is(&role, "initiator") {
                    Ok(no_actions())
                } else {
                    Err(SessionError::RoleMismatch { assigned: role })
                }
            },
            InitiatorEvent::Signal(ServerMessage::Start { peer_id: Some(p) }) => Ok(
                self.create_offerer_peer(p),
            ),
            InitiatorEvent::Signal(ServerMessage::Answer { from, sid, sdp }) => Ok(
                self.handle_answer(from, sid, sdp),
            ),
            InitiatorEvent::Signal(ServerMessage::Candidate { from, sid, candidate }) => Ok(
                self.handle_offer_candidate(from, sid, candidate),
            ),
            InitiatorEvent::Signal(ServerMessage::PeerLeft { peer_id }) => Ok(
                self.remove_peer(peer_id),
            ),
            InitiatorEvent::Signal(_) => Ok(no_actions()),
            InitiatorEvent::LocalDescription { peer_id, sdp } => {
                match self.session_of(&peer_id) {
                    Some(sid) => Ok(
                        one_action(
                            InitiatorAction::Send(ClientMessage::Offer { to: peer_id, sid, sdp }),
                        ),
                    ),
                    None => Ok(no_actions()),
                }
            },
            InitiatorEvent::LocalCandidate { peer_id, candidate } => {
                match self.session_of(&peer_id) {
                    Some(sid) => Ok(
                        one_action(
                            InitiatorAction::Send(
                                ClientMessage::Candidate { to: peer_id, sid, candidate },
                            ),
                        ),
                    ),
                    None => Ok(no_actions()),
                }
            },
            InitiatorEvent::ChannelOpen { peer_id } => Ok(self.channel_open(peer_id)),
            InitiatorEvent::TransferFinished { peer_id } => Ok(
                one_action(InitiatorAction::Send(ClientMessage::TransferDone { peer_id })),
            ),
            InitiatorEvent::Renegotiate { peer_id } => Ok(self.renegotiate(peer_id)),
        }
    }
}

} // verus!
