//! What holds of the initiator's transition over more than one event.

use vstd::prelude::*;
use crate::candidate_laws::{
    activates_nothing, arrivals, lemma_answer_order_irrelevant, lemma_session_survives,
    BufferEvent,
};
use crate::candidates::{payloads, tagged, PendingCandidateView};
use crate::initiator::{
    add_all, initiator_step, nothing, step_channel_open, step_peer_left, InitiatorActionView,
    InitiatorEventView,
};
use crate::offerer::OffererPeerStateView;
use crate::payload::{IceCandidateView, SessionDescriptionView};
use crate::peers::PeerMap;
use crate::signal::ServerMessageView;

verus! {

/// A peer that has left is gone: the peer-left notice removes it, and the
/// same notice once more, or one for a peer that was never connected, finds
/// nothing to do, changes nothing and is no error.
pub proof fn lemma_peer_left_idempotent(peers: PeerMap, peer_id: Seq<char>)
    ensures
        ({
            let left = InitiatorEventView::Signal(ServerMessageView::PeerLeft { peer_id });
            let once = initiator_step(peers, left);
            let twice = initiator_step(once.0, left);
            &&& !once.0.contains_key(peer_id)
            &&& once.1 is Ok
            &&& twice.0 == once.0
            &&& twice.1 == Ok::<_, crate::signal::SessionErrorView>(nothing())
        }),
{
    let once = step_peer_left(peers, peer_id);
    assert(!once.0.contains_key(peer_id));
}

/// A peer-left notice touches no other peer.
pub proof fn lemma_peer_left_spares_others(peers: PeerMap, peer_id: Seq<char>, other: Seq<char>)
    requires
        other != peer_id,
    ensures
        step_peer_left(peers, peer_id).0.contains_key(other) == peers.contains_key(other),
        peers.contains_key(other) ==> step_peer_left(peers, peer_id).0[other] == peers[other],
{
}

/// The file is sent to a peer at most once: after the data channel has
/// reported open, a further report for the same peer asks for nothing.
pub proof fn lemma_transfer_starts_once(peers: PeerMap, peer_id: Seq<char>)
    ensures
        step_channel_open(step_channel_open(peers, peer_id).0, peer_id).1 == nothing(),
        step_channel_open(step_channel_open(peers, peer_id).0, peer_id).0 == step_channel_open(
            peers,
            peer_id,
        ).0,
{
    let once = step_channel_open(peers, peer_id);
    if peers.contains_key(peer_id) {
        assert(once.0[peer_id].sending);
        assert(once.0.insert(peer_id, once.0[peer_id].begin_sending().0) =~= once.0);
    }
}

/// The first report that the data channel of a connected peer is open asks
/// for the file to be sent, whatever else has happened to the peer, as long
/// as no report came before.
pub proof fn lemma_transfer_starts_on_first_open(peers: PeerMap, peer_id: Seq<char>)
    requires
        peers.contains_key(peer_id),
        !peers[peer_id].sending,
    ensures
        step_channel_open(peers, peer_id).1 == seq![InitiatorActionView::SendFile { peer_id }],
{
}

/// Whether every connected peer's state is in order.
pub open spec fn peers_inv(peers: PeerMap) -> bool {
    forall|p: Seq<char>| peers.contains_key(p) ==> (#[trigger] peers[p]).inv()
}

/// Every event leaves every connected peer's state in order: a session id
/// is active only as the offer attempt numbered last, and nothing waits
/// behind an applied answer.
pub proof fn lemma_initiator_invariant(peers: PeerMap, e: InitiatorEventView)
    requires
        peers_inv(peers),
    ensures
        peers_inv(initiator_step(peers, e).0),
        peers_inv(PeerMap::empty()),
{
    let next = initiator_step(peers, e).0;
    assert forall|p: Seq<char>| next.contains_key(p) implies (#[trigger] next[p]).inv() by {
        if peers.contains_key(p) {
            assert(peers[p].inv());
        }
    }
}

/// Once the latch of a peer is set it stays set, whatever happens, until
/// the peer leaves or a new session with it starts.
pub proof fn lemma_latch_stays_set(peers: PeerMap, peer_id: Seq<char>, e: InitiatorEventView)
    requires
        peers.contains_key(peer_id),
        peers[peer_id].sending,
        e != InitiatorEventView::Signal(ServerMessageView::PeerLeft { peer_id }),
        e != InitiatorEventView::Signal(ServerMessageView::Start { peer_id: Some(peer_id) }),
    ensures
        initiator_step(peers, e).0.contains_key(peer_id),
        initiator_step(peers, e).0[peer_id].sending,
        initiator_step(peers, e).1 is Ok ==> !initiator_step(peers, e).1->Ok_0.contains(
            InitiatorActionView::SendFile { peer_id },
        ),
{
}

/// The initiator after a run of events, none of which ends the run, and
/// everything the run asks of the caller, in order.
pub open spec fn initiator_run(peers: PeerMap, events: Seq<InitiatorEventView>) -> (
    PeerMap,
    Seq<InitiatorActionView>,
)
    decreases events.len(),
{
    if events.len() == 0 {
        (peers, nothing())
    } else {
        let (mid, done) = initiator_run(peers, events.drop_last());
        let (next, outcome) = initiator_step(mid, events.last());
        (
            next,
            match outcome {
                Ok(actions) => done + actions,
                Err(_) => done,
            },
        )
    }
}

/// The candidates that a sequence of actions hands to the transport of
/// `peer_id`, in order.
pub open spec fn applied_for(actions: Seq<InitiatorActionView>, peer_id: Seq<char>) -> Seq<
    IceCandidateView,
>
    decreases actions.len(),
{
    if actions.len() == 0 {
        Seq::empty()
    } else {
        let before = applied_for(actions.drop_last(), peer_id);
        match actions.last() {
            InitiatorActionView::AddCandidate { peer_id: to, candidate } => if to == peer_id {
                before.push(candidate)
            } else {
                before
            },
            _ => before,
        }
    }
}

/// What happens to the buffer of `peer_id`, as an event of the initiator:
/// a candidate of the peer arrives, or its answer for the session `sid`.
pub open spec fn lift(
    peer_id: Seq<char>,
    sid: u64,
    sdp: SessionDescriptionView,
    b: BufferEvent,
) -> InitiatorEventView {
    match b {
        BufferEvent::Candidate(c) => InitiatorEventView::Signal(
            ServerMessageView::Candidate { from: peer_id, sid: c.sid, candidate: c.candidate },
        ),
        BufferEvent::RemoteDescriptionSet => InitiatorEventView::Signal(
            ServerMessageView::Answer { from: peer_id, sid, sdp },
        ),
        BufferEvent::Activate(_) => InitiatorEventView::Renegotiate { peer_id },
    }
}

/// A run of buffer events as a run of the initiator's events.
pub open spec fn lift_all(
    peer_id: Seq<char>,
    sid: u64,
    sdp: SessionDescriptionView,
    bs: Seq<BufferEvent>,
) -> Seq<InitiatorEventView> {
    bs.map_values(|b: BufferEvent| lift(peer_id, sid, sdp, b))
}

/// What is handed over by two runs of actions is what the first hands over
/// followed by what the second does.
pub proof fn lemma_applied_concat(
    first: Seq<InitiatorActionView>,
    second: Seq<InitiatorActionView>,
    peer_id: Seq<char>,
)
    ensures
        applied_for(first + second, peer_id) == applied_for(first, peer_id) + applied_for(
            second,
            peer_id,
        ),
    decreases second.len(),
{
    if second.len() == 0 {
        assert(first + second =~= first);
        assert(applied_for(first, peer_id) + applied_for(second, peer_id) =~= applied_for(
            first,
            peer_id,
        ));
    } else {
        assert((first + second).drop_last() =~= first + second.drop_last());
        lemma_applied_concat(first, second.drop_last(), peer_id);
        let a = applied_for(first, peer_id);
        let b = applied_for(second.drop_last(), peer_id);
        match second.last() {
            InitiatorActionView::AddCandidate { peer_id: to, candidate } => {
                if to == peer_id {
                    assert((a + b).push(candidate) =~= a + b.push(candidate));
                }
            },
            _ => {},
        }
    }
}

/// The actions that hand a sequence of candidates to a peer's transport
/// hand over exactly those candidates.
pub proof fn lemma_applied_add_all(peer_id: Seq<char>, cs: Seq<IceCandidateView>)
    ensures
        applied_for(add_all(peer_id, cs), peer_id) == cs,
    decreases cs.len(),
{
    if cs.len() == 0 {
        assert(applied_for(add_all(peer_id, cs), peer_id) =~= cs);
    } else {
        assert(add_all(peer_id, cs).drop_last() =~= add_all(peer_id, cs.drop_last()));
        lemma_applied_add_all(peer_id, cs.drop_last());
        assert(cs.drop_last().push(cs.last()) =~= cs);
    }
}

/// The initiator treats the candidates and answers of a peer exactly as
/// the candidate buffer treats its events: after a run of them the peer's
/// buffer is where the buffer's own run ends, and the candidates handed to
/// the peer's transport are those that the buffer's run hands over.
pub proof fn lemma_initiator_follows_buffer(
    peers: PeerMap,
    peer_id: Seq<char>,
    sid: u64,
    sdp: SessionDescriptionView,
    bs: Seq<BufferEvent>,
)
    requires
        peers.contains_key(peer_id),
        peers[peer_id].candidates.active_sid == Some(sid),
        activates_nothing(bs),
    ensures
        ({
            let (end, actions) = initiator_run(peers, lift_all(peer_id, sid, sdp, bs));
            let (buffer, applied) = peers[peer_id].candidates.run(bs);
            &&& end.contains_key(peer_id)
            &&& end[peer_id] == (OffererPeerStateView { candidates: buffer, ..peers[peer_id] })
            &&& applied_for(actions, peer_id) == payloads(applied)
        }),
    decreases bs.len(),
{
    let start = peers[peer_id].candidates;
    if bs.len() == 0 {
        assert(payloads(Seq::<PendingCandidateView>::empty()) =~= Seq::<IceCandidateView>::empty());
    } else {
        let head = bs.drop_last();
        assert(lift_all(peer_id, sid, sdp, bs).drop_last() =~= lift_all(peer_id, sid, sdp, head));
        assert(bs[bs.len() - 1] == bs.last());
        lemma_initiator_follows_buffer(peers, peer_id, sid, sdp, head);
        lemma_session_survives(start, head);
        let (mid, done) = initiator_run(peers, lift_all(peer_id, sid, sdp, head));
        let (buffer, applied) = start.run(head);
        let more = buffer.step(bs.last()).1;
        let asked = initiator_step(mid, lift(peer_id, sid, sdp, bs.last())).1->Ok_0;
        lemma_applied_concat(done, asked, peer_id);
        assert(payloads(applied + more) =~= payloads(applied) + payloads(more));
        match bs.last() {
            BufferEvent::Candidate(c) => {
                if more.len() > 0 {
                    assert(asked =~= add_all(peer_id, seq![c.candidate]));
                    lemma_applied_add_all(peer_id, seq![c.candidate]);
                    assert(payloads(more) =~= seq![c.candidate]);
                } else {
                    assert(payloads(more) =~= Seq::<IceCandidateView>::empty());
                }
            },
            BufferEvent::RemoteDescriptionSet => {
                let first = seq![
                    InitiatorActionView::SetRemoteDescription { peer_id, sdp },
                ];
                lemma_applied_concat(first, add_all(peer_id, payloads(more)), peer_id);
                lemma_applied_add_all(peer_id, payloads(more));
                assert(first.drop_last() =~= Seq::<InitiatorActionView>::empty());
                assert(first.last() == InitiatorActionView::SetRemoteDescription { peer_id, sdp });
                assert(applied_for(first.drop_last(), peer_id) =~= Seq::<IceCandidateView>::empty());
                assert(applied_for(first, peer_id) =~= Seq::<IceCandidateView>::empty());
                assert(Seq::<IceCandidateView>::empty() + payloads(more) =~= payloads(more));
            },
            BufferEvent::Activate(_) => {},
        }
    }
}

/// Wherever among a peer's candidates its answer arrives, the initiator
/// hands the same candidates to the peer's transport in the same order:
/// those tagged with the active session id, in arrival order, the ones
/// that waited already first.
pub proof fn lemma_initiator_answer_order_irrelevant(
    peers: PeerMap,
    peer_id: Seq<char>,
    sid: u64,
    sdp: SessionDescriptionView,
    cs: Seq<PendingCandidateView>,
    k: int,
)
    requires
        peers.contains_key(peer_id),
        peers[peer_id].candidates.active_sid == Some(sid),
        !peers[peer_id].candidates.remote_desc_set,
        0 <= k <= cs.len(),
    ensures
        applied_for(
            initiator_run(
                peers,
                lift_all(
                    peer_id,
                    sid,
                    sdp,
                    arrivals(cs.take(k)) + seq![BufferEvent::RemoteDescriptionSet] + arrivals(
                        cs.skip(k),
                    ),
                ),
            ).1,
            peer_id,
        ) == payloads(tagged(peers[peer_id].candidates.pending + cs, sid)),
{
    let bs = arrivals(cs.take(k)) + seq![BufferEvent::RemoteDescriptionSet] + arrivals(cs.skip(k));
    assert(activates_nothing(bs));
    lemma_initiator_follows_buffer(peers, peer_id, sid, sdp, bs);
    lemma_answer_order_irrelevant(peers[peer_id].candidates, sid, cs, k);
}

/// After a renegotiation, what belongs to the session before it is lost:
/// its answer is ignored, and once the answer of the new session is
/// applied, a candidate tagged with the old session id is dropped on
/// arrival and none waits in the queue.
pub proof fn lemma_stale_session_ignored_after_renegotiation(
    peers: PeerMap,
    peer_id: Seq<char>,
    sdp: SessionDescriptionView,
    late: PendingCandidateView,
)
    requires
        peers.contains_key(peer_id),
        peers[peer_id].inv(),
        peers[peer_id].signal_sid < u64::MAX,
        late.sid == peers[peer_id].signal_sid,
    ensures
        ({
            let renewed = initiator_step(peers, InitiatorEventView::Renegotiate { peer_id }).0;
            let current = (late.sid + 1) as u64;
            let old_answer = InitiatorEventView::Signal(
                ServerMessageView::Answer { from: peer_id, sid: late.sid, sdp },
            );
            let new_answer = InitiatorEventView::Signal(
                ServerMessageView::Answer { from: peer_id, sid: current, sdp },
            );
            let arrival = InitiatorEventView::Signal(
                ServerMessageView::Candidate {
                    from: peer_id,
                    sid: late.sid,
                    candidate: late.candidate,
                },
            );
            let answered = initiator_step(renewed, new_answer).0;
            &&& renewed[peer_id].candidates.active_sid == Some(current)
            &&& initiator_step(renewed, old_answer) == (
                renewed,
                Ok::<_, crate::signal::SessionErrorView>(nothing()),
            )
            &&& answered[peer_id].candidates.pending.len() == 0
            &&& initiator_step(answered, arrival).1 == Ok::<_, crate::signal::SessionErrorView>(
                nothing(),
            )
            &&& initiator_step(answered, arrival).0 =~= answered
        }),
{
    let renewed = initiator_step(peers, InitiatorEventView::Renegotiate { peer_id }).0;
    let current = (late.sid + 1) as u64;
    let new_answer = InitiatorEventView::Signal(
        ServerMessageView::Answer { from: peer_id, sid: current, sdp },
    );
    let answered = initiator_step(renewed, new_answer).0;
    let arrival = InitiatorEventView::Signal(
        ServerMessageView::Candidate { from: peer_id, sid: late.sid, candidate: late.candidate },
    );
    assert(renewed.contains_key(peer_id));
    assert(answered.contains_key(peer_id));
    assert(answered[peer_id].candidates.remote_desc_set);
    assert(initiator_step(answered, arrival).0 =~= answered);
}

} // verus!
