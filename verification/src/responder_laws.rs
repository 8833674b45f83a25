//! What holds of the responder's transition over more than one event.

use vstd::prelude::*;
use crate::candidate_laws::{
    arrivals, lemma_arrivals_after_description, lemma_arrivals_before_description,
};
use crate::candidates::{payloads, tagged, CandidateBufferView, PendingCandidateView};
use crate::payload::{IceCandidateView, SessionDescriptionView};
use crate::responder::{
    add_all, responder_step, ReceiverStateView, ResponderActionView, ResponderEventView,
};
use crate::signal::ServerMessageView;

verus! {

impl ReceiverStateView {
    /// What holds of a started responder at all times: the buffer is in
    /// order, and a peer is bound exactly when a session id is active.
    pub open spec fn inv(self) -> bool {
        &&& self.candidates.inv()
        &&& self.peer_id is Some <==> self.candidates.active_sid is Some
    }
}

/// Whether the responder's state, if it has one, is in order.
pub open spec fn responder_inv(s: Option<ReceiverStateView>) -> bool {
    s matches Some(st) ==> st.inv()
}

/// Every event leaves the responder's state in order.
pub proof fn lemma_responder_invariant(s: Option<ReceiverStateView>, e: ResponderEventView)
    requires
        responder_inv(s),
    ensures
        responder_inv(responder_step(s, e).0),
        responder_inv(None),
{
}

/// The responder does not look at who a candidate claims to be from.
pub proof fn lemma_candidate_sender_ignored(
    s: Option<ReceiverStateView>,
    one: Seq<char>,
    other: Seq<char>,
    sid: u64,
    candidate: IceCandidateView,
)
    ensures
        responder_step(
            s,
            ResponderEventView::Signal(ServerMessageView::Candidate { from: one, sid, candidate }),
        ) == responder_step(
            s,
            ResponderEventView::Signal(
                ServerMessageView::Candidate { from: other, sid, candidate },
            ),
        ),
{
}

/// The responder after a run of events, none of which ends the run, and
/// everything the run asks of the caller, in order.
pub open spec fn responder_run(s: Option<ReceiverStateView>, events: Seq<ResponderEventView>) -> (
    Option<ReceiverStateView>,
    Seq<ResponderActionView>,
)
    decreases events.len(),
{
    if events.len() == 0 {
        (s, Seq::empty())
    } else {
        let (mid, done) = responder_run(s, events.drop_last());
        let (next, outcome) = responder_step(mid, events.last());
        (
            next,
            match outcome {
                Ok(actions) => done + actions,
                Err(_) => done,
            },
        )
    }
}

/// The candidates that a sequence of actions hands to the transport, in order.
pub open spec fn applied_by(actions: Seq<ResponderActionView>) -> Seq<IceCandidateView>
    decreases actions.len(),
{
    if actions.len() == 0 {
        Seq::empty()
    } else {
        let before = applied_by(actions.drop_last());
        match actions.last() {
            ResponderActionView::AddCandidate(candidate) => before.push(candidate),
            _ => before,
        }
    }
}

/// The events of a sequence of candidates arriving from `from`.
pub open spec fn candidate_events(from: Seq<char>, cs: Seq<PendingCandidateView>) -> Seq<
    ResponderEventView,
> {
    cs.map_values(
        |c: PendingCandidateView|
            ResponderEventView::Signal(
                ServerMessageView::Candidate { from, sid: c.sid, candidate: c.candidate },
            ),
    )
}

/// A run of two parts is the run of the first part followed by the run of
/// the second from where the first ended.
pub proof fn lemma_responder_run_concat(
    s: Option<ReceiverStateView>,
    first: Seq<ResponderEventView>,
    second: Seq<ResponderEventView>,
)
    ensures
        responder_run(s, first + second).0 == responder_run(responder_run(s, first).0, second).0,
        responder_run(s, first + second).1 == responder_run(s, first).1 + responder_run(
            responder_run(s, first).0,
            second,
        ).1,
    decreases second.len(),
{
    let mid = responder_run(s, first);
    if second.len() == 0 {
        assert(first + second =~= first);
        assert(mid.1 + Seq::<ResponderActionView>::empty() =~= mid.1);
    } else {
        assert((first + second).drop_last() =~= first + second.drop_last());
        assert((first + second).last() == second.last());
        lemma_responder_run_concat(s, first, second.drop_last());
        let head = responder_run(mid.0, second.drop_last());
        match responder_step(head.0, second.last()).1 {
            Ok(actions) => {
                assert((mid.1 + head.1) + actions =~= mid.1 + (head.1 + actions));
            },
            Err(_) => {},
        }
    }
}

/// What is handed over by two runs of actions is what the first hands over
/// followed by what the second does.
pub proof fn lemma_applied_by_concat(first: Seq<ResponderActionView>, second: Seq<ResponderActionView>)
    ensures
        applied_by(first + second) == applied_by(first) + applied_by(second),
    decreases second.len(),
{
    if second.len() == 0 {
        assert(first + second =~= first);
        assert(applied_by(first) + applied_by(second) =~= applied_by(first));
    } else {
        assert((first + second).drop_last() =~= first + second.drop_last());
        lemma_applied_by_concat(first, second.drop_last());
        let a = applied_by(first);
        let b = applied_by(second.drop_last());
        match second.last() {
            ResponderActionView::AddCandidate(candidate) => {
                assert((a + b).push(candidate) =~= a + b.push(candidate));
            },
            _ => {},
        }
    }
}

/// The actions that hand a sequence of candidates to the transport hand
/// over exactly those candidates.
pub proof fn lemma_applied_by_add_all(cs: Seq<IceCandidateView>)
    ensures
        applied_by(add_all(cs)) == cs,
    decreases cs.len(),
{
    if cs.len() == 0 {
        assert(applied_by(add_all(cs)) =~= cs);
    } else {
        assert(add_all(cs).drop_last() =~= add_all(cs.drop_last()));
        lemma_applied_by_add_all(cs.drop_last());
        assert(cs.drop_last().push(cs.last()) =~= cs);
    }
}

/// A started responder treats arriving candidates exactly as its candidate
/// buffer does.
pub proof fn lemma_responder_follows_arrivals(
    st: ReceiverStateView,
    from: Seq<char>,
    cs: Seq<PendingCandidateView>,
)
    ensures
        ({
            let (end, actions) = responder_run(Some(st), candidate_events(from, cs));
            let (buffer, applied) = st.candidates.run(arrivals(cs));
            &&& end == Some(ReceiverStateView { candidates: buffer, ..st })
            &&& applied_by(actions) == payloads(applied)
        }),
    decreases cs.len(),
{
    if cs.len() == 0 {
        assert(payloads(Seq::<PendingCandidateView>::empty()) =~= Seq::<IceCandidateView>::empty());
    } else {
        let head = cs.drop_last();
        assert(candidate_events(from, cs).drop_last() =~= candidate_events(from, head));
        assert(arrivals(cs).drop_last() =~= arrivals(head));
        lemma_responder_follows_arrivals(st, from, head);
        let (mid, done) = responder_run(Some(st), candidate_events(from, head));
        let (buffer, applied) = st.candidates.run(arrivals(head));
        let more = buffer.step(arrivals(cs).last()).1;
        let asked = responder_step(mid, candidate_events(from, cs).last()).1->Ok_0;
        lemma_applied_by_concat(done, asked);
        assert(payloads(applied + more) =~= payloads(applied) + payloads(more));
        if more.len() > 0 {
            assert(asked =~= add_all(seq![cs.last().candidate]));
            lemma_applied_by_add_all(seq![cs.last().candidate]);
            assert(payloads(more) =~= seq![cs.last().candidate]);
        } else {
            assert(payloads(more) =~= Seq::<IceCandidateView>::empty());
        }
    }
}

/// Wherever among the arriving candidates the offer arrives, the responder
/// hands the same candidates to the transport in the same order: those
/// tagged with the offer's session id, in arrival order, the ones that
/// waited already first.
pub proof fn lemma_offer_order_irrelevant(
    st: ReceiverStateView,
    from: Seq<char>,
    sid: u64,
    sdp: SessionDescriptionView,
    cs: Seq<PendingCandidateView>,
    k: int,
)
    requires
        !st.candidates.remote_desc_set,
        0 <= k <= cs.len(),
    ensures
        applied_by(
            responder_run(
                Some(st),
                candidate_events(from, cs.take(k)) + seq![
                    ResponderEventView::Signal(ServerMessageView::Offer { from, sid, sdp }),
                ] + candidate_events(from, cs.skip(k)),
            ).1,
        ) == payloads(tagged(st.candidates.pending + cs, sid)),
{
    let before = candidate_events(from, cs.take(k));
    let offer = ResponderEventView::Signal(ServerMessageView::Offer { from, sid, sdp });
    let after = candidate_events(from, cs.skip(k));
    lemma_responder_follows_arrivals(st, from, cs.take(k));
    lemma_arrivals_before_description(st.candidates, cs.take(k));
    let queued = responder_run(Some(st), before);
    let waiting = st.candidates.pending + cs.take(k);
    assert(queued.0 == Some(
        ReceiverStateView {
            candidates: CandidateBufferView { pending: waiting, ..st.candidates },
            ..st
        },
    ));
    assert(applied_by(queued.1) =~= Seq::<IceCandidateView>::empty());
    let single = seq![offer];
    assert(single.drop_last() =~= Seq::<ResponderEventView>::empty());
    assert(single.last() == offer);
    let offered = responder_run(queued.0, single);
    let flushed = tagged(waiting, sid);
    assert(responder_run(queued.0, single.drop_last()) == (
        queued.0,
        Seq::<ResponderActionView>::empty(),
    ));
    let stepped = responder_step(queued.0, offer);
    assert(stepped.1 is Ok);
    assert(Seq::<ResponderActionView>::empty() + stepped.1->Ok_0 =~= stepped.1->Ok_0);
    let asked = seq![ResponderActionView::SetRemoteDescription(sdp)] + add_all(payloads(flushed))
        + seq![ResponderActionView::CreateAnswer];
    assert(offered.1 =~= asked);
    lemma_applied_by_concat(
        seq![ResponderActionView::SetRemoteDescription(sdp)] + add_all(payloads(flushed)),
        seq![ResponderActionView::CreateAnswer],
    );
    lemma_applied_by_concat(
        seq![ResponderActionView::SetRemoteDescription(sdp)],
        add_all(payloads(flushed)),
    );
    lemma_applied_by_add_all(payloads(flushed));
    let set = seq![ResponderActionView::SetRemoteDescription(sdp)];
    assert(set.drop_last() =~= Seq::<ResponderActionView>::empty());
    assert(set.last() == ResponderActionView::SetRemoteDescription(sdp));
    assert(applied_by(set.drop_last()) =~= Seq::<IceCandidateView>::empty());
    let answer = seq![ResponderActionView::CreateAnswer];
    assert(answer.drop_last() =~= Seq::<ResponderActionView>::empty());
    assert(answer.last() == ResponderActionView::CreateAnswer);
    assert(applied_by(answer.drop_last()) =~= Seq::<IceCandidateView>::empty());
    assert(applied_by(offered.1) =~= payloads(flushed));
    let bound = offered.0->Some_0;
    lemma_responder_follows_arrivals(bound, from, cs.skip(k));
    lemma_arrivals_after_description(bound.candidates, sid, cs.skip(k));
    lemma_responder_run_concat(Some(st), before, single);
    lemma_responder_run_concat(Some(st), before + single, after);
    lemma_applied_by_concat(queued.1 + offered.1, responder_run(offered.0, after).1);
    lemma_applied_by_concat(queued.1, offered.1);
    let pred = |p: PendingCandidateView| p.sid == sid;
    Seq::filter_distributes_over_add(waiting, cs.skip(k), pred);
    assert(waiting + cs.skip(k) =~= st.candidates.pending + cs);
    assert(payloads(flushed + tagged(cs.skip(k), sid)) =~= payloads(flushed) + payloads(
        tagged(cs.skip(k), sid),
    ));
    assert(Seq::<IceCandidateView>::empty() + payloads(flushed) =~= payloads(flushed));
}

/// After an offer, a candidate tagged with another session id than the
/// offer's is dropped on arrival: nothing is asked of the caller and
/// nothing changes. This holds in particular of a late candidate of the
/// session that the offer has replaced.
pub proof fn lemma_stale_candidate_dropped_after_offer(
    st: ReceiverStateView,
    from: Seq<char>,
    sid: u64,
    sdp: SessionDescriptionView,
    late: PendingCandidateView,
)
    requires
        late.sid != sid,
    ensures
        ({
            let offered = responder_step(
                Some(st),
                ResponderEventView::Signal(ServerMessageView::Offer { from, sid, sdp }),
            ).0;
            let arrival = ResponderEventView::Signal(
                ServerMessageView::Candidate { from, sid: late.sid, candidate: late.candidate },
            );
            &&& offered matches Some(bound) && bound.candidates.pending.len() == 0
            &&& responder_step(offered, arrival).0 == offered
            &&& responder_step(offered, arrival).1 == Ok::<_, crate::signal::SessionErrorView>(
                Seq::<ResponderActionView>::empty(),
            )
        }),
{
}

} // verus!
