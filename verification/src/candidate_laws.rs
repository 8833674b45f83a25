//! What holds of the candidate buffer over whole runs of events.
//!
//! A run is a sequence of the three things that can happen to a buffer: a
//! candidate arrives, the remote description of the active session is
//! applied, or a new session id becomes active. The laws below speak of the
//! candidates that such a run hands to the transport.

use vstd::prelude::*;
use crate::candidates::{
    lemma_tagged_empty, lemma_tagged_push, tagged, CandidateBufferView, PendingCandidateView,
};

verus! {

/// One thing that happens to a candidate buffer.
pub enum BufferEvent {
    /// A candidate arrives on the signaling stream.
    Candidate(PendingCandidateView),
    /// The remote description of the active session has been applied.
    RemoteDescriptionSet,
    /// A new offer/answer attempt starts under this session id.
    Activate(u64),
}

/// The events of a sequence of candidates arriving one after the other.
pub open spec fn arrivals(cs: Seq<PendingCandidateView>) -> Seq<BufferEvent> {
    cs.map_values(|c: PendingCandidateView| BufferEvent::Candidate(c))
}

impl CandidateBufferView {
    /// The buffer after one event, and the candidates which that event
    /// hands to the transport, each with the tag it arrived under.
    pub open spec fn step(self, e: BufferEvent) -> (CandidateBufferView, Seq<PendingCandidateView>) {
        match e {
            BufferEvent::Candidate(c) => {
                let (next, outcome) = self.accept(c);
                (
                    next,
                    if outcome is Apply {
                        seq![c]
                    } else {
                        Seq::empty()
                    },
                )
            },
            BufferEvent::RemoteDescriptionSet => self.remote_description_set(),
            BufferEvent::Activate(sid) => (self.activate(sid), Seq::empty()),
        }
    }

    /// The buffer after a run of events, and everything the run hands to the
    /// transport, in the order in which it is handed over.
    pub open spec fn run(self, events: Seq<BufferEvent>) -> (
        CandidateBufferView,
        Seq<PendingCandidateView>,
    )
        decreases events.len(),
    {
        if events.len() == 0 {
            (self, Seq::empty())
        } else {
            let (mid, applied) = self.run(events.drop_last());
            let (next, more) = mid.step(events.last());
            (next, applied + more)
        }
    }
}

/// A run of two parts is the run of the first part followed by the run of
/// the second from where the first ended.
pub proof fn lemma_run_concat(b: CandidateBufferView, first: Seq<BufferEvent>, second: Seq<BufferEvent>)
    ensures
        b.run(first + second).0 == b.run(first).0.run(second).0,
        b.run(first + second).1 == b.run(first).1 + b.run(first).0.run(second).1,
    decreases second.len(),
{
    if second.len() == 0 {
        assert(first + second =~= first);
        assert(b.run(first).1 + Seq::<PendingCandidateView>::empty() =~= b.run(first).1);
    } else {
        assert((first + second).drop_last() =~= first + second.drop_last());
        assert((first + second).last() == second.last());
        lemma_run_concat(b, first, second.drop_last());
        let mid = b.run(first).0.run(second.drop_last());
        let more = mid.0.step(second.last()).1;
        assert((b.run(first).1 + mid.1) + more =~= b.run(first).1 + (mid.1 + more));
    }
}

/// The run of a single event is its step.
pub proof fn lemma_run_single(b: CandidateBufferView, e: BufferEvent)
    ensures
        b.run(seq![e]) == b.step(e),
{
    let events = seq![e];
    assert(events.drop_last() =~= Seq::empty());
    assert(b.run(events.drop_last()) == (b, Seq::<PendingCandidateView>::empty()));
    assert(Seq::<PendingCandidateView>::empty() + b.step(e).1 =~= b.step(e).1);
}

/// While no remote description is set, arriving candidates are all queued
/// and none reaches the transport.
pub proof fn lemma_arrivals_before_description(b: CandidateBufferView, cs: Seq<PendingCandidateView>)
    requires
        !b.remote_desc_set,
    ensures
        b.run(arrivals(cs)).0 == (CandidateBufferView { pending: b.pending + cs, ..b }),
        b.run(arrivals(cs)).1 == Seq::<PendingCandidateView>::empty(),
    decreases cs.len(),
{
    if cs.len() == 0 {
        assert(b.pending + cs =~= b.pending);
    } else {
        assert(arrivals(cs).drop_last() =~= arrivals(cs.drop_last()));
        lemma_arrivals_before_description(b, cs.drop_last());
        assert((b.pending + cs.drop_last()).push(cs.last()) =~= b.pending + cs);
        assert(Seq::<PendingCandidateView>::empty() + Seq::<PendingCandidateView>::empty()
            =~= Seq::<PendingCandidateView>::empty());
    }
}

/// Once the remote description is set, arriving candidates leave the buffer
/// as it is, and exactly those of the active session reach the transport,
/// in arrival order.
pub proof fn lemma_arrivals_after_description(
    b: CandidateBufferView,
    sid: u64,
    cs: Seq<PendingCandidateView>,
)
    requires
        b.remote_desc_set,
        b.active_sid == Some(sid),
    ensures
        b.run(arrivals(cs)).0 == b,
        b.run(arrivals(cs)).1 == tagged(cs, sid),
    decreases cs.len(),
{
    if cs.len() == 0 {
        lemma_tagged_empty(sid);
        assert(cs =~= Seq::empty());
    } else {
        assert(arrivals(cs).drop_last() =~= arrivals(cs.drop_last()));
        lemma_arrivals_after_description(b, sid, cs.drop_last());
        lemma_tagged_push(cs.drop_last(), cs.last(), sid);
        assert(cs.drop_last().push(cs.last()) =~= cs);
        let kept = tagged(cs.drop_last(), sid);
        if cs.last().sid == sid {
            assert(kept + seq![cs.last()] =~= kept.push(cs.last()));
        } else {
            assert(kept + Seq::<PendingCandidateView>::empty() =~= kept);
        }
    }
}

/// Wherever among the arriving candidates the remote description of the
/// active session is applied, the transport receives the same candidates in
/// the same order: those tagged with the active session id, in arrival
/// order, the ones already waiting first.
pub proof fn lemma_answer_order_irrelevant(
    b: CandidateBufferView,
    sid: u64,
    cs: Seq<PendingCandidateView>,
    k: int,
)
    requires
        b.active_sid == Some(sid),
        !b.remote_desc_set,
        0 <= k <= cs.len(),
    ensures
        b.run(
            arrivals(cs.take(k)) + seq![BufferEvent::RemoteDescriptionSet] + arrivals(cs.skip(k)),
        ).1 == tagged(b.pending + cs, sid),
        b.run(
            arrivals(cs.take(k)) + seq![BufferEvent::RemoteDescriptionSet] + arrivals(cs.skip(k)),
        ).0 == (CandidateBufferView {
            active_sid: Some(sid),
            remote_desc_set: true,
            pending: Seq::empty(),
        }),
{
    let before = arrivals(cs.take(k));
    let answer = seq![BufferEvent::RemoteDescriptionSet];
    let after = arrivals(cs.skip(k));
    lemma_arrivals_before_description(b, cs.take(k));
    let queued = b.run(before).0;
    lemma_run_single(queued, BufferEvent::RemoteDescriptionSet);
    let flushed = queued.run(answer).0;
    lemma_arrivals_after_description(flushed, sid, cs.skip(k));
    lemma_run_concat(b, before, answer);
    lemma_run_concat(b, before + answer, after);
    let pred = |p: PendingCandidateView| p.sid == sid;
    Seq::filter_distributes_over_add(b.pending + cs.take(k), cs.skip(k), pred);
    assert((b.pending + cs.take(k)) + cs.skip(k) =~= b.pending + cs);
    assert(Seq::<PendingCandidateView>::empty() + tagged(b.pending + cs.take(k), sid)
        =~= tagged(b.pending + cs.take(k), sid));
}

/// Whether a remote description is applied somewhere in a run.
pub open spec fn has_description(events: Seq<BufferEvent>) -> bool {
    exists|j: int| 0 <= j < events.len() && events[j] is RemoteDescriptionSet
}

/// Whether a run starts no session other than `sid`.
pub open spec fn activates_only(events: Seq<BufferEvent>, sid: u64) -> bool {
    forall|j: int|
        0 <= j < events.len() ==> (#[trigger] events[j] matches BufferEvent::Activate(s) ==> s
            == sid)
}

/// Whether a run starts no session at all.
pub open spec fn activates_nothing(events: Seq<BufferEvent>) -> bool {
    forall|j: int| 0 <= j < events.len() ==> !(#[trigger] events[j] is Activate)
}

/// Every candidate that one event hands to the transport carries the
/// session id that is active when the event happens.
pub proof fn lemma_step_applies_active_only(b: CandidateBufferView, e: BufferEvent, i: int)
    requires
        0 <= i < b.step(e).1.len(),
    ensures
        b.active_sid == Some(b.step(e).1[i].sid),
        b.step(e).0.active_sid == b.active_sid,
{
    match e {
        BufferEvent::RemoteDescriptionSet => {
            let sid = b.active_sid->0;
            b.pending.lemma_filter_pred(|p: PendingCandidateView| p.sid == sid, i);
        },
        _ => {},
    }
}

/// As long as `sid` is the only session that is or becomes active, a run
/// hands no candidate to the transport but those tagged with `sid`.
pub proof fn lemma_run_applies_active_only(
    b: CandidateBufferView,
    sid: u64,
    events: Seq<BufferEvent>,
    i: int,
)
    requires
        b.active_sid is Some ==> b.active_sid == Some(sid),
        activates_only(events, sid),
        0 <= i < b.run(events).1.len(),
    ensures
        b.run(events).1[i].sid == sid,
    decreases events.len(),
{
    if events.len() > 0 {
        let head = events.drop_last();
        let (mid, applied) = b.run(head);
        lemma_run_keeps_session(b, sid, head);
        if i < applied.len() {
            lemma_run_applies_active_only(b, sid, head, i);
        } else {
            assert(events[events.len() - 1] == events.last());
            lemma_step_applies_active_only(mid, events.last(), i - applied.len());
        }
    }
}

/// A run in which only `sid` becomes active ends with `sid` or no session active.
pub proof fn lemma_run_keeps_session(b: CandidateBufferView, sid: u64, events: Seq<BufferEvent>)
    requires
        b.active_sid is Some ==> b.active_sid == Some(sid),
        activates_only(events, sid),
    ensures
        b.run(events).0.active_sid is Some ==> b.run(events).0.active_sid == Some(sid),
    decreases events.len(),
{
    if events.len() > 0 {
        lemma_run_keeps_session(b, sid, events.drop_last());
        assert(events[events.len() - 1] == events.last());
    }
}

/// After the remote description has been applied, and while no other
/// session starts, nothing waits in the queue.
pub proof fn lemma_queue_empty_after_description(b: CandidateBufferView, events: Seq<BufferEvent>)
    requires
        b.active_sid is Some,
        activates_nothing(events),
        has_description(events) || (b.remote_desc_set && b.pending.len() == 0),
    ensures
        b.run(events).0.remote_desc_set,
        b.run(events).0.pending.len() == 0,
        b.run(events).0.active_sid == b.active_sid,
    decreases events.len(),
{
    if events.len() > 0 {
        let head = events.drop_last();
        assert(events[events.len() - 1] == events.last());
        if events.last() is RemoteDescriptionSet {
            lemma_run_keeps_session(b, b.active_sid->0, head);
            lemma_session_survives(b, head);
        } else {
            if !(b.remote_desc_set && b.pending.len() == 0) {
                let j = choose|j: int| 0 <= j < events.len() && events[j] is RemoteDescriptionSet;
                assert(head[j] is RemoteDescriptionSet);
            }
            lemma_queue_empty_after_description(b, head);
        }
    }
}

/// A run that starts no session keeps the active one.
pub proof fn lemma_session_survives(b: CandidateBufferView, events: Seq<BufferEvent>)
    requires
        activates_nothing(events),
    ensures
        b.run(events).0.active_sid == b.active_sid,
    decreases events.len(),
{
    if events.len() > 0 {
        lemma_session_survives(b, events.drop_last());
        assert(events[events.len() - 1] == events.last());
    }
}

/// Once a new session id has become active, candidates tagged with another
/// id are lost for good: whatever arrives and whenever the new remote
/// description is applied, none of them reaches the transport, and once
/// that description is applied none of them waits in the queue either.
pub proof fn lemma_stale_session_discarded(
    b: CandidateBufferView,
    stale: u64,
    current: u64,
    events: Seq<BufferEvent>,
)
    requires
        stale != current,
        activates_nothing(events),
    ensures
        forall|i: int|
            0 <= i < b.activate(current).run(events).1.len() ==> (
            #[trigger] b.activate(current).run(events).1[i]).sid != stale,
        has_description(events) ==> tagged(b.activate(current).run(events).0.pending, stale).len()
            == 0,
{
    let start = b.activate(current);
    assert forall|i: int| 0 <= i < start.run(events).1.len() implies (
    #[trigger] start.run(events).1[i]).sid != stale by {
        lemma_run_applies_active_only(start, current, events, i);
    }
    if has_description(events) {
        lemma_queue_empty_after_description(start, events);
        lemma_tagged_empty(stale);
        assert(start.run(events).0.pending =~= Seq::empty());
    }
}

/// The buffer's invariant holds from the start and through every event:
/// once a remote description is applied, a session is active and nothing
/// waits, so that the queue is flushed once for each session and never
/// filled behind the flush.
pub proof fn lemma_invariant_kept(b: CandidateBufferView, events: Seq<BufferEvent>)
    requires
        b.inv(),
    ensures
        CandidateBufferView::fresh().inv(),
        b.run(events).0.inv(),
    decreases events.len(),
{
    if events.len() > 0 {
        lemma_invariant_kept(b, events.drop_last());
    }
}

} // verus!
