//! The candidate buffer shared by both sides of a negotiation.

use vstd::prelude::*;
use crate::payload::{IceCandidate, IceCandidateView};

verus! {

/// A candidate held back together with the session id it was tagged with.
#[derive(Clone, Debug, PartialEq, Eq)]
pub struct PendingCandidate {
    pub sid: u64,
    pub candidate: IceCandidate,
}

/// Mathematical model of a [`PendingCandidate`].
pub struct PendingCandidateView {
    pub sid: u64,
    pub candidate: IceCandidateView,
}

impl View for PendingCandidate {
    type V = PendingCandidateView;

    open spec fn view(&self) -> PendingCandidateView {
        PendingCandidateView { sid: self.sid, candidate: self.candidate@ }
    }
}

/// Models of a sequence of held candidates.
pub open spec fn pending_view(s: Seq<PendingCandidate>) -> Seq<PendingCandidateView> {
    s.map_values(|p: PendingCandidate| p@)
}

/// Models of a sequence of candidates.
pub open spec fn candidates_view(s: Seq<IceCandidate>) -> Seq<IceCandidateView> {
    s.map_values(|c: IceCandidate| c@)
}

/// The entries of `pending` that were tagged with `sid`, in their order.
pub open spec fn tagged(pending: Seq<PendingCandidateView>, sid: u64) -> Seq<PendingCandidateView> {
    pending.filter(|p: PendingCandidateView| p.sid == sid)
}

/// The payloads of a sequence of held candidates, in their order.
pub open spec fn payloads(pending: Seq<PendingCandidateView>) -> Seq<IceCandidateView> {
    pending.map_values(|p: PendingCandidateView| p.candidate)
}

/// Appending one entry extends the tagged entries by it, or not at all.
pub proof fn lemma_tagged_push(s: Seq<PendingCandidateView>, c: PendingCandidateView, sid: u64)
    ensures
        tagged(s.push(c), sid) == if c.sid == sid {
            tagged(s, sid).push(c)
        } else {
            tagged(s, sid)
        },
{
    s.lemma_filter_push(c, |p: PendingCandidateView| p.sid == sid);
}

/// Nothing is tagged in an empty queue.
pub proof fn lemma_tagged_empty(sid: u64)
    ensures
        tagged(Seq::empty(), sid) == Seq::<PendingCandidateView>::empty(),
{
    reveal(Seq::filter);
}

/// What became of a candidate handed to the buffer.
#[derive(Clone, Debug, PartialEq, Eq)]
pub enum CandidateOutcome {
    /// No remote description yet: the candidate waits in the queue.
    Buffered,
    /// The candidate belongs to the active session and goes to the transport now.
    Apply(IceCandidate),
    /// The candidate belongs to another session and is discarded for good.
    Dropped,
}

/// Mathematical model of a [`CandidateOutcome`].
pub enum CandidateOutcomeView {
    Buffered,
    Apply(IceCandidateView),
    Dropped,
}

impl View for CandidateOutcome {
    type V = CandidateOutcomeView;

    open spec fn view(&self) -> CandidateOutcomeView {
        match self {
            CandidateOutcome::Buffered => CandidateOutcomeView::Buffered,
            CandidateOutcome::Apply(c) => CandidateOutcomeView::Apply(c@),
            CandidateOutcome::Dropped => CandidateOutcomeView::Dropped,
        }
    }
}

/// The candidate bookkeeping of one peer: which session is active, whether
/// its remote description has been applied, and the candidates that wait.
#[derive(Clone, Debug, PartialEq, Eq)]
pub struct CandidateBuffer {
    active_sid: Option<u64>,
    remote_desc_set: bool,
    pending: Vec<PendingCandidate>,
}

/// Mathematical model of a [`CandidateBuffer`].
pub struct CandidateBufferView {
    pub active_sid: Option<u64>,
    pub remote_desc_set: bool,
    pub pending: Seq<PendingCandidateView>,
}

impl View for CandidateBuffer {
    type V = CandidateBufferView;

    closed spec fn view(&self) -> CandidateBufferView {
        CandidateBufferView {
            active_sid: self.active_sid,
            remote_desc_set: self.remote_desc_set,
            pending: pending_view(self.pending@),
        }
    }
}

impl CandidateBufferView {
    /// The buffer of a peer that has no session yet.
    pub open spec fn fresh() -> CandidateBufferView {
        CandidateBufferView { active_sid: None, remote_desc_set: false, pending: Seq::empty() }
    }

    /// Once a remote description is applied there is an active session and
    /// nothing waits any more.
    pub open spec fn inv(self) -> bool {
        self.remote_desc_set ==> self.active_sid is Some && self.pending.len() == 0
    }

    /// A new session id becomes the active one; its remote description is
    /// still to come. What waits stays in the queue until the next flush.
    pub open spec fn activate(self, sid: u64) -> CandidateBufferView {
        CandidateBufferView { active_sid: Some(sid), remote_desc_set: false, pending: self.pending }
    }

    /// A candidate arrives.
    pub open spec fn accept(self, c: PendingCandidateView) -> (CandidateBufferView, CandidateOutcomeView) {
        if !self.remote_desc_set {
            (
                CandidateBufferView { pending: self.pending.push(c), ..self },
                CandidateOutcomeView::Buffered,
            )
        } else if self.active_sid == Some(c.sid) {
            (self, CandidateOutcomeView::Apply(c.candidate))
        } else {
            (self, CandidateOutcomeView::Dropped)
        }
    }

    /// The queue is drained: entries of the active session come out in
    /// arrival order, all others are discarded. Without an active session
    /// nothing happens.
    pub open spec fn flush(self) -> (CandidateBufferView, Seq<PendingCandidateView>) {
        match self.active_sid {
            Some(sid) => (
                CandidateBufferView { pending: Seq::empty(), ..self },
                tagged(self.pending, sid),
            ),
            None => (self, Seq::empty()),
        }
    }

    /// The remote description of the active session has been applied: the
    /// fact is recorded and the queue is flushed. Without an active session
    /// there is no description to speak of, and nothing happens.
    pub open spec fn remote_description_set(self) -> (CandidateBufferView, Seq<PendingCandidateView>) {
        if self.active_sid is Some {
            CandidateBufferView { remote_desc_set: true, ..self }.flush()
        } else {
            (self, Seq::empty())
        }
    }
}

impl CandidateBuffer {
    /// The buffer of a peer that has no session yet.
    pub fn new() -> (b: CandidateBuffer)
        ensures
            b@ == CandidateBufferView::fresh(),
    {
        let b = CandidateBuffer { active_sid: None, remote_desc_set: false, pending: Vec::new() };
        assert(b@.pending =~= Seq::empty());
        b
    }

    /// The session id that candidates must carry to be applied.
    pub fn active_sid(&self) -> (sid: Option<u64>)
        ensures
            sid == self@.active_sid,
    {
        self.active_sid
    }

    /// Whether the remote description of the active session has been applied.
    pub fn remote_desc_set(&self) -> (set: bool)
        ensures
            set == self@.remote_desc_set,
    {
        self.remote_desc_set
    }

    /// How many candidates wait in the queue.
    pub fn pending_len(&self) -> (n: usize)
        ensures
            n == self@.pending.len(),
    {
        self.pending.len()
    }

    /// Makes `sid` the active session, whose remote description is still to come.
    pub fn activate(&mut self, sid: u64)
        ensures
            final(self)@ == old(self)@.activate(sid),
    {
        self.active_sid = Some(sid);
        self.remote_desc_set = false;
    }

    /// Takes a candidate tagged with `sid`. Before the remote description is
    /// set every candidate is queued, whatever its tag; afterwards a candidate
    /// of the active session is handed back to be applied and any other is
    /// dropped.
    pub fn accept(&mut self, sid: u64, candidate: IceCandidate) -> (outcome: CandidateOutcome)
        ensures
            (final(self)@, outcome@) == old(self)@.accept(
                PendingCandidateView { sid, candidate: candidate@ },
            ),
    {
        if !self.remote_desc_set {
            self.pending.push(PendingCandidate { sid, candidate });
            assert(self@.pending =~= old(self)@.pending.push(
                PendingCandidateView { sid, candidate: candidate@ },
            ));
            CandidateOutcome::Buffered
        } else if self.active_sid == Some(sid) {
            CandidateOutcome::Apply(candidate)
        } else {
            CandidateOutcome::Dropped
        }
    }

    /// Drains the queue. The candidates of the active session are returned in
    /// arrival order, to be applied to the transport; all others are
    /// discarded. Without an active session the queue is left alone.
    pub fn flush(&mut self) -> (applied: Vec<IceCandidate>)
        ensures
            final(self)@ == old(self)@.flush().0,
            candidates_view(applied@) == payloads(old(self)@.flush().1),
    {
        let sid = match self.active_sid {
            Some(sid) => sid,
            None => {
                let none: Vec<IceCandidate> = Vec::new();
                assert(candidates_view(none@) =~= payloads(Seq::empty()));
                return none;
            },
        };
        let mut taken: Vec<PendingCandidate> = Vec::new();
        core::mem::swap(&mut self.pending, &mut taken);
        assert(self@.pending =~= Seq::empty());
        let mut applied: Vec<IceCandidate> = Vec::new();
        let ghost all = pending_view(taken@);
        proof {
            assert(all.take(0) =~= Seq::empty());
            lemma_tagged_empty(sid);
            assert(candidates_view(applied@) =~= payloads(tagged(all.take(0), sid)));
        }
        for item in it: taken
            invariant
                all == pending_view(it.seq()),
                candidates_view(applied@) == payloads(tagged(all.take(it.index() as int), sid)),
        {
            let ghost i = it.index() as int;
            proof {
                assert(all.take(i + 1) =~= all.take(i).push(all[i]));
                lemma_tagged_push(all.take(i), all[i], sid);
            }
            if item.sid == sid {
                let ghost before = applied@;
                let ghost kept = tagged(all.take(i), sid);
                applied.push(item.candidate);
                proof {
                    assert(item@ == all[i]);
                    assert(candidates_view(applied@) =~= candidates_view(before).push(
                        item.candidate@,
                    ));
                    assert(payloads(kept.push(all[i])) =~= payloads(kept).push(all[i].candidate));
                }
            }
        }
        assert(all.take(all.len() as int) =~= all);
        applied
    }

    /// Records that the remote description of the active session has been
    /// applied and flushes the queue. Does nothing without an active session.
    pub fn remote_description_set(&mut self) -> (applied: Vec<IceCandidate>)
        ensures
            final(self)@ == old(self)@.remote_description_set().0,
            candidates_view(applied@) == payloads(old(self)@.remote_description_set().1),
    {
        if self.active_sid.is_some() {
            self.remote_desc_set = true;
        }
        self.flush()
    }
}

} // verus!
