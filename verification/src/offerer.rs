//! The initiator's state for one connected peer.

use vstd::prelude::*;
use crate::candidates::{
    candidates_view, payloads, CandidateBuffer, CandidateBufferView, CandidateOutcome,
    PendingCandidateView,
};
use crate::payload::IceCandidate;

verus! {

/// What the initiator keeps for one peer: the counter that numbers its
/// offers, the candidate bookkeeping, and the latch that lets the file be
/// sent once.
#[derive(Clone, Debug, PartialEq, Eq)]
pub struct OffererPeerState {
    signal_sid: u64,
    candidates: CandidateBuffer,
    sending: bool,
}

/// Mathematical model of an [`OffererPeerState`].
pub struct OffererPeerStateView {
    pub signal_sid: u64,
    pub candidates: CandidateBufferView,
    pub sending: bool,
}

impl View for OffererPeerState {
    type V = OffererPeerStateView;

    closed spec fn view(&self) -> OffererPeerStateView {
        OffererPeerStateView {
            signal_sid: self.signal_sid,
            candidates: self.candidates@,
            sending: self.sending,
        }
    }
}

impl OffererPeerStateView {
    /// The state of a peer for which nothing has been offered yet.
    pub open spec fn fresh() -> OffererPeerStateView {
        OffererPeerStateView {
            signal_sid: 0,
            candidates: CandidateBufferView::fresh(),
            sending: false,
        }
    }

    /// What holds of a peer's state at all times: the buffer is in order,
    /// and the active session, if there is one, is the offer attempt that
    /// was numbered last.
    pub open spec fn inv(self) -> bool {
        &&& self.candidates.inv()
        &&& match self.candidates.active_sid {
            Some(sid) => sid == self.signal_sid && sid > 0,
            None => self.signal_sid == 0,
        }
    }

    /// The next offer attempt: the counter goes up by one and its new value
    /// becomes the active session id. At the end of the counter's range
    /// nothing changes and no id is given.
    pub open spec fn renegotiate(self) -> (OffererPeerStateView, Option<u64>) {
        if self.signal_sid == u64::MAX {
            (self, None)
        } else {
            let sid = (self.signal_sid + 1) as u64;
            (
                OffererPeerStateView {
                    signal_sid: sid,
                    candidates: self.candidates.activate(sid),
                    ..self
                },
                Some(sid),
            )
        }
    }

    /// The first offer: an offer attempt, unless a session is active already.
    pub open spec fn send_offer(self) -> (OffererPeerStateView, Option<u64>) {
        if self.candidates.active_sid is Some {
            (self, None)
        } else {
            self.renegotiate()
        }
    }

    /// An answer tagged `sid` arrives. One for another session than the
    /// active one is stale and changes nothing; otherwise its description
    /// counts as applied and the queue is flushed.
    pub open spec fn handle_answer(self, sid: u64) -> (
        OffererPeerStateView,
        Option<Seq<PendingCandidateView>>,
    ) {
        if self.candidates.active_sid == Some(sid) {
            let (candidates, flushed) = self.candidates.remote_description_set();
            (OffererPeerStateView { candidates, ..self }, Some(flushed))
        } else {
            (self, None)
        }
    }

    /// The data channel reports open. Only the first report starts the transfer.
    pub open spec fn begin_sending(self) -> (OffererPeerStateView, bool) {
        (OffererPeerStateView { sending: true, ..self }, !self.sending)
    }
}

impl OffererPeerState {
    /// The state of a peer for which nothing has been offered yet.
    pub fn new() -> (st: OffererPeerState)
        ensures
            st@ == OffererPeerStateView::fresh(),
    {
        OffererPeerState { signal_sid: 0, candidates: CandidateBuffer::new(), sending: false }
    }

    /// The number of the last offer attempt.
    pub fn signal_sid(&self) -> (sid: u64)
        ensures
            sid == self@.signal_sid,
    {
        self.signal_sid
    }

    /// The session id that answers and candidates must carry.
    pub fn active_sid(&self) -> (sid: Option<u64>)
        ensures
            sid == self@.candidates.active_sid,
    {
        self.candidates.active_sid()
    }

    /// Whether the answer of the active session has been applied.
    pub fn remote_desc_set(&self) -> (set: bool)
        ensures
            set == self@.candidates.remote_desc_set,
    {
        self.candidates.remote_desc_set()
    }

    /// How many candidates wait for the answer.
    pub fn pending_len(&self) -> (n: usize)
        ensures
            n == self@.candidates.pending.len(),
    {
        self.candidates.pending_len()
    }

    /// Whether the transfer to this peer has been started.
    pub fn sending(&self) -> (b: bool)
        ensures
            b == self@.sending,
    {
        self.sending
    }

    /// Starts the next offer attempt and returns its session id, which
    /// replaces the active one. Returns `None`, and changes nothing, when
    /// the counter cannot go further.
    pub fn renegotiate(&mut self) -> (sid: Option<u64>)
        ensures
            (final(self)@, sid) == old(self)@.renegotiate(),
    {
        if self.signal_sid == u64::MAX {
            return None;
        }
        let sid: u64 = self.signal_sid + 1;
        self.signal_sid = sid;
        self.candidates.activate(sid);
        Some(sid)
    }

    /// Starts the first offer attempt and returns its session id. Does
    /// nothing, and returns `None`, while a session is active.
    pub fn send_offer(&mut self) -> (sid: Option<u64>)
        ensures
            (final(self)@, sid) == old(self)@.send_offer(),
    {
        if self.candidates.active_sid().is_some() {
            return None;
        }
        self.renegotiate()
    }

    /// Takes the answer tagged `sid`. A stale answer returns `None` and
    /// changes nothing. Otherwise the caller applies the answer's
    /// description and then the returned candidates, in order.
    pub fn handle_answer(&mut self, sid: u64) -> (flushed: Option<Vec<IceCandidate>>)
        ensures
            final(self)@ == old(self)@.handle_answer(sid).0,
            match old(self)@.handle_answer(sid).1 {
                Some(expected) => flushed matches Some(v) && candidates_view(v@) == payloads(
                    expected,
                ),
                None => flushed is None,
            },
    {
        if self.candidates.active_sid() != Some(sid) {
            return None;
        }
        Some(self.candidates.remote_description_set())
    }

    /// Routes a candidate of the peer through the candidate buffer.
    pub fn handle_offer_candidate(&mut self, sid: u64, candidate: IceCandidate) -> (outcome:
        CandidateOutcome)
        ensures
            final(self)@ == (OffererPeerStateView {
                candidates: old(self)@.candidates.accept(
                    PendingCandidateView { sid, candidate: candidate@ },
                ).0,
                ..old(self)@
            }),
            outcome@ == old(self)@.candidates.accept(
                PendingCandidateView { sid, candidate: candidate@ },
            ).1,
    {
        self.candidates.accept(sid, candidate)
    }

    /// Drains the queue: the candidates of the active session are returned
    /// in arrival order, the others are discarded.
    pub fn flush_offer_candidates(&mut self) -> (applied: Vec<IceCandidate>)
        ensures
            final(self)@ == (OffererPeerStateView {
                candidates: old(self)@.candidates.flush().0,
                ..old(self)@
            }),
            candidates_view(applied@) == payloads(old(self)@.candidates.flush().1),
    {
        self.candidates.flush()
    }

    /// Sets the latch and says whether this call was the one that set it.
    pub fn begin_sending(&mut self) -> (first: bool)
        ensures
            (final(self)@, first) == old(self)@.begin_sending(),
    {
        let first = !self.sending;
        self.sending = true;
        first
    }
}

} // verus!
