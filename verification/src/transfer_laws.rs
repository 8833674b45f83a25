//! What holds of a transfer from end to end, when every destination can be
//! created and every write succeeds.

use vstd::prelude::*;
use crate::receive::{ReceiveActionView, ReceiveEventView, ReceiveProgressView};
use crate::transfer::{
    binary_frames, chunks_of, joined, lemma_chunks_of, meta_of, read_frames, send_frames,
    DataMessageView, FileInfoView, FrameView,
};

verus! {

impl ReceiveProgressView {
    /// One frame arrives and what it asks for is done without a failure:
    /// the progress after the frame and after the report of success.
    pub open spec fn deliver(self, f: FrameView) -> (ReceiveProgressView, Option<ReceiveActionView>) {
        let (next, action) = self.step(ReceiveEventView::Frame(f));
        match action {
            Some(ReceiveActionView::Open { dir, name, size }) => (
                next.step(ReceiveEventView::Opened { name, size }).0,
                action,
            ),
            Some(ReceiveActionView::Write(bytes)) => (
                next.step(ReceiveEventView::Written(bytes.len() as u64)).0,
                action,
            ),
            _ => (next, action),
        }
    }

    /// A sequence of frames arrives, each handled without a failure: the
    /// progress at the end, and what was done, in order.
    pub open spec fn deliver_all(self, frames: Seq<FrameView>) -> (
        ReceiveProgressView,
        Seq<ReceiveActionView>,
    )
        decreases frames.len(),
    {
        if frames.len() == 0 {
            (self, Seq::empty())
        } else {
            let (mid, done) = self.deliver_all(frames.drop_last());
            let (next, action) = mid.deliver(frames.last());
            (
                next,
                match action {
                    Some(a) => done.push(a),
                    None => done,
                },
            )
        }
    }
}

/// The contents of the destination that was opened last, after the actions
/// have been performed in order.
pub open spec fn written(actions: Seq<ReceiveActionView>) -> Seq<u8>
    decreases actions.len(),
{
    if actions.len() == 0 {
        Seq::empty()
    } else {
        match actions.last() {
            ReceiveActionView::Open { dir, name, size } => Seq::empty(),
            ReceiveActionView::Write(bytes) => written(actions.drop_last()) + bytes,
            ReceiveActionView::Close => written(actions.drop_last()),
        }
    }
}

/// Delivering two runs of frames is delivering the first and then the
/// second from where the first ended.
pub proof fn lemma_deliver_concat(s: ReceiveProgressView, first: Seq<FrameView>, second: Seq<FrameView>)
    ensures
        s.deliver_all(first + second).0 == s.deliver_all(first).0.deliver_all(second).0,
        s.deliver_all(first + second).1 == s.deliver_all(first).1 + s.deliver_all(
            first,
        ).0.deliver_all(second).1,
    decreases second.len(),
{
    let mid = s.deliver_all(first);
    if second.len() == 0 {
        assert(first + second =~= first);
        assert(mid.1 + Seq::<ReceiveActionView>::empty() =~= mid.1);
    } else {
        assert((first + second).drop_last() =~= first + second.drop_last());
        assert((first + second).last() == second.last());
        lemma_deliver_concat(s, first, second.drop_last());
        let head = mid.0.deliver_all(second.drop_last());
        match head.0.deliver(second.last()).1 {
            Some(a) => {
                assert((mid.1 + head.1).push(a) =~= mid.1 + head.1.push(a));
            },
            None => {},
        }
    }
}

/// Delivering one frame.
pub proof fn lemma_deliver_single(s: ReceiveProgressView, f: FrameView)
    ensures
        s.deliver_all(seq![f]).0 == s.deliver(f).0,
        s.deliver_all(seq![f]).1 == (match s.deliver(f).1 {
            Some(a) => seq![a],
            None => Seq::empty(),
        }),
{
    let frames = seq![f];
    assert(frames.drop_last() =~= Seq::empty());
    assert(s.deliver_all(frames.drop_last()) == (s, Seq::<ReceiveActionView>::empty()));
    match s.deliver(f).1 {
        Some(a) => {
            assert(Seq::<ReceiveActionView>::empty().push(a) =~= seq![a]);
        },
        None => {},
    }
}

/// The actions that write a sequence of pieces, one after the other.
pub open spec fn writes(chunks: Seq<Seq<u8>>) -> Seq<ReceiveActionView> {
    chunks.map_values(|c: Seq<u8>| ReceiveActionView::Write(c))
}

/// While a destination is open, binary frames are written to it in order
/// and counted, and nothing else happens.
pub proof fn lemma_deliver_binary_open(s: ReceiveProgressView, chunks: Seq<Seq<u8>>)
    requires
        s.current_file is Some,
        s.received + joined(chunks).len() <= u64::MAX,
    ensures
        s.deliver_all(binary_frames(chunks)).0 == (ReceiveProgressView {
            received: (s.received + joined(chunks).len()) as u64,
            ..s
        }),
        s.deliver_all(binary_frames(chunks)).1 == writes(chunks),
    decreases chunks.len(),
{
    if chunks.len() == 0 {
        assert(joined(chunks) =~= Seq::empty());
        assert(writes(chunks) =~= Seq::empty());
    } else {
        assert(binary_frames(chunks).drop_last() =~= binary_frames(chunks.drop_last()));
        lemma_deliver_binary_open(s, chunks.drop_last());
        assert(writes(chunks.drop_last()).push(ReceiveActionView::Write(chunks.last()))
            =~= writes(chunks));
    }
}

/// While no destination is open, binary frames are dropped: nothing is
/// written, nothing is created, and the progress stays as it is.
pub proof fn lemma_deliver_binary_closed(s: ReceiveProgressView, chunks: Seq<Seq<u8>>)
    requires
        s.current_file is None,
    ensures
        s.deliver_all(binary_frames(chunks)).0 == s,
        s.deliver_all(binary_frames(chunks)).1 == Seq::<ReceiveActionView>::empty(),
    decreases chunks.len(),
{
    if chunks.len() > 0 {
        assert(binary_frames(chunks).drop_last() =~= binary_frames(chunks.drop_last()));
        lemma_deliver_binary_closed(s, chunks.drop_last());
    }
}

/// What a run of writes leaves in the destination, after what was there.
pub proof fn lemma_written_writes(before: Seq<ReceiveActionView>, chunks: Seq<Seq<u8>>)
    ensures
        written(before + writes(chunks)) == written(before) + joined(chunks),
    decreases chunks.len(),
{
    if chunks.len() == 0 {
        assert(before + writes(chunks) =~= before);
        assert(written(before) + joined(chunks) =~= written(before));
    } else {
        let all = before + writes(chunks);
        assert(all.drop_last() =~= before + writes(chunks.drop_last()));
        assert(all.last() == ReceiveActionView::Write(chunks.last()));
        lemma_written_writes(before, chunks.drop_last());
        assert((written(before) + joined(chunks.drop_last())) + chunks.last() =~= written(before)
            + (joined(chunks.drop_last()) + chunks.last()));
    }
}

/// A whole transfer, whatever went before: the receiver creates one
/// destination, named as the metadata says, inside its directory; what it
/// writes there is the sequence of pieces put together; it counts exactly
/// those bytes; and it ends with no destination open.
pub proof fn lemma_transfer_delivers(
    s: ReceiveProgressView,
    info: FileInfoView,
    chunks: Seq<Seq<u8>>,
)
    requires
        joined(chunks).len() <= u64::MAX,
    ensures
        ({
            let frames = seq![FrameView::Control(meta_of(info))] + binary_frames(chunks) + seq![
                FrameView::Control(DataMessageView::Done),
            ];
            let (end, actions) = s.deliver_all(frames);
            &&& actions == seq![
                ReceiveActionView::Open { dir: s.output_dir, name: info.name, size: info.size },
            ] + writes(chunks) + seq![ReceiveActionView::Close]
            &&& written(actions) == joined(chunks)
            &&& end.received == joined(chunks).len()
            &&& end.expected_size == info.size
            &&& end.current_file is None
            &&& end.output_dir == s.output_dir
        }),
{
    let meta = seq![FrameView::Control(meta_of(info))];
    let body = binary_frames(chunks);
    let done = seq![FrameView::Control(DataMessageView::Done)];
    let open = ReceiveActionView::Open { dir: s.output_dir, name: info.name, size: info.size };
    lemma_deliver_single(s, FrameView::Control(meta_of(info)));
    let s1 = s.deliver_all(meta).0;
    lemma_deliver_binary_open(s1, chunks);
    let s2 = s1.deliver_all(body).0;
    lemma_deliver_single(s2, FrameView::Control(DataMessageView::Done));
    lemma_deliver_concat(s, meta, body);
    lemma_deliver_concat(s, meta + body, done);
    let actions = s.deliver_all(meta + body + done).1;
    assert(actions =~= (seq![open] + writes(chunks)).push(ReceiveActionView::Close));
    assert(actions.drop_last() =~= seq![open] + writes(chunks));
    lemma_written_writes(seq![open], chunks);
    assert(seq![open].last() == open);
    assert(written(seq![open]) =~= Seq::<u8>::empty());
    assert(Seq::<u8>::empty() + joined(chunks) =~= joined(chunks));
}

/// Round trip: the frames that the sender makes of a file, delivered to a
/// receiver, leave a destination whose bytes are the file's bytes, and the
/// receiver has counted as many bytes as the file has.
pub proof fn lemma_round_trip(s: ReceiveProgressView, info: FileInfoView, data: Seq<u8>)
    requires
        data.len() <= u64::MAX,
    ensures
        written(s.deliver_all(send_frames(info, data)).1) == data,
        s.deliver_all(send_frames(info, data)).0.received == data.len(),
        s.deliver_all(send_frames(info, data)).0.current_file is None,
{
    lemma_chunks_of(data);
    lemma_transfer_delivers(s, info, chunks_of(data));
}

/// Metadata of an encrypted file creates no destination and leaves none
/// open; the binary frames that follow it are all dropped, so that not a
/// byte is written.
pub proof fn lemma_encrypted_writes_nothing(
    s: ReceiveProgressView,
    name: Seq<char>,
    size: u64,
    mime: Seq<char>,
    chunks: Seq<Seq<u8>>,
)
    ensures
        ({
            let meta = FrameView::Control(
                DataMessageView::Meta { name, size, mime, encrypted: true },
            );
            let (rejected, first) = s.deliver(meta);
            let (end, actions) = rejected.deliver_all(binary_frames(chunks));
            &&& !(first matches Some(a) && (a is Open || a is Write))
            &&& rejected.current_file is None
            &&& actions == Seq::<ReceiveActionView>::empty()
            &&& end == rejected
        }),
{
    let meta = FrameView::Control(DataMessageView::Meta { name, size, mime, encrypted: true });
    lemma_deliver_binary_closed(s.deliver(meta).0, chunks);
}

/// The frames that carry a file read piece by piece, each read framed on
/// its own.
pub open spec fn stream_frames(reads: Seq<Seq<u8>>) -> Seq<FrameView>
    decreases reads.len(),
{
    if reads.len() == 0 {
        Seq::empty()
    } else {
        stream_frames(reads.drop_last()) + read_frames(reads.last())
    }
}

/// The pieces that travel when a file is read piece by piece.
pub open spec fn stream_chunks(reads: Seq<Seq<u8>>) -> Seq<Seq<u8>>
    decreases reads.len(),
{
    if reads.len() == 0 {
        Seq::empty()
    } else {
        stream_chunks(reads.drop_last()) + chunks_of(reads.last())
    }
}

/// Putting two runs of pieces together puts their bytes together.
pub proof fn lemma_joined_concat(first: Seq<Seq<u8>>, second: Seq<Seq<u8>>)
    ensures
        joined(first + second) == joined(first) + joined(second),
    decreases second.len(),
{
    if second.len() == 0 {
        assert(first + second =~= first);
        assert(joined(first) + joined(second) =~= joined(first));
    } else {
        assert((first + second).drop_last() =~= first + second.drop_last());
        lemma_joined_concat(first, second.drop_last());
        assert((joined(first) + joined(second.drop_last())) + second.last() =~= joined(first) + (
        joined(second.drop_last()) + second.last()));
    }
}

/// Reads that each return something travel as binary frames only, and
/// the pieces that travel, put together, are the reads put together.
pub proof fn lemma_stream(reads: Seq<Seq<u8>>)
    requires
        forall|i: int| 0 <= i < reads.len() ==> (#[trigger] reads[i]).len() > 0,
    ensures
        stream_frames(reads) == binary_frames(stream_chunks(reads)),
        joined(stream_chunks(reads)) == joined(reads),
    decreases reads.len(),
{
    if reads.len() == 0 {
        assert(stream_frames(reads) =~= binary_frames(stream_chunks(reads)));
    } else {
        let head = reads.drop_last();
        let last = reads.last();
        assert(last == reads[reads.len() - 1]);
        lemma_stream(head);
        lemma_chunks_of(last);
        lemma_joined_concat(stream_chunks(head), chunks_of(last));
        assert(binary_frames(stream_chunks(head) + chunks_of(last)) =~= binary_frames(
            stream_chunks(head),
        ) + binary_frames(chunks_of(last)));
    }
}

/// Round trip of a file that is read piece by piece: metadata, the frames
/// of every read, and the frame of the empty read that ends the file leave
/// a destination whose bytes are the reads put together, and the receiver
/// has counted as many.
pub proof fn lemma_streamed_round_trip(
    s: ReceiveProgressView,
    info: FileInfoView,
    reads: Seq<Seq<u8>>,
)
    requires
        forall|i: int| 0 <= i < reads.len() ==> (#[trigger] reads[i]).len() > 0,
        joined(reads).len() <= u64::MAX,
    ensures
        ({
            let frames = seq![FrameView::Control(meta_of(info))] + stream_frames(reads)
                + read_frames(Seq::empty());
            let (end, actions) = s.deliver_all(frames);
            &&& written(actions) == joined(reads)
            &&& end.received == joined(reads).len()
            &&& end.current_file is None
        }),
{
    lemma_stream(reads);
    lemma_transfer_delivers(s, info, stream_chunks(reads));
}

} // verus!
