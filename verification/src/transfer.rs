//! The framing of one file on an open data channel: a metadata message,
//! the contents in binary frames of bounded size, a completion marker.

use vstd::prelude::*;
use vstd::slice::{slice_subrange, slice_to_vec};

verus! {

/// The largest number of bytes that one binary frame carries.
pub const CHUNK_SIZE: usize = 65536;

/// A textual control message on the data channel.
#[derive(Clone, Debug, PartialEq, Eq)]
pub enum DataMessage {
    /// Announces a file: its name, declared size and media type, and whether
    /// its contents are encrypted.
    Meta { name: String, size: u64, mime: String, encrypted: bool },
    /// The file announced last is complete.
    Done,
}

/// Mathematical model of a [`DataMessage`].
pub enum DataMessageView {
    Meta { name: Seq<char>, size: u64, mime: Seq<char>, encrypted: bool },
    Done,
}

impl View for DataMessage {
    type V = DataMessageView;

    open spec fn view(&self) -> DataMessageView {
        match self {
            DataMessage::Meta { name, size, mime, encrypted } => DataMessageView::Meta {
                name: name@,
                size: *size,
                mime: mime@,
                encrypted: *encrypted,
            },
            DataMessage::Done => DataMessageView::Done,
        }
    }
}

/// One frame of the data channel, which tells text from binary.
#[derive(Clone, Debug, PartialEq, Eq)]
pub enum Frame {
    /// A textual frame that holds a control message.
    Control(DataMessage),
    /// A binary frame that holds file contents.
    Binary(Vec<u8>),
}

/// Mathematical model of a [`Frame`].
pub enum FrameView {
    Control(DataMessageView),
    Binary(Seq<u8>),
}

impl View for Frame {
    type V = FrameView;

    open spec fn view(&self) -> FrameView {
        match self {
            Frame::Control(m) => FrameView::Control(m@),
            Frame::Binary(bytes) => FrameView::Binary(bytes@),
        }
    }
}

/// Models of a sequence of frames.
pub open spec fn frames_view(s: Seq<Frame>) -> Seq<FrameView> {
    s.map_values(|f: Frame| f@)
}

/// What is known of the file to send before any session exists.
#[derive(Clone, Debug, PartialEq, Eq)]
pub struct FileInfo {
    pub path: String,
    pub name: String,
    pub size: u64,
    pub mime: String,
}

/// Mathematical model of a [`FileInfo`].
pub struct FileInfoView {
    pub path: Seq<char>,
    pub name: Seq<char>,
    pub size: u64,
    pub mime: Seq<char>,
}

impl View for FileInfo {
    type V = FileInfoView;

    open spec fn view(&self) -> FileInfoView {
        FileInfoView { path: self.path@, name: self.name@, size: self.size, mime: self.mime@ }
    }
}

/// The metadata message that announces a file. Contents are never encrypted.
pub open spec fn meta_of(info: FileInfoView) -> DataMessageView {
    DataMessageView::Meta { name: info.name, size: info.size, mime: info.mime, encrypted: false }
}

/// File contents cut into pieces of `CHUNK_SIZE` bytes, the last one
/// holding what is left.
pub open spec fn chunks_of(data: Seq<u8>) -> Seq<Seq<u8>>
    decreases data.len(),
{
    if data.len() == 0 {
        Seq::empty()
    } else if data.len() <= CHUNK_SIZE {
        seq![data]
    } else {
        seq![data.take(CHUNK_SIZE as int)] + chunks_of(data.skip(CHUNK_SIZE as int))
    }
}

/// The binary frames that carry a sequence of pieces.
pub open spec fn binary_frames(chunks: Seq<Seq<u8>>) -> Seq<FrameView> {
    chunks.map_values(|c: Seq<u8>| FrameView::Binary(c))
}

/// The pieces put together again.
pub open spec fn joined(chunks: Seq<Seq<u8>>) -> Seq<u8>
    decreases chunks.len(),
{
    if chunks.len() == 0 {
        Seq::empty()
    } else {
        joined(chunks.drop_last()) + chunks.last()
    }
}

/// The frames that carry what one read of the file returned: the completion
/// marker at the end of the file, binary frames otherwise.
pub open spec fn read_frames(read: Seq<u8>) -> Seq<FrameView> {
    if read.len() == 0 {
        seq![FrameView::Control(DataMessageView::Done)]
    } else {
        binary_frames(chunks_of(read))
    }
}

/// The frames of a whole transfer: metadata, contents, completion marker.
pub open spec fn send_frames(info: FileInfoView, data: Seq<u8>) -> Seq<FrameView> {
    seq![FrameView::Control(meta_of(info))] + binary_frames(chunks_of(data)) + seq![
        FrameView::Control(DataMessageView::Done),
    ]
}

/// Putting a piece in front puts its bytes in front.
pub proof fn lemma_joined_prepend(first: Seq<u8>, rest: Seq<Seq<u8>>)
    ensures
        joined(seq![first] + rest) == first + joined(rest),
    decreases rest.len(),
{
    if rest.len() == 0 {
        assert(seq![first] + rest =~= seq![first]);
        assert(seq![first].drop_last() =~= Seq::<Seq<u8>>::empty());
        assert(joined(Seq::<Seq<u8>>::empty()) =~= Seq::<u8>::empty());
        assert(seq![first].last() == first);
        assert(joined(seq![first]) =~= first);
        assert(first + joined(rest) =~= first);
    } else {
        assert((seq![first] + rest).drop_last() =~= seq![first] + rest.drop_last());
        lemma_joined_prepend(first, rest.drop_last());
        assert((first + joined(rest.drop_last())) + rest.last() =~= first + (joined(
            rest.drop_last(),
        ) + rest.last()));
    }
}

/// Cutting loses nothing: the pieces of some contents, put together, are
/// the contents. No piece is empty and none exceeds `CHUNK_SIZE` bytes.
pub proof fn lemma_chunks_of(data: Seq<u8>)
    ensures
        joined(chunks_of(data)) == data,
        forall|i: int|
            0 <= i < chunks_of(data).len() ==> 0 < (#[trigger] chunks_of(data)[i]).len()
                <= CHUNK_SIZE,
        forall|i: int|
            0 <= i < chunks_of(data).len() - 1 ==> (#[trigger] chunks_of(data)[i]).len()
                == CHUNK_SIZE,
    decreases data.len(),
{
    if data.len() == 0 {
        assert(joined(chunks_of(data)) =~= data);
    } else if data.len() <= CHUNK_SIZE {
        lemma_joined_prepend(data, Seq::empty());
        assert(seq![data] + Seq::<Seq<u8>>::empty() =~= seq![data]);
        assert(data + joined(Seq::<Seq<u8>>::empty()) =~= data);
    } else {
        let first = data.take(CHUNK_SIZE as int);
        let rest = data.skip(CHUNK_SIZE as int);
        lemma_chunks_of(rest);
        lemma_joined_prepend(first, chunks_of(rest));
        assert(first + rest =~= data);
        assert(chunks_of(rest).len() > 0);
        assert forall|i: int| 0 <= i < chunks_of(data).len() implies 0 < (#[trigger] chunks_of(
            data,
        )[i]).len() <= CHUNK_SIZE by {
            if i > 0 {
                assert(chunks_of(data)[i] == chunks_of(rest)[i - 1]);
            }
        }
        assert forall|i: int| 0 <= i < chunks_of(data).len() - 1 implies (#[trigger] chunks_of(
            data,
        )[i]).len() == CHUNK_SIZE by {
            if i > 0 {
                assert(chunks_of(data)[i] == chunks_of(rest)[i - 1]);
            }
        }
    }
}

/// The metadata message that announces `info`.
pub fn meta_message(info: &FileInfo) -> (m: DataMessage)
    ensures
        m@ == meta_of(info@),
{
    DataMessage::Meta {
        name: info.name.clone(),
        size: info.size,
        mime: info.mime.clone(),
        encrypted: false,
    }
}

/// Appends to `frames` the binary frames that carry `data`, each of at most
/// `CHUNK_SIZE` bytes, in order.
pub fn push_chunks(frames: &mut Vec<Frame>, data: &[u8])
    ensures
        frames_view(final(frames)@) == frames_view(old(frames)@) + binary_frames(chunks_of(data@)),
{
    let ghost start = frames_view(frames@);
    let mut pos: usize = 0;
    assert(data@.skip(0) =~= data@);
    assert(start + binary_frames(Seq::empty()) =~= start);
    let ghost mut done: Seq<Seq<u8>> = Seq::empty();
    while pos < data.len()
        invariant
            pos <= data.len(),
            done + chunks_of(data@.skip(pos as int)) == chunks_of(data@),
            frames_view(frames@) == start + binary_frames(done),
        decreases data.len() - pos,
    {
        let end: usize = if data.len() - pos > CHUNK_SIZE {
            pos + CHUNK_SIZE
        } else {
            data.len()
        };
        let piece = slice_to_vec(slice_subrange(data, pos, end));
        let ghost rest = data@.skip(pos as int);
        let ghost before = frames@;
        proof {
            if rest.len() <= CHUNK_SIZE {
                assert(piece@ =~= rest);
                assert(data@.skip(end as int) =~= Seq::empty());
                assert(chunks_of(rest) =~= seq![piece@] + chunks_of(data@.skip(end as int)));
            } else {
                assert(piece@ =~= rest.take(CHUNK_SIZE as int));
                assert(data@.skip(end as int) =~= rest.skip(CHUNK_SIZE as int));
            }
            assert(done.push(piece@) + chunks_of(data@.skip(end as int)) =~= done + (seq![
                piece@,
            ] + chunks_of(data@.skip(end as int))));
            assert(binary_frames(done.push(piece@)) =~= binary_frames(done).push(
                FrameView::Binary(piece@),
            ));
            done = done.push(piece@);
        }
        frames.push(Frame::Binary(piece));
        assert(frames_view(frames@) =~= frames_view(before).push(FrameView::Binary(piece@)));
        pos = end;
    }
    proof {
        assert(data@.skip(pos as int) =~= Seq::empty());
        assert(done + Seq::<Seq<u8>>::empty() =~= done);
    }
}

/// The frames that carry what one read of the file returned. An empty read
/// is the end of the file and gives the completion marker.
pub fn frames_for_read(read: &[u8]) -> (frames: Vec<Frame>)
    ensures
        frames_view(frames@) == read_frames(read@),
{
    let mut frames: Vec<Frame> = Vec::new();
    if read.len() == 0 {
        frames.push(Frame::Control(DataMessage::Done));
        assert(frames_view(frames@) =~= read_frames(read@));
    } else {
        assert(frames_view(frames@) =~= Seq::empty());
        push_chunks(&mut frames, read);
        assert(Seq::<FrameView>::empty() + binary_frames(chunks_of(read@)) =~= binary_frames(
            chunks_of(read@),
        ));
    }
    frames
}

/// The frames of a whole transfer of the file `info` with the contents
/// `data`: one metadata frame, the contents in binary frames of at most
/// `CHUNK_SIZE` bytes, one completion frame.
pub fn send_file(info: &FileInfo, data: &[u8]) -> (frames: Vec<Frame>)
    ensures
        frames_view(frames@) == send_frames(info@, data@),
{
    let mut frames: Vec<Frame> = Vec::new();
    frames.push(Frame::Control(meta_message(info)));
    assert(frames_view(frames@) =~= seq![FrameView::Control(meta_of(info@))]);
    push_chunks(&mut frames, data);
    let ghost before = frames@;
    frames.push(Frame::Control(DataMessage::Done));
    assert(frames_view(frames@) =~= frames_view(before).push(
        FrameView::Control(DataMessageView::Done),
    ));
    assert(frames_view(frames@) =~= send_frames(info@, data@));
    frames
}

} // verus!
