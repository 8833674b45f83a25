use share_files::receive::{ReceiveAction, ReceiveEvent, ReceiveProgress};
use share_files::transfer::{
    frames_for_read, meta_message, push_chunks, send_file, DataMessage, FileInfo, Frame, CHUNK_SIZE,
};

fn info(name: &str, size: u64) -> FileInfo {
    FileInfo {
        path: format!("/tmp/{name}"),
        name: name.to_string(),
        size,
        mime: "text/plain".to_string(),
    }
}

fn meta(name: &str, size: u64, encrypted: bool) -> Frame {
    Frame::Control(DataMessage::Meta {
        name: name.to_string(),
        size,
        mime: "text/plain".to_string(),
        encrypted,
    })
}

fn pattern(len: usize) -> Vec<u8> {
    (0..len).map(|i| (i % 251) as u8).collect()
}

/// A receiver whose destinations live in memory: performs each action and
/// reports its success, as a caller with a working disk would.
struct Sink {
    progress: ReceiveProgress,
    created: Vec<(String, String)>,
    open: Option<Vec<u8>>,
    closed: Vec<Vec<u8>>,
}

impl Sink {
    fn new(dir: &str) -> Sink {
        Sink {
            progress: ReceiveProgress::new(dir.to_string()),
            created: Vec::new(),
            open: None,
            closed: Vec::new(),
        }
    }

    fn deliver(&mut self, frame: Frame) {
        match self.progress.handle(ReceiveEvent::Frame(frame)) {
            Some(ReceiveAction::Open { dir, name, size }) => {
                self.created.push((dir, name.clone()));
                self.open = Some(Vec::new());
                assert_eq!(self.progress.handle(ReceiveEvent::Opened { name, size }), None);
            }
            Some(ReceiveAction::Write(bytes)) => {
                let n = bytes.len() as u64;
                self.open.as_mut().expect("write without destination").extend(bytes);
                assert_eq!(self.progress.handle(ReceiveEvent::Written(n)), None);
            }
            Some(ReceiveAction::Close) => {
                let file = self.open.take().expect("close without destination");
                self.closed.push(file);
            }
            None => {}
        }
    }
}

#[test]
fn chunk_size_is_64_kib() {
    assert_eq!(CHUNK_SIZE, 64 * 1024);
}

#[test]
fn hello_world_is_one_meta_one_binary_one_done() {
    let file = info("hello.txt", 13);
    let frames = send_file(&file, b"Hello, world!");
    assert_eq!(
        frames,
        vec![
            meta("hello.txt", 13, false),
            Frame::Binary(b"Hello, world!".to_vec()),
            Frame::Control(DataMessage::Done),
        ]
    );
}

#[test]
fn meta_message_is_never_encrypted() {
    assert_eq!(
        meta_message(&info("a.bin", 7)),
        DataMessage::Meta {
            name: "a.bin".to_string(),
            size: 7,
            mime: "text/plain".to_string(),
            encrypted: false,
        }
    );
}

#[test]
fn empty_file_has_no_binary_frame() {
    let frames = send_file(&info("empty", 0), b"");
    assert_eq!(frames, vec![meta("empty", 0, false), Frame::Control(DataMessage::Done)]);
}

#[test]
fn contents_are_cut_at_the_chunk_size() {
    for (len, sizes) in [
        (1usize, vec![1usize]),
        (65535, vec![65535]),
        (65536, vec![65536]),
        (65537, vec![65536, 1]),
        (131072, vec![65536, 65536]),
        (200000, vec![65536, 65536, 65536, 3392]),
    ] {
        let data = pattern(len);
        let mut frames = Vec::new();
        push_chunks(&mut frames, &data);
        let got: Vec<usize> = frames
            .iter()
            .map(|f| match f {
                Frame::Binary(b) => b.len(),
                Frame::Control(_) => panic!("control frame among chunks"),
            })
            .collect();
        assert_eq!(got, sizes, "length {len}");
        let mut joined = Vec::new();
        for f in frames {
            if let Frame::Binary(b) = f {
                joined.extend(b);
            }
        }
        assert_eq!(joined, data);
    }
}

#[test]
fn push_chunks_keeps_what_is_there() {
    let mut frames = vec![Frame::Control(DataMessage::Done)];
    push_chunks(&mut frames, b"xy");
    assert_eq!(frames, vec![Frame::Control(DataMessage::Done), Frame::Binary(b"xy".to_vec())]);
}

#[test]
fn an_empty_read_ends_the_transfer() {
    assert_eq!(frames_for_read(b""), vec![Frame::Control(DataMessage::Done)]);
    assert_eq!(frames_for_read(b"abc"), vec![Frame::Binary(b"abc".to_vec())]);
    let big = pattern(CHUNK_SIZE + 5);
    let frames = frames_for_read(&big);
    assert_eq!(frames.len(), 2);
    assert_eq!(frames[0], Frame::Binary(big[..CHUNK_SIZE].to_vec()));
    assert_eq!(frames[1], Frame::Binary(big[CHUNK_SIZE..].to_vec()));
}

#[test]
fn round_trip_is_byte_identical_and_counted() {
    for len in [0usize, 1, 13, 65536, 65537, 300001] {
        let data = pattern(len);
        let mut sink = Sink::new("out");
        for frame in send_file(&info("f.bin", len as u64), &data) {
            sink.deliver(frame);
        }
        assert_eq!(sink.created, vec![("out".to_string(), "f.bin".to_string())]);
        assert_eq!(sink.closed, vec![data]);
        assert!(sink.open.is_none());
        assert_eq!(sink.progress.received(), len as u64);
        assert_eq!(sink.progress.expected_size(), len as u64);
        assert_eq!(sink.progress.current_file(), None);
    }
}

#[test]
fn encrypted_metadata_creates_nothing_and_writes_nothing() {
    let mut sink = Sink::new("out");
    sink.deliver(meta("secret.bin", 5, true));
    sink.deliver(Frame::Binary(b"12345".to_vec()));
    sink.deliver(Frame::Binary(b"678".to_vec()));
    sink.deliver(Frame::Control(DataMessage::Done));
    assert!(sink.created.is_empty());
    assert!(sink.closed.is_empty());
    assert!(sink.open.is_none());
    assert_eq!(sink.progress.received(), 0);
    assert_eq!(sink.progress.current_file(), None);
}

#[test]
fn encrypted_metadata_closes_the_open_destination() {
    let mut sink = Sink::new("out");
    sink.deliver(meta("plain.txt", 4, false));
    sink.deliver(Frame::Binary(b"ab".to_vec()));
    sink.deliver(meta("secret.bin", 5, true));
    sink.deliver(Frame::Binary(b"12345".to_vec()));
    assert_eq!(sink.created.len(), 1);
    assert_eq!(sink.closed, vec![b"ab".to_vec()]);
    assert_eq!(sink.progress.current_file(), None);
}

#[test]
fn binary_frame_without_destination_is_dropped() {
    let mut p = ReceiveProgress::new("out".to_string());
    assert_eq!(p.handle(ReceiveEvent::Frame(Frame::Binary(b"abc".to_vec()))), None);
    assert_eq!(p.received(), 0);
}

#[test]
fn done_without_destination_asks_for_nothing() {
    let mut p = ReceiveProgress::new("out".to_string());
    assert_eq!(p.handle(ReceiveEvent::Frame(Frame::Control(DataMessage::Done))), None);
}

#[test]
fn metadata_asks_for_a_destination_in_the_output_directory() {
    let mut p = ReceiveProgress::new("downloads".to_string());
    assert_eq!(p.output_dir(), "downloads");
    assert_eq!(
        p.handle(ReceiveEvent::Frame(meta("hello.txt", 13, false))),
        Some(ReceiveAction::Open {
            dir: "downloads".to_string(),
            name: "hello.txt".to_string(),
            size: 13,
        })
    );
    assert_eq!(p.current_file(), None);
    assert_eq!(p.handle(ReceiveEvent::Opened { name: "hello.txt".to_string(), size: 13 }), None);
    assert_eq!(p.current_file(), Some("hello.txt".to_string()));
    assert_eq!(p.expected_size(), 13);
    assert_eq!(p.received(), 0);
}

#[test]
fn a_failed_creation_keeps_the_previous_destination() {
    let mut p = ReceiveProgress::new("out".to_string());
    p.handle(ReceiveEvent::Frame(meta("first", 3, false)));
    p.handle(ReceiveEvent::Opened { name: "first".to_string(), size: 3 });
    p.handle(ReceiveEvent::Written(2));
    assert!(matches!(
        p.handle(ReceiveEvent::Frame(meta("second", 9, false))),
        Some(ReceiveAction::Open { .. })
    ));
    assert_eq!(p.current_file(), Some("first".to_string()));
    assert_eq!(p.received(), 2);
    assert_eq!(
        p.handle(ReceiveEvent::Frame(Frame::Binary(b"x".to_vec()))),
        Some(ReceiveAction::Write(b"x".to_vec()))
    );
}

#[test]
fn new_metadata_replaces_the_unfinished_file() {
    let mut sink = Sink::new("out");
    sink.deliver(meta("first", 10, false));
    sink.deliver(Frame::Binary(b"abc".to_vec()));
    sink.deliver(meta("second", 2, false));
    assert_eq!(sink.progress.received(), 0);
    assert_eq!(sink.progress.current_file(), Some("second".to_string()));
    sink.deliver(Frame::Binary(b"zz".to_vec()));
    sink.deliver(Frame::Control(DataMessage::Done));
    assert_eq!(sink.closed, vec![b"zz".to_vec()]);
    assert_eq!(sink.created.len(), 2);
}

#[test]
fn declared_size_is_not_enforced() {
    let mut sink = Sink::new("out");
    sink.deliver(meta("short", 100, false));
    sink.deliver(Frame::Binary(b"abc".to_vec()));
    sink.deliver(Frame::Control(DataMessage::Done));
    assert_eq!(sink.closed, vec![b"abc".to_vec()]);
    assert_eq!(sink.progress.received(), 3);

    let mut sink = Sink::new("out");
    sink.deliver(meta("long", 1, false));
    sink.deliver(Frame::Binary(b"abcdef".to_vec()));
    assert_eq!(sink.progress.received(), 6);
    assert_eq!(sink.progress.expected_size(), 1);
}

#[test]
fn the_counter_stops_at_its_limit() {
    let mut p = ReceiveProgress::new("out".to_string());
    p.handle(ReceiveEvent::Opened { name: "big".to_string(), size: 0 });
    p.handle(ReceiveEvent::Written(u64::MAX - 1));
    assert_eq!(p.received(), u64::MAX - 1);
    p.handle(ReceiveEvent::Written(1));
    assert_eq!(p.received(), u64::MAX);
    p.handle(ReceiveEvent::Written(5));
    assert_eq!(p.received(), u64::MAX);
}

#[test]
fn a_file_read_in_pieces_arrives_whole() {
    let data = pattern(CHUNK_SIZE + 1000);
    let reads: [&[u8]; 4] = [&data[..10], &data[10..70], &data[70..CHUNK_SIZE], &data[CHUNK_SIZE..]];
    let mut sink = Sink::new("out");
    sink.deliver(Frame::Control(meta_message(&info("pieces.bin", data.len() as u64))));
    for read in reads {
        for frame in frames_for_read(read) {
            sink.deliver(frame);
        }
    }
    for frame in frames_for_read(&[]) {
        sink.deliver(frame);
    }
    assert_eq!(sink.closed, vec![data.clone()]);
    assert_eq!(sink.progress.received(), data.len() as u64);
    assert_eq!(sink.progress.current_file(), None);
}
