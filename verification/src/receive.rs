//! The receiving end of a transfer: which frames open, fill and close the
//! one destination that is live at a time.

use vstd::prelude::*;
use crate::payload::{clone_opt_text, opt_text};
use crate::transfer::{DataMessage, DataMessageView, Frame, FrameView};

verus! {

/// The progress of the one incoming file.
#[derive(Clone, Debug, PartialEq, Eq)]
pub struct ReceiveProgress {
    output_dir: String,
    current_file: Option<String>,
    expected_size: u64,
    received: u64,
}

/// Mathematical model of a [`ReceiveProgress`].
pub struct ReceiveProgressView {
    /// The directory in which destinations are opened.
    pub output_dir: Seq<char>,
    /// The declared name of the file whose destination is open, if one is.
    pub current_file: Option<Seq<char>>,
    /// The size that the metadata declared; it is not enforced.
    pub expected_size: u64,
    /// The bytes written to the open destination so far.
    pub received: u64,
}

impl View for ReceiveProgress {
    type V = ReceiveProgressView;

    closed spec fn view(&self) -> ReceiveProgressView {
        ReceiveProgressView {
            output_dir: self.output_dir@,
            current_file: opt_text(self.current_file),
            expected_size: self.expected_size,
            received: self.received,
        }
    }
}

/// Something that happens to the receiving end.
#[derive(Clone, Debug, PartialEq, Eq)]
pub enum ReceiveEvent {
    /// A frame arrived on the data channel.
    Frame(Frame),
    /// The destination asked for by an `Open` action has been created.
    Opened { name: String, size: u64 },
    /// This many bytes of a `Write` action have reached the destination.
    Written(u64),
}

/// Mathematical model of a [`ReceiveEvent`].
pub enum ReceiveEventView {
    Frame(FrameView),
    Opened { name: Seq<char>, size: u64 },
    Written(u64),
}

impl View for ReceiveEvent {
    type V = ReceiveEventView;

    open spec fn view(&self) -> ReceiveEventView {
        match self {
            ReceiveEvent::Frame(f) => ReceiveEventView::Frame(f@),
            ReceiveEvent::Opened { name, size } => ReceiveEventView::Opened {
                name: name@,
                size: *size,
            },
            ReceiveEvent::Written(n) => ReceiveEventView::Written(*n),
        }
    }
}

/// Something the caller has to do for the receiving end.
#[derive(Clone, Debug, PartialEq, Eq)]
pub enum ReceiveAction {
    /// Create a fresh destination for the file `name` inside `dir`, in place
    /// of the open one if it succeeds, and report `Opened` with the same
    /// name and size. A failure is not reported.
    Open { dir: String, name: String, size: u64 },
    /// Append these bytes to the open destination and report `Written`
    /// with their number. A failure is not reported.
    Write(Vec<u8>),
    /// Close the open destination.
    Close,
}

/// Mathematical model of a [`ReceiveAction`].
pub enum ReceiveActionView {
    Open { dir: Seq<char>, name: Seq<char>, size: u64 },
    Write(Seq<u8>),
    Close,
}

impl View for ReceiveAction {
    type V = ReceiveActionView;

    open spec fn view(&self) -> ReceiveActionView {
        match self {
            ReceiveAction::Open { dir, name, size } => ReceiveActionView::Open {
                dir: dir@,
                name: name@,
                size: *size,
            },
            ReceiveAction::Write(bytes) => ReceiveActionView::Write(bytes@),
            ReceiveAction::Close => ReceiveActionView::Close,
        }
    }
}

/// Model of an optional action.
pub open spec fn action_view(a: Option<ReceiveAction>) -> Option<ReceiveActionView> {
    match a {
        Some(action) => Some(action@),
        None => None,
    }
}

/// The sum of a counter and a number of bytes, kept within the counter's range.
pub open spec fn counted(received: u64, more: u64) -> u64 {
    if received + more > u64::MAX {
        u64::MAX
    } else {
        (received + more) as u64
    }
}

impl ReceiveProgressView {
    /// The progress before any file was announced.
    pub open spec fn fresh(output_dir: Seq<char>) -> ReceiveProgressView {
        ReceiveProgressView { output_dir, current_file: None, expected_size: 0, received: 0 }
    }

    /// The open destination, if there is one, is given up.
    pub open spec fn release(self) -> (ReceiveProgressView, Option<ReceiveActionView>) {
        (
            ReceiveProgressView { current_file: None, ..self },
            if self.current_file is Some {
                Some(ReceiveActionView::Close)
            } else {
                None
            },
        )
    }

    /// The progress after an event, and what the event asks of the caller.
    ///
    /// Metadata of an encrypted file is rejected: no destination is created,
    /// and the one that is open is closed, so that the frames which follow
    /// find none and are dropped. Metadata of a plain file asks for a
    /// destination; until that is reported open, the progress stays as it
    /// is, and a destination that was open before stays the open one if the
    /// creation fails. The declared size is recorded and never enforced.
    pub open spec fn step(self, e: ReceiveEventView) -> (
        ReceiveProgressView,
        Option<ReceiveActionView>,
    ) {
        match e {
            ReceiveEventView::Frame(
                FrameView::Control(DataMessageView::Meta { name, size, mime, encrypted }),
            ) => if encrypted {
                self.release()
            } else {
                (self, Some(ReceiveActionView::Open { dir: self.output_dir, name, size }))
            },
            ReceiveEventView::Frame(FrameView::Control(DataMessageView::Done)) => self.release(),
            ReceiveEventView::Frame(FrameView::Binary(bytes)) => (
                self,
                if self.current_file is Some {
                    Some(ReceiveActionView::Write(bytes))
                } else {
                    None
                },
            ),
            ReceiveEventView::Opened { name, size } => (
                ReceiveProgressView {
                    current_file: Some(name),
                    expected_size: size,
                    received: 0,
                    ..self
                },
                None,
            ),
            ReceiveEventView::Written(n) => (
                ReceiveProgressView { received: counted(self.received, n), ..self },
                None,
            ),
        }
    }
}

impl ReceiveProgress {
    /// The progress before any file was announced, for destinations inside
    /// `output_dir`.
    pub fn new(output_dir: String) -> (p: ReceiveProgress)
        ensures
            p@ == ReceiveProgressView::fresh(output_dir@),
    {
        ReceiveProgress { output_dir, current_file: None, expected_size: 0, received: 0 }
    }

    /// The directory in which destinations are opened.
    pub fn output_dir(&self) -> (dir: &String)
        ensures
            dir@ == self@.output_dir,
    {
        &self.output_dir
    }

    /// The declared name of the file whose destination is open.
    pub fn current_file(&self) -> (name: Option<String>)
        ensures
            opt_text(name) == self@.current_file,
    {
        clone_opt_text(&self.current_file)
    }

    /// The size that the metadata of the current file declared.
    pub fn expected_size(&self) -> (size: u64)
        ensures
            size == self@.expected_size,
    {
        self.expected_size
    }

    /// The bytes written to the open destination so far.
    pub fn received(&self) -> (n: u64)
        ensures
            n == self@.received,
    {
        self.received
    }

    /// Gives up the open destination, if there is one.
    fn release(&mut self) -> (action: Option<ReceiveAction>)
        ensures
            (final(self)@, action_view(action)) == old(self)@.release(),
    {
        let open = self.current_file.is_some();
        self.current_file = None;
        if open {
            Some(ReceiveAction::Close)
        } else {
            None
        }
    }

    /// Takes one event and says what the caller has to do, if anything.
    pub fn handle(&mut self, event: ReceiveEvent) -> (action: Option<ReceiveAction>)
        ensures
            (final(self)@, action_view(action)) == old(self)@.step(event@),
    {
        match event {
            ReceiveEvent::Frame(Frame::Control(DataMessage::Meta { name, size, mime, encrypted })) => {
                if encrypted {
                    self.release()
                } else {
                    Some(ReceiveAction::Open { dir: self.output_dir.clone(), name, size })
                }
            },
            ReceiveEvent::Frame(Frame::Control(DataMessage::Done)) => self.release(),
            ReceiveEvent::Frame(Frame::Binary(bytes)) => {
                if self.current_file.is_some() {
                    Some(ReceiveAction::Write(bytes))
                } else {
                    None
                }
            },
            ReceiveEvent::Opened { name, size } => {
                self.current_file = Some(name);
                self.expected_size = size;
                self.received = 0;
                None
            },
            ReceiveEvent::Written(n) => {
                self.received = self.received.saturating_add(n);
                None
            },
        }
    }
}

} // verus!
