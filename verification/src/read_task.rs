//! The read task: it takes queued messages and writes a frame to the connection for each.
use crate::channel::SharedReceiver;
use vstd::prelude::*;

verus! {

/// The stream that the task writes to.
pub const STREAM_ID: u64 = 0;

/// The size of the buffer that the task sends from, and so the longest message it can take.
pub const BUFFER_SIZE: usize = 65535;

/// Why the connection refused a frame.
#[derive(Debug, PartialEq, Eq)]
pub enum TransportError {
    /// The connection was closed.
    InvalidState,
    /// Anything else, described in words.
    Other(String),
}

/// What a `TransportError` says.
pub enum TransportErrorView {
    InvalidState,
    Other(Seq<char>),
}

impl View for TransportError {
    type V = TransportErrorView;

    open spec fn view(&self) -> TransportErrorView {
        match self {
            TransportError::InvalidState => TransportErrorView::InvalidState,
            TransportError::Other(text) => TransportErrorView::Other(text@),
        }
    }
}

/// Data to be written to one stream of the connection.
#[derive(Debug, PartialEq, Eq)]
pub struct StreamFrame {
    pub stream_id: u64,
    pub data: Vec<u8>,
    pub fin: bool,
}

/// What a `StreamFrame` holds.
#[verifier::ext_equal]
pub struct StreamFrameView {
    pub stream_id: u64,
    pub data: Seq<u8>,
    pub fin: bool,
}

impl View for StreamFrame {
    type V = StreamFrameView;

    open spec fn view(&self) -> StreamFrameView {
        StreamFrameView { stream_id: self.stream_id, data: self.data@, fin: self.fin }
    }
}

/// Something that happened to the task.
#[derive(Debug, PartialEq, Eq)]
pub enum ReadTaskEvent {
    /// The task has been spawned.
    Started,
    /// The queue gave a message, or `None` because it is closed and empty.
    Received(Option<Vec<u8>>),
    /// The connection took the last frame or refused it.
    Sent(Result<(), TransportError>),
}

/// What a `ReadTaskEvent` tells.
pub enum ReadTaskEventView {
    Started,
    Received(Option<Seq<u8>>),
    Sent(Result<(), TransportErrorView>),
}

impl View for ReadTaskEvent {
    type V = ReadTaskEventView;

    open spec fn view(&self) -> ReadTaskEventView {
        match self {
            ReadTaskEvent::Started => ReadTaskEventView::Started,
            ReadTaskEvent::Received(None) => ReadTaskEventView::Received(None),
            ReadTaskEvent::Received(Some(data)) => ReadTaskEventView::Received(Some(data@)),
            ReadTaskEvent::Sent(Ok(_)) => ReadTaskEventView::Sent(Ok(())),
            ReadTaskEvent::Sent(Err(error)) => ReadTaskEventView::Sent(Err(error@)),
        }
    }
}

/// What the task does next.
#[derive(Debug, PartialEq, Eq)]
pub enum ReadTaskAction {
    /// Wait for the next message.
    Receive,
    /// Write the frame to the connection.
    SendStreamData(StreamFrame),
    /// Print the line, then wait for the next message.
    ReportAndReceive(String),
    /// Print the line and end.
    Exit(String),
}

/// What a `ReadTaskAction` asks for.
#[verifier::ext_equal]
pub enum ReadTaskActionView {
    Receive,
    SendStreamData(StreamFrameView),
    ReportAndReceive(Seq<char>),
    Exit(Seq<char>),
}

impl View for ReadTaskAction {
    type V = ReadTaskActionView;

    open spec fn view(&self) -> ReadTaskActionView {
        match self {
            ReadTaskAction::Receive => ReadTaskActionView::Receive,
            ReadTaskAction::SendStreamData(frame) => ReadTaskActionView::SendStreamData(frame@),
            ReadTaskAction::ReportAndReceive(line) => ReadTaskActionView::ReportAndReceive(line@),
            ReadTaskAction::Exit(line) => ReadTaskActionView::Exit(line@),
        }
    }
}

/// `len` zero bytes.
pub open spec fn zeros(len: nat) -> Seq<u8> {
    Seq::new(len, |i: int| 0u8)
}

/// The length of a message; a closed queue counts as an empty message.
pub open spec fn message_len(received: Option<Seq<u8>>) -> nat {
    match received {
        Some(data) => data.len(),
        None => 0,
    }
}

/// The frame for a message: as many zero bytes as the message is long, closing the stream.
pub open spec fn frame_for(received: Option<Seq<u8>>) -> StreamFrameView {
    StreamFrameView { stream_id: STREAM_ID, data: zeros(message_len(received)), fin: true }
}

/// Whether the buffer is large enough for what the event brings.
pub open spec fn fits(event: ReadTaskEventView) -> bool {
    event matches ReadTaskEventView::Received(received) ==> message_len(received) <= BUFFER_SIZE
}

/// What the task does about an event.
pub open spec fn next_action(event: ReadTaskEventView) -> ReadTaskActionView {
    match event {
        ReadTaskEventView::Started => ReadTaskActionView::Receive,
        ReadTaskEventView::Received(received) => ReadTaskActionView::SendStreamData(
            frame_for(received),
        ),
        ReadTaskEventView::Sent(Ok(_)) => ReadTaskActionView::Receive,
        ReadTaskEventView::Sent(Err(TransportErrorView::InvalidState)) => ReadTaskActionView::Exit(
            "Read task exiting."@,
        ),
        ReadTaskEventView::Sent(
            Err(TransportErrorView::Other(text)),
        ) => ReadTaskActionView::ReportAndReceive("Error sending data: "@ + text),
    }
}

/// A vector of `len` zero bytes.
pub(crate) fn zero_bytes(len: usize) -> (bytes: Vec<u8>)
    ensures
        bytes@ == zeros(len as nat),
{
    let bytes: Vec<u8> = vec![0u8; len];
    assert(bytes@ =~= zeros(len as nat));
    bytes
}

/// The read task of one connection.
pub struct ReadTask<C> {
    /// The connection that the task writes to.
    pub connection: C,
    /// The receive half of the queue that the task takes messages from.
    pub receiver: SharedReceiver,
}

impl<C> ReadTask<C> {
    /// The messages that the task's queue delivers over its whole life, by position.
    pub open spec fn messages(&self) -> Map<nat, Seq<u8>> {
        crate::channel::guarded(*self.receiver)
    }

    /// Decides what the task does about `event`.
    ///
    /// A message is answered with a frame, a refused frame with a report, and only a connection
    /// that is already closed ends the task. A message longer than the buffer cannot be taken.
    pub fn step(&self, event: ReadTaskEvent) -> (action: ReadTaskAction)
        requires
            fits(event@),
        ensures
            action@ == next_action(event@),
    {
        match event {
            ReadTaskEvent::Started => ReadTaskAction::Receive,
            ReadTaskEvent::Received(received) => {
                let len: usize = match received {
                    Some(data) => data.len(),
                    None => 0,
                };
                ReadTaskAction::SendStreamData(
                    StreamFrame { stream_id: STREAM_ID, data: zero_bytes(len), fin: true },
                )
            },
            ReadTaskEvent::Sent(Ok(_)) => ReadTaskAction::Receive,
            ReadTaskEvent::Sent(Err(TransportError::InvalidState)) => {
                ReadTaskAction::Exit(String::from_str("Read task exiting."))
            },
            ReadTaskEvent::Sent(Err(TransportError::Other(text))) => {
                let mut line = String::from_str("Error sending data: ");
                line.append(text.as_str());
                ReadTaskAction::ReportAndReceive(line)
            },
        }
    }
}

} // verus!
