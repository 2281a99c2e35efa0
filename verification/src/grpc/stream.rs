//! The two-way message stream: what is asked on it, and the pump that moves frames both ways.

use crate::encoding::{random_uuid, uuid_new_v4, uuid_text, uuid_to_string};
use crate::envelope::Envelope;
use crate::grpc::framing::{all_held, partial_frame, whole_frames, FrameBuffer};
use bytes::Bytes;
use vstd::prelude::*;

verus! {

/// How many frames may wait to go out.
pub const OUTGOING_CHANNEL_DEPTH: usize = 256;

/// How long the pump waits for a chunk before it looks at the outgoing frames again.
pub const RECV_POLL_INTERVAL_MS: u64 = 50;

/// What is asked on the stream.
#[derive(Debug)]
pub enum StreamRequest {
    Subscribe { conversation_ids: Vec<String>, since_cursor: Option<String>, include_presence: bool },
    Heartbeat { timestamp: i64 },
    Send(Box<Envelope>),
}

/// A request with the id that it goes by.
#[derive(Debug)]
pub struct MessageStreamRequest {
    pub request: StreamRequest,
    pub request_id: String,
}

/// A fresh request id: a random UUID.
pub fn new_request_id() -> (r: String)
    ensures
        exists|b: Seq<u8>| random_uuid(b) && #[trigger] uuid_text(b) == r@,
{
    let b = uuid_new_v4();
    uuid_to_string(b)
}

/// Asks for the messages of some conversations, from a cursor on, without presence.
pub fn subscribe_request(
    conversation_ids: Vec<String>,
    since_cursor: Option<String>,
    request_id: String,
) -> (r: MessageStreamRequest)
    ensures
        r.request == (StreamRequest::Subscribe {
            conversation_ids,
            since_cursor,
            include_presence: false,
        }),
        r.request_id == request_id,
{
    MessageStreamRequest {
        request: StreamRequest::Subscribe {
            conversation_ids,
            since_cursor,
            include_presence: false,
        },
        request_id,
    }
}

/// What happened to the pump.
#[derive(Debug)]
pub enum PumpInput {
    /// A frame is to go out.
    Outgoing(Bytes),
    /// Nothing will go out any more.
    OutgoingClosed,
    /// A frame could not go out.
    SendFailed,
    /// Bytes came in.
    Chunk(Vec<u8>),
    RecvFailed,
    /// The server is done sending.
    RecvClosed,
    /// Nothing came in for a while.
    Idle,
}

/// What the pump does about it.
#[derive(Debug)]
pub enum PumpAction {
    Send(Bytes),
    /// Hand these frames on.
    Deliver(Vec<Bytes>),
    /// Close our side and leave.
    EndStream,
    /// Cancel the stream and leave.
    Reset,
    /// Leave.
    Leave,
    /// Go on waiting.
    Wait,
}

/// An open message stream.
pub struct MessageStream {
    buffer: FrameBuffer,
    open: bool,
}

impl MessageStream {
    /// The bytes of a frame that has not come in whole.
    pub closed spec fn partial(&self) -> Seq<u8> {
        self.buffer@
    }

    pub closed spec fn is_open(&self) -> bool {
        self.open
    }

    pub fn new() -> (r: Self)
        ensures
            r.partial() == Seq::<u8>::empty(),
            r.is_open(),
    {
        MessageStream { buffer: FrameBuffer::new(), open: true }
    }

    /// What follows an event. A pump that has left does nothing more.
    pub fn pump(&mut self, input: PumpInput) -> (r: PumpAction)
        requires
            input matches PumpInput::Chunk(chunk) ==> old(self).partial().len() + chunk@.len()
                <= isize::MAX,
        ensures
            !old(self).is_open() ==> r is Leave && *final(self) == *old(self),
            old(self).is_open() ==> {
                &&& input matches PumpInput::Outgoing(frame) ==> r == PumpAction::Send(frame)
                &&& input is OutgoingClosed ==> r is EndStream
                &&& input is SendFailed ==> r is Reset
                &&& input matches PumpInput::Chunk(chunk) ==> {
                    &&& r matches PumpAction::Deliver(frames) && all_held(frames@) == whole_frames(
                        old(self).partial() + chunk@,
                    )
                    &&& final(self).partial() == partial_frame(old(self).partial() + chunk@)
                }
                &&& input is RecvFailed || input is RecvClosed ==> r is Leave
                &&& input is Idle ==> r is Wait
                &&& input !is Chunk ==> final(self).partial() == old(self).partial()
                &&& final(self).is_open() <==> (input is Outgoing || input is Chunk
                    || input is Idle)
            },
    {
        if !self.open {
            return PumpAction::Leave;
        }
        match input {
            PumpInput::Outgoing(frame) => PumpAction::Send(frame),
            PumpInput::OutgoingClosed => {
                self.open = false;
                PumpAction::EndStream
            },
            PumpInput::SendFailed => {
                self.open = false;
                PumpAction::Reset
            },
            PumpInput::Chunk(chunk) => PumpAction::Deliver(self.buffer.push(chunk.as_slice())),
            PumpInput::RecvFailed => {
                self.open = false;
                PumpAction::Leave
            },
            PumpInput::RecvClosed => {
                self.open = false;
                PumpAction::Leave
            },
            PumpInput::Idle => PumpAction::Wait,
        }
    }
}

} // verus!
