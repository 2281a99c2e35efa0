//! The message stream: commands in, events out, a queue for what cannot be sent yet, and the
//! watermark up to which the stream was durably read.
//!
//! `StreamWorker` decides; the caller opens the stream, sends, sleeps and reports back.

use crate::envelope::{opt_view, Envelope, EnvelopeView};
use crate::grpc::framing::{bytes_to_vec, decode_frame, held, unframed};
use crate::storage::{Storage, StorageView};
use crate::text::opt_text;
use bytes::Bytes;
use std::collections::VecDeque;
use vstd::hash_map::StringHashMap;
use vstd::prelude::*;

verus! {

/// How many envelopes wait at most for the stream to come back.
pub const OUTGOING_BUFFER_CAP: usize = 256;

/// Seconds between heartbeats.
pub const HEARTBEAT_INTERVAL_SECS: u64 = 25;

/// Commands to the stream worker.
#[derive(Debug)]
pub enum StreamCmd<E = Box<Envelope>, L = Vec<String>, T = String> {
    Send(E),
    Subscribe(L, Option<T>),
    Close,
    Shutdown,
}

/// Events from the stream worker.
#[derive(Debug)]
pub enum StreamEvent<E = Box<Envelope>, T = String> {
    Message { envelope: E, stream_cursor: Option<T> },
    Ack { message_id: T, stream_cursor: Option<T> },
    Heartbeat { timestamp: i64, server_timestamp: i64, stream_cursor: Option<T> },
    StreamError {
        message_id: T,
        error_code: i32,
        error_message: T,
        retryable: bool,
        retry_after_ms: Option<i64>,
        stream_cursor: Option<T>,
    },
    Connected,
    Disconnected,
    Reconnecting { attempt: u32, delay_ms: u64 },
    /// The stream did not accept the bearer token. The keys stay.
    AuthRequired,
}

// ── Watermark ─────────────────────────────────────────────────────────────────

/// How far the stream was durably read, and which message stands at which cursor.
pub struct CursorTracker {
    committed: Option<String>,
    pending: StringHashMap<String>,
}

#[verifier::ext_equal]
pub struct CursorView {
    pub committed: Option<Seq<char>>,
    pub pending: Map<Seq<char>, Seq<char>>,
}

impl View for CursorTracker {
    type V = CursorView;

    closed spec fn view(&self) -> CursorView {
        CursorView {
            committed: opt_text(self.committed),
            pending: self.pending@.map_values(|v: String| v@),
        }
    }
}

/// A cursor that says something: an empty one does not.
pub open spec fn usable_cursor(cursor: Option<Seq<char>>) -> Option<Seq<char>> {
    match cursor {
        Some(c) => if c.len() == 0 {
            None
        } else {
            Some(c)
        },
        None => None,
    }
}

/// A message stands at a cursor.
pub open spec fn noted(
    v: CursorView,
    message_id: Seq<char>,
    cursor: Option<Seq<char>>,
) -> CursorView {
    match usable_cursor(cursor) {
        Some(c) => CursorView { pending: v.pending.insert(message_id, c), ..v },
        None => v,
    }
}

/// The cursor noted for a message.
pub open spec fn cursor_of(v: CursorView, message_id: Seq<char>) -> Option<Seq<char>> {
    if v.pending.contains_key(message_id) {
        Some(v.pending[message_id])
    } else {
        None
    }
}

/// The note for a message is used up.
pub open spec fn taken(v: CursorView, message_id: Seq<char>) -> CursorView {
    CursorView { pending: v.pending.remove(message_id), ..v }
}

/// The watermark after a cursor was offered to the store.
pub open spec fn advanced(v: CursorView, cursor: Seq<char>, stored: bool) -> CursorView {
    if stored {
        CursorView { committed: Some(cursor), ..v }
    } else {
        v
    }
}

pub open spec fn stored_cursor(s: StorageView, cursor: Option<Seq<char>>) -> StorageView {
    match cursor {
        Some(c) => StorageView { cursor: Some(c), ..s },
        None => s,
    }
}

pub open spec fn committed_view(v: CursorView, cursor: Option<Seq<char>>) -> CursorView {
    match cursor {
        Some(c) => advanced(v, c, true),
        None => v,
    }
}

/// A message was durably handled: its note is used up, and its cursor was offered to the store,
/// which kept it or did not.
pub open spec fn settled(v: CursorView, message_id: Seq<char>, stored: bool) -> CursorView {
    match cursor_of(v, message_id) {
        Some(c) => advanced(taken(v, message_id), c, stored),
        None => taken(v, message_id),
    }
}

impl CursorTracker {
    /// Starts from what the store has.
    pub fn load(storage: &Storage) -> (r: Self)
        ensures
            r@ == (CursorView { committed: storage@.cursor, pending: Map::empty() }),
    {
        CursorTracker::at(storage.load_stream_cursor())
    }

    /// Starts from a cursor that was kept.
    pub fn at(committed: Option<String>) -> (r: Self)
        ensures
            r@ == (CursorView { committed: opt_text(committed), pending: Map::empty() }),
    {
        let r = CursorTracker { committed, pending: StringHashMap::new() };
        assert(r@.pending =~= Map::<Seq<char>, Seq<char>>::empty());
        r
    }

    pub fn committed(&self) -> (r: Option<String>)
        ensures
            opt_text(r) == self@.committed,
    {
        match &self.committed {
            Some(c) => Some(c.clone()),
            None => None,
        }
    }

    /// Remembers at which cursor a message stands. An absent or empty cursor is ignored.
    pub fn note(&mut self, message_id: &str, cursor: Option<String>)
        ensures
            final(self)@ == noted(old(self)@, message_id@, opt_text(cursor)),
    {
        if let Some(c) = cursor {
            if !c.as_str().is_empty() {
                self.pending.insert(message_id.to_string(), c);
                assert(self@.pending =~= old(self)@.pending.insert(message_id@, c@));
            }
        }
    }

    /// Uses up the note for a message; the cursor is to be kept by the store.
    pub fn take(&mut self, message_id: &str) -> (r: Option<String>)
        ensures
            opt_text(r) == cursor_of(old(self)@, message_id@),
            final(self)@ == taken(old(self)@, message_id@),
    {
        let r = match self.pending.get(message_id) {
            Some(c) => Some(c.clone()),
            None => None,
        };
        self.pending.remove(message_id);
        assert(self@.pending =~= old(self)@.pending.remove(message_id@));
        r
    }

    /// The store was offered a cursor; the watermark moves there if it kept it.
    pub fn advance(&mut self, cursor: String, stored: bool)
        ensures
            final(self)@ == advanced(old(self)@, cursor@, stored),
    {
        if stored {
            self.committed = Some(cursor);
        }
    }

    /// A message was durably handled: its cursor goes to the store and becomes the watermark.
    pub fn commit(&mut self, storage: &mut Storage, message_id: &str)
        ensures
            final(storage)@ == stored_cursor(old(storage)@, cursor_of(old(self)@, message_id@)),
            final(self)@ == settled(old(self)@, message_id@, true),
    {
        let cursor = self.take(message_id);
        self.persist(storage, cursor);
    }

    /// A cursor goes straight to the store and becomes the watermark, unless it is empty.
    pub fn commit_direct(&mut self, storage: &mut Storage, cursor: Option<String>)
        ensures
            final(storage)@ == stored_cursor(old(storage)@, usable_cursor(opt_text(cursor))),
            final(self)@ == committed_view(old(self)@, usable_cursor(opt_text(cursor))),
    {
        if let Some(c) = cursor {
            if !c.as_str().is_empty() {
                self.persist(storage, Some(c));
            }
        }
    }

    fn persist(&mut self, storage: &mut Storage, cursor: Option<String>)
        ensures
            final(storage)@ == stored_cursor(old(storage)@, opt_text(cursor)),
            final(self)@ == committed_view(old(self)@, opt_text(cursor)),
    {
        if let Some(c) = cursor {
            let stored = storage.save_stream_cursor(c.as_str());
            self.advance(c, stored);
        }
    }
}

/// The watermark moves only to a cursor that the store has kept: noting a message does not move
/// it, and neither does a store that fails.
pub proof fn law_watermark_follows_the_store(
    v: CursorView,
    message_id: Seq<char>,
    cursor: Option<Seq<char>>,
    offered: Seq<char>,
)
    ensures
        noted(v, message_id, cursor).committed == v.committed,
        taken(v, message_id).committed == v.committed,
        advanced(v, offered, false) == v,
        advanced(v, offered, true).committed == Some(offered),
{
}

/// Committing a message moves the watermark to the cursor that was last noted for it, if the
/// store kept that cursor, and leaves it where it was if not. Either way the note is used up, so
/// that committing the message again changes nothing, as it does for a message that was never
/// noted. The notes of other messages stay.
pub proof fn law_commit_uses_the_note(
    v: CursorView,
    message_id: Seq<char>,
    cursor: Seq<char>,
    other: Seq<char>,
    stored: bool,
    again: bool,
)
    requires
        cursor.len() > 0,
    ensures
        ({
            let t = settled(noted(v, message_id, Some(cursor)), message_id, stored);
            &&& t.committed == (if stored {
                Some(cursor)
            } else {
                v.committed
            })
            &&& cursor_of(t, message_id) is None
            &&& settled(t, message_id, again) == t
            &&& other != message_id ==> cursor_of(t, other) == cursor_of(v, other)
        }),
        cursor_of(noted(v, message_id, Some(cursor)), message_id) == Some(cursor),
        cursor_of(v, other) is None ==> settled(v, other, stored) == v,
{
    let t = settled(noted(v, message_id, Some(cursor)), message_id, stored);
    assert(t.pending.remove(message_id) =~= t.pending);
    if cursor_of(v, other) is None {
        assert(v.pending.remove(other) =~= v.pending);
    }
}

// ── Incoming ──────────────────────────────────────────────────────────────────

/// What the server sends on the stream.
#[derive(Debug)]
pub enum StreamResponse<E = Box<Envelope>, T = String> {
    Message(E),
    Ack { message_id: T },
    HeartbeatAck { timestamp: i64, server_timestamp: i64 },
    Error {
        message_id: T,
        error_code: i32,
        error_message: T,
        retryable: bool,
        retry_after_ms: Option<i64>,
    },
    Receipt,
    Typing,
    Presence,
    P2pHandoff,
}

/// The event that a response becomes; some become none.
pub open spec fn routed<E, T>(response: Option<StreamResponse<E, T>>, cursor: Option<T>) -> Option<
    StreamEvent<E, T>,
> {
    match response {
        Some(StreamResponse::Message(envelope)) => Some(
            StreamEvent::Message { envelope, stream_cursor: cursor },
        ),
        Some(StreamResponse::Ack { message_id }) => Some(
            StreamEvent::Ack { message_id, stream_cursor: cursor },
        ),
        Some(StreamResponse::HeartbeatAck { timestamp, server_timestamp }) => Some(
            StreamEvent::Heartbeat { timestamp, server_timestamp, stream_cursor: cursor },
        ),
        Some(
            StreamResponse::Error {
                message_id,
                error_code,
                error_message,
                retryable,
                retry_after_ms,
            },
        ) => Some(
            StreamEvent::StreamError {
                message_id,
                error_code,
                error_message,
                retryable,
                retry_after_ms,
                stream_cursor: cursor,
            },
        ),
        _ => None,
    }
}

/// The message in a frame of the stream; `None` when the frame cannot be taken apart.
pub fn frame_message(frame: Bytes) -> (r: Option<Vec<u8>>)
    ensures
        match r {
            Some(m) => unframed(held(frame)) matches Ok((message, _)) && m@ == message,
            None => unframed(held(frame)) is Err,
        },
{
    match decode_frame(frame) {
        Ok((message, _)) => Some(bytes_to_vec(&message)),
        Err(_) => None,
    }
}

/// Turns a response into an event for the rest of the program.
pub fn dispatch_incoming(response: Option<StreamResponse>, stream_cursor: Option<String>) -> (r:
    Option<StreamEvent>)
    ensures
        r == routed(response, stream_cursor),
{
    match response {
        Some(StreamResponse::Message(envelope)) => Some(
            StreamEvent::Message { envelope, stream_cursor },
        ),
        Some(StreamResponse::Ack { message_id }) => Some(
            StreamEvent::Ack { message_id, stream_cursor },
        ),
        Some(StreamResponse::HeartbeatAck { timestamp, server_timestamp }) => Some(
            StreamEvent::Heartbeat { timestamp, server_timestamp, stream_cursor },
        ),
        Some(
            StreamResponse::Error {
                message_id,
                error_code,
                error_message,
                retryable,
                retry_after_ms,
            },
        ) => Some(
            StreamEvent::StreamError {
                message_id,
                error_code,
                error_message,
                retryable,
                retry_after_ms,
                stream_cursor,
            },
        ),
        _ => None,
    }
}

// ── Back-off ──────────────────────────────────────────────────────────────────

/// Two to the power `n`.
pub open spec fn doubled(n: nat) -> nat
    decreases n,
{
    if n == 0 {
        1
    } else {
        2 * doubled((n - 1) as nat)
    }
}

/// Seconds to wait before attempt number `attempt`, counted from zero: doubling up to a minute.
pub open spec fn backoff_base(attempt: u32) -> u64 {
    if attempt < 6 {
        doubled(attempt as nat) as u64
    } else {
        60
    }
}

pub fn backoff_base_secs(attempt: u32) -> (r: u64)
    ensures
        r == backoff_base(attempt),
{
    proof {
        reveal_with_fuel(doubled, 7);
    }
    match attempt {
        0 => 1,
        1 => 2,
        2 => 4,
        3 => 8,
        4 => 16,
        5 => 32,
        _ => 60,
    }
}

/// The wait grows with each failure and stays between a second and a minute.
pub proof fn law_backoff_is_bounded(attempt: u32, later: u32)
    requires
        attempt <= later,
    ensures
        1 <= backoff_base(attempt) <= backoff_base(later) <= 60,
{
    reveal_with_fuel(doubled, 7);
}

// ── The worker ────────────────────────────────────────────────────────────────

/// What the worker is waiting for.
#[derive(Debug, Clone, Copy, PartialEq, Eq, Structural)]
pub enum Phase {
    /// A look at the command queue, before the stream is opened.
    Polling,
    /// The stream to open.
    Opening,
    /// A queued envelope to go out.
    Flushing,
    /// A heartbeat to go out.
    Beating,
    /// The next heartbeat, command or frame.
    Live,
    /// An envelope to go out.
    Sending,
    /// A subscription to go out.
    Subscribing,
    /// The end of the wait, or a command.
    Backoff,
    Stopped,
}

/// What the caller reports.
#[derive(Debug)]
pub enum WorkerInput<E = Box<Envelope>, L = Vec<String>, T = String> {
    /// What stood in the command queue, and the watermark to read on from. `None` is an empty
    /// queue.
    Polled { cmd: Option<StreamCmd<E, L, T>>, since: Option<T> },
    Opened,
    OpenFailed { unauthenticated: bool },
    /// What was to be sent is on its way.
    Sent,
    /// It is not; an envelope is handed back.
    SendFailed { envelope: Option<E> },
    /// Time for a heartbeat.
    Tick,
    /// A command that was waited for.
    Cmd(StreamCmd<E, L, T>),
    /// Nobody can send commands any more.
    CommandsClosed,
    /// The stream has ended.
    FramesClosed,
    /// The wait is over.
    Slept,
}

/// What the rest of the program is told.
#[derive(Debug, Clone, Copy, PartialEq, Eq, Structural)]
pub enum Notice {
    Connected,
    Disconnected,
    AuthRequired,
}

/// What the caller has to do.
#[derive(Debug)]
pub enum WorkerEffect<E = Box<Envelope>, L = Vec<String>, T = String> {
    /// Look at the command queue without waiting.
    Poll,
    /// Drop the connection and open the stream anew.
    Open { ids: L, since: Option<T> },
    Send(E),
    Heartbeat,
    Subscribe { ids: L, since: Option<T> },
    Tell(Notice),
    /// Let go of the stream.
    Drop,
    /// Tell of attempt number `attempt`, and wait about `base_secs` or for a command.
    Backoff { attempt: u32, base_secs: u64 },
    /// Wait for the next heartbeat, command or frame.
    Await,
    Stop,
}

pub type CmdView = StreamCmd<EnvelopeView, Seq<Seq<char>>, Seq<char>>;

pub type InputView = WorkerInput<EnvelopeView, Seq<Seq<char>>, Seq<char>>;

pub type EffectView = WorkerEffect<EnvelopeView, Seq<Seq<char>>, Seq<char>>;

/// The texts in a list.
pub open spec fn texts(v: Seq<String>) -> Seq<Seq<char>> {
    v.map_values(|s: String| s@)
}

impl View for StreamCmd<Box<Envelope>, Vec<String>, String> {
    type V = CmdView;

    open spec fn view(&self) -> CmdView {
        match self {
            StreamCmd::Send(e) => StreamCmd::Send(e@),
            StreamCmd::Subscribe(ids, since) => StreamCmd::Subscribe(texts(ids@), opt_text(*since)),
            StreamCmd::Close => StreamCmd::Close,
            StreamCmd::Shutdown => StreamCmd::Shutdown,
        }
    }
}

impl View for WorkerInput<Box<Envelope>, Vec<String>, String> {
    type V = InputView;

    open spec fn view(&self) -> InputView {
        match self {
            WorkerInput::Polled { cmd, since } => WorkerInput::Polled {
                cmd: opt_view(*cmd),
                since: opt_text(*since),
            },
            WorkerInput::Opened => WorkerInput::Opened,
            WorkerInput::OpenFailed { unauthenticated } => WorkerInput::OpenFailed {
                unauthenticated: *unauthenticated,
            },
            WorkerInput::Sent => WorkerInput::Sent,
            WorkerInput::SendFailed { envelope } => WorkerInput::SendFailed {
                envelope: match envelope {
                    Some(e) => Some(e@),
                    None => None,
                },
            },
            WorkerInput::Tick => WorkerInput::Tick,
            WorkerInput::Cmd(cmd) => WorkerInput::Cmd(cmd@),
            WorkerInput::CommandsClosed => WorkerInput::CommandsClosed,
            WorkerInput::FramesClosed => WorkerInput::FramesClosed,
            WorkerInput::Slept => WorkerInput::Slept,
        }
    }
}

impl View for WorkerEffect<Box<Envelope>, Vec<String>, String> {
    type V = EffectView;

    open spec fn view(&self) -> EffectView {
        match self {
            WorkerEffect::Poll => WorkerEffect::Poll,
            WorkerEffect::Open { ids, since } => WorkerEffect::Open {
                ids: texts(ids@),
                since: opt_text(*since),
            },
            WorkerEffect::Send(e) => WorkerEffect::Send(e@),
            WorkerEffect::Heartbeat => WorkerEffect::Heartbeat,
            WorkerEffect::Subscribe { ids, since } => WorkerEffect::Subscribe {
                ids: texts(ids@),
                since: opt_text(*since),
            },
            WorkerEffect::Tell(n) => WorkerEffect::Tell(*n),
            WorkerEffect::Drop => WorkerEffect::Drop,
            WorkerEffect::Backoff { attempt, base_secs } => WorkerEffect::Backoff {
                attempt: *attempt,
                base_secs: *base_secs,
            },
            WorkerEffect::Await => WorkerEffect::Await,
            WorkerEffect::Stop => WorkerEffect::Stop,
        }
    }
}

/// The effects in a list.
pub open spec fn effects_view(v: Seq<WorkerEffect>) -> Seq<EffectView> {
    v.map_values(|e: WorkerEffect| e@)
}

/// Keeps the stream open, and what could not be sent for later.
pub struct StreamWorker {
    phase: Phase,
    pending: VecDeque<Box<Envelope>>,
    subscribed: Vec<String>,
    attempt: u32,
}

#[verifier::ext_equal]
pub struct WorkerView {
    pub phase: Phase,
    /// What waits for the stream, the oldest first.
    pub pending: Seq<EnvelopeView>,
    pub subscribed: Seq<Seq<char>>,
    /// Failures since the stream was last open.
    pub attempt: u32,
}

impl View for StreamWorker {
    type V = WorkerView;

    closed spec fn view(&self) -> WorkerView {
        WorkerView {
            phase: self.phase,
            pending: queue_view(self.pending@),
            subscribed: texts(self.subscribed@),
            attempt: self.attempt,
        }
    }
}

/// The queue with one more envelope; the oldest makes room when it is full.
pub open spec fn queued(pending: Seq<EnvelopeView>, e: EnvelopeView) -> Seq<EnvelopeView> {
    if pending.len() >= OUTGOING_BUFFER_CAP {
        pending.drop_first().push(e)
    } else {
        pending.push(e)
    }
}

/// A command that the worker takes note of while the stream is not open; `None` when it ends
/// the worker.
pub open spec fn offline_command(w: WorkerView, cmd: Option<CmdView>) -> Option<WorkerView> {
    match cmd {
        Some(StreamCmd::Send(e)) => Some(WorkerView { pending: queued(w.pending, e), ..w }),
        Some(StreamCmd::Subscribe(ids, _)) => Some(WorkerView { subscribed: ids, ..w }),
        Some(StreamCmd::Close) => None,
        Some(StreamCmd::Shutdown) => None,
        None => Some(w),
    }
}

pub open spec fn stopped(w: WorkerView) -> (WorkerView, Seq<EffectView>) {
    (
        WorkerView { phase: Phase::Stopped, ..w },
        seq![WorkerEffect::Tell(Notice::Disconnected), WorkerEffect::Stop],
    )
}

pub open spec fn poll_again(w: WorkerView) -> (WorkerView, Seq<EffectView>) {
    (WorkerView { phase: Phase::Polling, ..w }, seq![WorkerEffect::Poll])
}

/// One more failure: what was to be said first, then the wait.
pub open spec fn back_off(w: WorkerView, first: Seq<EffectView>) -> (WorkerView, Seq<EffectView>) {
    let next = if w.attempt < u32::MAX {
        (w.attempt + 1) as u32
    } else {
        u32::MAX
    };
    (
        WorkerView { phase: Phase::Backoff, attempt: next, ..w },
        first.push(WorkerEffect::Backoff { attempt: next, base_secs: backoff_base(w.attempt) }),
    )
}

/// The stream is gone.
pub open spec fn lost(w: WorkerView) -> (WorkerView, Seq<EffectView>) {
    back_off(w, seq![WorkerEffect::Drop, WorkerEffect::Tell(Notice::Disconnected)])
}

/// The queue goes out first; then the failures are forgotten, the program is told, and the first
/// heartbeat goes out.
pub open spec fn flush(w: WorkerView) -> (WorkerView, Seq<EffectView>) {
    if w.pending.len() > 0 {
        (
            WorkerView { phase: Phase::Flushing, pending: w.pending.drop_first(), ..w },
            seq![WorkerEffect::Send(w.pending[0])],
        )
    } else {
        greet(w)
    }
}

pub open spec fn greet(w: WorkerView) -> (WorkerView, Seq<EffectView>) {
    (
        WorkerView { phase: Phase::Beating, attempt: 0, ..w },
        seq![WorkerEffect::Tell(Notice::Connected), WorkerEffect::Heartbeat],
    )
}

pub open spec fn live(w: WorkerView) -> (WorkerView, Seq<EffectView>) {
    (WorkerView { phase: Phase::Live, ..w }, seq![WorkerEffect::Await])
}

/// What follows a report. One that does not fit what the worker waits for changes nothing.
pub open spec fn worker_step(w: WorkerView, input: InputView) -> (WorkerView, Seq<EffectView>) {
    match (w.phase, input) {
        (Phase::Polling, WorkerInput::Polled { cmd, since }) => match offline_command(w, cmd) {
            Some(w) => (
                WorkerView { phase: Phase::Opening, ..w },
                seq![WorkerEffect::Open { ids: w.subscribed, since }],
            ),
            None => stopped(w),
        },
        (Phase::Polling, WorkerInput::CommandsClosed) => stopped(w),
        (Phase::Opening, WorkerInput::Opened) => flush(w),
        (Phase::Opening, WorkerInput::OpenFailed { unauthenticated }) => back_off(
            w,
            if unauthenticated {
                seq![WorkerEffect::Tell(Notice::AuthRequired)]
            } else {
                Seq::empty()
            },
        ),
        (Phase::Flushing, WorkerInput::Sent) => flush(w),
        (Phase::Flushing, WorkerInput::SendFailed { .. }) => greet(w),
        (Phase::Beating, WorkerInput::Sent) => live(w),
        (Phase::Beating, WorkerInput::SendFailed { .. }) => lost(w),
        (Phase::Live, WorkerInput::Tick) => (
            WorkerView { phase: Phase::Beating, ..w },
            seq![WorkerEffect::Heartbeat],
        ),
        (Phase::Live, WorkerInput::Cmd(StreamCmd::Send(e))) => (
            WorkerView { phase: Phase::Sending, ..w },
            seq![WorkerEffect::Send(e)],
        ),
        (Phase::Live, WorkerInput::Cmd(StreamCmd::Subscribe(ids, since))) => (
            WorkerView { phase: Phase::Subscribing, subscribed: ids, ..w },
            seq![WorkerEffect::Subscribe { ids, since }],
        ),
        (Phase::Live, WorkerInput::Cmd(_)) => stopped(w),
        (Phase::Live, WorkerInput::CommandsClosed) => stopped(w),
        (Phase::Live, WorkerInput::FramesClosed) => lost(w),
        (Phase::Sending, WorkerInput::Sent) => live(w),
        (Phase::Sending, WorkerInput::SendFailed { envelope }) => lost(
            match envelope {
                Some(e) => WorkerView { pending: queued(w.pending, e), ..w },
                None => w,
            },
        ),
        (Phase::Subscribing, WorkerInput::Sent) => live(w),
        (Phase::Subscribing, WorkerInput::SendFailed { .. }) => lost(w),
        (Phase::Backoff, WorkerInput::Slept) => poll_again(w),
        (Phase::Backoff, WorkerInput::CommandsClosed) => stopped(w),
        (Phase::Backoff, WorkerInput::Cmd(cmd)) => match offline_command(w, Some(cmd)) {
            Some(w) => poll_again(w),
            None => stopped(w),
        },
        _ => (w, Seq::empty()),
    }
}

/// A copy of a list of texts.
pub(crate) fn clone_texts(v: &Vec<String>) -> (r: Vec<String>)
    ensures
        r@ == v@,
{
    let mut r: Vec<String> = Vec::new();
    let mut i: usize = 0;
    while i < v.len()
        invariant
            i <= v@.len(),
            r@ == v@.take(i as int),
        decreases v@.len() - i,
    {
        r.push(v[i].clone());
        i = i + 1;
        assert(r@ =~= v@.take(i as int));
    }
    assert(v@.take(i as int) =~= v@);
    r
}

/// The envelopes in a queue.
pub open spec fn queue_view(q: Seq<Box<Envelope>>) -> Seq<EnvelopeView> {
    q.map_values(|e: Box<Envelope>| e@)
}

/// Adds an envelope to the queue; the oldest makes room when it is full.
pub fn push_pending(pending: &mut VecDeque<Box<Envelope>>, envelope: Box<Envelope>)
    ensures
        queue_view(final(pending)@) == queued(queue_view(old(pending)@), envelope@),
{
    if pending.len() >= OUTGOING_BUFFER_CAP {
        let _ = pending.pop_front();
        assert(pending@ =~= old(pending)@.drop_first());
    }
    pending.push_back(envelope);
    assert(queue_view(pending@) =~= queued(queue_view(old(pending)@), envelope@));
}

impl StreamWorker {
    /// A worker for the conversations with `subscribed_users`, and the first thing to do.
    pub fn new(subscribed_users: Vec<String>) -> (r: (Self, WorkerEffect))
        ensures
            r.0@ == (WorkerView {
                phase: Phase::Polling,
                pending: Seq::empty(),
                subscribed: texts(subscribed_users@),
                attempt: 0,
            }),
            r.1@ == EffectView::Poll,
    {
        let w = StreamWorker {
            phase: Phase::Polling,
            pending: VecDeque::new(),
            subscribed: subscribed_users,
            attempt: 0,
        };
        assert(w@.pending =~= Seq::<EnvelopeView>::empty());
        (w, WorkerEffect::Poll)
    }

    fn stop(&mut self) -> (r: Vec<WorkerEffect>)
        ensures
            (final(self)@, effects_view(r@)) == stopped(old(self)@),
    {
        self.phase = Phase::Stopped;
        let mut out: Vec<WorkerEffect> = Vec::new();
        out.push(WorkerEffect::Tell(Notice::Disconnected));
        out.push(WorkerEffect::Stop);
        assert(effects_view(out@) =~= stopped(old(self)@).1);
        out
    }

    fn poll_again(&mut self) -> (r: Vec<WorkerEffect>)
        ensures
            (final(self)@, effects_view(r@)) == poll_again(old(self)@),
    {
        self.phase = Phase::Polling;
        let mut out: Vec<WorkerEffect> = Vec::new();
        out.push(WorkerEffect::Poll);
        assert(effects_view(out@) =~= poll_again(old(self)@).1);
        out
    }

    fn back_off(&mut self, first: Vec<WorkerEffect>) -> (r: Vec<WorkerEffect>)
        ensures
            (final(self)@, effects_view(r@)) == back_off(old(self)@, effects_view(first@)),
    {
        let mut out = first;
        let base_secs: u64 = backoff_base_secs(self.attempt);
        if self.attempt < u32::MAX {
            self.attempt = self.attempt + 1;
        }
        self.phase = Phase::Backoff;
        out.push(WorkerEffect::Backoff { attempt: self.attempt, base_secs });
        assert(effects_view(out@) =~= back_off(old(self)@, effects_view(first@)).1);
        out
    }

    fn lost(&mut self) -> (r: Vec<WorkerEffect>)
        ensures
            (final(self)@, effects_view(r@)) == lost(old(self)@),
    {
        let mut first: Vec<WorkerEffect> = Vec::new();
        first.push(WorkerEffect::Drop);
        first.push(WorkerEffect::Tell(Notice::Disconnected));
        assert(effects_view(first@) =~= seq![
            EffectView::Drop,
            EffectView::Tell(Notice::Disconnected),
        ]);
        self.back_off(first)
    }

    fn greet(&mut self) -> (r: Vec<WorkerEffect>)
        ensures
            (final(self)@, effects_view(r@)) == greet(old(self)@),
    {
        self.attempt = 0;
        self.phase = Phase::Beating;
        let mut out: Vec<WorkerEffect> = Vec::new();
        out.push(WorkerEffect::Tell(Notice::Connected));
        out.push(WorkerEffect::Heartbeat);
        assert(effects_view(out@) =~= greet(old(self)@).1);
        out
    }

    fn flush(&mut self) -> (r: Vec<WorkerEffect>)
        ensures
            (final(self)@, effects_view(r@)) == flush(old(self)@),
    {
        match self.pending.pop_front() {
            Some(e) => {
                self.phase = Phase::Flushing;
                assert(self@.pending =~= old(self)@.pending.drop_first());
                let mut out: Vec<WorkerEffect> = Vec::new();
                out.push(WorkerEffect::Send(e));
                assert(effects_view(out@) =~= flush(old(self)@).1);
                out
            },
            None => {
                assert(self@.pending =~= old(self)@.pending);
                self.greet()
            },
        }
    }

    fn live(&mut self) -> (r: Vec<WorkerEffect>)
        ensures
            (final(self)@, effects_view(r@)) == live(old(self)@),
    {
        self.phase = Phase::Live;
        let mut out: Vec<WorkerEffect> = Vec::new();
        out.push(WorkerEffect::Await);
        assert(effects_view(out@) =~= live(old(self)@).1);
        out
    }

    /// Takes note of a command while the stream is not open; whether the worker goes on.
    fn offline_command(&mut self, cmd: Option<StreamCmd>) -> (r: bool)
        ensures
            match offline_command(old(self)@, opt_view(cmd)) {
                Some(w) => r && final(self)@ == w,
                None => !r && final(self)@ == old(self)@,
            },
    {
        match cmd {
            Some(StreamCmd::Send(e)) => {
                push_pending(&mut self.pending, e);
                true
            },
            Some(StreamCmd::Subscribe(ids, _)) => {
                self.subscribed = ids;
                true
            },
            Some(StreamCmd::Close) => false,
            Some(StreamCmd::Shutdown) => false,
            None => true,
        }
    }

    /// What to do after a report.
    pub fn step(&mut self, input: WorkerInput) -> (r: Vec<WorkerEffect>)
        ensures
            (final(self)@, effects_view(r@)) == worker_step(old(self)@, input@),
    {
        let mut out: Vec<WorkerEffect> = Vec::new();
        match (self.phase, input) {
            (Phase::Polling, WorkerInput::Polled { cmd, since }) => {
                if !self.offline_command(cmd) {
                    return self.stop();
                }
                self.phase = Phase::Opening;
                out.push(WorkerEffect::Open { ids: clone_texts(&self.subscribed), since });
            },
            (Phase::Polling, WorkerInput::CommandsClosed) => return self.stop(),
            (Phase::Opening, WorkerInput::Opened) => return self.flush(),
            (Phase::Opening, WorkerInput::OpenFailed { unauthenticated }) => {
                if unauthenticated {
                    out.push(WorkerEffect::Tell(Notice::AuthRequired));
                }
                assert(effects_view(out@) =~= (if unauthenticated {
                    seq![EffectView::Tell(Notice::AuthRequired)]
                } else {
                    Seq::empty()
                }));
                return self.back_off(out);
            },
            (Phase::Flushing, WorkerInput::Sent) => return self.flush(),
            (Phase::Flushing, WorkerInput::SendFailed { .. }) => return self.greet(),
            (Phase::Beating, WorkerInput::Sent) => return self.live(),
            (Phase::Beating, WorkerInput::SendFailed { .. }) => return self.lost(),
            (Phase::Live, WorkerInput::Tick) => {
                self.phase = Phase::Beating;
                out.push(WorkerEffect::Heartbeat);
            },
            (Phase::Live, WorkerInput::Cmd(StreamCmd::Send(e))) => {
                self.phase = Phase::Sending;
                out.push(WorkerEffect::Send(e));
            },
            (Phase::Live, WorkerInput::Cmd(StreamCmd::Subscribe(ids, since))) => {
                self.subscribed = clone_texts(&ids);
                self.phase = Phase::Subscribing;
                out.push(WorkerEffect::Subscribe { ids, since });
            },
            (Phase::Live, WorkerInput::Cmd(_)) => return self.stop(),
            (Phase::Live, WorkerInput::CommandsClosed) => return self.stop(),
            (Phase::Live, WorkerInput::FramesClosed) => return self.lost(),
            (Phase::Sending, WorkerInput::Sent) => return self.live(),
            (Phase::Sending, WorkerInput::SendFailed { envelope }) => {
                if let Some(e) = envelope {
                    push_pending(&mut self.pending, e);
                }
                return self.lost();
            },
            (Phase::Subscribing, WorkerInput::Sent) => return self.live(),
            (Phase::Subscribing, WorkerInput::SendFailed { .. }) => return self.lost(),
            (Phase::Backoff, WorkerInput::Slept) => return self.poll_again(),
            (Phase::Backoff, WorkerInput::CommandsClosed) => return self.stop(),
            (Phase::Backoff, WorkerInput::Cmd(cmd)) => {
                if self.offline_command(Some(cmd)) {
                    return self.poll_again();
                } else {
                    return self.stop();
                }
            },
            _ => {},
        }
        assert(effects_view(out@) =~= worker_step(old(self)@, input@).1);
        out
    }
}

/// The queue never holds more than its cap, it keeps its order, and the newest envelope is
/// always in it.
pub proof fn law_queue_is_bounded(pending: Seq<EnvelopeView>, e: EnvelopeView)
    requires
        pending.len() <= OUTGOING_BUFFER_CAP,
    ensures
        queued(pending, e).len() <= OUTGOING_BUFFER_CAP,
        queued(pending, e).last() == e,
        queued(pending, e).drop_last().is_suffix_of(pending),
        pending.len() < OUTGOING_BUFFER_CAP ==> queued(pending, e).drop_last() == pending,
{
    let q = queued(pending, e);
    if pending.len() >= OUTGOING_BUFFER_CAP {
        assert(q.drop_last() =~= pending.subrange(1, pending.len() as int));
    } else {
        assert(q.drop_last() =~= pending);
        assert(pending.subrange(0, pending.len() as int) =~= pending);
    }
}

/// The queue after some envelopes were pushed onto an empty one.
pub open spec fn all_queued(envelopes: Seq<EnvelopeView>) -> Seq<EnvelopeView>
    decreases envelopes.len(),
{
    if envelopes.len() == 0 {
        Seq::empty()
    } else {
        queued(all_queued(envelopes.drop_last()), envelopes.last())
    }
}

/// The queue holds the last envelopes that were pushed, as many as its cap allows, oldest first.
pub proof fn law_queue_holds_the_last(envelopes: Seq<EnvelopeView>)
    ensures
        all_queued(envelopes) == (if envelopes.len() <= OUTGOING_BUFFER_CAP {
            envelopes
        } else {
            envelopes.skip(envelopes.len() - OUTGOING_BUFFER_CAP)
        }),
    decreases envelopes.len(),
{
    if envelopes.len() > 0 {
        let before = envelopes.drop_last();
        law_queue_holds_the_last(before);
        assert(before.push(envelopes.last()) =~= envelopes);
        assert(all_queued(envelopes) =~= (if envelopes.len() <= OUTGOING_BUFFER_CAP {
            envelopes
        } else {
            envelopes.skip(envelopes.len() - OUTGOING_BUFFER_CAP)
        }));
    } else {
        assert(envelopes =~= Seq::empty());
    }
}

/// No report makes the queue outgrow its cap.
pub proof fn law_worker_keeps_the_cap(w: WorkerView, input: InputView)
    requires
        w.pending.len() <= OUTGOING_BUFFER_CAP,
    ensures
        worker_step(w, input).0.pending.len() <= OUTGOING_BUFFER_CAP,
{
}

/// A shutdown ends the worker wherever it waits for a command, at once and for good.
pub proof fn law_shutdown_is_prompt(w: WorkerView, since: Option<Seq<char>>, input: InputView)
    ensures
        w.phase == Phase::Live || w.phase == Phase::Backoff ==> worker_step(
            w,
            WorkerInput::Cmd(StreamCmd::Shutdown),
        ) == stopped(w),
        w.phase == Phase::Polling ==> worker_step(
            w,
            WorkerInput::Polled { cmd: Some(StreamCmd::Shutdown), since },
        ) == stopped(w),
        w.phase == Phase::Stopped ==> worker_step(w, input) == (w, Seq::<EffectView>::empty()),
{
}

/// What cannot be sent on a live stream is queued behind what waits already, and the queue goes
/// out from its front when the stream is open again.
pub proof fn law_failed_send_is_kept(w: WorkerView, e: EnvelopeView)
    requires
        w.phase == Phase::Sending,
    ensures
        ({
            let after = worker_step(w, WorkerInput::SendFailed { envelope: Some(e) }).0;
            &&& after.phase == Phase::Backoff
            &&& after.pending == queued(w.pending, e)
            &&& flush(after).1 == seq![EffectView::Send(queued(w.pending, e)[0])]
            &&& flush(after).0.pending == queued(w.pending, e).drop_first()
            &&& w.pending.len() == 0 ==> queued(w.pending, e)[0] == e
        }),
{
}

/// A refused token is reported and the worker goes on trying: what is queued and subscribed
/// stays.
pub proof fn law_refusal_keeps_everything(w: WorkerView)
    requires
        w.phase == Phase::Opening,
    ensures
        ({
            let r = worker_step(w, WorkerInput::OpenFailed { unauthenticated: true });
            &&& r.1[0] == EffectView::Tell(Notice::AuthRequired)
            &&& r.0.phase == Phase::Backoff
            &&& r.0.pending == w.pending
            &&& r.0.subscribed == w.subscribed
        }),
{
}

} // verus!
