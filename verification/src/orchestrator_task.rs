//! The actor around the encryption core.
//!
//! The core turns events into actions; the actor carries the actions out, in order, one round
//! after the other. It holds no core, no store and no network itself: `step` hands out one
//! request at a time, and takes the answer to the last one.
//!
//! ```text
//! event / command ──→ agenda ──→ request ──→ caller (core, store, network, screens, clock)
//!                        ↑                      │
//!                        └──────── answer ──────┘
//! ```
//!
//! A round is one event for the core and the actions that it leads to. Actions may leave
//! follow-up events, which go to the core when the actions are done; what these leave is not
//! followed up.

use crate::bridge::BridgeEvent;
use crate::clock::{signed_ms, to_signed_ms};
use crate::envelope::{
    build_envelope, content_number, content_type_from_u8, content_type_of, envelope_to, opt_view,
    ContentType, Envelope,
};
use crate::knst::{
    decode_text, encode_session_ping, encode_text, framed, is_frame, is_silent_frame, ping_frame,
    shown_text, silent_frame, text_frame,
};
use crate::orchestration::{Action, ActionView, EventView, IncomingEvent};
use crate::storage::{deleted, saved, saved_or_deleted, Storage, StoredMessage};
use crate::streaming::{
    advanced, cursor_of, noted, settled, taken, usable_cursor, CursorTracker, CursorView,
};
use crate::text::{
    contains, from_utf8_lossy, join, occurs, opt_str, opt_text, parse_u64, parsed_u64, same,
    split_at_first, split_once, utf8_lossy,
};
use vstd::hash_map::StringHashMap;
use vstd::hash_set::StringHashSet;
use vstd::prelude::*;

verus! {

/// Where the core's own state is kept.
pub const STATE_KEY: &'static str = "construct.orchestrator_state";

/// The plaintext of an encrypted heartbeat: "HEARTBEAT" between two zero bytes.
pub const HEARTBEAT_PLAINTEXT: [u8; 11] = [0, 72, 69, 65, 82, 84, 66, 69, 65, 84, 0];

// ── What comes in and goes out ────────────────────────────────────────────────

/// A message of the stream with its place in it.
#[derive(Debug, Clone)]
pub struct StreamMessageContext<T = String> {
    pub contact_id: T,
    pub message_id: T,
    pub stream_cursor: Option<T>,
    pub content_type: u8,
    pub msg_num: u32,
}

impl View for StreamMessageContext<String> {
    type V = StreamMessageContext<Seq<char>>;

    open spec fn view(&self) -> StreamMessageContext<Seq<char>> {
        StreamMessageContext {
            contact_id: self.contact_id@,
            message_id: self.message_id@,
            stream_cursor: opt_text(self.stream_cursor),
            content_type: self.content_type,
            msg_num: self.msg_num,
        }
    }
}

/// What the actor asks of the caller. Where an answer is named, the next `step` takes it.
#[derive(Debug)]
pub enum Request<T = String, B = Vec<u8>> {
    /// Hand an event to the core: `Answer::Actions`.
    Handle(IncomingEvent<T, B>),
    /// How many messages of a contact the core holds back: `Answer::Count`.
    PendingCount(T),
    /// The first of them: `Answer::Payload`.
    PeekPending(T),
    /// Set up a session as responder: `Answer::Received` with the first plaintext.
    InitReceiving { contact_id: T, bundle_json: T, wire: B },
    /// Drop the first message held back: `Answer::MaybeId`.
    PopPending(T),
    /// Set up a session as initiator: `Answer::Inited`.
    InitInitiator { contact_id: T, bundle_json: T },
    /// The message that asked for healing: `Answer::Payload`.
    TakeHealPayload(T),
    /// Whether there is a session: `Answer::Flag`.
    HasSession(T),
    /// Have the core forget a contact.
    ForgetContact(T),
    /// The core's own state: `Answer::Payload`, `None` when it cannot be exported.
    ExportState,
    /// The pre-key bundle of a user, as JSON: `Answer::Bundle`.
    FetchBundle(T),
    /// The same in the background; `bundle_fetched` says what becomes of the result.
    FetchBundleInBackground(T),
    /// Keep a received message: `Answer::Flag`.
    StoreInbound(StoredMessage<T>),
    /// Keep how far the stream was read: `Answer::Flag`.
    SaveCursor(T),
    /// Keep a secret, or delete it when there is nothing to keep.
    SecureSaveOrDelete { key: T, data: B },
    /// Keep a secret: `Answer::Flag`.
    SecureSave { key: T, data: B },
    SecureDelete(T),
    /// A secret: `Answer::Payload`.
    SecureLoad(T),
    PersistRecord(T),
    StoreAck { message_id: T, timestamp: i64 },
    PruneAcks(i64),
    MarkDelivered(T),
    /// Whether a message was acknowledged: `Answer::Flag`.
    HasAck(T),
    SendEnvelope(Envelope<T, B>),
    Notify(BridgeEvent<T>),
    /// Send an event to the actor itself.
    Enqueue(IncomingEvent<T, B>),
    EnqueueLater { delay_ms: u64, event: IncomingEvent<T, B> },
    /// Send `TimerFired` to the actor itself after a while.
    StartTimer { timer_id: T, delay_ms: u64 },
    CancelTimer(T),
    /// A fresh id: `Answer::Id`.
    NewId,
    /// The time in milliseconds: `Answer::Millis`.
    Now,
}

/// The answer to a request. `L` is a list of actions.
#[derive(Debug)]
pub enum Answer<T = String, B = Vec<u8>, L = Vec<Action>> {
    Nothing,
    Actions(L),
    Count(u64),
    Payload(Option<B>),
    Received(Result<B, T>),
    MaybeId(Option<T>),
    Inited(Result<(), T>),
    Flag(bool),
    Bundle(Result<T, T>),
    Id(T),
    Millis(u64),
}

/// Why a session is being set up.
#[derive(Debug)]
pub enum Purpose<T = String, B = Vec<u8>> {
    /// A chat was opened.
    Chat { had_inbound: bool },
    /// A message is to be sent.
    Message { message_id: T, plaintext: B, content_type: u8 },
}

/// What is still to be done.
#[derive(Debug)]
pub enum Task<T = String, B = Vec<u8>> {
    /// An event from outside.
    Prepare(IncomingEvent<T, B>),
    /// A message from the stream.
    Stream { event: IncomingEvent<T, B>, context: StreamMessageContext<T> },
    /// A contact was removed.
    ForgetContact(T),
    /// A new round.
    Round { event: IncomingEvent<T, B>, keep: bool },
    /// A follow-up of the current round.
    Handle(IncomingEvent<T, B>),
    /// The end of the actions of a round.
    EndRound { keep: bool },
    Dispatch(Action<T, B>),
    /// A received text to keep and show.
    Surface { contact_id: T, message_id: T, text: T },
    /// A session was set up.
    SessionUp(T),
    Notify(BridgeEvent<T>),
    Establish { contact_id: T, purpose: Purpose<T, B> },
    /// Whether the session is there now.
    Confirm { contact_id: T, purpose: Purpose<T, B> },
    /// Heal as initiator: the bundle comes next.
    HealFetch(T),
    /// Have the core forget the contact.
    Forget(T),
    /// Keep the core's state.
    Export,
    SecureDelete(T),
}

/// What the answer to the last request is for.
#[derive(Debug)]
pub enum Wait<T = String, B = Vec<u8>> {
    Nothing,
    Actions,
    InitCount { contact_id: T, bundle_json: T },
    InitPeek { contact_id: T, bundle_json: T },
    Inited(T),
    Received { contact_id: T, heal: bool },
    Popped { contact_id: T, plaintext: B, heal: bool },
    Named { contact_id: T, plaintext: B, heal: bool },
    SurfaceAt { contact_id: T, message_id: T, text: T },
    Stored(T),
    Cursor(T),
    Established(T),
    HealReset(T),
    HealBundle(T),
    HealInited(T),
    HealPing(T),
    HealPayload(T),
    HealRespond { contact_id: T, wire: B },
    HealEnd(T),
    Loaded(T),
    AckChecked(T),
    Heartbeat(T),
    NotifyNew { chat_id: T, preview: T },
    Archived(T),
    ChatCount(T),
    ChatPing(T),
    SendCheck { contact_id: T, message_id: T, plaintext: B, content_type: u8 },
    EstablishCheck { contact_id: T, purpose: Purpose<T, B> },
    EstablishBundle { contact_id: T, purpose: Purpose<T, B> },
    Confirm { contact_id: T, purpose: Purpose<T, B> },
    Exported,
}

pub type RequestView = Request<Seq<char>, Seq<u8>>;

pub type AnswerView = Answer<Seq<char>, Seq<u8>, Seq<ActionView>>;

pub type PurposeView = Purpose<Seq<char>, Seq<u8>>;

pub type TaskView = Task<Seq<char>, Seq<u8>>;

pub type WaitView = Wait<Seq<char>, Seq<u8>>;

// ── Model ─────────────────────────────────────────────────────────────────────

/// The actor.
#[verifier::ext_equal]
pub struct ActorView {
    pub user: Seq<char>,
    pub device: Seq<char>,
    pub cursor: CursorView,
    /// When the session with a contact was set up, in milliseconds.
    pub established: Map<Seq<char>, u64>,
    /// What is still to be done, the next thing last.
    pub agenda: Seq<TaskView>,
    pub wait: WaitView,
    /// Events that the actions of this round left.
    pub follow_ups: Seq<EventView>,
    /// Contacts whose session was set up in this round.
    pub inited: Set<Seq<char>>,
    /// The round is at its follow-ups.
    pub nested: bool,
}

pub type Outcome = (ActorView, Option<RequestView>);

pub open spec fn quiet(s: ActorView) -> Outcome {
    (s, None)
}

/// A request without an answer.
pub open spec fn tell(s: ActorView, r: RequestView) -> Outcome {
    (s, Some(r))
}

/// A request with an answer.
pub open spec fn ask(s: ActorView, wait: WaitView, r: RequestView) -> Outcome {
    (ActorView { wait, ..s }, Some(r))
}

/// `t` is to be done next.
pub open spec fn then_do(s: ActorView, t: TaskView) -> ActorView {
    ActorView { agenda: s.agenda.push(t), ..s }
}

/// An event to follow up, unless the round is at its follow-ups already.
pub open spec fn follow(s: ActorView, e: EventView) -> ActorView {
    if s.nested {
        s
    } else {
        ActorView { follow_ups: s.follow_ups.push(e), ..s }
    }
}

pub open spec fn error_notice(prefix: Seq<char>, message: Seq<char>) -> BridgeEvent<Seq<char>> {
    BridgeEvent::Error(prefix + message)
}

/// A text that a person wrote: not empty, and none of the markers of control messages.
pub open spec fn written_by_person(text: Seq<char>) -> bool {
    &&& text.len() > 0
    &&& text[0] != '\0'
    &&& !occurs(text, "__session_ping_"@)
    &&& !occurs(text, "__heartbeat__"@)
}

/// An envelope that resets the session with a contact.
pub open spec fn reset_envelope(
    s: ActorView,
    contact_id: Seq<char>,
    payload: Seq<u8>,
    message_id: Seq<char>,
) -> Envelope<Seq<char>, Seq<u8>> {
    envelope_to(s.user, s.device, contact_id, payload, message_id, ContentType::SessionReset)
}

pub open spec fn sixteen_zeros() -> Seq<u8> {
    Seq::new(16, |i: int| 0u8)
}

pub open spec fn init_completed(contact_id: Seq<char>) -> EventView {
    IncomingEvent::SessionInitCompleted { contact_id, session_data: Seq::empty() }
}

/// A ping to a contact: it goes out first, so that no text of the user carries the handshake.
pub open spec fn ping_event(contact_id: Seq<char>, ping_id: Seq<char>) -> EventView {
    IncomingEvent::OutgoingMessage {
        contact_id,
        message_id: ping_id,
        plaintext: ping_frame(ping_id),
        content_type: 0,
    }
}

pub open spec fn session_key(contact_id: Seq<char>) -> Seq<char> {
    "session_"@ + contact_id
}

pub open spec fn archive_key(contact_id: Seq<char>) -> Seq<char> {
    "archive_"@ + contact_id
}

/// The plaintext that goes out: frames and control messages as they are, text in a frame.
pub open spec fn outgoing_plaintext(plaintext: Seq<u8>, message_id: Seq<char>) -> Seq<u8> {
    if framed(plaintext) || (plaintext.len() > 0 && plaintext[0] == 0) {
        plaintext
    } else {
        text_frame(utf8_lossy(plaintext), message_id)
    }
}

/// The time in a stream cursor: the number before its first hyphen.
pub open spec fn cursor_millis(cursor: Option<Seq<char>>) -> Option<u64> {
    match cursor {
        Some(c) => match split_at_first(c, "-"@) {
            Some((millis, _)) => parsed_u64(millis),
            None => None,
        },
        None => None,
    }
}

/// A message that would set up or tear down a session if it were handled again.
pub open spec fn replay_sensitive(c: StreamMessageContext<Seq<char>>) -> bool {
    ||| c.msg_num == 0
    ||| c.content_type == content_number(ContentType::SessionReset)
    ||| c.content_type == content_number(ContentType::SessionResetInit)
}

/// A replay-sensitive message from before the session with its sender was set up.
pub open spec fn stale_replay(
    c: StreamMessageContext<Seq<char>>,
    established: Map<Seq<char>, u64>,
) -> bool {
    replay_sensitive(c) && established.contains_key(c.contact_id) && (cursor_millis(
        c.stream_cursor,
    ) matches Some(ms) && ms < established[c.contact_id])
}

// ── Rounds ────────────────────────────────────────────────────────────────────

/// Tasks to be done one after the other, in the order in which they are stacked.
pub open spec fn stacked<A>(items: Seq<A>, f: spec_fn(A) -> TaskView) -> Seq<TaskView> {
    items.reverse().map_values(f)
}

pub open spec fn begin_round(s: ActorView, event: EventView, keep: bool) -> Outcome {
    ask(
        ActorView {
            follow_ups: Seq::empty(),
            inited: Set::empty(),
            nested: false,
            ..then_do(s, Task::EndRound { keep })
        },
        Wait::Actions,
        Request::Handle(event),
    )
}

pub open spec fn end_round(s: ActorView, keep: bool) -> ActorView {
    ActorView {
        follow_ups: Seq::empty(),
        nested: true,
        agenda: s.agenda + (if keep {
            stacked(s.follow_ups, |e: EventView| Task::Handle(e))
        } else {
            Seq::empty()
        }),
        ..s
    }
}

pub open spec fn with_actions(s: ActorView, actions: Seq<ActionView>) -> ActorView {
    ActorView { agenda: s.agenda + stacked(actions, |a: ActionView| Task::Dispatch(a)), ..s }
}

// ── Setting up sessions ───────────────────────────────────────────────────────

/// The first plaintext of a session that was set up as responder.
pub open spec fn responder_up(
    s: ActorView,
    contact_id: Seq<char>,
    message_id: Seq<char>,
    plaintext: Seq<u8>,
    heal: bool,
) -> ActorView {
    let text = shown_text(plaintext);
    let s = if heal {
        follow(s, init_completed(contact_id))
    } else {
        then_do(s, Task::SessionUp(contact_id))
    };
    if written_by_person(text) {
        then_do(s, Task::Surface { contact_id, message_id, text })
    } else {
        s
    }
}

/// What follows the attempt to set up a session.
pub open spec fn session_outcome(
    s: ActorView,
    contact_id: Seq<char>,
    purpose: PurposeView,
    outcome: Result<bool, Seq<char>>,
) -> Outcome {
    match purpose {
        Purpose::Chat { had_inbound } => {
            let opened = Task::Round {
                event: IncomingEvent::ActiveChatChanged { contact_id, is_active: true },
                keep: true,
            };
            match outcome {
                Ok(created) => if created && !had_inbound {
                    ask(then_do(s, opened), Wait::ChatPing(contact_id), Request::NewId)
                } else {
                    quiet(then_do(s, opened))
                },
                Err(e) => tell(
                    then_do(s, opened),
                    Request::Notify(error_notice("[SESSION_INIT_FAILED] "@, e)),
                ),
            }
        },
        Purpose::Message { message_id, plaintext, content_type } => match outcome {
            Ok(_) => quiet(then_do(s, send_round(contact_id, message_id, plaintext, content_type))),
            Err(e) => tell(s, Request::Notify(error_notice("[SESSION_INIT_FAILED] "@, e))),
        },
    }
}

pub open spec fn send_round(
    contact_id: Seq<char>,
    message_id: Seq<char>,
    plaintext: Seq<u8>,
    content_type: u8,
) -> TaskView {
    Task::Round {
        event: IncomingEvent::OutgoingMessage {
            contact_id,
            message_id,
            plaintext: outgoing_plaintext(plaintext, message_id),
            content_type,
        },
        keep: true,
    }
}

// ── Actions ───────────────────────────────────────────────────────────────────

pub open spec fn heal(s: ActorView, contact_id: Seq<char>, role: Seq<char>) -> Outcome {
    if s.inited.contains(contact_id) {
        quiet(s)
    } else if role == "Initiator"@ {
        ask(s, Wait::HealReset(contact_id), Request::NewId)
    } else {
        ask(s, Wait::HealPayload(contact_id), Request::TakeHealPayload(contact_id))
    }
}

/// A message is done with: the cursor that was noted for it is offered to the store.
pub open spec fn cursor_offered(s: ActorView, message_id: Seq<char>) -> Outcome {
    let t = ActorView { cursor: taken(s.cursor, message_id), ..s };
    match cursor_of(s.cursor, message_id) {
        Some(c) => ask(t, Wait::Cursor(c), Request::SaveCursor(c)),
        None => quiet(t),
    }
}

/// What an action of the core comes to. A control message is not surfaced, only its cursor goes
/// to the store, so that it is not sent again.
pub open spec fn dispatched(s: ActorView, action: ActionView) -> Outcome {
    match action {
        Action::InitSession { contact_id, bundle_json } => ask(
            s,
            Wait::InitCount { contact_id, bundle_json },
            Request::PendingCount(contact_id),
        ),
        Action::DecryptMessage => quiet(s),
        Action::EncryptMessage => quiet(s),
        Action::ApplyPQContribution => quiet(s),
        Action::ArchiveSession => quiet(s),
        Action::MessageDecrypted { contact_id, message_id, plaintext } => if silent_frame(
            plaintext,
        ) {
            cursor_offered(s, message_id)
        } else {
            quiet(
                then_do(s, Task::Surface { contact_id, message_id, text: shown_text(plaintext) }),
            )
        },
        Action::CallSignalDecrypted => quiet(s),
        Action::EndSessionSuppressed => quiet(s),
        Action::MessageQueuedPendingInit => quiet(s),
        Action::SessionHealNeeded { contact_id, role } => heal(s, contact_id, role),
        Action::HealSuppressed { contact_id, retry_after_ms } => tell(
            s,
            Request::EnqueueLater { delay_ms: retry_after_ms, event: IncomingEvent::AppLaunched },
        ),
        Action::SaveSessionToSecureStore { key, data } => tell(
            s,
            Request::SecureSaveOrDelete { key, data },
        ),
        Action::LoadSessionFromSecureStore { key } => ask(
            s,
            Wait::Loaded(key),
            Request::SecureLoad(key),
        ),
        Action::PersistMessage { message_json } => tell(s, Request::PersistRecord(message_json)),
        Action::PersistAck { message_id, timestamp } => tell(
            s,
            Request::StoreAck {
                message_id,
                timestamp: crate::invite::as_signed(timestamp as nat) as i64,
            },
        ),
        Action::PruneAckStore { cutoff_ts } => tell(
            s,
            Request::PruneAcks(crate::invite::as_signed(cutoff_ts as nat) as i64),
        ),
        Action::MarkMessageDelivered { message_id } => tell(s, Request::MarkDelivered(message_id)),
        Action::CheckAckInDb { message_id } => ask(
            s,
            Wait::AckChecked(message_id),
            Request::HasAck(message_id),
        ),
        Action::FetchPublicKeyBundle { user_id } => tell(
            s,
            Request::FetchBundleInBackground(user_id),
        ),
        Action::SendEncryptedMessage { to, payload, message_id, content_type } => tell(
            s,
            Request::SendEnvelope(
                envelope_to(
                    s.user,
                    s.device,
                    to,
                    payload,
                    message_id,
                    content_type_of(content_type),
                ),
            ),
        ),
        Action::SendReceipt { message_id } => quiet(s),
        Action::SendEndSession { contact_id } => tell(
            s,
            Request::SendEnvelope(
                reset_envelope(s, contact_id, Seq::empty(), "end-session-"@ + contact_id),
            ),
        ),
        Action::SendHeartbeat { contact_id } => ask(
            s,
            Wait::Heartbeat(contact_id),
            Request::NewId,
        ),
        Action::NotifyNewMessage { chat_id, preview } => ask(
            s,
            Wait::NotifyNew { chat_id, preview },
            Request::Now,
        ),
        Action::NotifySessionCreated { contact_id } => tell(
            s,
            Request::Notify(BridgeEvent::SessionReady { contact_id }),
        ),
        Action::NotifyError { code, message } => tell(
            s,
            Request::Notify(BridgeEvent::Error("["@ + code + "] "@ + message)),
        ),
        Action::NotifyLinkedDevicesOfSessionReset => quiet(s),
        Action::ScheduleTimer { timer_id, delay_ms } => tell(
            s,
            Request::StartTimer { timer_id, delay_ms },
        ),
        Action::CancelTimer { timer_id } => tell(s, Request::CancelTimer(timer_id)),
        Action::SessionTerminated { contact_id, archive_bytes } => ask(
            s,
            Wait::Archived(contact_id),
            Request::SecureSave { key: archive_key(contact_id), data: archive_bytes },
        ),
    }
}

// ── Tasks ─────────────────────────────────────────────────────────────────────

/// What an event from outside comes to. Opening a chat, and sending without a session, set a
/// session up first.
pub open spec fn prepared(s: ActorView, event: EventView) -> Outcome {
    match event {
        IncomingEvent::ActiveChatChanged { contact_id, is_active: true } => ask(
            s,
            Wait::ChatCount(contact_id),
            Request::PendingCount(contact_id),
        ),
        IncomingEvent::OutgoingMessage { contact_id, message_id, plaintext, content_type } => ask(
            s,
            Wait::SendCheck { contact_id, message_id, plaintext, content_type },
            Request::HasSession(contact_id),
        ),
        _ => quiet(then_do(s, Task::Round { event, keep: true })),
    }
}

/// What a message of the stream comes to. A stale one goes no further than its cursor.
pub open spec fn received(
    s: ActorView,
    event: EventView,
    context: StreamMessageContext<Seq<char>>,
) -> Outcome {
    if stale_replay(context, s.established) {
        match usable_cursor(context.stream_cursor) {
            Some(c) => ask(s, Wait::Cursor(c), Request::SaveCursor(c)),
            None => quiet(s),
        }
    } else {
        quiet(
            then_do(
                ActorView {
                    cursor: noted(s.cursor, context.message_id, context.stream_cursor),
                    ..s
                },
                Task::Round { event, keep: true },
            ),
        )
    }
}

/// The steps of forgetting a contact: tell the core that its chat is closed, have the core
/// forget it, keep the core's state, and delete the session and its archive.
pub open spec fn forget_steps(contact_id: Seq<char>) -> Seq<TaskView> {
    seq![
        Task::SecureDelete(archive_key(contact_id)),
        Task::SecureDelete(session_key(contact_id)),
        Task::Export,
        Task::Forget(contact_id),
        Task::Round {
            event: IncomingEvent::ActiveChatChanged { contact_id, is_active: false },
            keep: false,
        },
    ]
}

/// What a task comes to.
pub open spec fn performed(s: ActorView, task: TaskView) -> Outcome {
    match task {
        Task::Prepare(event) => prepared(s, event),
        Task::Stream { event, context } => received(s, event, context),
        Task::ForgetContact(contact_id) => quiet(
            ActorView { agenda: s.agenda + forget_steps(contact_id), ..s },
        ),
        Task::Round { event, keep } => begin_round(s, event, keep),
        Task::Handle(event) => ask(s, Wait::Actions, Request::Handle(event)),
        Task::EndRound { keep } => quiet(end_round(s, keep)),
        Task::Dispatch(action) => dispatched(s, action),
        Task::Surface { contact_id, message_id, text } => ask(
            s,
            Wait::SurfaceAt { contact_id, message_id, text },
            Request::Now,
        ),
        Task::SessionUp(contact_id) => ask(s, Wait::Established(contact_id), Request::Now),
        Task::Notify(event) => tell(s, Request::Notify(event)),
        Task::Establish { contact_id, purpose } => ask(
            s,
            Wait::EstablishCheck { contact_id, purpose },
            Request::HasSession(contact_id),
        ),
        Task::Confirm { contact_id, purpose } => ask(
            s,
            Wait::Confirm { contact_id, purpose },
            Request::HasSession(contact_id),
        ),
        Task::HealFetch(contact_id) => ask(
            s,
            Wait::HealBundle(contact_id),
            Request::FetchBundle(contact_id),
        ),
        Task::Forget(contact_id) => tell(
            ActorView { established: s.established.remove(contact_id), ..s },
            Request::ForgetContact(contact_id),
        ),
        Task::Export => ask(s, Wait::Exported, Request::ExportState),
        Task::SecureDelete(key) => tell(s, Request::SecureDelete(key)),
    }
}

// ── Answers ───────────────────────────────────────────────────────────────────

/// What an answer comes to, given what was waited for. An answer of another kind ends the
/// matter.
pub open spec fn resumed(s: ActorView, wait: WaitView, answer: AnswerView) -> Outcome {
    match (wait, answer) {
        (Wait::Actions, Answer::Actions(actions)) => quiet(with_actions(s, actions)),
        (Wait::InitCount { contact_id, bundle_json }, Answer::Count(n)) => if n > 0 {
            ask(s, Wait::InitPeek { contact_id, bundle_json }, Request::PeekPending(contact_id))
        } else {
            ask(
                s,
                Wait::Inited(contact_id),
                Request::InitInitiator { contact_id, bundle_json },
            )
        },
        (Wait::InitPeek { contact_id, bundle_json }, Answer::Payload(Some(wire))) => ask(
            s,
            Wait::Received { contact_id, heal: false },
            Request::InitReceiving { contact_id, bundle_json, wire },
        ),
        (Wait::InitPeek { contact_id, bundle_json }, Answer::Payload(None)) => ask(
            s,
            Wait::Inited(contact_id),
            Request::InitInitiator { contact_id, bundle_json },
        ),
        (Wait::Inited(contact_id), Answer::Inited(Ok(()))) => quiet(
            then_do(s, Task::SessionUp(contact_id)),
        ),
        (Wait::Inited(contact_id), Answer::Inited(Err(e))) => tell(
            s,
            Request::Notify(error_notice("[SESSION_INIT_FAILED] "@, e)),
        ),
        (Wait::Received { contact_id, heal }, Answer::Received(Ok(plaintext))) => ask(
            s,
            Wait::Popped { contact_id, plaintext, heal },
            Request::PopPending(contact_id),
        ),
        (Wait::Received { contact_id, heal: true }, Answer::Received(Err(_))) => ask(
            s,
            Wait::HealEnd(contact_id),
            Request::NewId,
        ),
        (Wait::Popped { contact_id, plaintext, heal }, Answer::MaybeId(Some(id))) => quiet(
            responder_up(s, contact_id, id, plaintext, heal),
        ),
        (Wait::Popped { contact_id, plaintext, heal }, Answer::MaybeId(None)) => ask(
            s,
            Wait::Named { contact_id, plaintext, heal },
            Request::NewId,
        ),
        (Wait::Named { contact_id, plaintext, heal }, Answer::Id(id)) => quiet(
            responder_up(s, contact_id, id, plaintext, heal),
        ),
        (Wait::SurfaceAt { contact_id, message_id, text }, Answer::Millis(ms)) => ask(
            then_do(
                s,
                Task::Notify(
                    BridgeEvent::NewMessage {
                        peer_id: contact_id,
                        message_id,
                        text,
                        timestamp_ms: signed_ms(ms),
                    },
                ),
            ),
            Wait::Stored(message_id),
            Request::StoreInbound(
                StoredMessage {
                    id: message_id,
                    peer_id: contact_id,
                    text,
                    direction: "received"@,
                    timestamp_ms: signed_ms(ms),
                    delivery_status: Seq::empty(),
                },
            ),
        ),
        (Wait::Stored(message_id), Answer::Flag(true)) => cursor_offered(s, message_id),
        (Wait::Cursor(c), Answer::Flag(stored)) => quiet(
            ActorView { cursor: advanced(s.cursor, c, stored), ..s },
        ),
        (Wait::Established(contact_id), Answer::Millis(ms)) => quiet(
            follow(
                ActorView {
                    inited: s.inited.insert(contact_id),
                    established: s.established.insert(contact_id, ms),
                    ..s
                },
                init_completed(contact_id),
            ),
        ),
        (Wait::HealReset(contact_id), Answer::Id(id)) => tell(
            then_do(s, Task::HealFetch(contact_id)),
            Request::SendEnvelope(reset_envelope(s, contact_id, sixteen_zeros(), id)),
        ),
        (Wait::HealBundle(contact_id), Answer::Bundle(Ok(bundle_json))) => ask(
            s,
            Wait::HealInited(contact_id),
            Request::InitInitiator { contact_id, bundle_json },
        ),
        (Wait::HealInited(contact_id), Answer::Inited(Ok(()))) => ask(
            follow(s, init_completed(contact_id)),
            Wait::HealPing(contact_id),
            Request::NewId,
        ),
        (Wait::HealPing(contact_id), Answer::Id(id)) => quiet(follow(s, ping_event(contact_id, id))),
        (Wait::HealPayload(contact_id), Answer::Payload(Some(wire))) => ask(
            s,
            Wait::HealRespond { contact_id, wire },
            Request::FetchBundle(contact_id),
        ),
        (Wait::HealRespond { contact_id, wire }, Answer::Bundle(Ok(bundle_json))) => ask(
            s,
            Wait::Received { contact_id, heal: true },
            Request::InitReceiving { contact_id, bundle_json, wire },
        ),
        (Wait::HealEnd(contact_id), Answer::Id(id)) => tell(
            s,
            Request::SendEnvelope(reset_envelope(s, contact_id, sixteen_zeros(), id)),
        ),
        (Wait::Loaded(key), Answer::Payload(data)) => quiet(
            follow(s, IncomingEvent::SessionLoaded { key, data }),
        ),
        (Wait::AckChecked(message_id), Answer::Flag(is_processed)) => quiet(
            follow(s, IncomingEvent::AckDbResult { message_id, is_processed }),
        ),
        (Wait::Heartbeat(contact_id), Answer::Id(message_id)) => tell(
            s,
            Request::Enqueue(
                IncomingEvent::OutgoingMessage {
                    contact_id,
                    message_id,
                    plaintext: HEARTBEAT_PLAINTEXT@,
                    content_type: 0,
                },
            ),
        ),
        (Wait::NotifyNew { chat_id, preview }, Answer::Millis(ms)) => tell(
            s,
            Request::Notify(
                BridgeEvent::NewMessage {
                    peer_id: chat_id,
                    message_id: Seq::empty(),
                    text: preview,
                    timestamp_ms: signed_ms(ms),
                },
            ),
        ),
        (Wait::Archived(contact_id), Answer::Flag(archived)) => {
            let t = ActorView { established: s.established.remove(contact_id), ..s };
            if archived {
                tell(t, Request::SecureDelete(session_key(contact_id)))
            } else {
                quiet(t)
            }
        },
        (Wait::ChatCount(contact_id), Answer::Count(n)) => quiet(
            then_do(
                s,
                Task::Establish { contact_id, purpose: Purpose::Chat { had_inbound: n > 0 } },
            ),
        ),
        (Wait::ChatPing(contact_id), Answer::Id(id)) => quiet(
            then_do(s, Task::Round { event: ping_event(contact_id, id), keep: false }),
        ),
        (
            Wait::SendCheck { contact_id, message_id, plaintext, content_type },
            Answer::Flag(has_session),
        ) => if has_session {
            quiet(then_do(s, send_round(contact_id, message_id, plaintext, content_type)))
        } else {
            quiet(
                then_do(
                    s,
                    Task::Establish {
                        contact_id,
                        purpose: Purpose::Message { message_id, plaintext, content_type },
                    },
                ),
            )
        },
        (Wait::EstablishCheck { contact_id, purpose }, Answer::Flag(has_session)) =>
            if has_session {
            session_outcome(s, contact_id, purpose, Ok(false))
        } else {
            ask(
                s,
                Wait::EstablishBundle { contact_id, purpose },
                Request::FetchBundle(contact_id),
            )
        },
        (Wait::EstablishBundle { contact_id, purpose }, Answer::Bundle(Ok(bundle_json))) => quiet(
            then_do(
                then_do(s, Task::Confirm { contact_id, purpose }),
                Task::Round {
                    event: IncomingEvent::KeyBundleFetched { user_id: contact_id, bundle_json },
                    keep: true,
                },
            ),
        ),
        (Wait::EstablishBundle { contact_id, purpose }, Answer::Bundle(Err(e))) => session_outcome(
            s,
            contact_id,
            purpose,
            Err("GetPreKeyBundle: "@ + e),
        ),
        (Wait::Confirm { contact_id, purpose }, Answer::Flag(has_session)) => session_outcome(
            s,
            contact_id,
            purpose,
            if has_session {
                Ok(true)
            } else {
                Err("no session after InitSession"@)
            },
        ),
        (Wait::Exported, Answer::Payload(Some(data))) => tell(
            s,
            Request::SecureSaveOrDelete { key: STATE_KEY@, data },
        ),
        _ => quiet(s),
    }
}

/// One step: the answer that was waited for, or else the next task.
pub open spec fn stepped(s: ActorView, answer: AnswerView) -> Outcome {
    if s.wait !is Nothing {
        resumed(ActorView { wait: Wait::Nothing, ..s }, s.wait, answer)
    } else if s.agenda.len() > 0 {
        performed(ActorView { agenda: s.agenda.drop_last(), ..s }, s.agenda.last())
    } else {
        quiet(s)
    }
}

// ── Views ─────────────────────────────────────────────────────────────────────

impl View for Request<String, Vec<u8>> {
    type V = RequestView;

    open spec fn view(&self) -> RequestView {
        match self {
            Request::Handle(x0) => Request::Handle(x0@),
            Request::PendingCount(x0) => Request::PendingCount(x0@),
            Request::PeekPending(x0) => Request::PeekPending(x0@),
            Request::InitReceiving { contact_id, bundle_json, wire } => Request::InitReceiving {
                contact_id: contact_id@,
                bundle_json: bundle_json@,
                wire: wire@,
            },
            Request::PopPending(x0) => Request::PopPending(x0@),
            Request::InitInitiator { contact_id, bundle_json } => Request::InitInitiator {
                contact_id: contact_id@,
                bundle_json: bundle_json@,
            },
            Request::TakeHealPayload(x0) => Request::TakeHealPayload(x0@),
            Request::HasSession(x0) => Request::HasSession(x0@),
            Request::ForgetContact(x0) => Request::ForgetContact(x0@),
            Request::ExportState => Request::ExportState,
            Request::FetchBundle(x0) => Request::FetchBundle(x0@),
            Request::FetchBundleInBackground(x0) => Request::FetchBundleInBackground(x0@),
            Request::StoreInbound(x0) => Request::StoreInbound(x0@),
            Request::SaveCursor(x0) => Request::SaveCursor(x0@),
            Request::SecureSaveOrDelete { key, data } => Request::SecureSaveOrDelete {
                key: key@,
                data: data@,
            },
            Request::SecureSave { key, data } => Request::SecureSave {
                key: key@,
                data: data@,
            },
            Request::SecureDelete(x0) => Request::SecureDelete(x0@),
            Request::SecureLoad(x0) => Request::SecureLoad(x0@),
            Request::PersistRecord(x0) => Request::PersistRecord(x0@),
            Request::StoreAck { message_id, timestamp } => Request::StoreAck {
                message_id: message_id@,
                timestamp: *timestamp,
            },
            Request::PruneAcks(x0) => Request::PruneAcks(*x0),
            Request::MarkDelivered(x0) => Request::MarkDelivered(x0@),
            Request::HasAck(x0) => Request::HasAck(x0@),
            Request::SendEnvelope(x0) => Request::SendEnvelope(x0@),
            Request::Notify(x0) => Request::Notify(x0@),
            Request::Enqueue(x0) => Request::Enqueue(x0@),
            Request::EnqueueLater { delay_ms, event } => Request::EnqueueLater {
                delay_ms: *delay_ms,
                event: event@,
            },
            Request::StartTimer { timer_id, delay_ms } => Request::StartTimer {
                timer_id: timer_id@,
                delay_ms: *delay_ms,
            },
            Request::CancelTimer(x0) => Request::CancelTimer(x0@),
            Request::NewId => Request::NewId,
            Request::Now => Request::Now,
        }
    }
}

impl View for Answer<String, Vec<u8>, Vec<Action>> {
    type V = AnswerView;

    open spec fn view(&self) -> AnswerView {
        match self {
            Answer::Nothing => Answer::Nothing,
            Answer::Actions(x0) => Answer::Actions(x0@.map_values(|a: Action| a@)),
            Answer::Count(x0) => Answer::Count(*x0),
            Answer::Payload(x0) => Answer::Payload(opt_view(*x0)),
            Answer::Received(x0) => Answer::Received(match x0 {
                Ok(b) => Ok(b@),
                Err(e) => Err(e@),
            }),
            Answer::MaybeId(x0) => Answer::MaybeId(opt_text(*x0)),
            Answer::Inited(x0) => Answer::Inited(match x0 {
                Ok(()) => Ok(()),
                Err(e) => Err(e@),
            }),
            Answer::Flag(x0) => Answer::Flag(*x0),
            Answer::Bundle(x0) => Answer::Bundle(match x0 {
                Ok(b) => Ok(b@),
                Err(e) => Err(e@),
            }),
            Answer::Id(x0) => Answer::Id(x0@),
            Answer::Millis(x0) => Answer::Millis(*x0),
        }
    }
}

impl View for Purpose<String, Vec<u8>> {
    type V = PurposeView;

    open spec fn view(&self) -> PurposeView {
        match self {
            Purpose::Chat { had_inbound } => Purpose::Chat {
                had_inbound: *had_inbound,
            },
            Purpose::Message { message_id, plaintext, content_type } => Purpose::Message {
                message_id: message_id@,
                plaintext: plaintext@,
                content_type: *content_type,
            },
        }
    }
}

impl View for Task<String, Vec<u8>> {
    type V = TaskView;

    open spec fn view(&self) -> TaskView {
        match self {
            Task::Prepare(x0) => Task::Prepare(x0@),
            Task::Stream { event, context } => Task::Stream {
                event: event@,
                context: context@,
            },
            Task::ForgetContact(x0) => Task::ForgetContact(x0@),
            Task::Round { event, keep } => Task::Round {
                event: event@,
                keep: *keep,
            },
            Task::Handle(x0) => Task::Handle(x0@),
            Task::EndRound { keep } => Task::EndRound {
                keep: *keep,
            },
            Task::Dispatch(x0) => Task::Dispatch(x0@),
            Task::Surface { contact_id, message_id, text } => Task::Surface {
                contact_id: contact_id@,
                message_id: message_id@,
                text: text@,
            },
            Task::SessionUp(x0) => Task::SessionUp(x0@),
            Task::Notify(x0) => Task::Notify(x0@),
            Task::Establish { contact_id, purpose } => Task::Establish {
                contact_id: contact_id@,
                purpose: purpose@,
            },
            Task::Confirm { contact_id, purpose } => Task::Confirm {
                contact_id: contact_id@,
                purpose: purpose@,
            },
            Task::HealFetch(x0) => Task::HealFetch(x0@),
            Task::Forget(x0) => Task::Forget(x0@),
            Task::Export => Task::Export,
            Task::SecureDelete(x0) => Task::SecureDelete(x0@),
        }
    }
}

impl View for Wait<String, Vec<u8>> {
    type V = WaitView;

    open spec fn view(&self) -> WaitView {
        match self {
            Wait::Nothing => Wait::Nothing,
            Wait::Actions => Wait::Actions,
            Wait::InitCount { contact_id, bundle_json } => Wait::InitCount {
                contact_id: contact_id@,
                bundle_json: bundle_json@,
            },
            Wait::InitPeek { contact_id, bundle_json } => Wait::InitPeek {
                contact_id: contact_id@,
                bundle_json: bundle_json@,
            },
            Wait::Inited(x0) => Wait::Inited(x0@),
            Wait::Received { contact_id, heal } => Wait::Received {
                contact_id: contact_id@,
                heal: *heal,
            },
            Wait::Popped { contact_id, plaintext, heal } => Wait::Popped {
                contact_id: contact_id@,
                plaintext: plaintext@,
                heal: *heal,
            },
            Wait::Named { contact_id, plaintext, heal } => Wait::Named {
                contact_id: contact_id@,
                plaintext: plaintext@,
                heal: *heal,
            },
            Wait::SurfaceAt { contact_id, message_id, text } => Wait::SurfaceAt {
                contact_id: contact_id@,
                message_id: message_id@,
                text: text@,
            },
            Wait::Stored(x0) => Wait::Stored(x0@),
            Wait::Cursor(x0) => Wait::Cursor(x0@),
            Wait::Established(x0) => Wait::Established(x0@),
            Wait::HealReset(x0) => Wait::HealReset(x0@),
            Wait::HealBundle(x0) => Wait::HealBundle(x0@),
            Wait::HealInited(x0) => Wait::HealInited(x0@),
            Wait::HealPing(x0) => Wait::HealPing(x0@),
            Wait::HealPayload(x0) => Wait::HealPayload(x0@),
            Wait::HealRespond { contact_id, wire } => Wait::HealRespond {
                contact_id: contact_id@,
                wire: wire@,
            },
            Wait::HealEnd(x0) => Wait::HealEnd(x0@),
            Wait::Loaded(x0) => Wait::Loaded(x0@),
            Wait::AckChecked(x0) => Wait::AckChecked(x0@),
            Wait::Heartbeat(x0) => Wait::Heartbeat(x0@),
            Wait::NotifyNew { chat_id, preview } => Wait::NotifyNew {
                chat_id: chat_id@,
                preview: preview@,
            },
            Wait::Archived(x0) => Wait::Archived(x0@),
            Wait::ChatCount(x0) => Wait::ChatCount(x0@),
            Wait::ChatPing(x0) => Wait::ChatPing(x0@),
            Wait::SendCheck { contact_id, message_id, plaintext, content_type } => Wait::SendCheck {
                contact_id: contact_id@,
                message_id: message_id@,
                plaintext: plaintext@,
                content_type: *content_type,
            },
            Wait::EstablishCheck { contact_id, purpose } => Wait::EstablishCheck {
                contact_id: contact_id@,
                purpose: purpose@,
            },
            Wait::EstablishBundle { contact_id, purpose } => Wait::EstablishBundle {
                contact_id: contact_id@,
                purpose: purpose@,
            },
            Wait::Confirm { contact_id, purpose } => Wait::Confirm {
                contact_id: contact_id@,
                purpose: purpose@,
            },
            Wait::Exported => Wait::Exported,
        }
    }
}

// ── Stale replays ─────────────────────────────────────────────────────────────

/// When the session with each contact was set up, in milliseconds.
pub struct EstablishedSessions {
    at_ms: StringHashMap<u64>,
}

impl View for EstablishedSessions {
    type V = Map<Seq<char>, u64>;

    closed spec fn view(&self) -> Map<Seq<char>, u64> {
        self.at_ms@
    }
}

impl EstablishedSessions {
    pub fn new() -> (r: Self)
        ensures
            r@ == Map::<Seq<char>, u64>::empty(),
    {
        EstablishedSessions { at_ms: StringHashMap::new() }
    }

    pub fn insert(&mut self, contact_id: String, at_ms: u64)
        ensures
            final(self)@ == old(self)@.insert(contact_id@, at_ms),
    {
        self.at_ms.insert(contact_id, at_ms);
    }

    pub fn remove(&mut self, contact_id: &str)
        ensures
            final(self)@ == old(self)@.remove(contact_id@),
    {
        self.at_ms.remove(contact_id);
    }

    pub fn get(&self, contact_id: &str) -> (r: Option<u64>)
        ensures
            r == (if self@.contains_key(contact_id@) {
                Some(self@[contact_id@])
            } else {
                None
            }),
    {
        match self.at_ms.get(contact_id) {
            Some(ms) => Some(*ms),
            None => None,
        }
    }
}

impl StreamMessageContext<String> {
    fn is_replay_sensitive(&self) -> (r: bool)
        ensures
            r == replay_sensitive(self@),
    {
        self.msg_num == 0 || self.content_type == ContentType::SessionReset.number()
            || self.content_type == ContentType::SessionResetInit.number()
    }
}

/// The time in a stream cursor.
pub fn stream_cursor_millis(cursor: Option<&str>) -> (r: Option<u64>)
    ensures
        r == cursor_millis(opt_str(cursor)),
{
    match cursor {
        Some(c) => match split_once(c, "-") {
            Some((millis, _)) => {
                proof {
                    crate::text::lemma_first_occurrence(c@, "-"@, millis@.len() as int);
                }
                parse_u64(millis)
            },
            None => None,
        },
        None => None,
    }
}

/// Whether a message of the stream is from before the session with its sender, and must not
/// touch that session.
pub fn should_drop_stale_session_replay(
    context: &StreamMessageContext,
    session_established_at_ms: &EstablishedSessions,
) -> (r: bool)
    ensures
        r == stale_replay(context@, session_established_at_ms@),
{
    if !context.is_replay_sensitive() {
        return false;
    }
    let established_at_ms: u64 = match session_established_at_ms.get(context.contact_id.as_str()) {
        Some(ms) => ms,
        None => return false,
    };
    match stream_cursor_millis(crate::text::as_deref(&context.stream_cursor)) {
        Some(cursor_ms) => cursor_ms < established_at_ms,
        None => false,
    }
}

/// A message newer than the session is never dropped, and neither is one that could not touch
/// it or one of a contact without a session.
pub proof fn law_only_stale_messages_are_dropped(
    c: StreamMessageContext<Seq<char>>,
    established: Map<Seq<char>, u64>,
)
    ensures
        stale_replay(c, established) ==> established.contains_key(c.contact_id),
        c.msg_num != 0 && c.content_type != 21 && c.content_type != 24 ==> !stale_replay(
            c,
            established,
        ),
        cursor_millis(c.stream_cursor) matches Some(ms) && established.contains_key(c.contact_id)
            && ms >= established[c.contact_id] ==> !stale_replay(c, established),
{
}

// ── The store ─────────────────────────────────────────────────────────────────

/// Keeps a secret that the core wants kept; an empty one is deleted.
pub fn apply_secure_store_save(storage: &mut Storage, key: &str, data: &[u8])
    ensures
        final(storage)@ == saved_or_deleted(old(storage)@, key@, data@),
{
    storage.secure_save_or_delete(key, data);
}

/// Archives a session that has ended and deletes the session itself.
pub fn apply_session_terminated(storage: &mut Storage, contact_id: &str, archive_bytes: &[u8])
    ensures
        final(storage)@ == deleted(
            saved(old(storage)@, archive_key(contact_id@), archive_bytes@),
            session_key(contact_id@),
        ),
{
    storage.secure_save(join("archive_", contact_id).as_str(), archive_bytes);
    storage.secure_delete(join("session_", contact_id).as_str());
}

/// After a session has ended, its archive is there and the session is not.
pub proof fn law_termination_moves_the_session(
    s: crate::storage::StorageView,
    contact_id: Seq<char>,
    archive: Seq<u8>,
)
    ensures
        ({
            let t = deleted(saved(s, archive_key(contact_id), archive), session_key(contact_id));
            &&& t.secure.contains_key(archive_key(contact_id))
            &&& t.secure[archive_key(contact_id)] == archive
            &&& !t.secure.contains_key(session_key(contact_id))
        }),
{
    reveal_strlit("session_");
    reveal_strlit("archive_");
    assert(session_key(contact_id)[0] == 's');
    assert(archive_key(contact_id)[0] == 'a');
}

// ── The actor ─────────────────────────────────────────────────────────────────

/// Carries out what the core asks for.
pub struct OrchestratorTask {
    my_user_id: String,
    my_device_id: String,
    cursor: CursorTracker,
    established: EstablishedSessions,
    agenda: Vec<Task>,
    wait: Wait,
    follow_ups: Vec<IncomingEvent>,
    inited: StringHashSet,
    nested: bool,
}

impl View for OrchestratorTask {
    type V = ActorView;

    closed spec fn view(&self) -> ActorView {
        ActorView {
            user: self.my_user_id@,
            device: self.my_device_id@,
            cursor: self.cursor@,
            established: self.established@,
            agenda: self.agenda@.map_values(|t: Task| t@),
            wait: self.wait@,
            follow_ups: self.follow_ups@.map_values(|e: IncomingEvent| e@),
            inited: self.inited@,
            nested: self.nested,
        }
    }
}

fn is_written_by_person(text: &str) -> (r: bool)
    ensures
        r == written_by_person(text@),
{
    !text.is_empty() && text.get_char(0) != '\0' && !contains(text, "__session_ping_")
        && !contains(text, "__heartbeat__")
}

fn zeros16() -> (r: Vec<u8>)
    ensures
        r@ == sixteen_zeros(),
{
    let mut v: Vec<u8> = Vec::new();
    let mut i: usize = 0;
    while i < 16
        invariant
            i <= 16,
            v@.len() == i,
            forall|j: int| 0 <= j < i ==> v@[j] == 0,
        decreases 16 - i,
    {
        v.push(0);
        i = i + 1;
    }
    assert(v@ =~= sixteen_zeros());
    v
}

fn make_ping_event(contact_id: String, ping_id: String) -> (r: IncomingEvent)
    ensures
        r@ == ping_event(contact_id@, ping_id@),
{
    let plaintext = encode_session_ping(ping_id.as_str());
    IncomingEvent::OutgoingMessage { contact_id, message_id: ping_id, plaintext, content_type: 0 }
}

fn make_init_completed(contact_id: String) -> (r: IncomingEvent)
    ensures
        r@ == init_completed(contact_id@),
{
    let r = IncomingEvent::SessionInitCompleted { contact_id, session_data: Vec::new() };
    assert(r@->SessionInitCompleted_session_data =~= Seq::<u8>::empty());
    r
}

/// The plaintext that goes out: frames and control messages as they are, text in a frame.
/// Wrapping it again changes nothing.
pub fn wrap_outgoing(plaintext: Vec<u8>, message_id: &str) -> (r: Vec<u8>)
    ensures
        r@ == outgoing_plaintext(plaintext@, message_id@),
        outgoing_plaintext(r@, message_id@) == r@,
{
    proof {
        lemma_wrapped_once(plaintext@, message_id@);
    }
    if is_frame(plaintext.as_slice()) || (plaintext.len() > 0 && plaintext[0] == 0) {
        plaintext
    } else {
        encode_text(from_utf8_lossy(plaintext.as_slice()).as_str(), message_id)
    }
}

proof fn lemma_wrapped_once(plaintext: Seq<u8>, message_id: Seq<char>)
    ensures
        outgoing_plaintext(outgoing_plaintext(plaintext, message_id), message_id)
            == outgoing_plaintext(plaintext, message_id),
{
    crate::knst::lemma_framed(
        crate::proto::message_content_bytes(Some(utf8_lossy(plaintext))),
        crate::knst::CONTENT_E2EE_SIGNAL,
        message_id,
    );
}

/// The round that sends a message.
fn make_send_round(
    contact_id: String,
    message_id: String,
    plaintext: Vec<u8>,
    content_type: u8,
) -> (r: Task)
    ensures
        r@ == send_round(contact_id@, message_id@, plaintext@, content_type),
{
    let plaintext = wrap_outgoing(plaintext, message_id.as_str());
    Task::Round {
        event: IncomingEvent::OutgoingMessage { contact_id, message_id, plaintext, content_type },
        keep: true,
    }
}

fn session_init_failed(e: &str) -> (r: BridgeEvent)
    ensures
        r@ == error_notice("[SESSION_INIT_FAILED] "@, e@),
{
    BridgeEvent::Error(join("[SESSION_INIT_FAILED] ", e))
}

impl OrchestratorTask {
    /// An actor with nothing to do.
    pub fn new(my_user_id: String, my_device_id: String, cursor: CursorTracker) -> (r: Self)
        ensures
            r@ == (ActorView {
                user: my_user_id@,
                device: my_device_id@,
                cursor: cursor@,
                established: Map::empty(),
                agenda: Seq::empty(),
                wait: Wait::Nothing,
                follow_ups: Seq::empty(),
                inited: Set::empty(),
                nested: false,
            }),
    {
        let r = OrchestratorTask {
            my_user_id,
            my_device_id,
            cursor,
            established: EstablishedSessions::new(),
            agenda: Vec::new(),
            wait: Wait::Nothing,
            follow_ups: Vec::new(),
            inited: StringHashSet::new(),
            nested: false,
        };
        assert(r@.agenda =~= Seq::<TaskView>::empty());
        assert(r@.follow_ups =~= Seq::<EventView>::empty());
        r
    }

    /// Whether there is nothing to do and nothing to wait for.
    pub fn is_idle(&self) -> (r: bool)
        ensures
            r == (self@.wait is Nothing && self@.agenda.len() == 0),
    {
        match self.wait {
            Wait::Nothing => self.agenda.len() == 0,
            _ => false,
        }
    }

    /// How far the stream was durably read.
    pub fn committed_cursor(&self) -> (r: Option<String>)
        ensures
            opt_text(r) == self@.cursor.committed,
    {
        self.cursor.committed()
    }

    /// Remembers at which cursor a message of the stream stands.
    pub fn note_cursor(&mut self, message_id: &str, cursor: Option<String>)
        ensures
            final(self)@ == (ActorView {
                cursor: noted(old(self)@.cursor, message_id@, opt_text(cursor)),
                ..old(self)@
            }),
    {
        self.cursor.note(message_id, cursor);
    }

    /// The session with a contact was set up at a time.
    pub fn mark_session_established(&mut self, contact_id: String, established_at_ms: u64)
        ensures
            final(self)@ == (ActorView {
                established: old(self)@.established.insert(contact_id@, established_at_ms),
                ..old(self)@
            }),
    {
        self.established.insert(contact_id, established_at_ms);
    }

    fn enqueue(&mut self, task: Task)
        ensures
            final(self)@ == (ActorView {
                agenda: seq![task@] + old(self)@.agenda,
                ..old(self)@
            }),
    {
        self.agenda.insert(0, task);
        assert(self@.agenda =~= seq![task@] + old(self)@.agenda);
    }

    /// An event for the core, when all that came before is done: what was next stays next.
    pub fn send(&mut self, event: IncomingEvent)
        ensures
            final(self)@ == (ActorView {
                agenda: seq![TaskView::Prepare(event@)] + old(self)@.agenda,
                ..old(self)@
            }),
            old(self)@.agenda.len() > 0 ==> final(self)@.agenda.last() == old(self)@.agenda.last(),
    {
        self.enqueue(Task::Prepare(event));
    }

    /// Drops what is held about a contact that the user removed.
    pub fn forget_contact(&mut self, contact_id: String)
        ensures
            final(self)@ == (ActorView {
                agenda: seq![TaskView::ForgetContact(contact_id@)] + old(self)@.agenda,
                ..old(self)@
            }),
            old(self)@.agenda.len() > 0 ==> final(self)@.agenda.last() == old(self)@.agenda.last(),
    {
        self.enqueue(Task::ForgetContact(contact_id));
    }

    /// A message of the stream with its place in it.
    pub fn stream_message(&mut self, event: IncomingEvent, context: StreamMessageContext)
        ensures
            final(self)@ == (ActorView {
                agenda: seq![TaskView::Stream { event: event@, context: context@ }]
                    + old(self)@.agenda,
                ..old(self)@
            }),
            old(self)@.agenda.len() > 0 ==> final(self)@.agenda.last() == old(self)@.agenda.last(),
    {
        self.enqueue(Task::Stream { event, context });
    }

    fn ask(&mut self, wait: Wait, request: Request) -> (r: Option<Request>)
        ensures
            (final(self)@, opt_view(r)) == ask(old(self)@, wait@, request@),
    {
        self.wait = wait;
        Some(request)
    }

    fn then_do(&mut self, task: Task)
        ensures
            final(self)@ == then_do(old(self)@, task@),
    {
        self.agenda.push(task);
        assert(self@.agenda =~= old(self)@.agenda.push(task@));
    }

    fn follow(&mut self, event: IncomingEvent)
        ensures
            final(self)@ == follow(old(self)@, event@),
    {
        if !self.nested {
            self.follow_ups.push(event);
            assert(self@.follow_ups =~= old(self)@.follow_ups.push(event@));
        }
    }

    fn reset_envelope(&self, contact_id: &str, payload: Vec<u8>, message_id: String) -> (r: Envelope)
        ensures
            r@ == reset_envelope(self@, contact_id@, payload@, message_id@),
    {
        build_envelope(
            self.my_user_id.as_str(),
            self.my_device_id.as_str(),
            contact_id,
            payload,
            message_id,
            ContentType::SessionReset,
        )
    }

    fn was_inited(&self, contact_id: &str) -> (r: bool)
        ensures
            r == self@.inited.contains(contact_id@),
    {
        self.inited.contains(contact_id)
    }

    fn begin_round(&mut self, event: IncomingEvent, keep: bool) -> (r: Option<Request>)
        ensures
            (final(self)@, opt_view(r)) == begin_round(old(self)@, event@, keep),
    {
        self.then_do(Task::EndRound { keep });
        self.follow_ups = Vec::new();
        self.inited = StringHashSet::new();
        self.nested = false;
        assert(self@.follow_ups =~= Seq::<EventView>::empty());
        self.ask(Wait::Actions, Request::Handle(event))
    }

    fn end_round(&mut self, keep: bool)
        ensures
            final(self)@ == end_round(old(self)@, keep),
    {
        let mut rest: Vec<IncomingEvent> = Vec::new();
        core::mem::swap(&mut rest, &mut self.follow_ups);
        assert(self@.follow_ups =~= Seq::<EventView>::empty());
        self.nested = true;
        if !keep {
            assert(self@ =~= end_round(old(self)@, keep));
            return;
        }
        let ghost start = self@;
        let ghost f = |e: EventView| TaskView::Handle(e);
        let ghost all = old(self)@.follow_ups;
        assert(rest@.map_values(|e: IncomingEvent| e@) =~= all);
        assert(self@.agenda =~= start.agenda + stacked(Seq::empty(), f));
        assert(all.skip(all.len() as int) =~= Seq::<EventView>::empty());
        while rest.len() > 0
            invariant
                rest@.len() <= all.len(),
                rest@.map_values(|e: IncomingEvent| e@) == all.take(rest@.len() as int),
                self@ == (ActorView {
                    agenda: start.agenda + stacked(all.skip(rest@.len() as int), f),
                    ..start
                }),
                f == (|e: EventView| TaskView::Handle(e)),
            decreases rest@.len(),
        {
            let ghost n = rest@.len() as int;
            let ghost before = rest@.map_values(|e: IncomingEvent| e@);
            if let Some(event) = rest.pop() {
                assert(event@ == before[n - 1]);
                assert(rest@.map_values(|e: IncomingEvent| e@) =~= all.take(n - 1));
                self.then_do(Task::Handle(event));
                assert(all.skip(n - 1) =~= seq![all[n - 1]] + all.skip(n));
                assert(stacked(all.skip(n - 1), f) =~= stacked(all.skip(n), f).push(
                    TaskView::Handle(all[n - 1]),
                ));
                assert(self@.agenda =~= start.agenda + stacked(all.skip(n - 1), f));
            }
        }
        assert(all.skip(0) =~= all);
    }

    fn with_actions(&mut self, actions: Vec<Action>)
        ensures
            final(self)@ == with_actions(old(self)@, actions@.map_values(|a: Action| a@)),
    {
        let mut rest = actions;
        let ghost start = self@;
        let ghost f = |a: ActionView| TaskView::Dispatch(a);
        let ghost all = actions@.map_values(|a: Action| a@);
        assert(self@.agenda =~= start.agenda + stacked(Seq::empty(), f));
        assert(all.skip(all.len() as int) =~= Seq::<ActionView>::empty());
        assert(all.take(all.len() as int) =~= all);
        while rest.len() > 0
            invariant
                rest@.len() <= all.len(),
                rest@.map_values(|a: Action| a@) == all.take(rest@.len() as int),
                self@ == (ActorView {
                    agenda: start.agenda + stacked(all.skip(rest@.len() as int), f),
                    ..start
                }),
                f == (|a: ActionView| TaskView::Dispatch(a)),
            decreases rest@.len(),
        {
            let ghost n = rest@.len() as int;
            let ghost before = rest@.map_values(|a: Action| a@);
            if let Some(action) = rest.pop() {
                assert(action@ == before[n - 1]);
                assert(rest@.map_values(|a: Action| a@) =~= all.take(n - 1));
                self.then_do(Task::Dispatch(action));
                assert(all.skip(n - 1) =~= seq![all[n - 1]] + all.skip(n));
                assert(stacked(all.skip(n - 1), f) =~= stacked(all.skip(n), f).push(
                    TaskView::Dispatch(all[n - 1]),
                ));
                assert(self@.agenda =~= start.agenda + stacked(all.skip(n - 1), f));
            }
        }
        assert(all.skip(0) =~= all);
    }

    fn responder_up(
        &mut self,
        contact_id: String,
        message_id: String,
        plaintext: Vec<u8>,
        heal: bool,
    )
        ensures
            final(self)@ == responder_up(
                old(self)@,
                contact_id@,
                message_id@,
                plaintext@,
                heal,
            ),
    {
        let text = decode_text(plaintext.as_slice());
        if heal {
            self.follow(make_init_completed(contact_id.clone()));
        } else {
            self.then_do(Task::SessionUp(contact_id.clone()));
        }
        if is_written_by_person(text.as_str()) {
            self.then_do(Task::Surface { contact_id, message_id, text });
        }
    }

    fn session_outcome(
        &mut self,
        contact_id: String,
        purpose: Purpose,
        outcome: Result<bool, String>,
    ) -> (r: Option<Request>)
        ensures
            (final(self)@, opt_view(r)) == session_outcome(
                old(self)@,
                contact_id@,
                purpose@,
                match outcome {
                    Ok(b) => Ok(b),
                    Err(e) => Err(e@),
                },
            ),
    {
        match purpose {
            Purpose::Chat { had_inbound } => {
                self.then_do(
                    Task::Round {
                        event: IncomingEvent::ActiveChatChanged {
                            contact_id: contact_id.clone(),
                            is_active: true,
                        },
                        keep: true,
                    },
                );
                match outcome {
                    Ok(created) => if created && !had_inbound {
                        self.ask(Wait::ChatPing(contact_id), Request::NewId)
                    } else {
                        None
                    },
                    Err(e) => Some(Request::Notify(session_init_failed(e.as_str()))),
                }
            },
            Purpose::Message { message_id, plaintext, content_type } => match outcome {
                Ok(_) => {
                    self.then_do(make_send_round(contact_id, message_id, plaintext, content_type));
                    None
                },
                Err(e) => Some(Request::Notify(session_init_failed(e.as_str()))),
            },
        }
    }

    fn heal(&mut self, contact_id: String, role: String) -> (r: Option<Request>)
        ensures
            (final(self)@, opt_view(r)) == heal(old(self)@, contact_id@, role@),
    {
        if self.was_inited(contact_id.as_str()) {
            None
        } else if same(role.as_str(), "Initiator") {
            self.ask(Wait::HealReset(contact_id), Request::NewId)
        } else {
            self.ask(
                Wait::HealPayload(contact_id.clone()),
                Request::TakeHealPayload(contact_id),
            )
        }
    }

    /// Offers the cursor that was noted for a message to the store.
    fn offer_cursor(&mut self, message_id: &str) -> (r: Option<Request>)
        ensures
            (final(self)@, opt_view(r)) == cursor_offered(old(self)@, message_id@),
    {
        match self.cursor.take(message_id) {
            Some(c) => self.ask(Wait::Cursor(c.clone()), Request::SaveCursor(c)),
            None => None,
        }
    }

    /// Carries out an action of the core, or makes the first request for it.
    fn dispatch(&mut self, action: Action) -> (r: Option<Request>)
        ensures
            (final(self)@, opt_view(r)) == dispatched(old(self)@, action@),
    {
        match action {
            Action::InitSession { contact_id, bundle_json } => self.ask(
                Wait::InitCount { contact_id: contact_id.clone(), bundle_json },
                Request::PendingCount(contact_id),
            ),
            Action::DecryptMessage => None,
            Action::EncryptMessage => None,
            Action::ApplyPQContribution => None,
            Action::ArchiveSession => None,
            Action::MessageDecrypted { contact_id, message_id, plaintext } => {
                if is_silent_frame(plaintext.as_slice()) {
                    return self.offer_cursor(message_id.as_str());
                }
                let text = decode_text(plaintext.as_slice());
                self.then_do(Task::Surface { contact_id, message_id, text });
                None
            },
            Action::CallSignalDecrypted => None,
            Action::EndSessionSuppressed => None,
            Action::MessageQueuedPendingInit => None,
            Action::SessionHealNeeded { contact_id, role } => self.heal(contact_id, role),
            Action::HealSuppressed { contact_id, retry_after_ms } => Some(
                Request::EnqueueLater {
                    delay_ms: retry_after_ms,
                    event: IncomingEvent::AppLaunched,
                },
            ),
            Action::SaveSessionToSecureStore { key, data } => Some(
                Request::SecureSaveOrDelete { key, data },
            ),
            Action::LoadSessionFromSecureStore { key } => self.ask(
                Wait::Loaded(key.clone()),
                Request::SecureLoad(key),
            ),
            Action::PersistMessage { message_json } => Some(Request::PersistRecord(message_json)),
            Action::PersistAck { message_id, timestamp } => Some(
                Request::StoreAck { message_id, timestamp: crate::invite::signed(timestamp) },
            ),
            Action::PruneAckStore { cutoff_ts } => Some(
                Request::PruneAcks(crate::invite::signed(cutoff_ts)),
            ),
            Action::MarkMessageDelivered { message_id } => Some(Request::MarkDelivered(message_id)),
            Action::CheckAckInDb { message_id } => self.ask(
                Wait::AckChecked(message_id.clone()),
                Request::HasAck(message_id),
            ),
            Action::FetchPublicKeyBundle { user_id } => Some(
                Request::FetchBundleInBackground(user_id),
            ),
            Action::SendEncryptedMessage { to, payload, message_id, content_type } => Some(
                Request::SendEnvelope(
                    build_envelope(
                        self.my_user_id.as_str(),
                        self.my_device_id.as_str(),
                        to.as_str(),
                        payload,
                        message_id,
                        content_type_from_u8(content_type),
                    ),
                ),
            ),
            Action::SendReceipt { message_id } => None,
            Action::SendEndSession { contact_id } => {
                let id = join("end-session-", contact_id.as_str());
                let empty: Vec<u8> = Vec::new();
                assert(empty@ =~= Seq::<u8>::empty());
                Some(
                    Request::SendEnvelope(self.reset_envelope(contact_id.as_str(), empty, id)),
                )
            },
            Action::SendHeartbeat { contact_id } => self.ask(
                Wait::Heartbeat(contact_id),
                Request::NewId,
            ),
            Action::NotifyNewMessage { chat_id, preview } => self.ask(
                Wait::NotifyNew { chat_id, preview },
                Request::Now,
            ),
            Action::NotifySessionCreated { contact_id } => Some(
                Request::Notify(BridgeEvent::SessionReady { contact_id }),
            ),
            Action::NotifyError { code, message } => {
                let mut text = join("[", code.as_str());
                text.append("] ");
                text.append(message.as_str());
                Some(Request::Notify(BridgeEvent::Error(text)))
            },
            Action::NotifyLinkedDevicesOfSessionReset => None,
            Action::ScheduleTimer { timer_id, delay_ms } => Some(
                Request::StartTimer { timer_id, delay_ms },
            ),
            Action::CancelTimer { timer_id } => Some(Request::CancelTimer(timer_id)),
            Action::SessionTerminated { contact_id, archive_bytes } => {
                let key = join("archive_", contact_id.as_str());
                self.ask(
                    Wait::Archived(contact_id),
                    Request::SecureSave { key, data: archive_bytes },
                )
            },
        }
    }
}

impl OrchestratorTask {
    /// Takes an event from outside, for an actor that waits for nothing: setting a session up
    /// comes first where one is needed.
    pub fn prepare_outgoing(&mut self, event: IncomingEvent) -> (r: Option<Request>)
        ensures
            (final(self)@, opt_view(r)) == prepared(old(self)@, event@),
    {
        match event {
            IncomingEvent::ActiveChatChanged { contact_id, is_active: true } => self.ask(
                Wait::ChatCount(contact_id.clone()),
                Request::PendingCount(contact_id),
            ),
            IncomingEvent::OutgoingMessage { contact_id, message_id, plaintext, content_type } =>
                self.ask(
                Wait::SendCheck {
                    contact_id: contact_id.clone(),
                    message_id,
                    plaintext,
                    content_type,
                },
                Request::HasSession(contact_id),
            ),
            other => {
                self.then_do(Task::Round { event: other, keep: true });
                None
            },
        }
    }

    /// Takes a message of the stream.
    fn receive(&mut self, event: IncomingEvent, context: StreamMessageContext) -> (r: Option<
        Request,
    >)
        ensures
            (final(self)@, opt_view(r)) == received(old(self)@, event@, context@),
    {
        if should_drop_stale_session_replay(&context, &self.established) {
            match context.stream_cursor {
                Some(c) => if c.as_str().is_empty() {
                    None
                } else {
                    self.ask(Wait::Cursor(c.clone()), Request::SaveCursor(c))
                },
                None => None,
            }
        } else {
            self.cursor.note(context.message_id.as_str(), context.stream_cursor);
            self.then_do(Task::Round { event, keep: true });
            None
        }
    }

    /// Starts on the steps of forgetting a contact.
    fn forget(&mut self, contact_id: String)
        ensures
            final(self)@ == (ActorView {
                agenda: old(self)@.agenda + forget_steps(contact_id@),
                ..old(self)@
            }),
    {
        self.then_do(Task::SecureDelete(join("archive_", contact_id.as_str())));
        self.then_do(Task::SecureDelete(join("session_", contact_id.as_str())));
        self.then_do(Task::Export);
        self.then_do(Task::Forget(contact_id.clone()));
        self.then_do(
            Task::Round {
                event: IncomingEvent::ActiveChatChanged { contact_id, is_active: false },
                keep: false,
            },
        );
        assert(self@.agenda =~= old(self)@.agenda + forget_steps(contact_id@));
    }

    /// Does the next thing on the agenda.
    fn perform(&mut self, task: Task) -> (r: Option<Request>)
        ensures
            (final(self)@, opt_view(r)) == performed(old(self)@, task@),
    {
        match task {
            Task::Prepare(event) => self.prepare_outgoing(event),
            Task::Stream { event, context } => self.receive(event, context),
            Task::ForgetContact(contact_id) => {
                self.forget(contact_id);
                None
            },
            Task::Round { event, keep } => self.begin_round(event, keep),
            Task::Handle(event) => self.ask(Wait::Actions, Request::Handle(event)),
            Task::EndRound { keep } => {
                self.end_round(keep);
                None
            },
            Task::Dispatch(action) => self.dispatch(action),
            Task::Surface { contact_id, message_id, text } => self.ask(
                Wait::SurfaceAt { contact_id, message_id, text },
                Request::Now,
            ),
            Task::SessionUp(contact_id) => self.ask(Wait::Established(contact_id), Request::Now),
            Task::Notify(event) => Some(Request::Notify(event)),
            Task::Establish { contact_id, purpose } => self.ask(
                Wait::EstablishCheck { contact_id: contact_id.clone(), purpose },
                Request::HasSession(contact_id),
            ),
            Task::Confirm { contact_id, purpose } => self.ask(
                Wait::Confirm { contact_id: contact_id.clone(), purpose },
                Request::HasSession(contact_id),
            ),
            Task::HealFetch(contact_id) => self.ask(
                Wait::HealBundle(contact_id.clone()),
                Request::FetchBundle(contact_id),
            ),
            Task::Forget(contact_id) => {
                self.established.remove(contact_id.as_str());
                Some(Request::ForgetContact(contact_id))
            },
            Task::Export => self.ask(Wait::Exported, Request::ExportState),
            Task::SecureDelete(key) => Some(Request::SecureDelete(key)),
        }
    }

    /// A received text is in the store, or is not.
    fn stored(&mut self, message_id: String, ok: bool) -> (r: Option<Request>)
        ensures
            (final(self)@, opt_view(r)) == resumed(
                old(self)@,
                Wait::Stored(message_id@),
                Answer::Flag(ok),
            ),
    {
        if !ok {
            return None;
        }
        self.offer_cursor(message_id.as_str())
    }

    /// Keeps a received text, and has it shown afterwards.
    fn surface(&mut self, contact_id: String, message_id: String, text: String, ms: u64) -> (r:
        Option<Request>)
        ensures
            (final(self)@, opt_view(r)) == resumed(
                old(self)@,
                Wait::SurfaceAt { contact_id: contact_id@, message_id: message_id@, text: text@ },
                Answer::Millis(ms),
            ),
    {
        let timestamp_ms: i64 = to_signed_ms(ms);
        self.then_do(
            Task::Notify(
                BridgeEvent::NewMessage {
                    peer_id: contact_id.clone(),
                    message_id: message_id.clone(),
                    text: text.clone(),
                    timestamp_ms,
                },
            ),
        );
        let delivery_status = String::new();
        self.ask(
            Wait::Stored(message_id.clone()),
            Request::StoreInbound(
                StoredMessage {
                    id: message_id,
                    peer_id: contact_id,
                    text,
                    direction: "received".to_string(),
                    timestamp_ms,
                    delivery_status,
                },
            ),
        )
    }

    /// Goes on with an answer about a session that is being set up.
    fn resume_session(&mut self, wait: Wait, answer: Answer) -> (r: Option<Request>)
        requires
            wait is InitCount || wait is InitPeek || wait is Inited || wait is Received
                || wait is Popped || wait is Named || wait is Established,
        ensures
            (final(self)@, opt_view(r)) == resumed(old(self)@, wait@, answer@),
    {
        match (wait, answer) {
            (Wait::InitCount { contact_id, bundle_json }, Answer::Count(n)) => if n > 0 {
                self.ask(
                    Wait::InitPeek { contact_id: contact_id.clone(), bundle_json },
                    Request::PeekPending(contact_id),
                )
            } else {
                self.ask(
                    Wait::Inited(contact_id.clone()),
                    Request::InitInitiator { contact_id, bundle_json },
                )
            },
            (Wait::InitPeek { contact_id, bundle_json }, Answer::Payload(Some(wire))) => self.ask(
                Wait::Received { contact_id: contact_id.clone(), heal: false },
                Request::InitReceiving { contact_id, bundle_json, wire },
            ),
            (Wait::InitPeek { contact_id, bundle_json }, Answer::Payload(None)) => self.ask(
                Wait::Inited(contact_id.clone()),
                Request::InitInitiator { contact_id, bundle_json },
            ),
            (Wait::Inited(contact_id), Answer::Inited(Ok(()))) => {
                self.then_do(Task::SessionUp(contact_id));
                None
            },
            (Wait::Inited(contact_id), Answer::Inited(Err(e))) => Some(
                Request::Notify(session_init_failed(e.as_str())),
            ),
            (Wait::Received { contact_id, heal }, Answer::Received(Ok(plaintext))) => self.ask(
                Wait::Popped { contact_id: contact_id.clone(), plaintext, heal },
                Request::PopPending(contact_id),
            ),
            (Wait::Received { contact_id, heal: true }, Answer::Received(Err(_))) => self.ask(
                Wait::HealEnd(contact_id),
                Request::NewId,
            ),
            (Wait::Popped { contact_id, plaintext, heal }, Answer::MaybeId(Some(id))) => {
                self.responder_up(contact_id, id, plaintext, heal);
                None
            },
            (Wait::Popped { contact_id, plaintext, heal }, Answer::MaybeId(None)) => self.ask(
                Wait::Named { contact_id, plaintext, heal },
                Request::NewId,
            ),
            (Wait::Named { contact_id, plaintext, heal }, Answer::Id(id)) => {
                self.responder_up(contact_id, id, plaintext, heal);
                None
            },
            (Wait::Established(contact_id), Answer::Millis(ms)) => {
                self.inited.insert(contact_id.clone());
                self.established.insert(contact_id.clone(), ms);
                self.follow(make_init_completed(contact_id));
                None
            },
            _ => None,
        }
    }

    /// Goes on with an answer about a session that is being healed.
    fn resume_heal(&mut self, wait: Wait, answer: Answer) -> (r: Option<Request>)
        requires
            wait is HealReset || wait is HealBundle || wait is HealInited || wait is HealPing
                || wait is HealPayload || wait is HealRespond || wait is HealEnd,
        ensures
            (final(self)@, opt_view(r)) == resumed(old(self)@, wait@, answer@),
    {
        match (wait, answer) {
            (Wait::HealReset(contact_id), Answer::Id(id)) => {
                let envelope = self.reset_envelope(contact_id.as_str(), zeros16(), id);
                self.then_do(Task::HealFetch(contact_id));
                Some(Request::SendEnvelope(envelope))
            },
            (Wait::HealBundle(contact_id), Answer::Bundle(Ok(bundle_json))) => self.ask(
                Wait::HealInited(contact_id.clone()),
                Request::InitInitiator { contact_id, bundle_json },
            ),
            (Wait::HealInited(contact_id), Answer::Inited(Ok(()))) => {
                self.follow(make_init_completed(contact_id.clone()));
                self.ask(Wait::HealPing(contact_id), Request::NewId)
            },
            (Wait::HealPing(contact_id), Answer::Id(id)) => {
                self.follow(make_ping_event(contact_id, id));
                None
            },
            (Wait::HealPayload(contact_id), Answer::Payload(Some(wire))) => self.ask(
                Wait::HealRespond { contact_id: contact_id.clone(), wire },
                Request::FetchBundle(contact_id),
            ),
            (Wait::HealRespond { contact_id, wire }, Answer::Bundle(Ok(bundle_json))) => self.ask(
                Wait::Received { contact_id: contact_id.clone(), heal: true },
                Request::InitReceiving { contact_id, bundle_json, wire },
            ),
            (Wait::HealEnd(contact_id), Answer::Id(id)) => Some(
                Request::SendEnvelope(self.reset_envelope(contact_id.as_str(), zeros16(), id)),
            ),
            _ => None,
        }
    }

    /// Goes on with an answer on the way to a session that a chat or a message needs.
    fn establish_session(&mut self, wait: Wait, answer: Answer) -> (r: Option<Request>)
        requires
            wait is ChatCount || wait is ChatPing || wait is SendCheck || wait is EstablishCheck
                || wait is EstablishBundle || wait is Confirm,
        ensures
            (final(self)@, opt_view(r)) == resumed(old(self)@, wait@, answer@),
    {
        match (wait, answer) {
            (Wait::ChatCount(contact_id), Answer::Count(n)) => {
                self.then_do(
                    Task::Establish { contact_id, purpose: Purpose::Chat { had_inbound: n > 0 } },
                );
                None
            },
            (Wait::ChatPing(contact_id), Answer::Id(id)) => {
                self.then_do(Task::Round { event: make_ping_event(contact_id, id), keep: false });
                None
            },
            (
                Wait::SendCheck { contact_id, message_id, plaintext, content_type },
                Answer::Flag(has_session),
            ) => {
                if has_session {
                    self.then_do(make_send_round(contact_id, message_id, plaintext, content_type));
                } else {
                    self.then_do(
                        Task::Establish {
                            contact_id,
                            purpose: Purpose::Message { message_id, plaintext, content_type },
                        },
                    );
                }
                None
            },
            (Wait::EstablishCheck { contact_id, purpose }, Answer::Flag(has_session)) =>
                if has_session {
                self.session_outcome(contact_id, purpose, Ok(false))
            } else {
                self.ask(
                    Wait::EstablishBundle { contact_id: contact_id.clone(), purpose },
                    Request::FetchBundle(contact_id),
                )
            },
            (Wait::EstablishBundle { contact_id, purpose }, Answer::Bundle(Ok(bundle_json))) => {
                self.then_do(Task::Confirm { contact_id: contact_id.clone(), purpose });
                self.then_do(
                    Task::Round {
                        event: IncomingEvent::KeyBundleFetched { user_id: contact_id, bundle_json },
                        keep: true,
                    },
                );
                None
            },
            (Wait::EstablishBundle { contact_id, purpose }, Answer::Bundle(Err(e))) =>
                self.session_outcome(
                contact_id,
                purpose,
                Err(join("GetPreKeyBundle: ", e.as_str())),
            ),
            (Wait::Confirm { contact_id, purpose }, Answer::Flag(has_session)) =>
                self.session_outcome(
                contact_id,
                purpose,
                if has_session {
                    Ok(true)
                } else {
                    Err("no session after InitSession".to_string())
                },
            ),
            _ => None,
        }
    }

    /// Goes on with the answer to the last request.
    fn resume(&mut self, wait: Wait, answer: Answer) -> (r: Option<Request>)
        ensures
            (final(self)@, opt_view(r)) == resumed(old(self)@, wait@, answer@),
    {
        match wait {
            Wait::InitCount { .. } | Wait::InitPeek { .. } | Wait::Inited(_)
            | Wait::Received { .. } | Wait::Popped { .. } | Wait::Named { .. }
            | Wait::Established(_) => return self.resume_session(wait, answer),
            Wait::HealReset(_) | Wait::HealBundle(_) | Wait::HealInited(_) | Wait::HealPing(_)
            | Wait::HealPayload(_) | Wait::HealRespond { .. } | Wait::HealEnd(_) =>
                return self.resume_heal(wait, answer),
            Wait::ChatCount(_) | Wait::ChatPing(_) | Wait::SendCheck { .. }
            | Wait::EstablishCheck { .. } | Wait::EstablishBundle { .. } | Wait::Confirm { .. } =>
                return self.establish_session(wait, answer),
            _ => {},
        }
        match (wait, answer) {
            (Wait::Actions, Answer::Actions(actions)) => {
                self.with_actions(actions);
                None
            },
            (Wait::SurfaceAt { contact_id, message_id, text }, Answer::Millis(ms)) => self.surface(
                contact_id,
                message_id,
                text,
                ms,
            ),
            (Wait::Stored(message_id), Answer::Flag(ok)) => self.stored(message_id, ok),
            (Wait::Cursor(c), Answer::Flag(ok)) => {
                self.cursor.advance(c, ok);
                None
            },
            (Wait::Loaded(key), Answer::Payload(data)) => {
                self.follow(IncomingEvent::SessionLoaded { key, data });
                None
            },
            (Wait::AckChecked(message_id), Answer::Flag(is_processed)) => {
                self.follow(IncomingEvent::AckDbResult { message_id, is_processed });
                None
            },
            (Wait::Heartbeat(contact_id), Answer::Id(message_id)) => {
                let mut plaintext: Vec<u8> = Vec::new();
                plaintext.extend_from_slice(&HEARTBEAT_PLAINTEXT);
                assert(plaintext@ =~= HEARTBEAT_PLAINTEXT@);
                Some(
                    Request::Enqueue(
                        IncomingEvent::OutgoingMessage {
                            contact_id,
                            message_id,
                            plaintext,
                            content_type: 0,
                        },
                    ),
                )
            },
            (Wait::NotifyNew { chat_id, preview }, Answer::Millis(ms)) => Some(
                Request::Notify(
                    BridgeEvent::NewMessage {
                        peer_id: chat_id,
                        message_id: String::new(),
                        text: preview,
                        timestamp_ms: to_signed_ms(ms),
                    },
                ),
            ),
            (Wait::Archived(contact_id), Answer::Flag(archived)) => {
                self.established.remove(contact_id.as_str());
                if archived {
                    Some(Request::SecureDelete(join("session_", contact_id.as_str())))
                } else {
                    None
                }
            },
            (Wait::Exported, Answer::Payload(Some(data))) => Some(
                Request::SecureSaveOrDelete { key: STATE_KEY.to_string(), data },
            ),
            _ => None,
        }
    }

    /// One step: takes the answer to the last request, or does the next thing on the agenda.
    /// Returns the next request, if the step made one.
    pub fn step(&mut self, answer: Answer) -> (r: Option<Request>)
        ensures
            (final(self)@, opt_view(r)) == stepped(old(self)@, answer@),
    {
        let mut wait = Wait::Nothing;
        core::mem::swap(&mut wait, &mut self.wait);
        if let Wait::Nothing = wait {
            match self.agenda.pop() {
                Some(task) => {
                    assert(self@.agenda =~= old(self)@.agenda.drop_last());
                    assert(task@ == old(self)@.agenda.last());
                    self.perform(task)
                },
                None => {
                    assert(self@ =~= old(self)@);
                    None
                },
            }
        } else {
            self.resume(wait, answer)
        }
    }
}

// ── Ids and bundles ───────────────────────────────────────────────────────────

/// `rand::rngs::OsRng` fills sixteen bytes; nothing is said of what comes out.
#[verifier::external_body]
fn random_bytes() -> (r: [u8; 16]) {
    let mut b = [0u8; 16];
    rand::RngCore::fill_bytes(&mut rand::rngs::OsRng, &mut b);
    b
}

/// The bytes with the version and variant bits of a random UUID set.
pub open spec fn as_random_uuid(b: Seq<u8>) -> Seq<u8> {
    b.update(6, (b[6] % 16 + 64) as u8).update(8, (b[8] % 64 + 128) as u8)
}

/// The text of the random UUID that some bytes make.
pub fn uuid_from_random(random: [u8; 16]) -> (r: String)
    ensures
        r@ == crate::encoding::uuid_text(as_random_uuid(random@)),
{
    let mut b = random;
    let six: u8 = b[6];
    let eight: u8 = b[8];
    assert((six & 0x0f) | 0x40 == six % 16 + 64) by (bit_vector);
    assert((eight & 0x3f) | 0x80 == eight % 64 + 128) by (bit_vector);
    b[6] = (six & 0x0f) | 0x40;
    b[8] = (eight & 0x3f) | 0x80;
    assert(b@ =~= as_random_uuid(random@));
    crate::encoding::uuid_to_string(b)
}

/// The text of a fresh random UUID.
pub fn uuid_v4() -> (r: String)
    ensures
        exists|b: Seq<u8>|
            b.len() == 16 && r@ == crate::encoding::uuid_text(#[trigger] as_random_uuid(b)),
{
    uuid_from_random(random_bytes())
}

/// What becomes of a bundle that was fetched in the background: an event for the core, or a
/// notice that it could not be had.
pub fn bundle_fetched(user_id: String, result: Result<String, String>) -> (r: Request)
    ensures
        r@ == (match result {
            Ok(bundle_json) => RequestView::Enqueue(
                IncomingEvent::KeyBundleFetched { user_id: user_id@, bundle_json: bundle_json@ },
            ),
            Err(e) => RequestView::Notify(error_notice("[PREKEY_BUNDLE] "@, e@)),
        }),
{
    match result {
        Ok(bundle_json) => Request::Enqueue(
            IncomingEvent::KeyBundleFetched { user_id, bundle_json },
        ),
        Err(e) => Request::Notify(BridgeEvent::Error(join("[PREKEY_BUNDLE] ", e.as_str()))),
    }
}

// ── Laws ──────────────────────────────────────────────────────────────────────

/// The watermark moves only when the store has said that it kept the cursor, and then to that
/// cursor.
pub proof fn law_watermark_needs_the_store(s: ActorView, answer: AnswerView)
    ensures
        ({
            let t = stepped(s, answer).0;
            t.cursor.committed != s.cursor.committed ==> {
                &&& answer == AnswerView::Flag(true)
                &&& s.wait matches Wait::Cursor(c) && t.cursor.committed == Some(c)
            }
        }),
{
}

/// A cursor is offered to the store only after the message at it was kept, or when that message
/// is a control message, or was dropped for good as a stale replay.
pub proof fn law_cursor_follows_the_message(s: ActorView, answer: AnswerView, c: Seq<char>)
    requires
        stepped(s, answer).0.wait == WaitView::Cursor(c),
        s.wait != WaitView::Cursor(c),
    ensures
        stepped(s, answer).1 == Some(RequestView::SaveCursor(c)),
        (answer == AnswerView::Flag(true) && (s.wait matches Wait::Stored(id) && cursor_of(
            s.cursor,
            id,
        ) == Some(c))) || (s.wait is Nothing && s.agenda.len() > 0 && (s.agenda.last() matches
            Task::Stream { context, .. } && stale_replay(context, s.established))) || (
        s.wait is Nothing && s.agenda.len() > 0 && (s.agenda.last() matches Task::Dispatch(
            Action::MessageDecrypted { message_id, plaintext, .. },
        ) && silent_frame(plaintext) && cursor_of(s.cursor, message_id) == Some(c))),
{
}

/// A stale replay never reaches the core: it is done with its cursor, and changes no session.
pub proof fn law_stale_replays_never_reach_the_core(
    s: ActorView,
    answer: AnswerView,
    event: EventView,
    context: StreamMessageContext<Seq<char>>,
)
    requires
        s.wait is Nothing,
        s.agenda.len() > 0,
        s.agenda.last() == (TaskView::Stream { event, context }),
        stale_replay(context, s.established),
    ensures
        ({
            let (t, r) = stepped(s, answer);
            &&& t.agenda == s.agenda.drop_last()
            &&& t.established == s.established
            &&& t.follow_ups == s.follow_ups
            &&& r is None || r->0 is SaveCursor
        }),
{
}

/// A control message never becomes a bubble: nothing of it is stored or shown, and nothing is
/// left to do about it but to move the watermark past it. The first message of a session that
/// was set up as responder is no exception.
pub proof fn law_control_messages_are_never_shown(
    s: ActorView,
    contact_id: Seq<char>,
    message_id: Seq<char>,
    plaintext: Seq<u8>,
    heal: bool,
    i: int,
)
    requires
        silent_frame(plaintext),
    ensures
        ({
            let (t, r) = dispatched(
                s,
                Action::MessageDecrypted { contact_id, message_id, plaintext },
            );
            &&& t.agenda == s.agenda
            &&& t.follow_ups == s.follow_ups
            &&& match cursor_of(s.cursor, message_id) {
                Some(c) => r == Some(RequestView::SaveCursor(c)) && t.wait == WaitView::Cursor(c),
                None => r is None && t.wait == s.wait,
            }
        }),
        s.agenda.len() <= i < responder_up(s, contact_id, message_id, plaintext, heal).agenda.len()
            ==> responder_up(s, contact_id, message_id, plaintext, heal).agenda[i] !is Surface,
{
}

/// A session that was set up in a round is not healed in that round.
pub proof fn law_fresh_sessions_are_not_healed(
    s: ActorView,
    contact_id: Seq<char>,
    role: Seq<char>,
)
    requires
        s.inited.contains(contact_id),
    ensures
        dispatched(s, Action::SessionHealNeeded { contact_id, role }) == quiet(s),
{
}

/// The actions of a round are carried out in the order in which the core gave them, before
/// anything else on the agenda.
pub proof fn law_actions_run_in_order(s: ActorView, actions: Seq<ActionView>, i: int)
    requires
        0 <= i < actions.len(),
    ensures
        ({
            let agenda = with_actions(s, actions).agenda;
            &&& agenda.len() == s.agenda.len() + actions.len()
            &&& agenda[agenda.len() - 1 - i] == TaskView::Dispatch(actions[i])
            &&& agenda.take(s.agenda.len() as int) == s.agenda
        }),
{
    let agenda = with_actions(s, actions).agenda;
    assert(agenda.take(s.agenda.len() as int) =~= s.agenda);
}

/// Follow-ups go to the core in the order in which they were left, when the actions are done;
/// what they leave themselves is dropped.
pub proof fn law_follow_ups_run_in_order(s: ActorView, i: int, e: EventView)
    requires
        0 <= i < s.follow_ups.len(),
    ensures
        ({
            let t = end_round(s, true);
            &&& t.agenda.len() == s.agenda.len() + s.follow_ups.len()
            &&& t.agenda[t.agenda.len() - 1 - i] == TaskView::Handle(s.follow_ups[i])
            &&& t.follow_ups.len() == 0
            &&& follow(t, e) == t
            &&& t.inited == s.inited
        }),
{
}

/// A received text is kept before it is shown: the notice is the next thing to do when the store
/// has answered, and the watermark is dealt with in between.
pub proof fn law_texts_are_kept_before_shown(
    s: ActorView,
    contact_id: Seq<char>,
    message_id: Seq<char>,
    text: Seq<char>,
    ms: u64,
)
    requires
        s.wait == (WaitView::SurfaceAt { contact_id, message_id, text }),
    ensures
        ({
            let (t, r) = stepped(s, Answer::Millis(ms));
            let shown = BridgeEvent::NewMessage {
                peer_id: contact_id,
                message_id,
                text,
                timestamp_ms: signed_ms(ms),
            };
            &&& r matches Some(Request::StoreInbound(m)) && m.id == message_id && m.text == text
                && m.peer_id == contact_id
            &&& t.wait == WaitView::Stored(message_id)
            &&& t.agenda == s.agenda.push(TaskView::Notify(shown))
        }),
{
}

/// Without a session nothing is sent: the message waits for one, and is given up with a notice
/// when none can be had.
pub proof fn law_no_message_without_a_session(
    s: ActorView,
    contact_id: Seq<char>,
    message_id: Seq<char>,
    plaintext: Seq<u8>,
    content_type: u8,
    why: Seq<char>,
)
    ensures
        ({
            let purpose = Purpose::Message { message_id, plaintext, content_type };
            &&& resumed(
                s,
                Wait::SendCheck { contact_id, message_id, plaintext, content_type },
                Answer::Flag(false),
            ) == quiet(then_do(s, Task::Establish { contact_id, purpose }))
            &&& session_outcome(s, contact_id, purpose, Err(why)) == tell(
                s,
                Request::Notify(error_notice("[SESSION_INIT_FAILED] "@, why)),
            )
        }),
{
}

/// The peer reads the chat text that was sent. The exception is a text that looks like a frame
/// itself.
pub proof fn law_sent_text_is_shown(text: Seq<char>, message_id: Seq<char>)
    requires
        !framed(vstd::utf8::encode_utf8(text)),
        crate::proto::message_content_bytes(Some(text)).len() < 0x1_0000_0000,
    ensures
        shown_text(outgoing_plaintext(vstd::utf8::encode_utf8(text), message_id)) == text,
{
    vstd::utf8::encode_utf8_valid_utf8(text);
    vstd::utf8::encode_utf8_decode_utf8(text);
    crate::knst::law_text_round_trip(text, message_id);
}

/// Nothing is wrapped twice: what goes out for a message goes out unchanged when it is sent as a
/// message itself, with the same contact, id and content type.
pub proof fn law_no_double_wrap(
    s: ActorView,
    contact_id: Seq<char>,
    message_id: Seq<char>,
    plaintext: Seq<u8>,
    content_type: u8,
)
    ensures
        ({
            let wrapped = outgoing_plaintext(plaintext, message_id);
            &&& outgoing_plaintext(wrapped, message_id) == wrapped
            &&& send_round(contact_id, message_id, wrapped, content_type) == send_round(
                contact_id,
                message_id,
                plaintext,
                content_type,
            )
            &&& resumed(
                s,
                Wait::SendCheck { contact_id, message_id, plaintext: wrapped, content_type },
                Answer::Flag(true),
            ) == resumed(
                s,
                Wait::SendCheck { contact_id, message_id, plaintext, content_type },
                Answer::Flag(true),
            )
        }),
{
    lemma_wrapped_once(plaintext, message_id);
}

/// Offering the cursor of a message to the store, and hearing whether it was kept, is to commit
/// the message.
pub proof fn law_offering_commits(s: ActorView, message_id: Seq<char>, stored: bool)
    ensures
        ({
            let (t, r) = cursor_offered(s, message_id);
            match cursor_of(s.cursor, message_id) {
                Some(c) => {
                    &&& r == Some(RequestView::SaveCursor(c))
                    &&& t.wait == WaitView::Cursor(c)
                    &&& resumed(t, t.wait, Answer::Flag(stored)).0.cursor == settled(
                        s.cursor,
                        message_id,
                        stored,
                    )
                },
                None => r is None && t.cursor == settled(s.cursor, message_id, stored),
            }
        }),
{
}

} // verus!
