//! The messages of a chat, as shown.

use crate::clock::now_unix;
use crate::storage::StoredMessage;
use crate::text::{decimal, from_utf8_lossy, format_u64, join, same, utf8_lossy};
use vstd::prelude::*;

verus! {

/// This many messages are shown when a chat is opened.
pub const HISTORY_LIMIT: usize = 50;

#[derive(Debug, Clone, Copy, PartialEq, Eq, Structural)]
pub enum MessageKind {
    Sent,
    Received,
}

/// A message as shown.
#[derive(Debug, Clone, PartialEq)]
pub struct ChatMessage<T = String> {
    pub id: T,
    pub kind: MessageKind,
    pub text: T,
    /// Hours and minutes.
    pub time: T,
}

pub type ChatMessageView = ChatMessage<Seq<char>>;

impl View for ChatMessage<String> {
    type V = ChatMessageView;

    open spec fn view(&self) -> ChatMessageView {
        ChatMessage { id: self.id@, kind: self.kind, text: self.text@, time: self.time@ }
    }
}

// ── Times ─────────────────────────────────────────────────────────────────────

/// A number in two places: with a zero in front when it has one digit and no sign.
pub open spec fn two_places(negative: bool, n: nat) -> Seq<char> {
    if negative && n > 0 {
        "-"@ + decimal(n)
    } else if n < 10 {
        "0"@ + decimal(n)
    } else {
        decimal(n)
    }
}

fn pad(negative: bool, n: u64) -> (r: String)
    ensures
        r@ == two_places(negative, n as nat),
{
    if negative && n > 0 {
        join("-", format_u64(n).as_str())
    } else if n < 10 {
        join("0", format_u64(n).as_str())
    } else {
        format_u64(n)
    }
}

/// The hours and minutes of a day, with a colon in between.
pub open spec fn clock_text(negative: bool, hours: nat, minutes: nat) -> Seq<char> {
    two_places(negative, hours) + ":"@ + two_places(negative, minutes)
}

fn clock(negative: bool, hours: u64, minutes: u64) -> (r: String)
    ensures
        r@ == clock_text(negative, hours as nat, minutes as nat),
{
    join(
        join(pad(negative, hours).as_str(), ":").as_str(),
        pad(negative, minutes).as_str(),
    )
}

/// The time of day (UTC) at a Unix time.
pub open spec fn time_of_day(secs: u64) -> Seq<char> {
    clock_text(false, (secs % 86400) as nat / 3600, (secs % 3600) as nat / 60)
}

/// The time of day (UTC) at a Unix time.
pub fn hhmm(secs: u64) -> (r: String)
    ensures
        r@ == time_of_day(secs),
{
    clock(false, (secs % 86400) / 3600, (secs % 3600) / 60)
}

/// The time of day now; midnight when the clock stands before the epoch.
pub fn current_time_hhmm() -> (r: String)
    ensures
        exists|secs: u64| r@ == #[trigger] time_of_day(secs),
{
    let now: i64 = now_unix();
    hhmm(
        if now < 0 {
            0
        } else {
            now as u64
        },
    )
}

/// The time of day at a stored time. Before the epoch, hours and minutes are counted backwards
/// from it, each with a sign.
pub open spec fn stored_time(timestamp_ms: i64) -> Seq<char> {
    let ms = if timestamp_ms < 0 {
        -timestamp_ms
    } else {
        timestamp_ms as int
    };
    clock_text(
        timestamp_ms < 0,
        (ms / 1000 / 3600 % 24) as nat,
        (ms / 1000 / 60 % 60) as nat,
    )
}

/// The time of day at a stored time.
pub fn hhmm_from_ms(timestamp_ms: i64) -> (r: String)
    ensures
        r@ == stored_time(timestamp_ms),
{
    let ms: u64 = if timestamp_ms < 0 {
        (-(timestamp_ms as i128)) as u64
    } else {
        timestamp_ms as u64
    };
    let secs: u64 = ms / 1000;
    clock(timestamp_ms < 0, secs / 3600 % 24, secs / 60 % 60)
}

/// From the epoch on, a stored time shows what the clock showed then.
pub proof fn law_stored_time_is_the_clock(timestamp_ms: i64)
    requires
        timestamp_ms >= 0,
    ensures
        stored_time(timestamp_ms) == time_of_day((timestamp_ms / 1000) as u64),
{
    let s = timestamp_ms as int / 1000;
    assert(s / 3600 % 24 == s % 86400 / 3600);
    assert(s / 60 % 60 == s % 3600 / 60);
}

// ── Messages ──────────────────────────────────────────────────────────────────

/// A message that was sent or came in just now.
pub fn message_at(id: String, kind: MessageKind, text: String, secs: u64) -> (r: ChatMessage)
    ensures
        r@ == (ChatMessage {
            id: id@,
            kind,
            text: text@,
            time: time_of_day(secs),
        }),
{
    ChatMessage { id, kind, text, time: hhmm(secs) }
}

/// A message that is sent or comes in now.
pub fn message_now(id: String, kind: MessageKind, text: String) -> (r: ChatMessage)
    ensures
        exists|secs: u64|
            r@ == (ChatMessage {
                id: id@,
                kind,
                text: text@,
                time: #[trigger] time_of_day(secs),
            }),
{
    ChatMessage { id, kind, text, time: current_time_hhmm() }
}

/// A stored message as shown: what was not sent came in.
pub fn message_from_store(stored: StoredMessage) -> (r: ChatMessage)
    ensures
        r@ == (ChatMessage {
            id: stored.id@,
            kind: if stored.direction@ == "sent"@ {
                MessageKind::Sent
            } else {
                MessageKind::Received
            },
            text: stored.text@,
            time: stored_time(stored.timestamp_ms),
        }),
{
    let kind = if same(stored.direction.as_str(), "sent") {
        MessageKind::Sent
    } else {
        MessageKind::Received
    };
    let time = hhmm_from_ms(stored.timestamp_ms);
    ChatMessage { id: stored.id, kind, text: stored.text, time }
}

/// A decrypted message, when the chat that is open is its conversation or its sender.
pub fn decrypted_message(
    message_id: String,
    plaintext: &[u8],
    sender_id: &str,
    conversation_id: &str,
    open_chat: &str,
    secs: u64,
) -> (r: Option<ChatMessage>)
    ensures
        match r {
            Some(m) => {
                &&& open_chat@ == conversation_id@ || open_chat@ == sender_id@
                &&& m@ == (ChatMessage {
                    id: message_id@,
                    kind: MessageKind::Received,
                    text: utf8_lossy(plaintext@),
                    time: time_of_day(secs),
                })
            },
            None => open_chat@ != conversation_id@ && open_chat@ != sender_id@,
        },
{
    if same(open_chat, conversation_id) || same(open_chat, sender_id) {
        Some(message_at(message_id, MessageKind::Received, from_utf8_lossy(plaintext), secs))
    } else {
        None
    }
}

} // verus!
