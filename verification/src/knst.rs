//! KNST plaintext frame: what a message looks like before it is encrypted.
//!
//! ```text
//! [0..4]   magic "KNST"
//! [4]      version 0x01
//! [5]      content type (inside the ciphertext, so that the server cannot read it)
//! [6..22]  message UUID (16 raw bytes)
//! [22..24] chunk index (big-endian u16)
//! [24..26] total chunks (big-endian u16)
//! [26..30] payload length (big-endian u32)
//! [30..]   payload
//! ```
//!
//! Chat: byte 5 is `CONTENT_E2EE_SIGNAL`, the payload a `MessageContent`. Session ping: byte 5
//! is `CONTENT_SESSION_PING`, the payload a `SessionControl`.

use crate::encoding::{
    be_bytes, be_value, lemma_base256, lemma_be_bytes_len, lemma_be_round_trip, push_be_u32,
    read_be_u32, uuid_parse, uuid_parsed,
};
use crate::proto::{
    law_message_content_round_trip, message_content_bytes, message_content_read,
    session_control_bytes, MessageContent, SessionControl, SessionControlView, SESSION_OP_PING,
};
use crate::text::{from_utf8_lossy, utf8_lossy};
use vstd::prelude::*;
use vstd::slice::slice_subrange;

verus! {

/// "KNST".
pub const MAGIC: [u8; 4] = [0x4b, 0x4e, 0x53, 0x54];

pub const VERSION: u8 = 1;

pub const HEADER_SIZE: usize = 30;

pub const CONTENT_E2EE_SIGNAL: u8 = 1;

pub const CONTENT_CALL_SIGNAL: u8 = 12;

pub const CONTENT_HEARTBEAT: u8 = 13;

pub const CONTENT_DELIVERY_RECEIPT: u8 = 14;

pub const CONTENT_SESSION_PING: u8 = 25;

pub const CONTENT_SESSION_READY: u8 = 26;

// ── Model ─────────────────────────────────────────────────────────────────────

/// The bytes of a message id, all zero when it is no UUID.
pub open spec fn id_bytes(id: Seq<char>) -> Seq<u8> {
    match uuid_parsed(id) {
        Some(b) => b,
        None => Seq::new(16, |i: int| 0u8),
    }
}

/// A frame with the whole payload in one chunk. The length field holds the low 32 bits of the
/// length.
pub open spec fn frame(payload: Seq<u8>, content_type: u8, id: Seq<char>) -> Seq<u8> {
    MAGIC@ + seq![VERSION, content_type] + id_bytes(id) + seq![0u8, 0, 0, 1] + be_bytes(
        payload.len() % 0x1_0000_0000,
        4,
    ) + payload
}

/// `d` begins with a version 1 header.
pub open spec fn framed(d: Seq<u8>) -> bool {
    d.len() >= HEADER_SIZE && MAGIC@.is_prefix_of(d) && d[4] == VERSION
}

/// Types that never show in a chat.
pub open spec fn silent(content_type: u8) -> bool {
    ||| content_type == CONTENT_CALL_SIGNAL
    ||| content_type == CONTENT_HEARTBEAT
    ||| content_type == CONTENT_DELIVERY_RECEIPT
    ||| content_type == CONTENT_SESSION_PING
    ||| content_type == CONTENT_SESSION_READY
}

/// The payload of a frame: as many bytes as the header says, or what there is.
pub open spec fn payload(d: Seq<u8>) -> Seq<u8> {
    let raw = d.skip(HEADER_SIZE as int);
    let n = be_value(d.subrange(26, 30));
    raw.take(
        if n < raw.len() {
            n as int
        } else {
            raw.len() as int
        },
    )
}

/// The text to show for a plaintext: nothing for a silent type, the text of a chat message, and
/// else the bytes as UTF-8.
pub open spec fn shown_text(d: Seq<u8>) -> Seq<char> {
    if !framed(d) {
        utf8_lossy(d)
    } else if silent(d[5]) {
        Seq::empty()
    } else {
        match message_content_read(payload(d), None) {
            Some(Some(text)) => text,
            _ => utf8_lossy(payload(d)),
        }
    }
}

pub open spec fn text_frame(text: Seq<char>, id: Seq<char>) -> Seq<u8> {
    frame(message_content_bytes(Some(text)), CONTENT_E2EE_SIGNAL, id)
}

pub open spec fn ping_frame(id: Seq<char>) -> Seq<u8> {
    frame(
        session_control_bytes(SessionControlView { op: SESSION_OP_PING, nonce: id, reason: 0 }),
        CONTENT_SESSION_PING,
        id,
    )
}

// ── Frames ────────────────────────────────────────────────────────────────────

/// Wraps chat text as a frame of one chunk.
pub fn encode_text(text: &str, message_id: &str) -> (r: Vec<u8>)
    ensures
        r@ == text_frame(text@, message_id@),
{
    let content = MessageContent { text: Some(text.to_owned()) };
    frame_whole(content.encode_to_vec().as_slice(), CONTENT_E2EE_SIGNAL, message_id)
}

/// Wraps a ping, so that the peer sets up a session as responder. The type stands in byte 5;
/// the envelope around the frame stays a plain encrypted message.
pub fn encode_session_ping(message_id: &str) -> (r: Vec<u8>)
    ensures
        r@ == ping_frame(message_id@),
{
    let control = SessionControl { op: SESSION_OP_PING, nonce: message_id.to_owned(), reason: 0 };
    assert(control@ =~= (SessionControlView {
        op: SESSION_OP_PING,
        nonce: message_id@,
        reason: 0,
    }));
    frame_whole(control.encode_to_vec().as_slice(), CONTENT_SESSION_PING, message_id)
}

/// A frame that is never split.
pub fn frame_whole(payload: &[u8], content_type: u8, message_id: &str) -> (r: Vec<u8>)
    ensures
        r@ == frame(payload@, content_type, message_id@),
{
    let uuid: [u8; 16] = match uuid_parse(message_id) {
        Ok(b) => b,
        Err(_) => [0; 16],
    };
    assert(uuid@ =~= id_bytes(message_id@));
    let mut out: Vec<u8> = Vec::new();
    out.extend_from_slice(&MAGIC);
    out.push(VERSION);
    out.push(content_type);
    out.extend_from_slice(&uuid);
    out.push(0);
    out.push(0);
    out.push(0);
    out.push(1);
    push_be_u32(&mut out, (payload.len() as u64 % 0x1_0000_0000) as u32);
    out.extend_from_slice(payload);
    assert(out@ =~= frame(payload@, content_type, message_id@));
    out
}

/// Whether `data` already is a frame.
pub fn is_frame(data: &[u8]) -> (r: bool)
    ensures
        r == framed(data@),
{
    let r = data.len() >= HEADER_SIZE && data[0] == MAGIC[0] && data[1] == MAGIC[1] && data[2]
        == MAGIC[2] && data[3] == MAGIC[3] && data[4] == VERSION;
    proof {
        if r {
            assert(MAGIC@ =~= data@.subrange(0, 4));
        } else if framed(data@) {
            assert(forall|i: int| 0 <= i < 4 ==> MAGIC@[i] == data@.subrange(0, 4)[i]);
        }
    }
    r
}

/// Whether a plaintext is a control message: a frame of a type that shows nothing.
pub open spec fn silent_frame(d: Seq<u8>) -> bool {
    framed(d) && silent(d[5])
}

/// Whether a plaintext is a control message.
pub fn is_silent_frame(data: &[u8]) -> (r: bool)
    ensures
        r == silent_frame(data@),
{
    is_frame(data) && is_silent_type(data[5])
}

/// The chat text to show for a decrypted plaintext.
pub fn decode_text(plaintext: &[u8]) -> (r: String)
    ensures
        r@ == shown_text(plaintext@),
{
    if !is_frame(plaintext) {
        return from_utf8_lossy(plaintext);
    }
    if is_silent_type(plaintext[5]) {
        return String::new();
    }
    let n: u32 = read_be_u32(plaintext, 26);
    let raw = slice_subrange(plaintext, HEADER_SIZE, plaintext.len());
    assert(raw@ =~= plaintext@.skip(30));
    let body = if (n as u64) < raw.len() as u64 {
        slice_subrange(raw, 0, n as usize)
    } else {
        raw
    };
    assert(body@ =~= payload(plaintext@));
    if let Some(content) = MessageContent::decode(body) {
        if let Some(text) = content.text {
            return text;
        }
    }
    from_utf8_lossy(body)
}

fn is_silent_type(content_type: u8) -> (r: bool)
    ensures
        r == silent(content_type),
{
    content_type == CONTENT_CALL_SIGNAL || content_type == CONTENT_HEARTBEAT || content_type
        == CONTENT_DELIVERY_RECEIPT || content_type == CONTENT_SESSION_PING || content_type
        == CONTENT_SESSION_READY
}

// ── Laws ──────────────────────────────────────────────────────────────────────

proof fn lemma_id_bytes_len(id: Seq<char>)
    ensures
        id_bytes(id).len() == 16,
{
    crate::encoding::lemma_uuid_parsed_len(id);
}

/// What is framed is a frame, however long it is.
pub proof fn lemma_framed(body: Seq<u8>, content_type: u8, id: Seq<char>)
    ensures
        framed(frame(body, content_type, id)),
        frame(body, content_type, id)[5] == content_type,
{
    let d = frame(body, content_type, id);
    lemma_id_bytes_len(id);
    lemma_be_bytes_len(body.len() % 0x1_0000_0000, 4);
    assert(MAGIC@ =~= d.subrange(0, 4));
}

/// A frame has a header of thirty bytes that carries the content type and the id, and its
/// length field holds the length of the payload that follows.
pub proof fn law_frame_header(body: Seq<u8>, content_type: u8, id: Seq<char>)
    requires
        body.len() < 0x1_0000_0000,
    ensures
        framed(frame(body, content_type, id)),
        frame(body, content_type, id).len() == HEADER_SIZE + body.len(),
        frame(body, content_type, id)[5] == content_type,
        frame(body, content_type, id).subrange(6, 22) == id_bytes(id),
        be_value(frame(body, content_type, id).subrange(26, 30)) == body.len(),
        payload(frame(body, content_type, id)) == body,
{
    let d = frame(body, content_type, id);
    lemma_id_bytes_len(id);
    lemma_be_bytes_len(body.len(), 4);
    lemma_base256();
    lemma_be_round_trip(body.len(), 4);
    assert(MAGIC@ =~= d.subrange(0, 4));
    assert(d.subrange(6, 22) =~= id_bytes(id));
    assert(d.subrange(26, 30) =~= be_bytes(body.len(), 4));
    assert(d.skip(30) =~= body);
    assert(body.take(body.len() as int) =~= body);
}

/// The text that was framed is the text that is shown.
pub proof fn law_text_round_trip(text: Seq<char>, id: Seq<char>)
    requires
        message_content_bytes(Some(text)).len() < 0x1_0000_0000,
    ensures
        framed(text_frame(text, id)),
        shown_text(text_frame(text, id)) == text,
{
    law_frame_header(message_content_bytes(Some(text)), CONTENT_E2EE_SIGNAL, id);
    law_message_content_round_trip(Some(text));
}

/// A frame of a silent type, a ping among them, shows no text.
pub proof fn law_silent_frames_show_nothing(body: Seq<u8>, content_type: u8, id: Seq<char>)
    requires
        silent(content_type),
    ensures
        silent_frame(frame(body, content_type, id)),
        shown_text(frame(body, content_type, id)) == Seq::<char>::empty(),
        silent_frame(ping_frame(id)),
        shown_text(ping_frame(id)) == Seq::<char>::empty(),
{
    lemma_silent_frame(body, content_type, id);
    lemma_silent_frame(
        session_control_bytes(SessionControlView { op: SESSION_OP_PING, nonce: id, reason: 0 }),
        CONTENT_SESSION_PING,
        id,
    );
}

proof fn lemma_silent_frame(body: Seq<u8>, content_type: u8, id: Seq<char>)
    requires
        silent(content_type),
    ensures
        silent_frame(frame(body, content_type, id)),
        shown_text(frame(body, content_type, id)) == Seq::<char>::empty(),
{
    lemma_framed(body, content_type, id);
}

} // verus!
