//! Envelopes: what travels between two users, sealed or not.
//!
//! The types are generic in what stands for text and for bytes: `String` and `Vec<u8>` in the
//! program, sequences in the specification.

use crate::text::{before, bytes_before, join};
use vstd::prelude::*;
use vstd::utf8::encode_utf8;

verus! {

/// The kinds of content that an envelope announces.
#[derive(Debug, Clone, Copy, PartialEq, Eq, Structural)]
pub enum ContentType {
    E2eeSignal,
    CallSignal,
    KeyExchange,
    SessionReset,
    SessionResetInit,
}

pub open spec fn content_number(t: ContentType) -> u8 {
    match t {
        ContentType::E2eeSignal => 1,
        ContentType::CallSignal => 12,
        ContentType::KeyExchange => 20,
        ContentType::SessionReset => 21,
        ContentType::SessionResetInit => 24,
    }
}

impl ContentType {
    /// The number on the wire.
    pub fn number(self) -> (r: u8)
        ensures
            r == content_number(self),
    {
        match self {
            ContentType::E2eeSignal => 1,
            ContentType::CallSignal => 12,
            ContentType::KeyExchange => 20,
            ContentType::SessionReset => 21,
            ContentType::SessionResetInit => 24,
        }
    }
}

/// The kind with a number; an encrypted message when the number is not known.
pub open spec fn content_type_of(v: u8) -> ContentType {
    if v == 12 {
        ContentType::CallSignal
    } else if v == 20 {
        ContentType::KeyExchange
    } else if v == 21 {
        ContentType::SessionReset
    } else if v == 24 {
        ContentType::SessionResetInit
    } else {
        ContentType::E2eeSignal
    }
}

pub fn content_type_from_u8(v: u8) -> (r: ContentType)
    ensures
        r == content_type_of(v),
{
    match v {
        12 => ContentType::CallSignal,
        20 => ContentType::KeyExchange,
        21 => ContentType::SessionReset,
        24 => ContentType::SessionResetInit,
        _ => ContentType::E2eeSignal,
    }
}

/// The number of a kind is read back as that kind.
pub proof fn law_content_number_round_trip(t: ContentType)
    ensures
        content_type_of(content_number(t)) == t,
{
}

/// The id of a message.
#[derive(Debug, Clone, PartialEq, Eq)]
pub enum MessageIdType<T = String> {
    MessageId(T),
    GroupMessageId(T),
}

#[derive(Debug, Clone, PartialEq, Eq)]
pub struct Envelope<T = String, B = Vec<u8>> {
    pub sender: Option<T>,
    pub sender_device: Option<T>,
    pub recipient: Option<T>,
    pub content_type: i32,
    pub message_id_type: Option<MessageIdType<T>>,
    pub encrypted_payload: B,
    pub conversation_id: T,
    /// The sealed part of an envelope that hides its sender.
    pub sealed_sender: Option<B>,
}

pub type EnvelopeView = Envelope<Seq<char>, Seq<u8>>;

impl View for MessageIdType<String> {
    type V = MessageIdType<Seq<char>>;

    open spec fn view(&self) -> MessageIdType<Seq<char>> {
        match self {
            MessageIdType::MessageId(id) => MessageIdType::MessageId(id@),
            MessageIdType::GroupMessageId(id) => MessageIdType::GroupMessageId(id@),
        }
    }
}

/// The view of what an option holds.
pub open spec fn opt_view<T: View>(o: Option<T>) -> Option<T::V> {
    match o {
        Some(v) => Some(v@),
        None => None,
    }
}

impl View for Envelope<String, Vec<u8>> {
    type V = EnvelopeView;

    open spec fn view(&self) -> EnvelopeView {
        Envelope {
            sender: opt_view(self.sender),
            sender_device: opt_view(self.sender_device),
            recipient: opt_view(self.recipient),
            content_type: self.content_type,
            message_id_type: opt_view(self.message_id_type),
            encrypted_payload: self.encrypted_payload@,
            conversation_id: self.conversation_id@,
            sealed_sender: opt_view(self.sealed_sender),
        }
    }
}

// ── Building ──────────────────────────────────────────────────────────────────

/// The conversation of two users, the lower id first.
pub open spec fn direct_conversation(a: Seq<char>, b: Seq<char>) -> Seq<char> {
    if bytes_before(encode_utf8(a), encode_utf8(b)) {
        "direct:"@ + a + ":"@ + b
    } else {
        "direct:"@ + b + ":"@ + a
    }
}

/// Both sides name the conversation alike, whichever way a message goes.
pub proof fn law_conversation_is_symmetric(a: Seq<char>, b: Seq<char>)
    ensures
        direct_conversation(a, b) == direct_conversation(b, a),
{
    crate::text::lemma_bytes_before_total(encode_utf8(a), encode_utf8(b));
    if encode_utf8(a) == encode_utf8(b) {
        vstd::utf8::encode_utf8_decode_utf8(a);
        vstd::utf8::encode_utf8_decode_utf8(b);
    }
}

/// An envelope from one device to a user.
pub open spec fn envelope_to(
    from_user: Seq<char>,
    from_device: Seq<char>,
    to_user: Seq<char>,
    payload: Seq<u8>,
    message_id: Seq<char>,
    content_type: ContentType,
) -> EnvelopeView {
    Envelope {
        sender: Some(from_user),
        sender_device: Some(from_device),
        recipient: Some(to_user),
        content_type: content_number(content_type) as i32,
        message_id_type: Some(MessageIdType::MessageId(message_id)),
        encrypted_payload: payload,
        conversation_id: direct_conversation(from_user, to_user),
        sealed_sender: None,
    }
}

fn conversation_of(a: &str, b: &str) -> (r: String)
    ensures
        r@ == direct_conversation(a@, b@),
{
    let (x, y) = if before(a, b) {
        (a, b)
    } else {
        (b, a)
    };
    let mut s = join("direct:", x);
    s.append(":");
    s.append(y);
    s
}

pub fn build_envelope(
    from_user: &str,
    from_device: &str,
    to_user: &str,
    payload: Vec<u8>,
    message_id: String,
    content_type: ContentType,
) -> (r: Envelope)
    ensures
        r@ == envelope_to(
            from_user@,
            from_device@,
            to_user@,
            payload@,
            message_id@,
            content_type,
        ),
{
    Envelope {
        sender: Some(from_user.to_string()),
        sender_device: Some(from_device.to_string()),
        recipient: Some(to_user.to_string()),
        content_type: content_type.number() as i32,
        message_id_type: Some(MessageIdType::MessageId(message_id)),
        encrypted_payload: payload,
        conversation_id: conversation_of(from_user, to_user),
        sealed_sender: None,
    }
}

/// An envelope that only names a conversation, a payload and a message.
pub fn encode_envelope(
    conversation_id: String,
    encrypted_payload: Vec<u8>,
    message_id: String,
) -> (r: Envelope)
    ensures
        r@ == (Envelope {
            sender: None,
            sender_device: None,
            recipient: None,
            content_type: 0,
            message_id_type: Some(MessageIdType::MessageId(message_id@)),
            encrypted_payload: encrypted_payload@,
            conversation_id: conversation_id@,
            sealed_sender: None,
        }),
{
    Envelope {
        sender: None,
        sender_device: None,
        recipient: None,
        content_type: 0,
        message_id_type: Some(MessageIdType::MessageId(message_id)),
        encrypted_payload,
        conversation_id,
        sealed_sender: None,
    }
}

// ── Receiving ─────────────────────────────────────────────────────────────────

/// The id of a direct message; empty for a group message and when there is none.
pub open spec fn direct_id(e: EnvelopeView) -> Seq<char> {
    match e.message_id_type {
        Some(MessageIdType::MessageId(id)) => id,
        _ => Seq::empty(),
    }
}

pub fn envelope_message_id(envelope: &Envelope) -> (r: &str)
    ensures
        r@ == direct_id(envelope@),
{
    proof {
        reveal_strlit("");
        assert(""@ =~= Seq::<char>::empty());
    }
    match &envelope.message_id_type {
        Some(MessageIdType::MessageId(id)) => id.as_str(),
        _ => "",
    }
}

/// The number of a content type as a byte; zero when it is none.
pub open spec fn content_byte(content_type: i32) -> u8 {
    if 0 <= content_type <= 255 {
        content_type as u8
    } else {
        0
    }
}

pub fn content_type_to_u8(content_type: i32) -> (r: u8)
    ensures
        r == content_byte(content_type),
{
    if 0 <= content_type && content_type <= 255 {
        content_type as u8
    } else {
        0
    }
}

/// What was under the seal of an envelope, with the sender that its certificate names.
#[derive(Debug, Clone)]
pub struct OpenedSeal<T = String, B = Vec<u8>> {
    pub sender_user_id: T,
    pub encrypted_payload: B,
    pub content_type: i32,
}

impl View for OpenedSeal<String, Vec<u8>> {
    type V = OpenedSeal<Seq<char>, Seq<u8>>;

    open spec fn view(&self) -> OpenedSeal<Seq<char>, Seq<u8>> {
        OpenedSeal {
            sender_user_id: self.sender_user_id@,
            encrypted_payload: self.encrypted_payload@,
            content_type: self.content_type,
        }
    }
}

/// A received envelope with its true sender and content type.
#[derive(Debug, Clone)]
pub struct InboundEnvelope<T = String, B = Vec<u8>> {
    pub message_id: T,
    pub from: T,
    pub wire_payload: B,
    pub content_type: u8,
    pub is_sealed: bool,
}

impl View for InboundEnvelope<String, Vec<u8>> {
    type V = InboundEnvelope<Seq<char>, Seq<u8>>;

    open spec fn view(&self) -> InboundEnvelope<Seq<char>, Seq<u8>> {
        InboundEnvelope {
            message_id: self.message_id@,
            from: self.from@,
            wire_payload: self.wire_payload@,
            content_type: self.content_type,
            is_sealed: self.is_sealed,
        }
    }
}

/// The true sender, payload and content type of an envelope. Of a sealed one they come from
/// under the seal alone, except that the payload may stand outside; the outer sender and
/// content type are masks.
pub open spec fn resolved(
    e: EnvelopeView,
    opened: Result<OpenedSeal<Seq<char>, Seq<u8>>, Seq<char>>,
) -> Result<InboundEnvelope<Seq<char>, Seq<u8>>, Seq<char>> {
    if e.sealed_sender is None {
        Ok(
            InboundEnvelope {
                message_id: direct_id(e),
                from: match e.sender {
                    Some(s) => s,
                    None => Seq::empty(),
                },
                wire_payload: e.encrypted_payload,
                content_type: content_byte(e.content_type),
                is_sealed: false,
            },
        )
    } else {
        match opened {
            Err(why) => Err(why),
            Ok(inner) => {
                let wire_payload = if e.encrypted_payload.len() == 0 {
                    inner.encrypted_payload
                } else {
                    e.encrypted_payload
                };
                if inner.sender_user_id.len() == 0 {
                    Err("sender certificate has empty sender_user_id"@)
                } else if wire_payload.len() == 0 {
                    Err("sealed inner encrypted_payload is empty"@)
                } else {
                    Ok(
                        InboundEnvelope {
                            message_id: direct_id(e),
                            from: inner.sender_user_id,
                            wire_payload,
                            content_type: content_byte(inner.content_type),
                            is_sealed: true,
                        },
                    )
                }
            },
        }
    }
}

pub open spec fn opened_view(opened: Result<OpenedSeal, String>) -> Result<
    OpenedSeal<Seq<char>, Seq<u8>>,
    Seq<char>,
> {
    match opened {
        Ok(o) => Ok(o@),
        Err(e) => Err(e@),
    }
}

pub open spec fn inbound_view(r: Result<InboundEnvelope, String>) -> Result<
    InboundEnvelope<Seq<char>, Seq<u8>>,
    Seq<char>,
> {
    match r {
        Ok(o) => Ok(o@),
        Err(e) => Err(e@),
    }
}

/// The true sender, payload and content type of an envelope. `opened` is the outcome of opening
/// its seal; it is not looked at when there is no seal.
pub fn resolve_inbound_envelope(envelope: Envelope, opened: Result<OpenedSeal, String>) -> (r:
    Result<InboundEnvelope, String>)
    ensures
        inbound_view(r) == resolved(envelope@, opened_view(opened)),
{
    let message_id = envelope_message_id(&envelope).to_string();
    if envelope.sealed_sender.is_none() {
        let from = match envelope.sender {
            Some(s) => s,
            None => String::new(),
        };
        return Ok(
            InboundEnvelope {
                message_id,
                from,
                wire_payload: envelope.encrypted_payload,
                content_type: content_type_to_u8(envelope.content_type),
                is_sealed: false,
            },
        );
    }
    let inner = match opened {
        Ok(inner) => inner,
        Err(why) => return Err(why),
    };
    if inner.sender_user_id.as_str().is_empty() {
        return Err("sender certificate has empty sender_user_id".to_string());
    }
    let wire_payload = if envelope.encrypted_payload.len() == 0 {
        inner.encrypted_payload
    } else {
        envelope.encrypted_payload
    };
    if wire_payload.len() == 0 {
        return Err("sealed inner encrypted_payload is empty".to_string());
    }
    Ok(
        InboundEnvelope {
            message_id,
            from: inner.sender_user_id,
            wire_payload,
            content_type: content_type_to_u8(inner.content_type),
            is_sealed: true,
        },
    )
}

/// Nothing that an envelope says on the outside about its sender or its content type survives
/// a seal.
pub proof fn law_seal_masks_the_outside(
    a: EnvelopeView,
    b: EnvelopeView,
    opened: Result<OpenedSeal<Seq<char>, Seq<u8>>, Seq<char>>,
)
    requires
        a.sealed_sender is Some,
        b.sealed_sender is Some,
        a.message_id_type == b.message_id_type,
        a.encrypted_payload == b.encrypted_payload,
    ensures
        resolved(a, opened) == resolved(b, opened),
{
}

} // verus!
