//! Protocol Buffers: the wire primitives, and the messages that travel inside a KNST frame.

use crate::text::{from_utf8, opt_text};
use vstd::prelude::*;
use vstd::slice::{slice_subrange, slice_to_vec};
use vstd::utf8::{decode_utf8, encode_utf8, valid_utf8};

verus! {

// ── Varints ───────────────────────────────────────────────────────────────────

/// The base-128 digits of `v`, least significant first, with the high bit set on all but the
/// last.
pub open spec fn varint(v: nat) -> Seq<u8>
    decreases v,
{
    if v < 128 {
        seq![v as u8]
    } else {
        seq![(v % 128 + 128) as u8] + varint(v / 128)
    }
}

/// The number at the front of `b`, after `n` digits of it, and what follows it. A number has
/// at most ten digits, and the tenth is 0 or 1.
pub open spec fn varint_read(b: Seq<u8>, n: nat) -> Option<(nat, Seq<u8>)>
    decreases 10 - n,
{
    if b.len() == 0 || n >= 10 {
        None
    } else if b[0] < 128 {
        if n == 9 && b[0] >= 2 {
            None
        } else {
            Some((b[0] as nat, b.skip(1)))
        }
    } else {
        match varint_read(b.skip(1), n + 1) {
            Some((v, rest)) => Some(((b[0] - 128 + 128 * v) as nat, rest)),
            None => None,
        }
    }
}

/// How far a number may go after `n` digits of it: 2 to the power 64 - 7 n.
pub open spec fn varint_room(n: nat) -> nat
    decreases 9 - n,
{
    if n >= 9 {
        2
    } else {
        128 * varint_room(n + 1)
    }
}

proof fn lemma_varint_read_back(v: nat, rest: Seq<u8>, n: nat)
    requires
        n <= 9,
        v < varint_room(n),
    ensures
        varint_read(varint(v) + rest, n) == Some((v, rest)),
    decreases v,
{
    let b = varint(v) + rest;
    if v < 128 {
        assert(b.skip(1) =~= rest);
    } else {
        lemma_varint_read_back(v / 128, rest, n + 1);
        assert(b.skip(1) =~= varint(v / 128) + rest);
    }
}

/// A 64-bit number is read back from its varint, whatever follows.
pub proof fn lemma_varint_round_trip(v: u64, rest: Seq<u8>)
    ensures
        varint_read(varint(v as nat) + rest, 0) == Some((v as nat, rest)),
{
    reveal_with_fuel(varint_room, 11);
    lemma_varint_read_back(v as nat, rest, 0);
}

/// What is read is shorter than what was there, and fits in 64 bits.
pub proof fn lemma_varint_read_bounds(b: Seq<u8>, n: nat)
    ensures
        varint_read(b, n) matches Some((v, rest)) ==> rest.len() < b.len() && n <= 9 && v
            < varint_room(n),
    decreases 10 - n,
{
    if b.len() > 0 && n < 10 && b[0] >= 128 {
        lemma_varint_read_bounds(b.skip(1), n + 1);
    }
    if n < 9 {
        lemma_varint_room(n);
    }
}

proof fn lemma_varint_room(n: nat)
    requires
        n < 9,
    ensures
        varint_room(n) >= 256,
    decreases 9 - n,
{
    if n < 8 {
        lemma_varint_room(n + 1);
    } else {
        reveal_with_fuel(varint_room, 2);
    }
}

/// `prost::encoding::encode_varint`: appends a number in base 128.
#[verifier::external_body]
pub(crate) fn encode_varint(v: u64, out: &mut Vec<u8>)
    ensures
        final(out)@ == old(out)@ + varint(v as nat),
{
    prost::encoding::encode_varint(v, out)
}

/// `prost::encoding::decode_varint`: the number at the front of `b` and what follows it.
#[verifier::external_body]
pub(crate) fn decode_varint(b: &[u8]) -> (r: Option<(u64, &[u8])>)
    ensures
        r is Some <==> varint_read(b@, 0) is Some,
        r matches Some((v, rest)) ==> varint_read(b@, 0) == Some((v as nat, rest@)),
{
    let mut rest = b;
    match prost::encoding::decode_varint(&mut rest) {
        Ok(v) => Some((v, rest)),
        Err(_) => None,
    }
}

// ── Fields ────────────────────────────────────────────────────────────────────

pub const WIRE_VARINT: u64 = 0;

pub const WIRE_SIXTY_FOUR_BIT: u64 = 1;

pub const WIRE_LENGTH_DELIMITED: u64 = 2;

pub const WIRE_START_GROUP: u64 = 3;

pub const WIRE_THIRTY_TWO_BIT: u64 = 5;

/// The tag and wire type in front of a field, and what follows them. The tag is not zero, and
/// there are six wire types.
pub open spec fn key_read(b: Seq<u8>) -> Option<(u32, u64, Seq<u8>)> {
    match varint_read(b, 0) {
        Some((key, rest)) => if key <= u32::MAX && key % 8 <= 5 && key / 8 >= 1 {
            Some(((key / 8) as u32, (key % 8) as u64, rest))
        } else {
            None
        },
        None => None,
    }
}

/// A length and that many bytes, and what follows them.
pub open spec fn chunk_read(b: Seq<u8>) -> Option<(Seq<u8>, Seq<u8>)> {
    match varint_read(b, 0) {
        Some((n, rest)) => if n <= rest.len() {
            Some((rest.take(n as int), rest.skip(n as int)))
        } else {
            None
        },
        None => None,
    }
}

/// What is left after the first `n` bytes.
pub open spec fn passed(b: Seq<u8>, n: int) -> Option<Seq<u8>> {
    if n <= b.len() {
        Some(b.skip(n))
    } else {
        None
    }
}

/// What is left of `b` after the payload of one field that is no group. The end of a group is no
/// field.
pub open spec fn plain_skipped(wire_type: u64, b: Seq<u8>) -> Option<Seq<u8>> {
    if wire_type == WIRE_VARINT {
        match varint_read(b, 0) {
            Some((_, rest)) => Some(rest),
            None => None,
        }
    } else if wire_type == WIRE_SIXTY_FOUR_BIT {
        passed(b, 8)
    } else if wire_type == WIRE_LENGTH_DELIMITED {
        match chunk_read(b) {
            Some((_, rest)) => Some(rest),
            None => None,
        }
    } else if wire_type == WIRE_THIRTY_TWO_BIT {
        passed(b, 4)
    } else {
        None
    }
}

/// What is left of `b` after `prost::encoding::skip_field` passed over the rest of a group.
pub uninterp spec fn group_skipped(tag: u32, b: Seq<u8>) -> Option<Seq<u8>>;

/// What is left of `b` after the payload of one field.
pub open spec fn field_skipped(wire_type: u64, tag: u32, b: Seq<u8>) -> Option<Seq<u8>> {
    if wire_type == WIRE_START_GROUP {
        group_skipped(tag, b)
    } else {
        plain_skipped(wire_type, b)
    }
}

pub open spec fn rest_view(r: Option<&[u8]>) -> Option<Seq<u8>> {
    match r {
        Some(rest) => Some(rest@),
        None => None,
    }
}

/// `prost::encoding::skip_field` on the payload of a field whose key was already read: what
/// follows the field. It only moves forward. What a group takes, fields inside it and all, is
/// named and not said.
#[verifier::external_body]
fn skip_field(wire_type: u64, tag: u32, b: &[u8]) -> (r: Option<&[u8]>)
    ensures
        wire_type == WIRE_START_GROUP ==> rest_view(r) == group_skipped(tag, b@),
        wire_type != WIRE_START_GROUP ==> rest_view(r) == plain_skipped(wire_type, b@),
        r matches Some(rest) ==> rest@.len() <= b@.len(),
{
    let mut rest = b;
    let ctx = prost::encoding::DecodeContext::default();
    match prost::encoding::WireType::try_from(wire_type) {
        Ok(w) => match prost::encoding::skip_field(w, tag, &mut rest, ctx) {
            Ok(()) => Some(rest),
            Err(_) => None,
        },
        Err(_) => None,
    }
}

fn read_key(b: &[u8]) -> (r: Option<(u32, u64, &[u8])>)
    ensures
        r is Some <==> key_read(b@) is Some,
        r matches Some((tag, w, rest)) ==> key_read(b@) == Some((tag, w, rest@)) && rest@.len()
            < b@.len(),
{
    proof {
        lemma_varint_read_bounds(b@, 0);
    }
    match decode_varint(b) {
        Some((key, rest)) => if key <= u32::MAX as u64 && key % 8 <= 5 && key / 8 >= 1 {
            Some(((key / 8) as u32, key % 8, rest))
        } else {
            None
        },
        None => None,
    }
}

fn read_chunk(b: &[u8]) -> (r: Option<(&[u8], &[u8])>)
    ensures
        r is Some <==> chunk_read(b@) is Some,
        r matches Some((body, rest)) ==> chunk_read(b@) == Some((body@, rest@)) && rest@.len()
            < b@.len(),
{
    proof {
        lemma_varint_read_bounds(b@, 0);
    }
    match decode_varint(b) {
        Some((n, rest)) => if n <= rest.len() as u64 {
            let n: usize = n as usize;
            let body = slice_subrange(rest, 0, n);
            let after = slice_subrange(rest, n, rest.len());
            assert(body@ =~= rest@.take(n as int));
            assert(after@ =~= rest@.skip(n as int));
            Some((body, after))
        } else {
            None
        },
        None => None,
    }
}

/// The key of a field.
pub open spec fn key(tag: nat, wire_type: nat) -> Seq<u8> {
    varint(8 * tag + wire_type)
}

/// A field of bytes.
pub open spec fn bytes_field(tag: nat, b: Seq<u8>) -> Seq<u8> {
    key(tag, 2) + varint(b.len()) + b
}

/// A field of text, absent when the text is empty.
pub open spec fn text_field(tag: nat, s: Seq<char>) -> Seq<u8> {
    if s.len() == 0 {
        Seq::empty()
    } else {
        bytes_field(tag, encode_utf8(s))
    }
}

/// A field with a small number, absent when it is zero.
pub open spec fn number_field(tag: nat, n: nat) -> Seq<u8> {
    if n == 0 {
        Seq::empty()
    } else {
        key(tag, 0) + varint(n)
    }
}

/// A field of bytes is read back, whatever follows.
pub proof fn lemma_bytes_field_read(tag: u32, b: Seq<u8>, rest: Seq<u8>)
    requires
        1 <= tag <= 0x1fff_ffff,
        b.len() <= u64::MAX,
    ensures
        key_read(bytes_field(tag as nat, b) + rest) == Some(
            (tag, WIRE_LENGTH_DELIMITED, varint(b.len()) + b + rest),
        ),
        chunk_read(varint(b.len()) + b + rest) == Some((b, rest)),
        bytes_field(tag as nat, b).len() > 0,
{
    let k = (8 * tag + 2) as u64;
    let body = varint(b.len()) + b + rest;
    lemma_varint_round_trip(k, body);
    assert(bytes_field(tag as nat, b) + rest =~= varint(k as nat) + body);
    assert(body =~= varint(b.len()) + (b + rest));
    lemma_varint_round_trip(b.len() as u64, b + rest);
    assert((b + rest).take(b.len() as int) =~= b);
    assert((b + rest).skip(b.len() as int) =~= rest);
}

fn push_bytes_field(out: &mut Vec<u8>, tag: u32, b: &[u8])
    requires
        1 <= tag <= 100,
    ensures
        final(out)@ == old(out)@ + bytes_field(tag as nat, b@),
{
    encode_varint(8 * tag as u64 + 2, out);
    encode_varint(b.len() as u64, out);
    out.extend_from_slice(b);
    assert(out@ =~= old(out)@ + bytes_field(tag as nat, b@));
}

fn push_text_field(out: &mut Vec<u8>, tag: u32, s: &str)
    requires
        1 <= tag <= 100,
    ensures
        final(out)@ == old(out)@ + text_field(tag as nat, s@),
{
    if !s.is_empty() {
        push_bytes_field(out, tag, s.as_bytes());
    } else {
        assert(out@ =~= old(out)@ + text_field(tag as nat, s@));
    }
}

// ── Chat content ──────────────────────────────────────────────────────────────

/// Tag of the text in a text message.
pub const TEXT_MESSAGE_TEXT: u32 = 1;

/// Tag of the text message in a chat message.
pub const MESSAGE_CONTENT_TEXT: u32 = 1;

/// A chat message. Content of any kind but text is skipped.
#[derive(Debug, Clone, PartialEq, Eq)]
pub struct MessageContent {
    pub text: Option<String>,
}

/// The text of a text message, given the text read so far. The last field wins, and a field of
/// another tag is passed over.
pub open spec fn text_message_read(b: Seq<u8>, text: Seq<char>) -> Option<Seq<char>>
    decreases b.len(),
{
    if b.len() == 0 {
        Some(text)
    } else {
        match key_read(b) {
            Some((tag, wire_type, rest)) => if tag == TEXT_MESSAGE_TEXT {
                match chunk_read(rest) {
                    Some((body, after)) => if wire_type == WIRE_LENGTH_DELIMITED && valid_utf8(body)
                        && after.len() < b.len() {
                        text_message_read(after, decode_utf8(body))
                    } else {
                        None
                    },
                    None => None,
                }
            } else {
                match field_skipped(wire_type, tag, rest) {
                    Some(after) => if after.len() < b.len() {
                        text_message_read(after, text)
                    } else {
                        None
                    },
                    None => None,
                }
            },
            None => None,
        }
    }
}

/// The text of a chat message, given the text read so far.
pub open spec fn message_content_read(b: Seq<u8>, text: Option<Seq<char>>) -> Option<
    Option<Seq<char>>,
>
    decreases b.len(),
{
    if b.len() == 0 {
        Some(text)
    } else {
        match key_read(b) {
            Some((tag, wire_type, rest)) => if tag == MESSAGE_CONTENT_TEXT {
                match chunk_read(rest) {
                    Some((body, after)) => {
                        let so_far = match text {
                            Some(t) => t,
                            None => Seq::empty(),
                        };
                        match text_message_read(body, so_far) {
                            Some(t) => if wire_type == WIRE_LENGTH_DELIMITED && after.len()
                                < b.len() {
                                message_content_read(after, Some(t))
                            } else {
                                None
                            },
                            None => None,
                        }
                    },
                    None => None,
                }
            } else {
                match field_skipped(wire_type, tag, rest) {
                    Some(after) => if after.len() < b.len() {
                        message_content_read(after, text)
                    } else {
                        None
                    },
                    None => None,
                }
            },
            None => None,
        }
    }
}

/// A field of bytes that a reader does not know, in a chat message or in the text message inside
/// it, is passed over: what is read is what would be read without it.
pub proof fn law_unknown_fields_are_passed_over(
    tag: u32,
    b: Seq<u8>,
    rest: Seq<u8>,
    text: Option<Seq<char>>,
    inner: Seq<char>,
)
    requires
        1 <= tag <= 0x1fff_ffff,
        b.len() <= u64::MAX,
    ensures
        tag != MESSAGE_CONTENT_TEXT ==> message_content_read(
            bytes_field(tag as nat, b) + rest,
            text,
        ) == message_content_read(rest, text),
        tag != TEXT_MESSAGE_TEXT ==> text_message_read(bytes_field(tag as nat, b) + rest, inner)
            == text_message_read(rest, inner),
{
    lemma_bytes_field_read(tag, b, rest);
}

/// The bytes of a chat message.
pub open spec fn message_content_bytes(text: Option<Seq<char>>) -> Seq<u8> {
    match text {
        Some(t) => bytes_field(
            MESSAGE_CONTENT_TEXT as nat,
            text_field(TEXT_MESSAGE_TEXT as nat, t),
        ),
        None => Seq::empty(),
    }
}

/// A chat message is read back from its bytes.
pub proof fn law_message_content_round_trip(text: Option<Seq<char>>)
    requires
        message_content_bytes(text).len() <= u64::MAX,
    ensures
        message_content_read(message_content_bytes(text), None) == Some(text),
{
    if let Some(t) = text {
        let inner = text_field(TEXT_MESSAGE_TEXT as nat, t);
        let empty = Seq::<u8>::empty();
        let b = message_content_bytes(text);
        assert(text_message_read(inner, Seq::empty()) == Some(t)) by {
            if t.len() == 0 {
                assert(t =~= Seq::empty());
            } else {
                let u = encode_utf8(t);
                vstd::utf8::encode_utf8_valid_utf8(t);
                vstd::utf8::encode_utf8_decode_utf8(t);
                lemma_bytes_field_read(TEXT_MESSAGE_TEXT, u, empty);
                assert(inner + empty =~= inner);
                assert(varint(u.len()) + u + empty =~= varint(u.len()) + u);
                assert(text_message_read(empty, t) == Some(t));
            }
        }
        lemma_bytes_field_read(MESSAGE_CONTENT_TEXT, inner, empty);
        assert(b + empty =~= b);
        assert(message_content_read(empty, Some(t)) == Some(Some(t)));
    }
}

fn read_text_message(b: &[u8], so_far: String) -> (r: Option<String>)
    ensures
        opt_text(r) == text_message_read(b@, so_far@),
{
    let mut rest = b;
    let mut text = so_far;
    while rest.len() > 0
        invariant
            text_message_read(b@, so_far@) == text_message_read(rest@, text@),
        decreases rest@.len(),
    {
        let (tag, wire_type, body) = match read_key(rest) {
            Some(k) => k,
            None => return None,
        };
        if tag == TEXT_MESSAGE_TEXT {
            if wire_type != WIRE_LENGTH_DELIMITED {
                return None;
            }
            match read_chunk(body) {
                Some((chunk, after)) => match from_utf8(slice_to_vec(chunk)) {
                    Ok(s) => {
                        text = s;
                        rest = after;
                    },
                    Err(_) => return None,
                },
                None => return None,
            }
        } else {
            match skip_field(wire_type, tag, body) {
                Some(after) => {
                    rest = after;
                },
                None => return None,
            }
        }
    }
    Some(text)
}

impl MessageContent {
    /// The bytes of the message.
    pub fn encode_to_vec(&self) -> (r: Vec<u8>)
        ensures
            r@ == message_content_bytes(opt_text(self.text)),
    {
        let mut out: Vec<u8> = Vec::new();
        match &self.text {
            Some(text) => {
                let mut inner: Vec<u8> = Vec::new();
                push_text_field(&mut inner, TEXT_MESSAGE_TEXT, text.as_str());
                assert(inner@ =~= text_field(TEXT_MESSAGE_TEXT as nat, text@));
                push_bytes_field(&mut out, MESSAGE_CONTENT_TEXT, inner.as_slice());
                assert(out@ =~= message_content_bytes(opt_text(self.text)));
            },
            None => {},
        }
        out
    }

    /// The message in `b`.
    pub fn decode(b: &[u8]) -> (r: Option<MessageContent>)
        ensures
            match r {
                Some(m) => message_content_read(b@, None) == Some(opt_text(m.text)),
                None => message_content_read(b@, None) is None,
            },
    {
        let mut rest = b;
        let mut text: Option<String> = None;
        while rest.len() > 0
            invariant
                message_content_read(b@, None) == message_content_read(rest@, opt_text(text)),
            decreases rest@.len(),
        {
            let (tag, wire_type, body) = match read_key(rest) {
                Some(k) => k,
                None => return None,
            };
            if tag == MESSAGE_CONTENT_TEXT {
                if wire_type != WIRE_LENGTH_DELIMITED {
                    return None;
                }
                match read_chunk(body) {
                    Some((chunk, after)) => {
                        let so_far = match text {
                            Some(t) => t,
                            None => String::new(),
                        };
                        match read_text_message(chunk, so_far) {
                            Some(t) => {
                                text = Some(t);
                                rest = after;
                            },
                            None => return None,
                        }
                    },
                    None => return None,
                }
            } else {
                match skip_field(wire_type, tag, body) {
                    Some(after) => {
                        rest = after;
                    },
                    None => return None,
                }
            }
        }
        Some(MessageContent { text })
    }
}

// ── Session control ───────────────────────────────────────────────────────────

pub const SESSION_CONTROL_OP: u32 = 1;

pub const SESSION_CONTROL_NONCE: u32 = 2;

pub const SESSION_CONTROL_REASON: u32 = 3;

/// The operation that asks the peer to set up a session as responder.
pub const SESSION_OP_PING: i32 = 1;

/// A message about the session itself.
#[derive(Debug, Clone, PartialEq, Eq)]
pub struct SessionControl {
    pub op: i32,
    pub nonce: String,
    pub reason: i32,
}

#[verifier::ext_equal]
pub struct SessionControlView {
    pub op: i32,
    pub nonce: Seq<char>,
    pub reason: i32,
}

impl View for SessionControl {
    type V = SessionControlView;

    open spec fn view(&self) -> SessionControlView {
        SessionControlView { op: self.op, nonce: self.nonce@, reason: self.reason }
    }
}

/// A signed number as the unsigned number that its varint writes: sign-extended to 64 bits.
pub open spec fn widened(v: i32) -> nat {
    if v < 0 {
        (v + 0x1_0000_0000_0000_0000) as nat
    } else {
        v as nat
    }
}

/// The low 32 bits of a number, in two's complement.
pub open spec fn narrowed(n: nat) -> i32 {
    let low = n % 0x1_0000_0000;
    if low < 0x8000_0000 {
        low as i32
    } else {
        (low - 0x1_0000_0000) as i32
    }
}

pub open spec fn session_control_bytes(c: SessionControlView) -> Seq<u8> {
    number_field(SESSION_CONTROL_OP as nat, widened(c.op)) + text_field(
        SESSION_CONTROL_NONCE as nat,
        c.nonce,
    ) + number_field(SESSION_CONTROL_REASON as nat, widened(c.reason))
}

/// The control message in `b`, given the fields read so far.
pub open spec fn session_control_read(b: Seq<u8>, c: SessionControlView) -> Option<
    SessionControlView,
>
    decreases b.len(),
{
    if b.len() == 0 {
        Some(c)
    } else {
        match key_read(b) {
            Some((tag, wire_type, rest)) => if tag == SESSION_CONTROL_OP || tag
                == SESSION_CONTROL_REASON {
                match varint_read(rest, 0) {
                    Some((n, after)) => if wire_type == WIRE_VARINT && after.len() < b.len() {
                        session_control_read(
                            after,
                            if tag == SESSION_CONTROL_OP {
                                SessionControlView { op: narrowed(n), ..c }
                            } else {
                                SessionControlView { reason: narrowed(n), ..c }
                            },
                        )
                    } else {
                        None
                    },
                    None => None,
                }
            } else if tag == SESSION_CONTROL_NONCE {
                match chunk_read(rest) {
                    Some((body, after)) => if wire_type == WIRE_LENGTH_DELIMITED && valid_utf8(body)
                        && after.len() < b.len() {
                        session_control_read(
                            after,
                            SessionControlView { nonce: decode_utf8(body), ..c },
                        )
                    } else {
                        None
                    },
                    None => None,
                }
            } else {
                match field_skipped(wire_type, tag, rest) {
                    Some(after) => if after.len() < b.len() {
                        session_control_read(after, c)
                    } else {
                        None
                    },
                    None => None,
                }
            },
            None => None,
        }
    }
}

/// A control message without any field set.
pub open spec fn no_control() -> SessionControlView {
    SessionControlView { op: 0, nonce: Seq::empty(), reason: 0 }
}

fn narrow(n: u64) -> (r: i32)
    ensures
        r == narrowed(n as nat),
{
    let low: u64 = n % 0x1_0000_0000;
    if low < 0x8000_0000 {
        low as i32
    } else {
        (low as i64 - 0x1_0000_0000) as i32
    }
}

fn widen(v: i32) -> (r: u64)
    ensures
        r == widened(v),
{
    if v < 0 {
        u64::MAX - (-(v as i64) - 1) as u64
    } else {
        v as u64
    }
}

fn push_number_field(out: &mut Vec<u8>, tag: u32, n: u64)
    requires
        1 <= tag <= 100,
    ensures
        final(out)@ == old(out)@ + number_field(tag as nat, n as nat),
{
    if n != 0 {
        encode_varint(8 * tag as u64, out);
        encode_varint(n, out);
    }
    assert(out@ =~= old(out)@ + number_field(tag as nat, n as nat));
}

/// A number field is read back, whatever follows.
proof fn lemma_number_field_read(tag: u32, n: u64, rest: Seq<u8>)
    requires
        1 <= tag <= 100,
        n != 0,
    ensures
        key_read(number_field(tag as nat, n as nat) + rest) == Some(
            (tag, WIRE_VARINT, varint(n as nat) + rest),
        ),
        varint_read(varint(n as nat) + rest, 0) == Some((n as nat, rest)),
        number_field(tag as nat, n as nat).len() > 0,
{
    let k = (8 * tag) as u64;
    lemma_varint_round_trip(k, varint(n as nat) + rest);
    lemma_varint_round_trip(n, rest);
    assert(number_field(tag as nat, n as nat) + rest =~= varint(k as nat) + (varint(n as nat)
        + rest));
}

/// A control message is read back from its bytes.
pub proof fn law_session_control_round_trip(c: SessionControlView)
    requires
        session_control_bytes(c).len() <= u64::MAX,
    ensures
        session_control_read(session_control_bytes(c), no_control()) == Some(c),
{
    let empty = Seq::<u8>::empty();
    let op = number_field(SESSION_CONTROL_OP as nat, widened(c.op));
    let nonce = text_field(SESSION_CONTROL_NONCE as nat, c.nonce);
    let reason = number_field(SESSION_CONTROL_REASON as nat, widened(c.reason));
    let c1 = SessionControlView { op: c.op, ..no_control() };
    let c2 = SessionControlView { nonce: c.nonce, ..c1 };
    assert(session_control_bytes(c) =~= op + (nonce + reason));
    assert(narrowed(widened(c.op)) == c.op);
    assert(narrowed(widened(c.reason)) == c.reason);
    assert(session_control_read(op + (nonce + reason), no_control()) == session_control_read(
        nonce + reason,
        c1,
    )) by {
        if c.op != 0 {
            lemma_number_field_read(SESSION_CONTROL_OP, widened(c.op) as u64, nonce + reason);
        } else {
            assert(op + (nonce + reason) =~= nonce + reason);
        }
    }
    assert(session_control_read(nonce + reason, c1) == session_control_read(reason, c2)) by {
        if c.nonce.len() != 0 {
            let u = encode_utf8(c.nonce);
            vstd::utf8::encode_utf8_valid_utf8(c.nonce);
            vstd::utf8::encode_utf8_decode_utf8(c.nonce);
            lemma_bytes_field_read(SESSION_CONTROL_NONCE, u, reason);
        } else {
            assert(c.nonce =~= Seq::empty());
            assert(nonce + reason =~= reason);
        }
    }
    assert(session_control_read(reason, c2) == Some(c)) by {
        if c.reason != 0 {
            lemma_number_field_read(SESSION_CONTROL_REASON, widened(c.reason) as u64, empty);
            assert(reason + empty =~= reason);
            assert(varint(widened(c.reason)) + empty =~= varint(widened(c.reason)));
            assert(session_control_read(empty, c) == Some(c));
        } else {
            assert(reason =~= empty);
        }
    }
}

impl SessionControl {
    /// The bytes of the message.
    pub fn encode_to_vec(&self) -> (r: Vec<u8>)
        ensures
            r@ == session_control_bytes(self@),
    {
        let mut out: Vec<u8> = Vec::new();
        push_number_field(&mut out, SESSION_CONTROL_OP, widen(self.op));
        push_text_field(&mut out, SESSION_CONTROL_NONCE, self.nonce.as_str());
        push_number_field(&mut out, SESSION_CONTROL_REASON, widen(self.reason));
        assert(out@ =~= session_control_bytes(self@));
        out
    }

    /// The message in `b`.
    pub fn decode(b: &[u8]) -> (r: Option<SessionControl>)
        ensures
            match r {
                Some(c) => session_control_read(b@, no_control()) == Some(c@),
                None => session_control_read(b@, no_control()) is None,
            },
    {
        let mut rest = b;
        let mut c = SessionControl { op: 0, nonce: String::new(), reason: 0 };
        assert(c@ =~= no_control());
        while rest.len() > 0
            invariant
                session_control_read(b@, no_control()) == session_control_read(rest@, c@),
            decreases rest@.len(),
        {
            let (tag, wire_type, body) = match read_key(rest) {
                Some(k) => k,
                None => return None,
            };
            if tag == SESSION_CONTROL_OP || tag == SESSION_CONTROL_REASON {
                proof {
                    lemma_varint_read_bounds(body@, 0);
                }
                if wire_type != WIRE_VARINT {
                    return None;
                }
                match decode_varint(body) {
                    Some((n, after)) => {
                        if tag == SESSION_CONTROL_OP {
                            c.op = narrow(n);
                        } else {
                            c.reason = narrow(n);
                        }
                        rest = after;
                    },
                    None => return None,
                }
            } else if tag == SESSION_CONTROL_NONCE {
                if wire_type != WIRE_LENGTH_DELIMITED {
                    return None;
                }
                match read_chunk(body) {
                    Some((chunk, after)) => match from_utf8(slice_to_vec(chunk)) {
                        Ok(s) => {
                            c.nonce = s;
                            rest = after;
                        },
                        Err(_) => return None,
                    },
                    None => return None,
                }
            } else {
                match skip_field(wire_type, tag, body) {
                    Some(after) => {
                        rest = after;
                    },
                    None => return None,
                }
            }
        }
        Some(c)
    }
}

} // verus!
