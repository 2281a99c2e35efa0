//! What a plaintext and a message look like in bytes.

use crate::encoding::{be_bytes, be_value, uuid_parsed};
use crate::grpc::framing::{frame as grpc_frame, unframed};
use crate::knst::{encode_session_ping, encode_text, frame, framed, payload, shown_text, silent};
use crate::proto::{
    key_read, message_content_bytes, message_content_read, narrowed, no_control,
    session_control_bytes, session_control_read, varint, widened, SessionControlView,
};
use vstd::arithmetic::div_mod::lemma_fundamental_div_mod_converse;
use vstd::prelude::*;
use vstd::utf8::{decode_utf8, encode_utf8, valid_utf8};

verus! {

/// A frame begins with "KNST", version 1, the content type, the id, and the numbers of the one
/// chunk that there is; then come the length and the payload itself. An id that is no UUID is all
/// zeros.
pub proof fn law_a_frame_has_its_layout(body: Seq<u8>, content_type: u8, id: Seq<char>)
    requires
        body.len() < 0x1_0000_0000,
    ensures
        ({
            let d = frame(body, content_type, id);
            &&& d.len() == 30 + body.len()
            &&& d.take(4) == seq![0x4bu8, 0x4e, 0x53, 0x54]
            &&& d[4] == 1
            &&& d[5] == content_type
            &&& uuid_parsed(id) matches Some(b) ==> d.subrange(6, 22) == b
            &&& uuid_parsed(id) is None ==> d.subrange(6, 22) == Seq::new(16, |i: int| 0u8)
            &&& d.subrange(22, 26) == seq![0u8, 0, 0, 1]
            &&& be_value(d.subrange(26, 30)) == body.len()
            &&& d.skip(30) == body
        }),
{
    let d = frame(body, content_type, id);
    crate::knst::law_frame_header(body, content_type, id);
    crate::encoding::lemma_uuid_parsed_len(id);
    crate::encoding::lemma_be_bytes_len(body.len(), 4);
    assert(d.take(4) =~= seq![0x4bu8, 0x4e, 0x53, 0x54]);
    assert(d.subrange(22, 26) =~= seq![0u8, 0, 0, 1]);
    assert(d.skip(30) =~= body);
}

/// What is shorter than a header, or does not begin with "KNST" and version 1, is no frame, and is
/// shown as the text that it is.
pub proof fn law_other_bytes_are_plain_text(d: Seq<u8>)
    ensures
        framed(d) <==> d.len() >= 30 && d.take(4) == seq![0x4bu8, 0x4e, 0x53, 0x54] && d[4] == 1,
        !framed(d) && valid_utf8(d) ==> shown_text(d) == decode_utf8(d),
{
    if d.len() >= 4 {
        assert(d.subrange(0, 4) =~= d.take(4));
        assert(crate::knst::MAGIC@ =~= seq![0x4bu8, 0x4e, 0x53, 0x54]);
    }
}

/// Calls, heartbeats, receipts, pings and the word that a session is ready never show in a chat;
/// every other type does.
pub proof fn law_only_control_types_are_silent(content_type: u8)
    ensures
        silent(content_type) <==> content_type == 12 || content_type == 13 || content_type == 14
            || content_type == 25 || content_type == 26,
{
}

/// Of a frame that is not silent, the chat text is shown if there is one, and else its payload as
/// text. A length that goes beyond the end takes what there is.
pub proof fn law_frames_show_their_payload(d: Seq<u8>)
    requires
        framed(d),
    ensures
        ({
            let n = be_value(d.subrange(26, 30));
            let body = if n <= d.len() - 30 {
                d.subrange(30, 30 + n as int)
            } else {
                d.skip(30)
            };
            let shows = d[5] != 12 && d[5] != 13 && d[5] != 14 && d[5] != 25 && d[5] != 26;
            &&& payload(d) == body
            &&& !shows ==> shown_text(d).len() == 0
            &&& shows && message_content_read(body, None) is None && valid_utf8(body) ==> shown_text(
                d,
            ) == decode_utf8(body)
            &&& shows ==> (message_content_read(body, None) matches Some(Some(text)) ==> shown_text(
                d,
            ) == text)
        }),
{
    let n = be_value(d.subrange(26, 30));
    let raw = d.skip(30);
    if n <= d.len() - 30 {
        assert(raw.take(n as int) =~= d.subrange(30, 30 + n as int));
    } else {
        assert(raw.take(raw.len() as int) =~= raw);
    }
}

/// Text that was wrapped shows as it was, for its content type says chat; a ping shows nothing,
/// and its payload asks the peer to set up a session, under the id of the ping.
pub proof fn law_text_and_pings_are_told_apart(
    text: &str,
    id: &str,
    t: Vec<u8>,
    p: Vec<u8>,
)
    requires
        call_ensures(encode_text, (text, id), t),
        call_ensures(encode_session_ping, (id,), p),
        message_content_bytes(Some(text@)).len() < 0x1_0000_0000,
        session_control_bytes(SessionControlView { op: 1, nonce: id@, reason: 0 }).len()
            < 0x1_0000_0000,
    ensures
        framed(t@),
        t@[5] == 1,
        shown_text(t@) == text@,
        framed(p@),
        p@[5] == 25,
        shown_text(p@).len() == 0,
        session_control_read(payload(p@), no_control()) == Some(
            SessionControlView { op: 1, nonce: id@, reason: 0 },
        ),
        uuid_parsed(id@) matches Some(b) ==> t@.subrange(6, 22) == b && p@.subrange(6, 22) == b,
{
    let control = SessionControlView { op: 1, nonce: id@, reason: 0 };
    crate::knst::law_text_round_trip(text@, id@);
    law_a_frame_has_its_layout(message_content_bytes(Some(text@)), 1, id@);
    law_a_frame_has_its_layout(session_control_bytes(control), 25, id@);
    crate::knst::law_frame_header(session_control_bytes(control), 25, id@);
    crate::proto::law_session_control_round_trip(control);
}

/// The bytes of a short chat message: one field inside another, each with its length in front.
pub proof fn law_a_chat_message_is_two_fields(text: Seq<char>)
    requires
        0 < encode_utf8(text).len() < 126,
    ensures
        ({
            let n = encode_utf8(text).len();
            message_content_bytes(Some(text)) == seq![10u8, (n + 2) as u8, 10u8, n as u8]
                + encode_utf8(text)
        }),
{
    let u = encode_utf8(text);
    assert(varint(10) =~= seq![10u8]);
    assert(varint(u.len()) =~= seq![u.len() as u8]);
    assert(varint(u.len() + 2) =~= seq![(u.len() + 2) as u8]);
    let inner = crate::proto::bytes_field(1, u);
    assert(inner =~= seq![10u8, u.len() as u8] + u);
    assert(inner.len() == u.len() + 2);
    if text.len() == 0 {
        assert(encode_utf8(text).len() == 0);
    }
    assert(message_content_bytes(Some(text)) =~= seq![
        10u8,
        (u.len() + 2) as u8,
        10u8,
        u.len() as u8,
    ] + u);
}

/// The last text in a chat message wins, as it does inside the text message.
pub proof fn law_the_last_text_wins(first: Seq<char>, second: Seq<char>)
    requires
        message_content_bytes(Some(first)).len() <= u64::MAX,
        message_content_bytes(Some(second)).len() <= u64::MAX,
        second.len() > 0,
    ensures
        message_content_read(
            message_content_bytes(Some(first)) + message_content_bytes(Some(second)),
            None,
        ) == Some(Some(second)),
{
    let a = crate::proto::text_field(1, first);
    let b = crate::proto::text_field(1, second);
    let empty = Seq::<u8>::empty();
    let mb = message_content_bytes(Some(second));
    crate::proto::lemma_bytes_field_read(1, a, mb);
    crate::proto::lemma_bytes_field_read(1, b, empty);
    assert(mb + empty =~= mb);
    lemma_text_message(first, Seq::empty());
    lemma_text_message(second, first);
    assert(message_content_read(empty, Some(second)) == Some(Some(second)));
    if first.len() == 0 {
        assert(first =~= Seq::empty());
    }
    assert(message_content_read(mb, Some(first)) == Some(Some(second)));
}

proof fn lemma_text_message(text: Seq<char>, so_far: Seq<char>)
    requires
        crate::proto::text_field(1, text).len() <= u64::MAX,
    ensures
        text.len() > 0 ==> crate::proto::text_message_read(
            crate::proto::text_field(1, text),
            so_far,
        ) == Some(text),
        text.len() == 0 ==> crate::proto::text_message_read(
            crate::proto::text_field(1, text),
            so_far,
        ) == Some(so_far),
{
    let u = encode_utf8(text);
    let empty = Seq::<u8>::empty();
    if text.len() > 0 {
        vstd::utf8::encode_utf8_valid_utf8(text);
        vstd::utf8::encode_utf8_decode_utf8(text);
        crate::proto::lemma_bytes_field_read(1, u, empty);
        let inner = crate::proto::text_field(1, text);
        assert(inner + empty =~= inner);
        assert(crate::proto::text_message_read(empty, text) == Some(text));
    }
}

/// A gRPC frame is a zero byte, the length in four bytes, most significant first, and the message;
/// one that says it is compressed, or that is cut short, is refused.
pub proof fn law_a_grpc_frame_has_its_layout(message: Seq<u8>, rest: Seq<u8>, k: int)
    requires
        message.len() < 0x1_0000_0000,
    ensures
        ({
            let n = message.len();
            let d = grpc_frame(message);
            &&& d == seq![
                0u8,
                (n / 0x100_0000) as u8,
                (n / 0x1_0000 % 0x100) as u8,
                (n / 0x100 % 0x100) as u8,
                (n % 0x100) as u8,
            ] + message
            &&& unframed(d.update(0, 1) + rest) is Err
            &&& 0 <= k < d.len() ==> unframed(d.take(k)) is Err
        }),
{
    let n = message.len();
    let d = grpc_frame(message);
    crate::laws::numbers::law_bytes_are_big_endian(n as u32, 0, 0);
    crate::encoding::lemma_base256();
    crate::encoding::lemma_be_bytes_len(n, 4);
    crate::encoding::lemma_be_round_trip(n, 4);
    assert(d =~= seq![
        0u8,
        (n / 0x100_0000) as u8,
        (n / 0x1_0000 % 0x100) as u8,
        (n / 0x100 % 0x100) as u8,
        (n % 0x100) as u8,
    ] + message);
    if 5 <= k < d.len() {
        assert(d.take(k).subrange(1, 5) =~= be_bytes(n, 4));
    }
}

/// A negative number is written in 64 bits, as it is and not cut to 32: in two's complement.
pub proof fn law_negative_numbers_take_64_bits(v: i32)
    ensures
        v >= 0 ==> widened(v) == v,
        v < 0 ==> widened(v) - v == 0x1_0000_0000_0000_0000,
        narrowed(widened(v)) == v,
{
}

/// The key of a field holds its number and the kind of what follows it. There are kinds from zero
/// to five; a key of any other kind, or of no number, is refused.
pub proof fn law_a_key_holds_number_and_kind(tag: nat, kind: nat, rest: Seq<u8>)
    requires
        tag < 16,
        kind < 8,
    ensures
        1 <= tag && kind <= 5 ==> key_read(seq![(8 * tag + kind) as u8] + rest) == Some(
            (tag as u32, kind as u64, rest),
        ),
        tag == 0 || kind > 5 ==> key_read(seq![(8 * tag + kind) as u8] + rest) is None,
{
    let b = seq![(8 * tag + kind) as u8] + rest;
    assert(b.skip(1) =~= rest);
    assert(b[0] == 8 * tag + kind);
    lemma_fundamental_div_mod_converse((8 * tag + kind) as int, 8, tag as int, kind as int);
}

} // verus!
