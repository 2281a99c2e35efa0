//! Who an envelope is from and for.

use crate::envelope::{
    build_envelope, content_byte, content_number, content_type_of, direct_conversation, direct_id,
    encode_envelope, envelope_message_id, resolve_inbound_envelope, resolved, ContentType, Envelope,
    EnvelopeView, InboundEnvelope, MessageIdType, OpenedSeal,
};
use crate::text::bytes_before;
use vstd::prelude::*;
use vstd::utf8::encode_utf8;

verus! {

/// An envelope names its maker as the sender and the other as the recipient, carries what it was
/// given, and is not sealed. The numbers of the kinds of content are those of the protocol.
pub proof fn law_an_envelope_is_addressed(
    from_user: &str,
    from_device: &str,
    to_user: &str,
    payload: Vec<u8>,
    message_id: String,
    content_type: ContentType,
    r: Envelope,
)
    requires
        call_ensures(
            build_envelope,
            (from_user, from_device, to_user, payload, message_id, content_type),
            r,
        ),
    ensures
        r@.sender == Some(from_user@),
        r@.sender_device == Some(from_device@),
        r@.recipient == Some(to_user@),
        r@.message_id_type == Some(MessageIdType::MessageId(message_id@)),
        r@.encrypted_payload == payload@,
        r@.sealed_sender is None,
        r@.content_type == 1 <==> content_type == ContentType::E2eeSignal,
        r@.content_type == 12 <==> content_type == ContentType::CallSignal,
        r@.content_type == 20 <==> content_type == ContentType::KeyExchange,
        r@.content_type == 21 <==> content_type == ContentType::SessionReset,
        r@.content_type == 24 <==> content_type == ContentType::SessionResetInit,
{
}

/// Whoever receives an unsealed envelope that one user built for another reads the builder as
/// the sender, and the id, the payload and the kind of content as they were put in. What is said
/// of a seal does not matter.
pub proof fn law_the_receiver_learns_the_sender(
    from_user: &str,
    from_device: &str,
    to_user: &str,
    payload: Vec<u8>,
    message_id: String,
    content_type: ContentType,
    e: Envelope,
    opened: Result<OpenedSeal, String>,
    r: Result<InboundEnvelope, String>,
)
    requires
        call_ensures(
            build_envelope,
            (from_user, from_device, to_user, payload, message_id, content_type),
            e,
        ),
        call_ensures(resolve_inbound_envelope, (e, opened), r),
    ensures
        r matches Ok(m) && {
            &&& m@.from == from_user@
            &&& m@.message_id == message_id@
            &&& m@.wire_payload == payload@
            &&& content_type_of(m@.content_type) == content_type
            &&& !m@.is_sealed
        },
{
}

/// Of a sealed envelope, the sender and the kind of content are those under the seal; the payload
/// is the outer one where there is one, and else that under the seal. It is read exactly where
/// the seal was opened, names somebody, and there is a payload.
pub proof fn law_a_sealed_envelope_is_read_from_inside(
    e: EnvelopeView,
    inner: OpenedSeal<Seq<char>, Seq<u8>>,
    why: Seq<char>,
)
    requires
        e.sealed_sender is Some,
    ensures
        resolved(e, Err(why)) == Err::<InboundEnvelope<Seq<char>, Seq<u8>>, Seq<char>>(why),
        resolved(e, Ok(inner)) is Ok <==> inner.sender_user_id.len() > 0 && (
        e.encrypted_payload.len() > 0 || inner.encrypted_payload.len() > 0),
        resolved(e, Ok(inner)) matches Ok(m) ==> {
            &&& m.from == inner.sender_user_id
            &&& 0 <= inner.content_type <= 255 ==> m.content_type == inner.content_type
            &&& e.encrypted_payload.len() > 0 ==> m.wire_payload == e.encrypted_payload
            &&& e.encrypted_payload.len() == 0 ==> m.wire_payload == inner.encrypted_payload
            &&& e.message_id_type matches Some(MessageIdType::MessageId(id)) ==> m.message_id == id
            &&& m.is_sealed
        },
{
}

/// A conversation is named after both of its users, the one whose bytes come first in front.
pub proof fn law_a_conversation_names_both(a: Seq<char>, b: Seq<char>)
    ensures
        bytes_before(encode_utf8(a), encode_utf8(b)) ==> direct_conversation(a, b) == "direct:"@ + a
            + ":"@ + b && direct_conversation(b, a) == "direct:"@ + a + ":"@ + b,
        a == b ==> direct_conversation(a, b) == "direct:"@ + a + ":"@ + a,
{
    crate::text::lemma_bytes_before_total(encode_utf8(a), encode_utf8(b));
}

proof fn lemma_split_at_colon(x: Seq<char>, y: Seq<char>, v: Seq<char>, w: Seq<char>)
    requires
        !x.contains(':'),
        !v.contains(':'),
        "direct:"@ + x + ":"@ + y == "direct:"@ + v + ":"@ + w,
    ensures
        x == v,
        y == w,
{
    reveal_strlit("direct:");
    reveal_strlit(":");
    let s = "direct:"@ + x + ":"@ + y;
    let t = "direct:"@ + v + ":"@ + w;
    assert(s[7 + x.len() as int] == ':');
    assert(t[7 + v.len() as int] == ':');
    if x.len() < v.len() {
        assert(t[7 + x.len() as int] == v[x.len() as int]);
    }
    if v.len() < x.len() {
        assert(s[7 + v.len() as int] == x[v.len() as int]);
    }
    assert(x =~= s.subrange(7, 7 + x.len() as int));
    assert(v =~= t.subrange(7, 7 + v.len() as int));
    assert(y =~= s.skip(8 + x.len() as int));
    assert(w =~= t.skip(8 + v.len() as int));
}

/// Conversations with different users have different names, where no id holds a colon.
pub proof fn law_conversations_differ(a: Seq<char>, b: Seq<char>, c: Seq<char>)
    requires
        b != c,
        !a.contains(':'),
        !b.contains(':'),
        !c.contains(':'),
    ensures
        direct_conversation(a, b) != direct_conversation(a, c),
{
    let (x, y) = if bytes_before(encode_utf8(a), encode_utf8(b)) {
        (a, b)
    } else {
        (b, a)
    };
    let (v, w) = if bytes_before(encode_utf8(a), encode_utf8(c)) {
        (a, c)
    } else {
        (c, a)
    };
    if direct_conversation(a, b) == direct_conversation(a, c) {
        lemma_split_at_colon(x, y, v, w);
    }
}

/// The envelopes of a pair of users stand in one conversation, whichever way they go.
pub proof fn law_replies_stand_in_the_same_conversation(
    a: &str,
    a_device: &str,
    b: &str,
    b_device: &str,
    payload: Vec<u8>,
    reply: Vec<u8>,
    id: String,
    reply_id: String,
    kind: ContentType,
    reply_kind: ContentType,
    there: Envelope,
    back: Envelope,
)
    requires
        call_ensures(build_envelope, (a, a_device, b, payload, id, kind), there),
        call_ensures(build_envelope, (b, b_device, a, reply, reply_id, reply_kind), back),
    ensures
        there@.conversation_id == back@.conversation_id,
        there@.sender == back@.recipient,
        there@.recipient == back@.sender,
{
    crate::envelope::law_conversation_is_symmetric(a@, b@);
}

/// Numbers of kinds that are not known are taken for an encrypted message, and a number that is
/// no byte for none.
pub proof fn law_unknown_kinds_are_messages(v: u8, n: i32)
    ensures
        v != 12 && v != 20 && v != 21 && v != 24 ==> content_type_of(v) == ContentType::E2eeSignal,
        content_type_of(v) != ContentType::E2eeSignal ==> content_number(content_type_of(v)) == v,
        0 <= n <= 255 ==> content_byte(n) == n,
        n < 0 || n > 255 ==> content_byte(n) == 0,
{
}

/// Of an envelope without a direct message id there is none to read; else it is that id.
pub proof fn law_the_id_is_read_from_the_envelope(e: Envelope, r: &str)
    requires
        call_ensures(envelope_message_id, (&e,), r),
    ensures
        e@.message_id_type matches Some(MessageIdType::MessageId(id)) ==> r@ == id,
        e@.message_id_type is None || e@.message_id_type->0 is GroupMessageId ==> r@.len() == 0,
{
}

/// A bare envelope carries its conversation, payload and id, and says nothing of who it is from
/// or for.
pub proof fn law_a_bare_envelope_names_nobody(
    conversation_id: String,
    payload: Vec<u8>,
    message_id: String,
    r: Envelope,
)
    requires
        call_ensures(encode_envelope, (conversation_id, payload, message_id), r),
    ensures
        r@.conversation_id == conversation_id@,
        r@.encrypted_payload == payload@,
        direct_id(r@) == message_id@,
        r@.sender is None,
        r@.sender_device is None,
        r@.recipient is None,
        r@.sealed_sender is None,
{
}

} // verus!
