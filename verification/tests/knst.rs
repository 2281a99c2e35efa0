//! Frames, and the messages inside them.

use konstruct::knst::{
    decode_text, encode_session_ping, encode_text, frame_whole, is_frame, CONTENT_E2EE_SIGNAL,
    CONTENT_SESSION_PING, HEADER_SIZE,
};
use konstruct::proto::{MessageContent, SessionControl};
use uuid::Uuid;

#[test]
fn text_frame_round_trips() {
    let id = "ffeeddc6-14f2-4d02-a66a-caf0d8dfeda8";
    let framed = encode_text("hello from tui", id);
    assert!(is_frame(&framed));
    assert_eq!(framed[5], CONTENT_E2EE_SIGNAL);
    assert_eq!(&framed[6..22], Uuid::parse_str(id).unwrap().as_bytes());
    assert_eq!(&framed[22..24], &[0, 0]);
    assert_eq!(&framed[24..26], &[0, 1]);
    assert_eq!(decode_text(&framed), "hello from tui");
}

#[test]
fn session_ping_is_not_chat_text() {
    let id = "11111111-1111-1111-1111-111111111111";
    let framed = encode_session_ping(id);
    assert_eq!(framed[5], CONTENT_SESSION_PING);
    assert!(decode_text(&framed).is_empty());
    assert!(SessionControl::decode(&framed[HEADER_SIZE..]).is_some());
}

#[test]
fn bare_utf8_still_decodes() {
    assert_eq!(decode_text(b"plain leftover"), "plain leftover");
}

#[test]
fn header_plaintext_length_matches_payload() {
    let framed = encode_text("ab", &Uuid::nil().to_string());
    let declared = u32::from_be_bytes(framed[26..30].try_into().unwrap()) as usize;
    assert_eq!(declared, framed.len() - HEADER_SIZE);
}

#[test]
fn broken_text_is_repaired() {
    assert_eq!(decode_text(b"ab\xffcd"), "ab\u{fffd}cd");
    assert_eq!(decode_text(b""), "");
}

#[test]
fn ids_that_are_no_uuid_become_zeros() {
    let framed = frame_whole(b"x", CONTENT_E2EE_SIGNAL, "not a uuid");
    assert_eq!(&framed[6..22], &[0u8; 16]);
    assert_eq!(&framed[..4], b"KNST");
    assert_eq!(framed.len(), HEADER_SIZE + 1);
    assert!(!is_frame(b"KNST"));
}

#[test]
fn message_content_bytes_are_exact() {
    let content = MessageContent { text: Some("hi".to_string()) };
    let bytes = content.encode_to_vec();
    assert_eq!(bytes, vec![0x0a, 4, 0x0a, 2, b'h', b'i']);
    assert_eq!(MessageContent::decode(&bytes).unwrap().text.as_deref(), Some("hi"));
    assert!(MessageContent::decode(&[0x0a, 200]).is_none());
    assert_eq!(MessageContent::decode(&[]).unwrap().text, None);
    // an unknown field is passed over
    let mut with_more = vec![0x18, 0x96, 0x01];
    with_more.extend_from_slice(&bytes);
    assert_eq!(MessageContent::decode(&with_more).unwrap().text.as_deref(), Some("hi"));
    let long = MessageContent { text: Some("x".repeat(200)) }.encode_to_vec();
    assert_eq!(&long[..3], &[0x0a, 0xcb, 0x01]);
    assert_eq!(MessageContent::decode(&long).unwrap().text.unwrap().len(), 200);
}

#[test]
fn unknown_fields_are_passed_over() {
    // a varint, eight bytes, a chunk and four bytes, of tags that mean nothing here
    let unknown: [&[u8]; 4] = [
        &[0x10, 0x96, 0x01],
        &[0x19, 1, 2, 3, 4, 5, 6, 7, 8],
        &[0x22, 3, b'a', b'b', b'c'],
        &[0x2d, 1, 2, 3, 4],
    ];
    let known = MessageContent { text: Some("hi".to_string()) }.encode_to_vec();
    for field in unknown {
        let content = MessageContent::decode(&[field, &known[..]].concat()).unwrap();
        assert_eq!(content.text.as_deref(), Some("hi"));
        assert_eq!(MessageContent::decode(&field[..field.len() - 1]), None);
    }
    let group = [&[0x33u8, 0x10, 0x01, 0x34][..], &known[..]].concat();
    assert_eq!(MessageContent::decode(&group).unwrap().text.as_deref(), Some("hi"));
    assert_eq!(MessageContent::decode(&[0x34]), None);
}
