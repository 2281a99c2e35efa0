//! Invites: signing, wire form, links.

use base64::Engine;
use ed25519_dalek::{SigningKey, Verifier, VerifyingKey};
use konstruct::invite::{
    decode_binary, decode_binary_at, generate_invite_qr, legacy_payload, looks_like_invite, mint,
    mint_at, normalize_server, parse_invite, parse_invite_at, Invite, InviteError, HTTPS_ADD,
    SCHEME_ADD,
};

fn b64(bytes: &[u8]) -> String {
    base64::engine::general_purpose::STANDARD.encode(bytes)
}

fn b64url(bytes: &[u8]) -> String {
    base64::engine::general_purpose::URL_SAFE_NO_PAD.encode(bytes)
}

fn sample() -> Invite {
    Invite {
        v: 5,
        jti: "11111111-1111-4111-8111-111111111111".into(),
        uuid: "22222222-2222-4222-8222-222222222222".into(),
        device_id: "0123456789abcdef0123456789abcdef".into(),
        server: "konstruct.cc".into(),
        eph_key: String::new(),
        ts: 1_700_000_000,
        sig: b64(&[0xABu8; 64]),
        un: Some("fox".into()),
        ttl: Some(300),
    }
}

#[test]
fn v5_canonical_includes_ttl() {
    let inv = sample();
    assert_eq!(
        inv.canonical_string().unwrap(),
        "5|11111111-1111-4111-8111-111111111111|22222222-2222-4222-8222-222222222222|0123456789abcdef0123456789abcdef|konstruct.cc|1700000000|fox|300"
    );
}

#[test]
fn v5_binary_roundtrip() {
    let original = sample();
    let decoded = decode_binary(&original.encode_binary().unwrap()).unwrap();
    assert_eq!(original, decoded);
}

#[test]
fn https_link_roundtrip() {
    let original = sample();
    let link = original.https_link().unwrap();
    assert!(link.starts_with(HTTPS_ADD));
    let decoded = parse_invite(&link, None).unwrap();
    assert_eq!(decoded.jti, original.jti);
    assert_eq!(decoded.ttl, Some(300));
    assert_eq!(decoded.un.as_deref(), Some("fox"));
    let scheme = original.scheme_link().unwrap();
    assert!(scheme.starts_with(SCHEME_ADD));
    assert_eq!(parse_invite(&scheme, None).unwrap().jti, original.jti);
}

#[test]
fn mint_self_verifies() {
    let sk = SigningKey::from_bytes(&[7u8; 32]);
    let hex = hex::encode(sk.to_bytes());
    let inv = mint(
        "33333333-3333-4333-8333-333333333333",
        "0123456789abcdef0123456789abcdef",
        "https://ams.konstruct.cc:443",
        &hex,
        None,
        300,
    )
    .unwrap();
    assert_eq!(inv.v, 5);
    assert_eq!(inv.server, "ams.konstruct.cc");
    assert!(inv.eph_key.is_empty());
    let canon = inv.canonical_string().unwrap();
    let raw = base64::engine::general_purpose::STANDARD.decode(&inv.sig).unwrap();
    let sig = ed25519_dalek::Signature::from_slice(&raw).unwrap();
    VerifyingKey::from(&sk).verify(canon.as_bytes(), &sig).unwrap();
    let again = parse_invite(&inv.https_link().unwrap(), None).unwrap();
    assert_eq!(again.uuid, inv.uuid);
}

#[test]
fn looks_like_invite_detects_urls() {
    assert!(looks_like_invite("https://konstruct.cc/add?invite=Q0l2MQ"));
    assert!(looks_like_invite("konstruct://add?invite=abc"));
    assert!(!looks_like_invite("hardwax"));
}

#[test]
fn normalize_strips_scheme_and_port() {
    assert_eq!(normalize_server("https://ams.konstruct.cc:443/"), "ams.konstruct.cc");
}

#[test]
fn wire_form_is_exact() {
    let bytes = sample().encode_binary().unwrap();
    assert_eq!(&bytes[..4], b"CIv1");
    assert_eq!(bytes[4], 1);
    assert_eq!(bytes[5], 5);
    assert_eq!(&bytes[6..22], &[0x11, 0x11, 0x11, 0x11, 0x11, 0x11, 0x41, 0x11, 0x81, 0x11, 0x11, 0x11, 0x11, 0x11, 0x11, 0x11]);
    let sealed = decode_binary_at(&bytes, 1_700_000_000).unwrap();
    assert_eq!(sealed, sample());
    let mut longer = bytes.clone();
    longer.push(0);
    assert_eq!(decode_binary_at(&longer, 1_700_000_000), Err(InviteError::TrailingBytes));
    let mut other = bytes.clone();
    other[0] = b'X';
    assert_eq!(decode_binary_at(&other, 1_700_000_000), Err(InviteError::BadMagic));
    assert_eq!(decode_binary_at(&bytes[..20], 1_700_000_000), Err(InviteError::Truncated));
    assert_eq!(decode_binary_at(&[], 0), Err(InviteError::Truncated));
}

#[test]
fn unusable_invites_are_not_encoded() {
    let mut i = sample();
    i.v = 9;
    assert_eq!(i.canonical_string(), Err(InviteError::UnsupportedVersion(9)));
    let mut i = sample();
    i.ts = -1;
    assert_eq!(i.encode_binary(), Err(InviteError::NegativeTimestamp));
    let mut i = sample();
    i.v = 3;
    i.eph_key = "?".into();
    assert_eq!(i.encode_binary(), Err(InviteError::EphKeyBase64("Invalid symbol 63, offset 0.".to_string())));
    i.eph_key = b64(&[1; 31]);
    assert_eq!(i.encode_binary(), Err(InviteError::EphKeyLength));
    let mut i = sample();
    i.ttl = None;
    assert_eq!(i.encode_binary(), Err(InviteError::MissingTtl));
    assert_eq!(i.canonical_string(), Err(InviteError::MissingTtl));
    let mut i = sample();
    i.jti = "nope".into();
    assert_eq!(i.encode_binary(), Err(InviteError::Uuid("invalid character: found `n` at 0".to_string())));
    let mut i = sample();
    i.device_id = "zz".into();
    assert_eq!(i.encode_binary(), Err(InviteError::DeviceIdHex("Invalid character 'z' at position 0".to_string())));
    let mut i = sample();
    i.device_id = "abcd".into();
    assert_eq!(i.encode_binary(), Err(InviteError::DeviceIdLength));
    let mut i = sample();
    i.sig = "!".into();
    assert_eq!(i.encode_binary(), Err(InviteError::SignatureBase64("Invalid symbol 33, offset 0.".to_string())));
    let mut i = sample();
    i.sig = b64(&[1, 2, 3]);
    assert_eq!(i.encode_binary(), Err(InviteError::SignatureLength));
    let mut i = sample();
    i.un = Some("x".repeat(300));
    assert_eq!(i.encode_binary(), Err(InviteError::UsernameTooLong));
    let mut i = sample();
    i.server = String::new();
    assert_eq!(i.encode_binary(), Err(InviteError::InvalidServer));
}

#[test]
fn errors_have_texts() {
    assert_eq!(InviteError::<String>::Truncated.message(), "truncated CIv1");
    assert_eq!(InviteError::<String>::TtlBelowFloor(59).message(), "ttl 59s below floor");
    assert_eq!(InviteError::<String>::UnsupportedVersion(9).message(), "unsupported invite version 9");
    assert_eq!(InviteError::<String>::Unrecognized.message(), "unrecognized invite payload");
    let mut i = sample();
    i.device_id = "abc".into();
    assert_eq!(i.encode_binary().unwrap_err().message(), "device id hex: Odd number of digits");
    assert_eq!(InviteError::ServerUtf8("bad".to_string()).message(), "server utf8: bad");
    assert_eq!(
        InviteError::SelfVerify("signature error".to_string()).message(),
        "invite self-verify: signature error"
    );
}

#[test]
fn texts_that_are_not_utf8_are_refused() {
    let bytes = sample().encode_binary().unwrap();
    let server = bytes.windows(12).position(|w| w == b"konstruct.cc").unwrap();
    let mut broken = bytes.clone();
    broken[server] = 0xff;
    assert_eq!(decode_binary_at(&broken, 1_700_000_000), Err(InviteError::ServerUtf8("invalid utf-8 sequence of 1 bytes from index 0".to_string())));
    let name = bytes.windows(3).position(|w| w == b"fox").unwrap();
    let mut broken = bytes;
    broken[name] = 0xff;
    assert_eq!(decode_binary_at(&broken, 1_700_000_000), Err(InviteError::UsernameUtf8("invalid utf-8 sequence of 1 bytes from index 0".to_string())));
}

#[test]
fn future_invites_are_refused() {
    let bytes = sample().encode_binary().unwrap();
    assert!(decode_binary_at(&bytes, 1_700_000_000 - 300).is_ok());
    assert_eq!(decode_binary_at(&bytes, 1_700_000_000 - 301), Err(InviteError::InvalidTimestamp));
}

#[test]
fn expiry_counts_from_the_date() {
    let i = sample();
    assert_eq!(i.effective_ttl(), 300);
    assert!(!i.is_expired(1_700_000_300));
    assert!(i.is_expired(1_700_000_301));
    assert!(i.is_expired(i64::MAX));
    assert!(!i.is_expired(i64::MIN));
    let mut long = sample();
    long.ttl = Some(u32::MAX);
    assert!(long.effective_ttl() < u32::MAX);
    long.ttl = None;
    let cap = long.effective_ttl();
    long.ttl = Some(cap + 1);
    assert_eq!(long.effective_ttl(), cap);
}

#[test]
fn minting_is_deterministic_in_its_inputs() {
    let key = hex::encode([7u8; 32]);
    let jti = [0x11u8; 16];
    let mint_once = |user: &str, device: &str, server: &str, key: &str, ttl: u32| {
        mint_at(user, device, server, key, Some("fox"), ttl, 1_700_000_000, jti)
    };
    let user = "33333333-3333-4333-8333-333333333333";
    let device = "0123456789abcdef0123456789abcdef";
    let a = mint_once(user, device, "https://konstruct.cc:443", &key, 300).unwrap();
    let b = mint_once(user, device, "https://konstruct.cc:443", &key, 300).unwrap();
    assert_eq!(a, b);
    assert_eq!(a.jti, "11111111-1111-1111-1111-111111111111");
    assert_eq!(a.ts, 1_700_000_000);
    assert_eq!(a.un.as_deref(), Some("fox"));
    assert_eq!(decode_binary_at(&a.encode_binary().unwrap(), 1_700_000_000), Ok(a.clone()));
    assert_eq!(parse_invite_at(&a.https_link().unwrap(), 1_700_000_000, None), Ok(a));
    let shouted = mint_once(
        "33333333-3333-4333-8333-3333333333AB",
        "0123456789ABCDEF0123456789abcdef",
        " http://Konstruct.cc/ ",
        &key,
        300,
    )
    .unwrap();
    assert_eq!(shouted.uuid, "33333333-3333-4333-8333-3333333333ab");
    assert_eq!(shouted.device_id, device);
    assert_eq!(shouted.server, "Konstruct.cc");
    assert_eq!(mint_once("nobody", device, "konstruct.cc", &key, 300), Err(InviteError::UserId("invalid character: found `n` at 0".to_string())));
    assert_eq!(mint_once(user, "dead", "konstruct.cc", &key, 300), Err(InviteError::DeviceId));
    assert_eq!(mint_once(user, device, "konstruct.cc", "zz", 300), Err(InviteError::SigningKeyHex("Invalid character 'z' at position 0".to_string())));
    assert_eq!(mint_once(user, device, "konstruct.cc", "abcd", 300), Err(InviteError::SigningKeyLength));
    assert_eq!(mint_once(user, device, "konstruct.cc", &key, 59), Err(InviteError::TtlBelowFloor(59)));
    let nowhere = mint_once(user, device, "", &key, 300).unwrap();
    assert_eq!(nowhere.https_link(), Err(InviteError::InvalidServer));
}

#[test]
fn qr_holds_a_link_of_five_minutes() {
    let key = hex::encode([7u8; 32]);
    let link = generate_invite_qr(
        "33333333-3333-4333-8333-333333333333",
        "0123456789abcdef0123456789abcdef",
        "https://ams.konstruct.cc:443",
        &key,
    );
    let invite = parse_invite(&link.unwrap(), None).unwrap();
    assert_eq!(invite.ttl, Some(300));
    assert_eq!(invite.server, "ams.konstruct.cc");
    let nowhere = generate_invite_qr(
        "33333333-3333-4333-8333-333333333333",
        "0123456789abcdef0123456789abcdef",
        "https://",
        &key,
    );
    assert_eq!(nowhere, Err(InviteError::InvalidServer));
}

#[test]
fn bare_payloads_are_read_too() {
    let payload = b64url(&sample().encode_binary().unwrap());
    assert!(looks_like_invite(&payload));
    assert_eq!(parse_invite_at(&payload, 1_700_000_000, None), Ok(sample()));
    assert_eq!(parse_invite_at(&format!("  {payload}\n"), 1_700_000_000, None), Ok(sample()));
    assert_eq!(parse_invite_at("", 0, None).is_err(), true);
    assert_eq!(parse_invite_at("not an invite", 0, None), Err(InviteError::Unrecognized));
    let json = b64url(b"{\"v\":4}");
    assert_eq!(parse_invite_at(&json, 0, None), Err(InviteError::Unrecognized));
    assert_eq!(legacy_payload(&json), Some(b"{\"v\":4}".to_vec()));
    assert_eq!(legacy_payload("not an invite"), None);
}

#[test]
fn legacy_invites_come_second() {
    let legacy = Invite { v: 4, ttl: None, ..sample() };
    let json = b64url(b"{\"v\":4}");
    assert_eq!(parse_invite_at(&json, 0, Some(legacy.clone())), Ok(legacy.clone()));
    assert_eq!(parse_invite(&json, Some(legacy.clone())), Ok(legacy.clone()));
    assert_eq!(parse_invite_at(&json, 0, None), Err(InviteError::Unrecognized));
    assert_eq!(
        parse_invite_at("not an invite", 0, Some(legacy.clone())),
        Err(InviteError::Unrecognized)
    );
    let binary = b64url(&sample().encode_binary().unwrap());
    assert_eq!(parse_invite_at(&binary, 1_700_000_000, Some(legacy.clone())), Ok(sample()));
    assert_eq!(parse_invite_at(&binary, 0, Some(legacy)), Err(InviteError::InvalidTimestamp));
}

#[test]
fn legacy_json_is_read_by_the_parser() {
    let json = br#"{"v":4,"jti":"j","uuid":"u","deviceId":"d","server":"s","ts":7,"sig":"x"}"#;
    let raw = b64(json);
    let payload = legacy_payload(&raw).unwrap();
    let value: serde_json::Value = serde_json::from_slice(&payload).unwrap();
    let text = |key: &str| value[key].as_str().unwrap().to_string();
    let legacy = Invite {
        v: value["v"].as_u64().unwrap() as u8,
        jti: text("jti"),
        uuid: text("uuid"),
        device_id: text("deviceId"),
        server: text("server"),
        eph_key: String::new(),
        ts: value["ts"].as_i64().unwrap(),
        sig: text("sig"),
        un: None,
        ttl: None,
    };
    let expected = Invite {
        v: 4,
        jti: "j".into(),
        uuid: "u".into(),
        device_id: "d".into(),
        server: "s".into(),
        eph_key: String::new(),
        ts: 7,
        sig: "x".into(),
        un: None,
        ttl: None,
    };
    assert_eq!(parse_invite(&raw, Some(legacy)).unwrap(), expected);
}

#[test]
fn what_else_a_link_holds_does_not_matter() {
    let now = 1_700_000_000;
    let link = sample().https_link().unwrap();
    for raw in [format!("{link}&ref=x&y=1"), format!("\n {link}&"), format!("{link} \t")] {
        assert!(looks_like_invite(&raw));
        assert_eq!(parse_invite_at(&raw, now, None), Ok(sample()));
        assert_eq!(parse_invite_at(&raw, now - 301, None), Err(InviteError::InvalidTimestamp));
    }
    let mut short = sample();
    short.ttl = Some(59);
    let raw = short.scheme_link().unwrap();
    assert_eq!(parse_invite_at(&raw, now, None), Err(InviteError::TtlBelowFloor(59)));
}

#[test]
fn fresh_identifiers_are_random_ones() {
    let key = hex::encode([7u8; 32]);
    let invite = mint(
        "33333333-3333-4333-8333-333333333333",
        "0123456789abcdef0123456789abcdef",
        "konstruct.cc",
        &key,
        None,
        300,
    )
    .unwrap();
    assert_eq!(&invite.jti[14..15], "4");
    assert!(matches!(&invite.jti[19..20], "8" | "9" | "a" | "b"));
}
