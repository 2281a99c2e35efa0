//! The wire protocol below the services.

use bytes::Bytes;
use konstruct::grpc::auth::{
    device_public_keys, get_pow_challenge, refresh_token, tokens_from, AuthTokens,
};
use konstruct::grpc::client::{
    apply_auth_headers, check_grpc_status, check_response, check_stream_response, finish_unary,
    parse_server_url, status_result, GrpcClient, UnaryNext,
};
use konstruct::grpc::error::GrpcError;
use konstruct::grpc::framing::{decode_frame, encode_frame, FrameBuffer, GrpcStatus};
use konstruct::grpc::invite::{accept_invite, invite_token};
use konstruct::grpc::keys::{bundle_to_x3dh, CryptoSuite, PreKeyBundle, SuiteId};
use konstruct::grpc::stream::{
    new_request_id, subscribe_request, MessageStream, PumpAction, PumpInput, StreamRequest,
};
use konstruct::grpc::users::{
    find_user, find_user_query, normalize_username, username_is_searchable,
};
use konstruct::invite::Invite;

#[test]
fn token_and_device_id_are_kept() {
    let mut a = GrpcClient::new("https://ams.konstruct.cc:443");
    assert_eq!(a.auth_headers(), (None, None));
    a.set_token(Some("tok-1".into()));
    a.set_device_id(Some("dev-1".into()));
    let (token, device) = a.auth_headers();
    assert_eq!(token.as_deref(), Some("tok-1"));
    assert_eq!(device.as_deref(), Some("dev-1"));
    a.set_token(None);
    assert_eq!(a.auth_headers(), (None, Some("dev-1".to_string())));
}

#[test]
fn parse_url_host_port() {
    assert_eq!(
        parse_server_url("https://ams.konstruct.cc:443"),
        ("ams.konstruct.cc".into(), 443)
    );
    assert_eq!(parse_server_url("https://example.com"), ("example.com".into(), 443));
}

#[test]
fn transport_is_not_unauthenticated() {
    let e = GrpcError::transport("connection reset");
    assert!(!e.is_unauthenticated());
    assert!(!e.is_permission_denied());
    assert!(e.is_retryable_transport());
}

#[test]
fn status_16_is_unauthenticated() {
    let e = GrpcError::status(16, "expired");
    assert!(e.is_unauthenticated());
    assert!(!e.is_retryable_transport());
}

#[test]
fn strips_at_and_lowercases() {
    assert_eq!(normalize_username(" @Alice "), "alice");
    assert_eq!(normalize_username("bob_1"), "bob_1");
    assert!(username_is_searchable("alice"));
    assert!(!username_is_searchable("@alice"));
    assert!(!username_is_searchable("ab"));
}

#[test]
fn other_ports_and_schemes() {
    assert_eq!(parse_server_url("http://localhost:8080"), ("localhost".into(), 8080));
    assert_eq!(parse_server_url("example.com"), ("example.com".into(), 443));
    let client = GrpcClient::new("https://example.com:8443");
    assert_eq!(client.authority(), "example.com:8443");
    assert_eq!((client.host(), client.port()), ("example.com", 8443));
}

#[test]
fn names_at_the_limits() {
    assert!(username_is_searchable("abc"));
    assert!(username_is_searchable(&"x".repeat(30)));
    assert!(!username_is_searchable(&"x".repeat(31)));
    assert!(!username_is_searchable("añb"));
    assert_eq!(normalize_username("@@ Ünder"), "Ünder");
    assert_eq!(find_user_query(" @Alice ").as_deref(), Some("alice"));
    assert_eq!(find_user_query("no spaces"), None);
    assert_eq!(find_user(Ok("id-1".into())).unwrap().as_deref(), Some("id-1"));
    assert_eq!(find_user(Ok(String::new())).unwrap(), None);
    assert_eq!(find_user(Err(GrpcError::status(5, "none"))).unwrap(), None);
    assert!(find_user(Err(GrpcError::status(8, "slow down"))).is_err());
}

#[test]
fn frames_round_trip() {
    let frame = encode_frame(b"abc");
    assert_eq!(&frame[..], &[0, 0, 0, 0, 3, b'a', b'b', b'c']);
    let mut two = frame.to_vec();
    two.extend_from_slice(&encode_frame(b"de"));
    let (first, rest) = decode_frame(Bytes::from(two.clone())).unwrap();
    assert_eq!(&first[..], b"abc");
    let (second, rest) = decode_frame(rest).unwrap();
    assert_eq!((&second[..], rest.len()), (&b"de"[..], 0));
    assert!(decode_frame(Bytes::from_static(&[0, 0, 0])).is_err());
    assert!(decode_frame(Bytes::from_static(&[1, 0, 0, 0, 0])).is_err());
    assert!(decode_frame(Bytes::from_static(&[0, 0, 0, 0, 2, 1])).is_err());

    // however the bytes are cut, the same frames come out
    for cut in 0..two.len() {
        let mut buffer = FrameBuffer::new();
        let mut frames = buffer.push(&two[..cut]);
        frames.extend(buffer.push(&two[cut..]));
        let bodies: Vec<&[u8]> = frames.iter().map(|f| &f[5..]).collect();
        assert_eq!(bodies, vec![&b"abc"[..], &b"de"[..]]);
    }
}

#[test]
fn status_codes() {
    assert!(GrpcStatus::from_code(0).is_ok());
    assert!(!GrpcStatus::from_code(16).is_ok());
    assert!(!GrpcStatus::from_code(99).is_ok());
    assert!(status_result(None, None).is_ok());
    assert!(status_result(Some("0"), None).is_ok());
    let refused = status_result(Some("16"), Some("expired")).unwrap_err();
    assert!(refused.is_unauthenticated());
    assert!(refused.message().contains("expired"));
}

#[test]
fn headers_are_read() {
    let mut headers: http::HeaderMap<http::HeaderValue> = http::HeaderMap::new();
    assert!(check_grpc_status(&headers).is_ok());
    headers.insert("grpc-status", http::HeaderValue::from_static("7"));
    headers.insert("grpc-message", http::HeaderValue::from_static("no entry"));
    let e = check_grpc_status(&headers).unwrap_err();
    assert!(e.is_permission_denied());
    assert!(e.message().contains("no entry"));
    assert!(finish_unary(Some(headers), Bytes::new()).is_err());
    assert_eq!(finish_unary(None, Bytes::new()).unwrap(), Vec::<u8>::new());
    assert_eq!(finish_unary(None, encode_frame(b"xyz")).unwrap(), b"xyz".to_vec());
    let fine: http::HeaderMap<http::HeaderValue> = http::HeaderMap::new();
    assert!(check_response("/a/B", 200, "200 OK", &fine).is_ok());
    let e = check_response("/a/B", 502, "502 Bad Gateway", &fine).unwrap_err();
    assert!(e.message().contains("HTTP 502 Bad Gateway from '/a/B'"));
}

#[test]
fn auth_headers_are_exact() {
    let headers = apply_auth_headers("1.2.3", Some("tok"), Some("dev"));
    let find = |name: &str| {
        headers.iter().find(|(n, _)| n == name).map(|(_, v)| v.as_str().to_string())
    };
    assert_eq!(find("authorization").as_deref(), Some("Bearer tok"));
    assert_eq!(find("x-device-id").as_deref(), Some("dev"));
    let bare = apply_auth_headers("1.2.3", None, None);
    assert!(bare.iter().all(|(n, _)| n != "authorization" && n != "x-device-id"));
}

#[test]
fn one_retry_on_a_broken_connection() {
    let mut client = GrpcClient::new("https://example.com");
    assert!(client.needs_connection());
    client.connection_made();
    assert!(!client.needs_connection());
    let next = client.unary(1, Err(GrpcError::transport("reset")));
    assert!(matches!(next, UnaryNext::Retry));
    assert!(client.needs_connection());
    client.connection_made();
    let next = client.unary(2, Err(GrpcError::transport("reset")));
    assert!(matches!(next, UnaryNext::Done(Err(_))));
    client.connection_made();
    let next = client.unary(1, Err(GrpcError::status(16, "expired")));
    assert!(matches!(next, UnaryNext::Done(Err(_))));
    assert!(!client.needs_connection());
    assert!(matches!(client.unary(1, Ok(vec![1])), UnaryNext::Done(Ok(_))));
}

#[test]
fn tokens_must_be_there() {
    let tokens = AuthTokens {
        user_id: "u".into(),
        access_token: "a".into(),
        refresh_token: "r".into(),
        expires_at: 5,
    };
    assert_eq!(tokens_from(Some(tokens)).unwrap().user_id, "u");
    assert!(tokens_from(None).is_err());
    assert!(get_pow_challenge("c".into(), 3).is_ok());
    assert!(get_pow_challenge(String::new(), 3).is_err());
    let keys = device_public_keys(&[1; 32], &[2; 32], &[3; 32], &[4; 64]);
    assert_eq!(keys.crypto_suite, "Curve25519+Ed25519");
    assert_eq!(keys.identity_public, vec![2; 32]);
}

#[test]
fn bundles_are_taken_over() {
    assert!(bundle_to_x3dh(None, vec![1]).is_err());
    let bundle = PreKeyBundle {
        crypto_suite: CryptoSuite::Other,
        identity_key: vec![1; 32],
        signed_pre_key: vec![2; 32],
        signed_pre_key_signature: vec![3; 64],
        one_time_pre_key: Some(vec![4; 32]),
        one_time_pre_key_id: Some(8),
        spk_uploaded_at: -1,
        spk_rotation_epoch: 6,
        kyber_spk_uploaded_at: None,
        kyber_spk_rotation_epoch: None,
    };
    let hybrid = PreKeyBundle { crypto_suite: CryptoSuite::HybridKyber768X25519, ..bundle.clone() };
    assert!(matches!(bundle_to_x3dh(Some(hybrid), vec![]).unwrap().suite_id, SuiteId::PqHybrid));
    let x3dh = bundle_to_x3dh(Some(bundle), vec![9; 32]).unwrap();
    assert_eq!(x3dh.spk_uploaded_at, u64::MAX);
    assert_eq!((x3dh.kyber_spk_uploaded_at, x3dh.one_time_prekey_id), (0, Some(8)));
    assert_eq!(x3dh.identity_public, vec![1; 32]);
    assert_eq!(x3dh.verifying_key, vec![9; 32]);
    assert!(matches!(x3dh.suite_id, SuiteId::Classic));
}

#[test]
fn invite_tokens_carry_the_invite() {
    let invite = Invite {
        v: 5,
        jti: "j".into(),
        uuid: "u".into(),
        device_id: "d".into(),
        server: "s".into(),
        eph_key: String::new(),
        ts: 7,
        sig: "sig".into(),
        un: None,
        ttl: Some(60),
    };
    let token = invite_token(&invite);
    assert_eq!(token.jti, "j");
    assert_eq!(accept_invite("u1".into()).unwrap().user_id, "u1");
    assert!(accept_invite(String::new()).is_err());
}

#[test]
fn streams_are_subscribed_and_pumped() {
    assert_eq!(new_request_id().len(), 36);
    assert!(new_request_id() != new_request_id());
    let request = subscribe_request(vec!["a".into()], Some("7-0".into()), "r".into());
    assert_eq!(request.request_id, "r");
    assert!(matches!(request.request, StreamRequest::Subscribe { .. }));

    let mut pump = MessageStream::new();
    let frame = encode_frame(b"abc");
    match pump.pump(PumpInput::Outgoing(frame.clone())) {
        PumpAction::Send(f) => assert_eq!(f, frame),
        other => panic!("{other:?}"),
    }
    match pump.pump(PumpInput::Chunk(frame.to_vec())) {
        PumpAction::Deliver(frames) => assert_eq!(frames.len(), 1),
        other => panic!("{other:?}"),
    }
    assert!(matches!(pump.pump(PumpInput::Idle), PumpAction::Wait));
    assert!(matches!(pump.pump(PumpInput::OutgoingClosed), PumpAction::EndStream));
    assert!(matches!(pump.pump(PumpInput::Idle), PumpAction::Leave));
}

#[test]
fn a_refresh_without_a_refresh_token_has_an_empty_one() {
    assert_eq!(
        refresh_token("a2".into(), Some("r2".into()), 9),
        ("a2".to_string(), "r2".to_string(), 9)
    );
    assert_eq!(refresh_token("a2".into(), None, 9), ("a2".to_string(), String::new(), 9));
}

#[test]
fn stream_opens_on_a_clean_reply_only() {
    let mut headers = http::HeaderMap::new();
    assert!(check_stream_response(200, "200 OK", &headers).is_ok());
    let e = check_stream_response(503, "503 Service Unavailable", &headers).unwrap_err();
    assert_eq!(e.message(), "transport: MessageStream HTTP 503 Service Unavailable");
    headers.insert("grpc-status", http::HeaderValue::from_static("16"));
    let e = check_stream_response(200, "200 OK", &headers).unwrap_err();
    assert!(e.is_unauthenticated());
}

#[test]
fn statuses_have_their_numbers() {
    let all = [(GrpcStatus::Success, 0), (GrpcStatus::Unknown, 2), (GrpcStatus::Unauthenticated, 16)];
    for (status, code) in all {
        assert_eq!(status.code(), code);
        assert_eq!(GrpcStatus::from_code(code), status);
    }
}
