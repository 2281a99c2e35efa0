//! Becoming a device, signing in again, and bringing the core up.

use ed25519_dalek::{Signature, SigningKey, Verifier, VerifyingKey};
use konstruct::auth::{
    authenticate_saved_session, authenticate_saved_session_at, authenticated, link_existing_device,
    register_new_device, restored, AuthError, EnrollEffect, EnrollInput, Enrollment, KeyPair,
    RegistrationStep,
};
use konstruct::config::{
    default_server, transport_label, Config, Session, TransportConfig, DEFAULT_SERVER,
};
use konstruct::envelope::{encode_envelope, InboundEnvelope};
use konstruct::grpc::auth::AuthTokens;
use konstruct::orchestration::IncomingEvent;
use konstruct::startup::{
    first_upload, relay_message, relay_stream_event, Relay, StartAnswer, StartRequest, Startup, WireHeader,
};
use konstruct::streaming::StreamEvent;
use konstruct::bridge::BridgeEvent;

fn session() -> Session {
    Session {
        signing_key_hex: hex::encode([7u8; 32]),
        identity_key_hex: hex::encode([8u8; 32]),
        device_id: "dev".to_string(),
        user_id: "usr".to_string(),
        access_token: "acc".to_string(),
        refresh_token: "ref".to_string(),
        expires_at: 100,
        spk_key_hex: hex::encode([9u8; 32]),
        spk_sig_hex: hex::encode([1u8; 64]),
    }
}

fn tokens() -> AuthTokens {
    AuthTokens {
        user_id: "usr2".to_string(),
        access_token: "acc2".to_string(),
        refresh_token: "ref2".to_string(),
        expires_at: 200,
    }
}

#[test]
fn sign_in_signs_device_and_time() {
    let request = authenticate_saved_session_at(&session(), Some(1_700_000_000)).unwrap();
    assert_eq!(request.device_id, "dev");
    assert_eq!(request.timestamp, 1_700_000_000);
    let key = VerifyingKey::from(&SigningKey::from_bytes(&[7u8; 32]));
    let signature = Signature::from_slice(&request.signature).unwrap();
    key.verify(b"dev1700000000", &signature).unwrap();
    assert!(authenticate_saved_session(&session()).is_ok());

    let mut broken = session();
    broken.signing_key_hex = "xyz".to_string();
    assert!(matches!(
        authenticate_saved_session_at(&broken, Some(0)),
        Err(AuthError::SigningKeyHex(_))
    ));
    broken.signing_key_hex = "abcd".to_string();
    assert!(matches!(
        authenticate_saved_session_at(&broken, Some(0)),
        Err(AuthError::SigningKeyLength)
    ));
}

#[test]
fn new_tokens_go_into_the_session() {
    let result = authenticated(session(), tokens());
    let kept = result.session.as_ref().unwrap();
    assert_eq!(kept.access_token, "acc2");
    assert_eq!(kept.refresh_token, "ref2");
    assert_eq!(kept.expires_at, 200);
    assert_eq!(kept.signing_key_hex, session().signing_key_hex);
    assert_eq!(result.access_token, "acc2");
    let (again, written) = restored(session(), result);
    assert!(again.session.is_none());
    assert_eq!(again.access_token, "acc2");
    assert_eq!(written.access_token, "acc2");
    assert_eq!(written.refresh_token, "ref2");
    assert_eq!(written.expires_at, 200);
    assert_eq!(written.user_id, "usr");
    assert_eq!(written.signing_key_hex, session().signing_key_hex);
}

fn pair(n: u8) -> KeyPair {
    KeyPair { secret: [n; 32], public: [n + 100; 32] }
}

#[test]
fn registration_goes_through_its_steps() {
    let mut steps = Vec::new();
    let mut e: Enrollment = register_new_device(Some("fox".to_string()));
    let mut done = None;
    let inputs = vec![
        EnrollInput::Begin,
        EnrollInput::Key(pair(1)),
        EnrollInput::Key(pair(2)),
        EnrollInput::Key(pair(3)),
        EnrollInput::Named { device_id: "d1".to_string(), prologue: b"KonstruktX3DH".to_vec() },
        EnrollInput::Challenge(Ok(("c1".to_string(), 4))),
        EnrollInput::Solved { nonce: 11, hash: "00ff".to_string() },
        EnrollInput::Tokens(Ok(tokens())),
    ];
    let mut registered = false;
    for input in inputs {
        let (next, effects) = e.step(input);
        e = next;
        for effect in effects {
            match effect {
                EnrollEffect::Show(step) => steps.push(step.index()),
                EnrollEffect::Register { username, device_id, keys, challenge, nonce, .. } => {
                    assert_eq!(username.as_deref(), Some("fox"));
                    assert_eq!((device_id.as_str(), challenge.as_str(), nonce), ("d1", "c1", 11));
                    assert_eq!(keys.verifying_key, vec![101; 32]);
                    assert_eq!(keys.identity_public, vec![102; 32]);
                    assert_eq!(keys.signed_prekey_public, vec![103; 32]);
                    registered = true;
                }
                EnrollEffect::Enrolled(result) => done = Some(result),
                EnrollEffect::Failed(why) => panic!("{why}"),
                _ => {}
            }
        }
    }
    assert!(registered);
    assert!(steps.windows(2).all(|w| w[0] < w[1]));
    assert_eq!(steps.last(), Some(&RegistrationStep::Registering.index()));
    let kept = done.unwrap().session.unwrap();
    assert_eq!(kept.signing_key_hex, hex::encode([1u8; 32]));
    assert_eq!(kept.identity_key_hex, hex::encode([2u8; 32]));
    assert_eq!(kept.spk_key_hex, hex::encode([3u8; 32]));
    assert_eq!(kept.user_id, "usr2");
    assert!(authenticate_saved_session_at(&kept, Some(5)).is_ok());
}

#[test]
fn linking_shows_no_steps_and_reports_failure() {
    let mut e: Enrollment = link_existing_device("tok".to_string());
    let mut last = Vec::new();
    for input in vec![
        EnrollInput::Begin,
        EnrollInput::Key(pair(1)),
        EnrollInput::Key(pair(2)),
        EnrollInput::Key(pair(3)),
        EnrollInput::Named { device_id: "d1".to_string(), prologue: Vec::new() },
        EnrollInput::Tokens(Err("expired".to_string())),
    ] {
        let (next, effects) = e.step(input);
        assert!(effects.iter().all(|x| !matches!(x, EnrollEffect::Show(_))));
        e = next;
        last = effects;
    }
    assert!(
        matches!(&last[..], [EnrollEffect::Failed(m)] if m == "confirm device link: expired")
    );
}

#[test]
fn challenges_can_fail() {
    let mut e: Enrollment = register_new_device(None);
    for input in vec![
        EnrollInput::Begin,
        EnrollInput::Key(pair(1)),
        EnrollInput::Key(pair(2)),
        EnrollInput::Key(pair(3)),
        EnrollInput::Named { device_id: "d1".to_string(), prologue: Vec::new() },
    ] {
        e = e.step(input).0;
    }
    let (_, effects) = e.step(EnrollInput::Challenge(Err("down".to_string())));
    assert!(matches!(&effects[..], [EnrollEffect::Failed(m)] if m == "pow challenge: down"));
}

#[test]
fn the_core_gets_every_secret_before_the_launch() {
    let (mut startup, first) = Startup::new(&session());
    match first {
        StartRequest::BuildCore { identity, signing, .. } => {
            assert_eq!((identity, signing), (vec![8; 32], vec![7; 32]))
        }
        other => panic!("{other:?}"),
    }
    assert!(matches!(startup.step(StartAnswer::Done(Ok(()))), Some(StartRequest::OpenStore)));
    assert!(matches!(startup.step(StartAnswer::Done(Ok(()))), Some(StartRequest::ListContacts)));
    let mut request =
        startup.step(StartAnswer::Contacts(vec!["a".to_string(), "b".to_string()])).unwrap();
    let mut loaded = Vec::new();
    let mut fed = Vec::new();
    loop {
        let answer = match request {
            StartRequest::LoadSecret(key) => {
                loaded.push(key);
                StartAnswer::Secret(Some(vec![1]))
            }
            StartRequest::ImportState(state) => {
                assert_eq!(state, vec![1]);
                StartAnswer::Done(Ok(()))
            }
            StartRequest::Feed(IncomingEvent::SessionLoaded { key, .. }) => {
                fed.push(key);
                StartAnswer::Done(Ok(()))
            }
            StartRequest::Launch { contact_ids, one_time_keys } => {
                assert_eq!(one_time_keys, 100);
                assert_eq!(contact_ids, vec!["a".to_string(), "b".to_string()]);
                break;
            }
            other => panic!("{other:?}"),
        };
        request = startup.step(answer).unwrap();
    }
    assert_eq!(loaded[0], "construct.orchestrator_state");
    assert_eq!(fed, vec!["archive_a", "session_a", "archive_b", "session_b"]);
}

#[test]
fn broken_keys_end_the_start() {
    let mut broken = session();
    broken.spk_key_hex = "0".to_string();
    let (_, first) = Startup::new(&broken);
    match first {
        StartRequest::GiveUp(m) => {
            assert_eq!(m, "Orchestrator key decode error: Odd number of digits")
        }
        other => panic!("{other:?}"),
    }
    let (mut startup, _) = Startup::new(&session());
    match startup.step(StartAnswer::Done(Err("bad key".to_string()))) {
        Some(StartRequest::GiveUp(m)) => assert_eq!(m, "Orchestrator init error: bad key"),
        other => panic!("{other:?}"),
    }
}

#[test]
fn stream_events_find_their_way() {
    assert!(matches!(relay_stream_event(StreamEvent::Connected), Relay::Online));
    assert!(matches!(relay_stream_event(StreamEvent::AuthRequired), Relay::RefreshToken));
    match relay_stream_event(StreamEvent::StreamError {
        message_id: String::new(),
        error_code: -3,
        error_message: "denied".to_string(),
        retryable: false,
        retry_after_ms: None,
        stream_cursor: None,
    }) {
        Relay::Screen(BridgeEvent::Error(m)) => assert_eq!(m, "Stream error -3: denied"),
        other => panic!("{other:?}"),
    }
    let envelope = Box::new(encode_envelope("c".to_string(), vec![1], "m".to_string()));
    assert!(matches!(
        relay_stream_event(StreamEvent::Message { envelope, stream_cursor: None }),
        Relay::Open { .. }
    ));
    let inbound = InboundEnvelope {
        message_id: "m".to_string(),
        from: "bob".to_string(),
        wire_payload: vec![5],
        content_type: 21,
        is_sealed: false,
    };
    let header = WireHeader { message_number: 4, kem_ciphertext: None, one_time_prekey_id: 2 };
    match relay_message(inbound, header, Some("7-0".to_string())) {
        Relay::NoteAndTell {
            event: IncomingEvent::MessageReceived { is_control, msg_num, otpk_id, .. },
            ..
        } => assert_eq!((is_control, msg_num, otpk_id), (true, 4, 2)),
        other => panic!("{other:?}"),
    }
}

#[test]
fn settings_have_defaults() {
    assert_eq!(default_server(), "https://ams.konstruct.cc:443");
    assert_eq!(Config::default().server, DEFAULT_SERVER);
    assert_eq!(transport_label(TransportConfig::Direct), "direct");
    assert_eq!(transport_label(TransportConfig::Obfs4Tls), "obfs4+tls");
    assert_eq!(session().copy(), session());
}

#[test]
fn auth_errors_say_what_is_wrong() {
    let odd = Session { signing_key_hex: "abc".to_string(), ..session() };
    let e = authenticate_saved_session_at(&odd, None).unwrap_err();
    assert_eq!(e.message(), "invalid signing key hex");
    assert_eq!(e.report(), "invalid signing key hex: Odd number of digits");
    let e: AuthError = AuthError::SigningKeyLength;
    assert_eq!(e.report(), "signing key must be 32 bytes");
    let e = authenticate_saved_session_at(&session(), None).unwrap_err();
    assert_eq!(e, AuthError::Clock);
    assert_eq!(e.message(), "second time provided was later than self");
}

#[test]
fn keys_are_uploaded_where_there_are_any() {
    assert!(first_upload("dev", Vec::new()).is_none());
    let upload = first_upload("dev", vec![(1, vec![2, 3])]).unwrap();
    assert_eq!(upload.device_id, "dev");
    assert_eq!(upload.keys, vec![(1, vec![2, 3])]);
    assert!(!upload.replace_existing);
}

#[test]
fn bad_keys_are_refused_at_any_time() {
    let odd = Session { signing_key_hex: "zz".to_string(), ..session() };
    assert!(matches!(authenticate_saved_session(&odd), Err(AuthError::SigningKeyHex(_))));
    let short = Session { signing_key_hex: "abcd".to_string(), ..session() };
    assert!(matches!(authenticate_saved_session(&short), Err(AuthError::SigningKeyLength)));
}
