//! The actor around the encryption core.

use konstruct::bridge::BridgeEvent;
use konstruct::envelope::{
    build_envelope, content_type_from_u8, content_type_to_u8, resolve_inbound_envelope,
    ContentType, Envelope, MessageIdType, OpenedSeal,
};
use konstruct::knst::{decode_text, encode_session_ping, encode_text, frame_whole, is_silent_frame};
use konstruct::orchestration::{Action, IncomingEvent};
use konstruct::orchestrator_task::{
    apply_secure_store_save, apply_session_terminated, bundle_fetched,
    should_drop_stale_session_replay, stream_cursor_millis, uuid_from_random, uuid_v4, wrap_outgoing, Answer,
    EstablishedSessions, OrchestratorTask, Request, StreamMessageContext,
};
use konstruct::storage::Storage;
use konstruct::streaming::CursorTracker;

#[test]
fn secure_store_save_action_deletes_empty_payload() {
    let mut storage = Storage::open_in_memory();
    assert_eq!(storage.load_stream_cursor(), None, "in-memory storage opens");
    apply_secure_store_save(&mut storage, "session_peer", b"old-session");
    assert_eq!(
        storage.secure_load("session_peer").as_deref(),
        Some(b"old-session".as_ref()),
        "initial session save succeeds"
    );
    apply_secure_store_save(&mut storage, "session_peer", b"");

    assert_eq!(storage.secure_load("session_peer"), None, "delete sentinel succeeds");
}

#[test]
fn session_terminated_archives_and_deletes_hot_session() {
    let mut storage = Storage::open_in_memory();
    assert_eq!(storage.secure_load("session_peer"), None, "in-memory storage opens");
    storage.secure_save("session_peer", b"hot-session");
    assert!(storage.secure_load("session_peer").is_some(), "hot session fixture saves");

    apply_session_terminated(&mut storage, "peer", b"archive-session");

    assert_eq!(
        storage.secure_load("archive_peer").as_deref(),
        Some(b"archive-session".as_ref()),
        "session termination storage contract succeeds"
    );
    assert_eq!(storage.secure_load("session_peer"), None);
}

#[test]
fn stream_cursor_millis_parses_redis_stream_id() {
    assert_eq!(stream_cursor_millis(Some("1787431771124-0")), Some(1787431771124));
    assert_eq!(stream_cursor_millis(Some("1787431771124")), None);
    assert_eq!(stream_cursor_millis(Some("not-a-cursor")), None);
    assert_eq!(stream_cursor_millis(None), None);
}

fn stream_context(
    contact_id: &str,
    content_type: u8,
    msg_num: u32,
    stream_cursor: Option<&str>,
) -> StreamMessageContext {
    StreamMessageContext {
        contact_id: contact_id.to_string(),
        message_id: "message-1".to_string(),
        stream_cursor: stream_cursor.map(str::to_string),
        content_type,
        msg_num,
    }
}

#[test]
fn stale_replay_guard_drops_old_msg_zero() {
    let mut established = EstablishedSessions::new();
    established.insert("bob".to_string(), 2000);

    let context = stream_context("bob", 0, 0, Some("1000-0"));

    assert!(should_drop_stale_session_replay(&context, &established));
}

#[test]
fn stale_replay_guard_drops_old_reset_control() {
    let mut established = EstablishedSessions::new();
    established.insert("bob".to_string(), 2000);

    let context = stream_context("bob", ContentType::SessionReset.number(), 42, Some("1000-0"));

    assert!(should_drop_stale_session_replay(&context, &established));
}

#[test]
fn stale_replay_guard_keeps_old_regular_message() {
    let mut established = EstablishedSessions::new();
    established.insert("bob".to_string(), 2000);

    let context = stream_context("bob", 0, 42, Some("1000-0"));

    assert!(!should_drop_stale_session_replay(&context, &established));
}

#[test]
fn stale_replay_guard_keeps_without_local_established_at() {
    let established = EstablishedSessions::new();
    let context = stream_context("bob", 0, 0, Some("1000-0"));

    assert!(!should_drop_stale_session_replay(&context, &established));
}

#[test]
fn stale_replay_guard_keeps_newer_replay_sensitive_message() {
    let mut established = EstablishedSessions::new();
    established.insert("bob".to_string(), 2000);

    let context = stream_context("bob", 0, 0, Some("3000-0"));

    assert!(!should_drop_stale_session_replay(&context, &established));
}

/// Everything that the actor asks for, done on a store in memory and a core that is scripted.
struct Harness {
    actor: OrchestratorTask,
    storage: Storage,
    script: Vec<(String, Vec<Action>)>,
    handled: Vec<IncomingEvent>,
    sent: Vec<Envelope>,
    notices: Vec<BridgeEvent>,
    stored: Vec<String>,
    has_session: bool,
    log: Vec<String>,
}

impl Harness {
    fn new() -> Self {
        let storage = Storage::open_in_memory();
        let cursor = CursorTracker::load(&storage);
        Harness {
            actor: OrchestratorTask::new("alice".to_string(), "device-a".to_string(), cursor),
            storage,
            script: Vec::new(),
            handled: Vec::new(),
            sent: Vec::new(),
            notices: Vec::new(),
            stored: Vec::new(),
            has_session: true,
            log: Vec::new(),
        }
    }

    fn answer(&mut self, request: Request) -> Answer {
        match request {
            Request::Handle(event) => {
                let name = format!("{event:?}");
                self.log.push("handle".to_string());
                self.handled.push(event);
                let at = self.script.iter().position(|(key, _)| name.starts_with(key.as_str()));
                Answer::Actions(match at {
                    Some(i) => self.script.remove(i).1,
                    None => Vec::new(),
                })
            }
            Request::SaveCursor(c) => {
                self.log.push(format!("cursor {c}"));
                Answer::Flag(self.storage.save_stream_cursor(&c))
            }
            Request::StoreInbound(m) => {
                self.log.push(format!("store {}", m.id));
                self.stored.push(m.text);
                Answer::Flag(true)
            }
            Request::Notify(e) => {
                self.log.push("notify".to_string());
                self.notices.push(e);
                Answer::Nothing
            }
            Request::SendEnvelope(e) => {
                self.sent.push(e);
                Answer::Nothing
            }
            Request::SecureSaveOrDelete { key, data } => {
                self.storage.secure_save_or_delete(&key, &data);
                Answer::Nothing
            }
            Request::SecureSave { key, data } => {
                self.storage.secure_save(&key, &data);
                Answer::Flag(true)
            }
            Request::SecureDelete(key) => {
                self.storage.secure_delete(&key);
                Answer::Nothing
            }
            Request::SecureLoad(key) => Answer::Payload(self.storage.secure_load(&key)),
            Request::HasSession(_) => Answer::Flag(self.has_session),
            Request::FetchBundle(_) => {
                self.has_session = true;
                Answer::Bundle(Ok("{}".to_string()))
            }
            Request::NewId => Answer::Id("11111111-1111-4111-8111-111111111111".to_string()),
            Request::Now => Answer::Millis(5000),
            Request::PendingCount(_) => Answer::Count(0),
            Request::InitInitiator { .. } => Answer::Inited(Ok(())),
            Request::ExportState => Answer::Payload(Some(b"state".to_vec())),
            _ => Answer::Nothing,
        }
    }

    fn run(&mut self) {
        let mut answer = Answer::Nothing;
        loop {
            let request = self.actor.step(answer);
            answer = match request {
                Some(r) => self.answer(r),
                None => Answer::Nothing,
            };
            if self.actor.is_idle() && matches!(answer, Answer::Nothing) {
                return;
            }
        }
    }

    fn stale(&mut self, contact: &str, id: &str, content_type: u8, msg_num: u32, control: bool) {
        self.actor.stream_message(
            IncomingEvent::MessageReceived {
                message_id: id.to_string(),
                from: contact.to_string(),
                data: b"not-a-wire-payload".to_vec(),
                msg_num,
                kem_ct: Vec::new(),
                otpk_id: 0,
                is_control: control,
                content_type,
            },
            StreamMessageContext {
                contact_id: contact.to_string(),
                message_id: id.to_string(),
                stream_cursor: Some("1000-0".to_string()),
                content_type,
                msg_num,
            },
        );
        self.run();
    }
}

#[test]
fn stream_message_command_terminally_drops_stale_msg_zero() {
    let mut harness = Harness::new();
    harness.actor.mark_session_established("bob".to_string(), 2_000);

    harness.stale("bob", "stale-msg0", 0, 0, false);

    assert_eq!(harness.storage.load_stream_cursor().as_deref(), Some("1000-0"));
    assert_eq!(
        harness.handled.len(),
        0,
        "stale msgNum=0 must not enter core pending init queue"
    );
    assert!(harness.sent.is_empty());
}

#[test]
fn stream_message_command_terminally_drops_stale_reset_with_invalid_wire_payload() {
    let mut harness = Harness::new();
    harness.actor.mark_session_established("bob".to_string(), 2_000);

    harness.stale("bob", "stale-reset", ContentType::SessionReset.number(), 0, true);

    assert_eq!(harness.storage.load_stream_cursor().as_deref(), Some("1000-0"));
    assert_eq!(
        harness.handled.len(),
        0,
        "stale reset control must not archive/heal the active actor session"
    );
    assert!(harness.sent.is_empty());
}

#[test]
fn texts_are_kept_before_they_are_shown() {
    let mut h = Harness::new();
    h.script.push((
        "MessageReceived".to_string(),
        vec![Action::MessageDecrypted {
            contact_id: "bob".to_string(),
            message_id: "m1".to_string(),
            plaintext: b"hi there".to_vec(),
        }],
    ));
    h.stale("bob", "m1", 0, 3, false);
    assert_eq!(h.stored, vec!["hi there".to_string()]);
    assert_eq!(
        h.log,
        vec!["handle", "store m1", "cursor 1000-0", "notify"]
    );
    match &h.notices[..] {
        [BridgeEvent::NewMessage { peer_id, text, timestamp_ms, .. }] => {
            assert_eq!((peer_id.as_str(), text.as_str(), *timestamp_ms), ("bob", "hi there", 5000))
        }
        other => panic!("{other:?}"),
    }
    assert_eq!(h.actor.committed_cursor().as_deref(), Some("1000-0"));
}

#[test]
fn a_text_without_a_session_sets_one_up_first() {
    let mut h = Harness::new();
    h.has_session = false;
    h.actor.send(IncomingEvent::OutgoingMessage {
        contact_id: "bob".to_string(),
        message_id: "22222222-2222-4222-8222-222222222222".to_string(),
        plaintext: b"hello".to_vec(),
        content_type: 0,
    });
    h.run();
    assert_eq!(h.handled.len(), 2);
    assert!(matches!(&h.handled[0], IncomingEvent::KeyBundleFetched { .. }));
    match &h.handled[1] {
        IncomingEvent::OutgoingMessage { plaintext, .. } => {
            assert_eq!(konstruct::knst::decode_text(plaintext), "hello")
        }
        other => panic!("{other:?}"),
    }
}

#[test]
fn termination_moves_the_session_to_the_archive() {
    let mut h = Harness::new();
    h.storage.secure_save("session_bob", b"hot");
    h.script.push((
        "AppLaunched".to_string(),
        vec![Action::SessionTerminated {
            contact_id: "bob".to_string(),
            archive_bytes: b"cold".to_vec(),
        }],
    ));
    h.actor.send(IncomingEvent::AppLaunched);
    h.run();
    assert_eq!(h.storage.secure_load("session_bob"), None);
    assert_eq!(h.storage.secure_load("archive_bob").as_deref(), Some(b"cold".as_ref()));
}

#[test]
fn a_forgotten_contact_leaves_no_secrets() {
    let mut h = Harness::new();
    h.storage.secure_save("session_bob", b"hot");
    h.storage.secure_save("archive_bob", b"cold");
    h.storage.secure_save("session_eve", b"other");
    h.actor.forget_contact("bob".to_string());
    h.run();
    assert_eq!(h.storage.secure_load("session_bob"), None);
    assert_eq!(h.storage.secure_load("archive_bob"), None);
    assert!(h.storage.secure_load("session_eve").is_some());
    assert!(matches!(
        &h.handled[..],
        [IncomingEvent::ActiveChatChanged { is_active: false, .. }]
    ));
}

#[test]
fn actions_run_in_order_and_follow_ups_after_them() {
    let mut h = Harness::new();
    h.script.push((
        "AppLaunched".to_string(),
        vec![
            Action::LoadSessionFromSecureStore { key: "session_bob".to_string() },
            Action::NotifyError { code: "E1".to_string(), message: "first".to_string() },
            Action::SendEncryptedMessage {
                to: "bob".to_string(),
                payload: vec![9],
                message_id: "m9".to_string(),
                content_type: 1,
            },
        ],
    ));
    h.actor.send(IncomingEvent::AppLaunched);
    h.run();
    assert_eq!(h.log, vec!["handle", "notify", "handle"]);
    assert!(matches!(&h.handled[1], IncomingEvent::SessionLoaded { data: None, .. }));
    assert!(matches!(&h.notices[..], [BridgeEvent::Error(m)] if m == "[E1] first"));
    assert_eq!(h.sent.len(), 1);
    assert_eq!(h.sent[0].encrypted_payload, vec![9]);
}

#[test]
fn resolves_sealed_envelope_from_inner_payload_and_sender_cert() {
    let wire_payload = vec![1, 2, 3, 4];
    let opened = OpenedSeal {
        sender_user_id: "sender-user".to_string(),
        encrypted_payload: wire_payload.clone(),
        content_type: 13,
    };
    let envelope = sealed(Vec::new());

    let resolved =
        resolve_inbound_envelope(envelope, Ok(opened)).expect("sealed envelope should resolve");

    assert_eq!(resolved.message_id, "msg-1");
    assert_eq!(resolved.from, "sender-user");
    assert_eq!(resolved.wire_payload, wire_payload);
    assert_eq!(resolved.content_type, 13);
    assert!(resolved.is_sealed);
}

fn sealed(payload: Vec<u8>) -> Envelope {
    let mut envelope = build_envelope(
        "nobody",
        "device",
        "recipient-user",
        payload,
        "msg-1".to_string(),
        ContentType::E2eeSignal,
    );
    envelope.sealed_sender = Some(vec![0]);
    envelope.message_id_type = Some(MessageIdType::MessageId("msg-1".to_string()));
    envelope
}

#[test]
fn seals_that_do_not_open_are_refused() {
    assert_eq!(
        resolve_inbound_envelope(sealed(Vec::new()), Err("no".to_string())).unwrap_err(),
        "no"
    );
    let nameless = OpenedSeal {
        sender_user_id: String::new(),
        encrypted_payload: vec![1],
        content_type: 1,
    };
    assert_eq!(
        resolve_inbound_envelope(sealed(Vec::new()), Ok(nameless)).unwrap_err(),
        "sender certificate has empty sender_user_id"
    );
    let hollow = OpenedSeal {
        sender_user_id: "s".to_string(),
        encrypted_payload: Vec::new(),
        content_type: 1,
    };
    assert_eq!(
        resolve_inbound_envelope(sealed(Vec::new()), Ok(hollow)).unwrap_err(),
        "sealed inner encrypted_payload is empty"
    );
}

#[test]
fn conversations_do_not_depend_on_who_writes() {
    let ab = build_envelope("a", "d", "b", vec![1], "m".to_string(), ContentType::E2eeSignal);
    let ba = build_envelope("b", "d", "a", vec![1], "m".to_string(), ContentType::E2eeSignal);
    assert_eq!(ab.conversation_id, ba.conversation_id);
    assert_eq!(ba.conversation_id, "direct:a:b");
}

#[test]
fn content_types_by_number() {
    assert!(matches!(content_type_from_u8(21), ContentType::SessionReset));
    assert!(matches!(content_type_from_u8(77), ContentType::E2eeSignal));
    assert_eq!(content_type_to_u8(13), 13);
    assert_eq!(content_type_to_u8(-1), 0);
    assert_eq!(content_type_to_u8(256), 0);
}

#[test]
fn random_ids_are_version_four() {
    assert_eq!(uuid_from_random([0xff; 16]), "ffffffff-ffff-4fff-bfff-ffffffffffff");
    assert_eq!(uuid_from_random([0; 16]), "00000000-0000-4000-8000-000000000000");
    assert!(uuid_v4() != uuid_v4());
    assert_eq!(uuid_v4().len(), 36);
}

#[test]
fn a_fetched_bundle_goes_to_the_core() {
    match bundle_fetched("bob".to_string(), Ok("{}".to_string())) {
        Request::Enqueue(IncomingEvent::KeyBundleFetched { user_id, bundle_json }) => {
            assert_eq!((user_id.as_str(), bundle_json.as_str()), ("bob", "{}"))
        }
        other => panic!("{other:?}"),
    }
    assert!(matches!(
        bundle_fetched("bob".to_string(), Err("down".to_string())),
        Request::Notify(BridgeEvent::Error(_))
    ));
}

#[test]
fn control_messages_never_become_bubbles() {
    let ping = encode_session_ping("11111111-1111-1111-1111-111111111111");
    assert!(is_silent_frame(&ping));
    assert!(!is_silent_frame(&encode_text("hi", "m1")));
    for plaintext in [ping, frame_whole(b"x", 14, "m1")] {
        let mut h = Harness::new();
        h.script.push((
            "MessageReceived".to_string(),
            vec![Action::MessageDecrypted {
                contact_id: "bob".to_string(),
                message_id: "m1".to_string(),
                plaintext,
            }],
        ));
        h.stale("bob", "m1", 0, 3, false);
        assert!(h.notices.is_empty());
        assert!(h.stored.is_empty());
        assert_eq!(h.log, vec!["handle", "cursor 1000-0"]);
        assert_eq!(h.actor.committed_cursor().as_deref(), Some("1000-0"));
    }
}

#[test]
fn nothing_is_wrapped_twice() {
    let sent = |plaintext: Vec<u8>| {
        let mut h = Harness::new();
        h.actor.send(IncomingEvent::OutgoingMessage {
            contact_id: "bob".to_string(),
            message_id: "m1".to_string(),
            plaintext,
            content_type: 1,
        });
        h.run();
        match &h.handled[..] {
            [IncomingEvent::OutgoingMessage { plaintext, .. }] => plaintext.clone(),
            other => panic!("{other:?}"),
        }
    };
    let once = sent(b"hi".to_vec());
    assert_eq!(once, encode_text("hi", "m1"));
    assert_eq!(decode_text(&once), "hi");
    assert_eq!(sent(once.clone()), once);
}

#[test]
fn frames_and_control_messages_go_out_as_they_are() {
    let once = wrap_outgoing(b"hi".to_vec(), "m1");
    assert_eq!(once, encode_text("hi", "m1"));
    assert_eq!(wrap_outgoing(once.clone(), "m1"), once);
    assert_eq!(wrap_outgoing(b"\0ping".to_vec(), "m1"), b"\0ping".to_vec());
    let mut h = Harness::new();
    let request = h.actor.prepare_outgoing(IncomingEvent::OutgoingMessage {
        contact_id: "bob".to_string(),
        message_id: "m1".to_string(),
        plaintext: once.clone(),
        content_type: 1,
    });
    assert!(matches!(&request, Some(Request::HasSession(id)) if id == "bob"));
    let mut answer = Answer::Flag(true);
    let sent = loop {
        match h.actor.step(answer) {
            Some(Request::Handle(event)) => break event,
            Some(other) => panic!("{other:?}"),
            None => answer = Answer::Nothing,
        }
    };
    assert!(matches!(
        sent,
        IncomingEvent::OutgoingMessage { plaintext, content_type: 1, .. } if plaintext == once
    ));
}
