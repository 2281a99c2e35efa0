//! The message stream: watermark, routing, back-off and the worker.

use std::collections::VecDeque;

use bytes::Bytes;
use konstruct::envelope::{encode_envelope, envelope_message_id, Envelope};
use konstruct::grpc::framing::encode_frame;
use konstruct::storage::Storage;
use konstruct::streaming::{
    backoff_base_secs, dispatch_incoming, frame_message, push_pending, CursorTracker, Notice, StreamCmd,
    StreamEvent, StreamResponse, StreamWorker, WorkerEffect, WorkerInput,
};

fn envelope(id: &str) -> Box<Envelope> {
    Box::new(encode_envelope("conv".to_string(), vec![1, 2, 3], id.to_string()))
}

#[test]
fn backoff_caps_at_sixty() {
    let seq: Vec<u64> = (0..10).map(backoff_base_secs).collect();
    assert_eq!(&seq[..7], &[1, 2, 4, 8, 16, 32, 60]);
    assert!(seq[7..].iter().all(|&s| s == 60));
    assert_eq!(backoff_base_secs(u32::MAX), 60);
}

#[test]
fn shutdown_aborts_backoff() {
    let (mut worker, _) = StreamWorker::new(Vec::new());
    let mut waited = 0;
    for _ in 0..7 {
        worker.step(WorkerInput::Polled { cmd: None, since: None });
        let out = worker.step(WorkerInput::OpenFailed { unauthenticated: false });
        match &out[..] {
            [WorkerEffect::Backoff { base_secs, .. }] => waited = *base_secs,
            other => panic!("{other:?}"),
        }
        if waited < 60 {
            worker.step(WorkerInput::Slept);
        }
    }
    assert_eq!(waited, 60);
    let out = worker.step(WorkerInput::Cmd(StreamCmd::Shutdown));
    assert!(matches!(
        &out[..],
        [WorkerEffect::Tell(Notice::Disconnected), WorkerEffect::Stop]
    ));
    assert!(worker.step(WorkerInput::Slept).is_empty());
}

#[test]
fn dispatch_routes_heartbeat_ack() {
    let event = dispatch_incoming(
        Some(StreamResponse::HeartbeatAck { timestamp: 10, server_timestamp: 20 }),
        Some("cursor-1".to_string()),
    );
    match event {
        Some(StreamEvent::Heartbeat { timestamp, server_timestamp, stream_cursor }) => {
            assert_eq!(timestamp, 10);
            assert_eq!(server_timestamp, 20);
            assert_eq!(stream_cursor.as_deref(), Some("cursor-1"));
        }
        other => panic!("expected heartbeat event, got {other:?}"),
    }
}

#[test]
fn dispatch_routes_stream_error() {
    let event = dispatch_incoming(
        Some(StreamResponse::Error {
            message_id: "msg-1".to_string(),
            error_code: 7,
            error_message: "denied".to_string(),
            retryable: true,
            retry_after_ms: Some(500),
        }),
        Some("cursor-2".to_string()),
    );
    match event {
        Some(StreamEvent::StreamError {
            message_id,
            error_code,
            error_message,
            retryable,
            retry_after_ms,
            stream_cursor,
        }) => {
            assert_eq!(message_id, "msg-1");
            assert_eq!(error_code, 7);
            assert_eq!(error_message, "denied");
            assert!(retryable);
            assert_eq!(retry_after_ms, Some(500));
            assert_eq!(stream_cursor.as_deref(), Some("cursor-2"));
        }
        other => panic!("expected stream error event, got {other:?}"),
    }
}

#[test]
fn other_responses_become_nothing() {
    assert!(dispatch_incoming(None, None).is_none());
    assert!(dispatch_incoming(Some(StreamResponse::Typing), None).is_none());
    let event = dispatch_incoming(Some(StreamResponse::Message(envelope("m"))), None);
    match event {
        Some(StreamEvent::Message { envelope, .. }) => {
            assert_eq!(envelope_message_id(&envelope), "m")
        }
        other => panic!("{other:?}"),
    }
    assert_eq!(frame_message(encode_frame(b"abc")), Some(b"abc".to_vec()));
    assert_eq!(frame_message(Bytes::from_static(&[9])), None);
}

#[test]
fn watermark_moves_with_the_store() {
    let mut storage = Storage::open_in_memory();
    let mut cursor = CursorTracker::load(&storage);
    assert_eq!(cursor.committed(), None);
    cursor.note("m1", Some("7-0".to_string()));
    cursor.note("m2", None);
    cursor.commit(&mut storage, "m2");
    assert_eq!(storage.load_stream_cursor(), None);
    cursor.commit(&mut storage, "m1");
    assert_eq!(cursor.committed().as_deref(), Some("7-0"));
    assert_eq!(storage.load_stream_cursor().as_deref(), Some("7-0"));
    cursor.commit_direct(&mut storage, Some("9-0".to_string()));
    assert_eq!(CursorTracker::load(&storage).committed().as_deref(), Some("9-0"));
    cursor.commit_direct(&mut storage, Some(String::new()));
    assert_eq!(cursor.committed().as_deref(), Some("9-0"));
    cursor.advance("11-0".to_string(), false);
    assert_eq!(cursor.committed().as_deref(), Some("9-0"));
    assert_eq!(cursor.take("m1"), None);
}

#[test]
fn queue_goes_out_first_and_a_failed_send_is_kept() {
    let (mut worker, first) = StreamWorker::new(vec!["bob".to_string()]);
    assert!(matches!(first, WorkerEffect::Poll));
    let out = worker.step(WorkerInput::Polled {
        cmd: Some(StreamCmd::Send(envelope("m1"))),
        since: Some("5-0".to_string()),
    });
    match &out[..] {
        [WorkerEffect::Open { ids, since }] => {
            assert_eq!(ids, &vec!["bob".to_string()]);
            assert_eq!(since.as_deref(), Some("5-0"));
        }
        other => panic!("{other:?}"),
    }
    let out = worker.step(WorkerInput::Opened);
    assert!(matches!(&out[..], [WorkerEffect::Send(e)] if envelope_message_id(e) == "m1"));
    let out = worker.step(WorkerInput::Sent);
    assert!(matches!(
        &out[..],
        [WorkerEffect::Tell(Notice::Connected), WorkerEffect::Heartbeat]
    ));
    assert!(matches!(&worker.step(WorkerInput::Sent)[..], [WorkerEffect::Await]));
    let out = worker.step(WorkerInput::Cmd(StreamCmd::Send(envelope("m2"))));
    assert!(matches!(&out[..], [WorkerEffect::Send(_)]));
    let out = worker.step(WorkerInput::SendFailed { envelope: Some(envelope("m2")) });
    assert!(matches!(
        &out[..],
        [
            WorkerEffect::Drop,
            WorkerEffect::Tell(Notice::Disconnected),
            WorkerEffect::Backoff { attempt: 1, base_secs: 1 }
        ]
    ));
    assert!(matches!(&worker.step(WorkerInput::Slept)[..], [WorkerEffect::Poll]));
    worker.step(WorkerInput::Polled { cmd: None, since: None });
    let out = worker.step(WorkerInput::Opened);
    assert!(matches!(&out[..], [WorkerEffect::Send(e)] if envelope_message_id(e) == "m2"));
}

#[test]
fn the_queue_drops_its_oldest() {
    let (mut worker, _) = StreamWorker::new(Vec::new());
    worker.step(WorkerInput::Polled { cmd: None, since: None });
    worker.step(WorkerInput::OpenFailed { unauthenticated: true });
    let mut n = 0;
    while n < 600 {
        worker.step(WorkerInput::Cmd(StreamCmd::Send(envelope(&format!("m{n}")))));
        worker.step(WorkerInput::Polled { cmd: None, since: None });
        worker.step(WorkerInput::OpenFailed { unauthenticated: false });
        n += 1;
    }
    worker.step(WorkerInput::Slept);
    worker.step(WorkerInput::Polled { cmd: None, since: None });
    let mut sent = Vec::new();
    let mut out = worker.step(WorkerInput::Opened);
    while let [WorkerEffect::Send(e)] = &out[..] {
        sent.push(envelope_message_id(e).to_string());
        out = worker.step(WorkerInput::Sent);
    }
    assert!(sent.len() < 600);
    assert_eq!(sent.last().map(|s| s.as_str()), Some("m599"));
    assert_eq!(sent[0], format!("m{}", 600 - sent.len()));
}

#[test]
fn a_refused_token_is_reported_and_everything_kept() {
    let (mut worker, _) = StreamWorker::new(Vec::new());
    worker.step(WorkerInput::Polled { cmd: None, since: None });
    let out = worker.step(WorkerInput::OpenFailed { unauthenticated: true });
    assert!(matches!(
        &out[..],
        [WorkerEffect::Tell(Notice::AuthRequired), WorkerEffect::Backoff { attempt: 1, base_secs: 1 }]
    ));
}

#[test]
fn queue_holds_the_last_envelopes() {
    let (mut worker, _) = StreamWorker::new(Vec::new());
    for n in 0..300 {
        let cmd = Some(StreamCmd::Send(envelope(&format!("m{n}"))));
        let _ = worker.step(WorkerInput::Polled { cmd, since: None });
        let _ = worker.step(WorkerInput::OpenFailed { unauthenticated: false });
        let _ = worker.step(WorkerInput::Slept);
    }
    let _ = worker.step(WorkerInput::Polled { cmd: None, since: None });
    let mut effects = worker.step(WorkerInput::Opened);
    let mut sent = Vec::new();
    loop {
        let next = effects.into_iter().find_map(|e| match e {
            WorkerEffect::Send(e) => Some(envelope_message_id(&e).to_string()),
            _ => None,
        });
        match next {
            Some(id) => sent.push(id),
            None => break,
        }
        effects = worker.step(WorkerInput::Sent);
    }
    let expected: Vec<String> = (44..300).map(|n| format!("m{n}")).collect();
    assert_eq!(sent, expected);
}

#[test]
fn a_cursor_that_was_not_kept_moves_nothing() {
    let mut t = CursorTracker::at(Some("1-0".to_string()));
    t.note("a", Some("2-0".to_string()));
    t.note("b", Some("3-0".to_string()));
    let c = t.take("a").unwrap();
    t.advance(c, false);
    assert_eq!(t.committed().as_deref(), Some("1-0"));
    assert_eq!(t.take("a"), None);
    let mut storage = Storage::open_in_memory();
    t.commit(&mut storage, "a");
    assert_eq!(storage.load_stream_cursor(), None);
    t.commit(&mut storage, "b");
    assert_eq!(t.committed().as_deref(), Some("3-0"));
}

#[test]
fn the_oldest_makes_room() {
    let mut queue: VecDeque<Box<Envelope>> = VecDeque::new();
    for n in 0..256 {
        push_pending(&mut queue, envelope(&format!("m{n}")));
    }
    assert_eq!(queue.len(), 256);
    assert_eq!(envelope_message_id(&queue[0]), "m0");
    push_pending(&mut queue, envelope("m256"));
    assert_eq!(queue.len(), 256);
    assert_eq!(envelope_message_id(&queue[0]), "m1");
    assert_eq!(envelope_message_id(&queue[255]), "m256");
}
