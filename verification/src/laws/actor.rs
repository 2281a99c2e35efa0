//! What the actor does for the core, as a sequence of requests and answers.

use crate::bridge::BridgeEvent;
use crate::encoding::{random_uuid, uuid_parsed};
use crate::envelope::MessageIdType;
use crate::knst::{ping_frame, shown_text, silent_frame};
use crate::orchestration::{Action, ActionView, EventView, IncomingEvent};
use crate::orchestrator_task::{
    archive_key, bundle_fetched, cursor_millis, outgoing_plaintext, session_key, stale_replay,
    stepped, uuid_from_random, wrap_outgoing, ActorView, Answer, AnswerView, Purpose, PurposeView,
    Request, RequestView, StreamMessageContext, Task, TaskView, Wait, WaitView, STATE_KEY,
};
use crate::streaming::cursor_of;
use crate::text::{decimal, first_occurrence, occurs, occurs_at};
use vstd::prelude::*;

verus! {

/// The actor waits for nothing, and `t` is what it does next.
pub open spec fn due(s: ActorView, t: TaskView) -> bool {
    s.wait is Nothing && s.agenda.len() > 0 && s.agenda.last() == t
}

/// The actor with its next task done and nothing else changed.
pub open spec fn past(s: ActorView) -> ActorView {
    ActorView { agenda: s.agenda.drop_last(), ..s }
}

// ── Setting up a session ──────────────────────────────────────────────────────

/// When the core wants a session, the messages of that contact that it holds back decide. If
/// there are any, the first is peeked at, and the session is set up as responder with exactly
/// that message; only where there is none is it set up as initiator. The contact and the bundle
/// are those of the core throughout.
pub proof fn law_a_held_back_message_makes_a_responder(
    s: ActorView,
    answer: AnswerView,
    contact_id: Seq<char>,
    bundle_json: Seq<char>,
    n: u64,
    wire: Seq<u8>,
)
    requires
        due(s, Task::Dispatch(Action::InitSession { contact_id, bundle_json })),
    ensures
        ({
            let (s1, r1) = stepped(s, answer);
            let (s2, r2) = stepped(s1, Answer::Count(n));
            let (s3, r3) = stepped(s2, Answer::Payload(Some(wire)));
            let (s4, r4) = stepped(s2, Answer::Payload(None));
            let initiator = RequestView::InitInitiator { contact_id, bundle_json };
            &&& r1 == Some(RequestView::PendingCount(contact_id))
            &&& n == 0 ==> r2 == Some(initiator)
            &&& n > 0 ==> {
                &&& r2 == Some(RequestView::PeekPending(contact_id))
                &&& r3 == Some(RequestView::InitReceiving { contact_id, bundle_json, wire })
                &&& r4 == Some(initiator)
            }
            &&& s2.agenda == s.agenda.drop_last()
            &&& s2.established == s.established
            &&& s2.follow_ups == s.follow_ups
        }),
{
}

/// A session is set up as initiator only where nothing of the contact is held back, or to heal
/// one as initiator; and as responder only with a message that was held back, or that asked for
/// healing.
pub proof fn law_the_role_follows_what_is_held_back(s: ActorView, answer: AnswerView)
    ensures
        stepped(s, answer).1 matches Some(Request::InitInitiator { contact_id, bundle_json }) ==> {
            ||| s.wait == (WaitView::InitCount { contact_id, bundle_json }) && answer
                == AnswerView::Count(0)
            ||| s.wait == (WaitView::InitPeek { contact_id, bundle_json }) && answer
                == AnswerView::Payload(None)
            ||| s.wait == WaitView::HealBundle(contact_id) && answer == AnswerView::Bundle(
                Ok(bundle_json),
            )
        },
        stepped(s, answer).1 matches Some(
            Request::InitReceiving { contact_id, bundle_json, wire },
        ) ==> {
            ||| s.wait == (WaitView::InitPeek { contact_id, bundle_json }) && answer
                == AnswerView::Payload(Some(wire))
            ||| s.wait == (WaitView::HealRespond { contact_id, wire }) && answer
                == AnswerView::Bundle(Ok(bundle_json))
        },
{
}

/// Text that a person may have written: not empty, not a control message.
pub open spec fn plain_text(text: Seq<char>) -> bool {
    &&& text.len() > 0
    &&& text[0] != '\0'
    &&& !occurs(text, "__session_ping_"@)
    &&& !occurs(text, "__heartbeat__"@)
}

/// The message that set up a session as responder is taken off the core's hands, kept, and shown,
/// under its own id and as it was written; then the session counts as set up, and the core is
/// told so.
#[verifier::rlimit(60)]
pub proof fn law_the_first_message_is_kept_and_shown(
    s: ActorView,
    contact_id: Seq<char>,
    bundle_json: Seq<char>,
    wire: Seq<u8>,
    plaintext: Seq<u8>,
    id: Seq<char>,
    ms: u64,
    at: u64,
)
    requires
        s.wait == (WaitView::InitPeek { contact_id, bundle_json }),
        plain_text(shown_text(plaintext)),
        ms <= i64::MAX,
    ensures
        ({
            let text = shown_text(plaintext);
            let (s1, _) = stepped(s, Answer::Payload(Some(wire)));
            let (s2, r2) = stepped(s1, Answer::Received(Ok(plaintext)));
            let (s3, r3) = stepped(s2, Answer::MaybeId(Some(id)));
            let (s4, r4) = stepped(s3, Answer::Nothing);
            let (s5, r5) = stepped(s4, Answer::Millis(ms));
            let (s6, r6) = stepped(s5, Answer::Flag(false));
            let (s7, r7) = stepped(s6, Answer::Nothing);
            let (s8, r8) = stepped(s7, Answer::Nothing);
            let (s9, r9) = stepped(s8, Answer::Millis(at));
            &&& r2 == Some(RequestView::PopPending(contact_id))
            &&& r3 is None
            &&& r4 == Some(RequestView::Now)
            &&& r5 matches Some(Request::StoreInbound(m)) && {
                &&& m.id == id
                &&& m.peer_id == contact_id
                &&& m.text == text
                &&& m.direction == "received"@
                &&& m.timestamp_ms == ms
            }
            &&& r6 is None
            &&& r7 == Some(
                RequestView::Notify(
                    BridgeEvent::NewMessage {
                        peer_id: contact_id,
                        message_id: id,
                        text,
                        timestamp_ms: ms as i64,
                    },
                ),
            )
            &&& r8 == Some(RequestView::Now)
            &&& r9 is None
            &&& s9.established == s.established.insert(contact_id, at)
            &&& s9.inited.contains(contact_id)
            &&& s9.agenda == s.agenda
            &&& !s.nested ==> s9.follow_ups == s.follow_ups.push(
                EventView::SessionInitCompleted { contact_id, session_data: Seq::empty() },
            )
        }),
{
    let (s1, _) = stepped(s, Answer::Payload(Some(wire)));
    let (s2, _) = stepped(s1, Answer::Received(Ok(plaintext)));
    let (s3, _) = stepped(s2, Answer::MaybeId(Some(id)));
    assert(s3.agenda.drop_last().drop_last() =~= s.agenda);
    let (s4, _) = stepped(s3, Answer::Nothing);
    let (s5, _) = stepped(s4, Answer::Millis(ms));
    let (s6, _) = stepped(s5, Answer::Flag(false));
    assert(s6.agenda.drop_last() =~= s4.agenda);
    let (s7, _) = stepped(s6, Answer::Nothing);
    assert(s7.agenda.drop_last() =~= s.agenda);
}

/// A message without an id of its own gets a fresh one; nothing else about it differs.
pub proof fn law_a_nameless_message_gets_an_id(
    s: ActorView,
    contact_id: Seq<char>,
    plaintext: Seq<u8>,
    heal: bool,
    id: Seq<char>,
)
    requires
        s.wait == (WaitView::Popped { contact_id, plaintext, heal }),
    ensures
        ({
            let (t, r) = stepped(s, Answer::MaybeId(None));
            &&& r == Some(RequestView::NewId)
            &&& stepped(t, Answer::Id(id)) == stepped(s, Answer::MaybeId(Some(id)))
        }),
{
}

/// A session that was set up as initiator counts as set up from then on, and the core is told;
/// one that could not be is reported, and nothing is noted.
pub proof fn law_an_initiator_reports_the_outcome(
    s: ActorView,
    contact_id: Seq<char>,
    at: u64,
    why: Seq<char>,
)
    requires
        s.wait == WaitView::Inited(contact_id),
    ensures
        ({
            let (s1, r1) = stepped(s, Answer::Inited(Ok(())));
            let (s2, r2) = stepped(s1, Answer::Nothing);
            let (s3, r3) = stepped(s2, Answer::Millis(at));
            &&& r1 is None
            &&& r2 == Some(RequestView::Now)
            &&& r3 is None
            &&& s3.established == s.established.insert(contact_id, at)
            &&& s3.inited.contains(contact_id)
            &&& s3.agenda == s.agenda
            &&& !s.nested ==> s3.follow_ups == s.follow_ups.push(
                EventView::SessionInitCompleted { contact_id, session_data: Seq::empty() },
            )
        }),
        ({
            let (t, r) = stepped(s, Answer::Inited(Err(why)));
            &&& r == Some(
                RequestView::Notify(BridgeEvent::Error("[SESSION_INIT_FAILED] "@ + why)),
            )
            &&& t == (ActorView { wait: Wait::Nothing, ..s })
        }),
{
    let (s1, _) = stepped(s, Answer::Inited(Ok(())));
    assert(s1.agenda.drop_last() =~= s.agenda);
}

// ── Healing a session ─────────────────────────────────────────────────────────

/// Healing as initiator: the contact is sent a reset, its bundle is fetched, the session is set
/// up with that bundle, and the core is told before a ping is to go out.
pub proof fn law_healing_as_initiator(
    s: ActorView,
    answer: AnswerView,
    contact_id: Seq<char>,
    reset_id: Seq<char>,
    bundle_json: Seq<char>,
    ping_id: Seq<char>,
)
    requires
        due(s, Task::Dispatch(Action::SessionHealNeeded { contact_id, role: "Initiator"@ })),
        !s.inited.contains(contact_id),
        !s.nested,
    ensures
        ({
            let (s1, r1) = stepped(s, answer);
            let (s2, r2) = stepped(s1, Answer::Id(reset_id));
            let (s3, r3) = stepped(s2, Answer::Nothing);
            let (s4, r4) = stepped(s3, Answer::Bundle(Ok(bundle_json)));
            let (s5, r5) = stepped(s4, Answer::Inited(Ok(())));
            let (s6, r6) = stepped(s5, Answer::Id(ping_id));
            &&& r1 == Some(RequestView::NewId)
            &&& r2 matches Some(Request::SendEnvelope(e)) && {
                &&& e.sender == Some(s.user)
                &&& e.sender_device == Some(s.device)
                &&& e.recipient == Some(contact_id)
                &&& e.content_type == 21
                &&& e.message_id_type == Some(MessageIdType::MessageId(reset_id))
                &&& e.encrypted_payload == Seq::new(16, |i: int| 0u8)
                &&& e.sealed_sender is None
            }
            &&& r3 == Some(RequestView::FetchBundle(contact_id))
            &&& r4 == Some(RequestView::InitInitiator { contact_id, bundle_json })
            &&& r5 == Some(RequestView::NewId)
            &&& r6 is None
            &&& s6.follow_ups == s.follow_ups.push(
                EventView::SessionInitCompleted { contact_id, session_data: Seq::empty() },
            ).push(
                EventView::OutgoingMessage {
                    contact_id,
                    message_id: ping_id,
                    plaintext: ping_frame(ping_id),
                    content_type: 0,
                },
            )
            &&& s6.agenda == s.agenda.drop_last()
        }),
{
    let (s1, _) = stepped(s, answer);
    let (s2, _) = stepped(s1, Answer::Id(reset_id));
    assert(s2.agenda.drop_last() =~= s.agenda.drop_last());
}

/// Healing as responder, which is any other role: the message that asked for it is taken, the
/// bundle is fetched, and the session is set up with both; where that fails, the contact is sent
/// a reset. Where there is no such message, there is nothing to do.
pub proof fn law_healing_as_responder(
    s: ActorView,
    answer: AnswerView,
    contact_id: Seq<char>,
    role: Seq<char>,
    wire: Seq<u8>,
    bundle_json: Seq<char>,
    plaintext: Seq<u8>,
    why: Seq<char>,
    id: Seq<char>,
)
    requires
        due(s, Task::Dispatch(Action::SessionHealNeeded { contact_id, role })),
        role != "Initiator"@,
        !s.inited.contains(contact_id),
    ensures
        ({
            let (s1, r1) = stepped(s, answer);
            let (s2, r2) = stepped(s1, Answer::Payload(Some(wire)));
            let (s3, r3) = stepped(s2, Answer::Bundle(Ok(bundle_json)));
            let (s4, r4) = stepped(s3, Answer::Received(Err(why)));
            let (s5, r5) = stepped(s4, Answer::Id(id));
            &&& r1 == Some(RequestView::TakeHealPayload(contact_id))
            &&& stepped(s1, Answer::Payload(None)) == (past(s), None::<RequestView>)
            &&& r2 == Some(RequestView::FetchBundle(contact_id))
            &&& stepped(s2, Answer::Bundle(Err(why))) == (past(s), None::<RequestView>)
            &&& r3 == Some(RequestView::InitReceiving { contact_id, bundle_json, wire })
            &&& stepped(s3, Answer::Received(Ok(plaintext))).1 == Some(
                RequestView::PopPending(contact_id),
            )
            &&& r4 == Some(RequestView::NewId)
            &&& r5 matches Some(Request::SendEnvelope(e)) && {
                &&& e.sender == Some(s.user)
                &&& e.sender_device == Some(s.device)
                &&& e.recipient == Some(contact_id)
                &&& e.content_type == 21
                &&& e.message_id_type == Some(MessageIdType::MessageId(id))
                &&& e.encrypted_payload == Seq::new(16, |i: int| 0u8)
            }
            &&& s5 == past(s)
        }),
{
}

/// After healing as responder the core is told, and a text that came with it is kept and shown
/// next, under its own id; a control message is not.
pub proof fn law_a_healed_session_shows_its_message(
    s: ActorView,
    contact_id: Seq<char>,
    plaintext: Seq<u8>,
    id: Seq<char>,
)
    requires
        s.wait == (WaitView::Popped { contact_id, plaintext, heal: true }),
        !s.nested,
    ensures
        ({
            let (t, r) = stepped(s, Answer::MaybeId(Some(id)));
            &&& r is None
            &&& t.follow_ups == s.follow_ups.push(
                EventView::SessionInitCompleted { contact_id, session_data: Seq::empty() },
            )
            &&& t.established == s.established
            &&& plain_text(shown_text(plaintext)) ==> t.agenda == s.agenda.push(
                Task::Surface { contact_id, message_id: id, text: shown_text(plaintext) },
            )
            &&& !plain_text(shown_text(plaintext)) ==> t.agenda == s.agenda
        }),
{
}

// ── Sending ───────────────────────────────────────────────────────────────────

/// What the core has encrypted for a user goes to that user, from this user and device, with the
/// payload and the id that the core gave.
pub proof fn law_an_encrypted_message_goes_to_its_recipient(
    s: ActorView,
    answer: AnswerView,
    to: Seq<char>,
    payload: Seq<u8>,
    message_id: Seq<char>,
    content_type: u8,
)
    requires
        due(
            s,
            Task::Dispatch(
                Action::SendEncryptedMessage { to, payload, message_id, content_type },
            ),
        ),
    ensures
        ({
            let (t, r) = stepped(s, answer);
            &&& r matches Some(Request::SendEnvelope(e)) && {
                &&& e.recipient == Some(to)
                &&& e.sender == Some(s.user)
                &&& e.sender_device == Some(s.device)
                &&& e.encrypted_payload == payload
                &&& e.message_id_type == Some(MessageIdType::MessageId(message_id))
                &&& e.sealed_sender is None
                &&& content_type == 12 || content_type == 20 || content_type == 21 || content_type
                    == 24 ==> e.content_type == content_type
                &&& content_type != 12 && content_type != 20 && content_type != 21 && content_type
                    != 24 ==> e.content_type == 1
            }
            &&& t == past(s)
        }),
{
}

/// The end of a session is told to the contact by an empty reset.
pub proof fn law_the_end_of_a_session_is_told(
    s: ActorView,
    answer: AnswerView,
    contact_id: Seq<char>,
)
    requires
        due(s, Task::Dispatch(Action::SendEndSession { contact_id })),
    ensures
        ({
            let (t, r) = stepped(s, answer);
            &&& r matches Some(Request::SendEnvelope(e)) && {
                &&& e.recipient == Some(contact_id)
                &&& e.sender == Some(s.user)
                &&& e.sender_device == Some(s.device)
                &&& e.content_type == 21
                &&& e.encrypted_payload.len() == 0
                &&& e.message_id_type == Some(
                    MessageIdType::MessageId("end-session-"@ + contact_id),
                )
            }
            &&& t == past(s)
        }),
{
}

/// Whatever the actor sends, it sends in its own user's and device's name, unsealed, and to the
/// contact that the step is about.
pub proof fn law_every_envelope_is_from_us(s: ActorView, answer: AnswerView)
    ensures
        stepped(s, answer).1 matches Some(Request::SendEnvelope(e)) ==> {
            &&& e.sender == Some(s.user)
            &&& e.sender_device == Some(s.device)
            &&& e.sealed_sender is None
            &&& {
                ||| s.wait matches Wait::HealReset(c) && e.recipient == Some(c)
                ||| s.wait matches Wait::HealEnd(c) && e.recipient == Some(c)
                ||| s.wait is Nothing && (s.agenda.last() matches Task::Dispatch(
                    Action::SendEncryptedMessage { to, .. },
                ) && e.recipient == Some(to))
                ||| s.wait is Nothing && (s.agenda.last() matches Task::Dispatch(
                    Action::SendEndSession { contact_id },
                ) && e.recipient == Some(contact_id))
            }
        },
{
}

/// A message to a contact with whom there is a session goes to the core at once, with its contact,
/// id and kind, and framed where it has to be.
pub proof fn law_a_message_goes_to_the_core(
    s: ActorView,
    answer: AnswerView,
    contact_id: Seq<char>,
    message_id: Seq<char>,
    plaintext: Seq<u8>,
    content_type: u8,
)
    requires
        due(
            s,
            Task::Prepare(
                IncomingEvent::OutgoingMessage { contact_id, message_id, plaintext, content_type },
            ),
        ),
    ensures
        ({
            let (s1, r1) = stepped(s, answer);
            let (s2, r2) = stepped(s1, Answer::Flag(true));
            let (s3, r3) = stepped(s2, Answer::Nothing);
            &&& r1 == Some(RequestView::HasSession(contact_id))
            &&& r2 is None
            &&& s2.agenda.last() matches Task::Round { keep, .. } && keep
            &&& r3 == Some(
                RequestView::Handle(
                    IncomingEvent::OutgoingMessage {
                        contact_id,
                        message_id,
                        plaintext: outgoing_plaintext(plaintext, message_id),
                        content_type,
                    },
                ),
            )
        }),
{
}

/// Without a session, the bundle of the contact is fetched and given to the core first. The
/// message goes to the core, unchanged, only when there is a session then; else the user is told
/// why not, and the message goes nowhere.
pub proof fn law_a_message_waits_for_its_session(
    s: ActorView,
    answer: AnswerView,
    contact_id: Seq<char>,
    message_id: Seq<char>,
    plaintext: Seq<u8>,
    content_type: u8,
    bundle_json: Seq<char>,
    why: Seq<char>,
)
    requires
        due(
            s,
            Task::Prepare(
                IncomingEvent::OutgoingMessage { contact_id, message_id, plaintext, content_type },
            ),
        ),
    ensures
        ({
            let (s1, r1) = stepped(s, answer);
            let (s2, r2) = stepped(s1, Answer::Flag(false));
            let (s3, r3) = stepped(s2, Answer::Nothing);
            let (s4, r4) = stepped(s3, Answer::Flag(false));
            let (s5, r5) = stepped(s4, Answer::Bundle(Ok(bundle_json)));
            let (s6, r6) = stepped(s5, Answer::Nothing);
            let (s7, r7) = stepped(s6, Answer::Actions(Seq::empty()));
            let (s8, r8) = stepped(s7, Answer::Nothing);
            let (s9, r9) = stepped(s8, Answer::Nothing);
            let (s10, r10) = stepped(s9, Answer::Flag(true));
            let (s11, r11) = stepped(s10, Answer::Nothing);
            let (t10, q10) = stepped(s9, Answer::Flag(false));
            let (t5, q5) = stepped(s4, Answer::Bundle(Err(why)));
            &&& r3 == Some(RequestView::HasSession(contact_id))
            &&& r4 == Some(RequestView::FetchBundle(contact_id))
            &&& q5 == Some(
                RequestView::Notify(
                    BridgeEvent::Error("[SESSION_INIT_FAILED] "@ + ("GetPreKeyBundle: "@ + why)),
                ),
            )
            &&& t5 == past(s)
            &&& s5.agenda.last() matches Task::Round { keep, .. } && keep
            &&& r6 == Some(
                RequestView::Handle(
                    IncomingEvent::KeyBundleFetched { user_id: contact_id, bundle_json },
                ),
            )
            &&& r9 == Some(RequestView::HasSession(contact_id))
            &&& r11 == Some(
                RequestView::Handle(
                    IncomingEvent::OutgoingMessage {
                        contact_id,
                        message_id,
                        plaintext: outgoing_plaintext(plaintext, message_id),
                        content_type,
                    },
                ),
            )
            &&& q10 == Some(
                RequestView::Notify(
                    BridgeEvent::Error(
                        "[SESSION_INIT_FAILED] "@ + "no session after InitSession"@,
                    ),
                ),
            )
            &&& t10.agenda == s.agenda.drop_last()
        }),
{
    let (s1, _) = stepped(s, answer);
    let (s2, _) = stepped(s1, Answer::Flag(false));
    assert(s2.agenda.drop_last() =~= s.agenda.drop_last());
    let (s3, _) = stepped(s2, Answer::Nothing);
    let (s4, _) = stepped(s3, Answer::Flag(false));
    let (s5, _) = stepped(s4, Answer::Bundle(Ok(bundle_json)));
    let purpose = Purpose::Message { message_id, plaintext, content_type };
    assert(s5.agenda.drop_last() =~= s.agenda.drop_last().push(
        Task::Confirm { contact_id, purpose },
    ));
    let (s6, _) = stepped(s5, Answer::Nothing);
    let (s7, _) = stepped(s6, Answer::Actions(Seq::empty()));
    assert(s7.agenda =~= s6.agenda);
    let (s8, _) = stepped(s7, Answer::Nothing);
    assert(s8.agenda =~= s5.agenda.drop_last());
    assert(s8.agenda.drop_last() =~= s.agenda.drop_last());
}

/// What goes out for a text is a frame that shows that text; what is a frame already, or begins
/// with a zero byte, goes out as it is.
pub proof fn law_text_goes_out_readable(text: Seq<char>, plaintext: Vec<u8>, id: &str, r: Vec<u8>)
    requires
        call_ensures(wrap_outgoing, (plaintext, id), r),
    ensures
        plaintext@.len() > 0 && plaintext@[0] == 0 ==> r@ == plaintext@,
        crate::knst::framed(plaintext@) ==> r@ == plaintext@,
        plaintext@ == vstd::utf8::encode_utf8(text) && !crate::knst::framed(plaintext@)
            && crate::proto::message_content_bytes(Some(text)).len() < 0x1_0000_0000 ==> shown_text(
            r@,
        ) == text,
        !(plaintext@.len() > 0 && plaintext@[0] == 0) ==> crate::knst::framed(r@),
{
    if plaintext@ == vstd::utf8::encode_utf8(text) && !crate::knst::framed(plaintext@)
        && crate::proto::message_content_bytes(Some(text)).len() < 0x1_0000_0000 {
        crate::orchestrator_task::law_sent_text_is_shown(text, id@);
    }
    crate::knst::lemma_framed(
        crate::proto::message_content_bytes(Some(crate::text::utf8_lossy(plaintext@))),
        1,
        id@,
    );
}

/// A heartbeat is a message of the actor to itself, for the contact, under a fresh id: the word
/// between two zero bytes, which is never framed.
pub proof fn law_a_heartbeat_goes_the_way_of_a_message(
    s: ActorView,
    answer: AnswerView,
    contact_id: Seq<char>,
    id: Seq<char>,
)
    requires
        due(s, Task::Dispatch(Action::SendHeartbeat { contact_id })),
    ensures
        ({
            let (s1, r1) = stepped(s, answer);
            let (s2, r2) = stepped(s1, Answer::Id(id));
            &&& r1 == Some(RequestView::NewId)
            &&& r2 matches Some(
                Request::Enqueue(
                    IncomingEvent::OutgoingMessage { contact_id: c, message_id, plaintext, .. },
                ),
            ) && {
                &&& c == contact_id
                &&& message_id == id
                &&& plaintext == seq![0u8, 72, 69, 65, 82, 84, 66, 69, 65, 84, 0]
                &&& outgoing_plaintext(plaintext, id) == plaintext
            }
            &&& s2 == past(s)
        }),
{
    let (s1, _) = stepped(s, answer);
    let (s2, r2) = stepped(s1, Answer::Id(id));
    assert(r2->0->Enqueue_0->OutgoingMessage_plaintext =~= seq![
        0u8,
        72,
        69,
        65,
        82,
        84,
        66,
        69,
        65,
        84,
        0,
    ]);
}

// ── Opening a chat ────────────────────────────────────────────────────────────

/// Opening a chat where there is a session tells the core of it, and sends nothing.
pub proof fn law_a_chat_with_a_session_opens(
    s: ActorView,
    answer: AnswerView,
    contact_id: Seq<char>,
    n: u64,
)
    requires
        due(s, Task::Prepare(IncomingEvent::ActiveChatChanged { contact_id, is_active: true })),
    ensures
        ({
            let (s1, r1) = stepped(s, answer);
            let (s2, r2) = stepped(s1, Answer::Count(n));
            let (s3, r3) = stepped(s2, Answer::Nothing);
            let (s4, r4) = stepped(s3, Answer::Flag(true));
            let (s5, r5) = stepped(s4, Answer::Nothing);
            &&& r1 == Some(RequestView::PendingCount(contact_id))
            &&& r2 is None
            &&& r3 == Some(RequestView::HasSession(contact_id))
            &&& r4 is None
            &&& r5 == Some(
                RequestView::Handle(
                    IncomingEvent::ActiveChatChanged { contact_id, is_active: true },
                ),
            )
            &&& s4.agenda.last() == (TaskView::Round {
                event: IncomingEvent::ActiveChatChanged { contact_id, is_active: true },
                keep: true,
            })
        }),
{
}

/// Opening a chat without a session sets one up first, with the bundle of that contact. If it
/// came about and nothing of the contact was held back, a ping goes out before the core is told
/// of the chat; if something was held back, the contact has written first and gets no ping. If it
/// did not come about, the user is told, and so is the core.
pub proof fn law_a_new_session_begins_with_a_ping(
    s: ActorView,
    answer: AnswerView,
    contact_id: Seq<char>,
    n: u64,
    bundle_json: Seq<char>,
    ping_id: Seq<char>,
)
    requires
        due(s, Task::Prepare(IncomingEvent::ActiveChatChanged { contact_id, is_active: true })),
    ensures
        ({
            let (s1, _) = stepped(s, answer);
            let (s2, _) = stepped(s1, Answer::Count(n));
            let (s3, _) = stepped(s2, Answer::Nothing);
            let (s4, r4) = stepped(s3, Answer::Flag(false));
            let (s5, r5) = stepped(s4, Answer::Bundle(Ok(bundle_json)));
            let (s6, r6) = stepped(s5, Answer::Nothing);
            let (s7, _) = stepped(s6, Answer::Actions(Seq::empty()));
            let (s8, _) = stepped(s7, Answer::Nothing);
            let (s9, r9) = stepped(s8, Answer::Nothing);
            let (s10, r10) = stepped(s9, Answer::Flag(true));
            let (s11, r11) = stepped(s10, Answer::Id(ping_id));
            let (s12, r12) = stepped(s11, Answer::Nothing);
            let (t10, q10) = stepped(s9, Answer::Flag(false));
            let opened = RequestView::Handle(
                IncomingEvent::ActiveChatChanged { contact_id, is_active: true },
            );
            &&& r4 == Some(RequestView::FetchBundle(contact_id))
            &&& r5 is None
            &&& r6 == Some(
                RequestView::Handle(
                    IncomingEvent::KeyBundleFetched { user_id: contact_id, bundle_json },
                ),
            )
            &&& r9 == Some(RequestView::HasSession(contact_id))
            &&& n > 0 ==> r10 is None && stepped(s10, Answer::Nothing).1 == Some(opened)
            &&& n == 0 ==> {
                &&& r10 == Some(RequestView::NewId)
                &&& r11 is None
                &&& r12 == Some(
                    RequestView::Handle(
                        IncomingEvent::OutgoingMessage {
                            contact_id,
                            message_id: ping_id,
                            plaintext: ping_frame(ping_id),
                            content_type: 0,
                        },
                    ),
                )
                &&& s11.agenda.last() matches Task::Round { keep, .. } && !keep
                &&& s11.agenda.drop_last().last() == (TaskView::Round {
                    event: IncomingEvent::ActiveChatChanged { contact_id, is_active: true },
                    keep: true,
                })
            }
            &&& q10 == Some(
                RequestView::Notify(
                    BridgeEvent::Error(
                        "[SESSION_INIT_FAILED] "@ + "no session after InitSession"@,
                    ),
                ),
            )
            &&& stepped(t10, Answer::Nothing).1 == Some(opened)
        }),
{
    let (s1, _) = stepped(s, answer);
    let (s2, _) = stepped(s1, Answer::Count(n));
    assert(s2.agenda.drop_last() =~= s.agenda.drop_last());
    let (s3, _) = stepped(s2, Answer::Nothing);
    let (s4, _) = stepped(s3, Answer::Flag(false));
    let (s5, _) = stepped(s4, Answer::Bundle(Ok(bundle_json)));
    let purpose = PurposeView::Chat { had_inbound: n > 0 };
    assert(s5.agenda.drop_last() =~= s.agenda.drop_last().push(
        Task::Confirm { contact_id, purpose },
    ));
    let (s6, _) = stepped(s5, Answer::Nothing);
    let (s7, _) = stepped(s6, Answer::Actions(Seq::empty()));
    assert(s7.agenda =~= s6.agenda);
    let (s8, _) = stepped(s7, Answer::Nothing);
    assert(s8.agenda =~= s5.agenda.drop_last());
}

// ── Keeping things ────────────────────────────────────────────────────────────

/// What the core wants kept, deleted, marked, timed or told is asked of the caller as the core
/// said it: the same key, the same data, the same id, the same time. Nothing else changes.
pub proof fn law_the_core_is_taken_at_its_word(s: ActorView, answer: AnswerView, action: ActionView)
    requires
        due(s, Task::Dispatch(action)),
    ensures
        ({
            let (t, r) = stepped(s, answer);
            match action {
                Action::SaveSessionToSecureStore { key, data } => r == Some(
                    RequestView::SecureSaveOrDelete { key, data },
                ) && t == past(s),
                Action::PersistMessage { message_json } => r == Some(
                    RequestView::PersistRecord(message_json),
                ) && t == past(s),
                Action::PersistAck { message_id, timestamp } => timestamp <= i64::MAX ==> r == Some(
                    RequestView::StoreAck { message_id, timestamp: timestamp as i64 },
                ) && t == past(s),
                Action::PruneAckStore { cutoff_ts } => cutoff_ts <= i64::MAX ==> r == Some(
                    RequestView::PruneAcks(cutoff_ts as i64),
                ) && t == past(s),
                Action::MarkMessageDelivered { message_id } => r == Some(
                    RequestView::MarkDelivered(message_id),
                ) && t == past(s),
                Action::FetchPublicKeyBundle { user_id } => r == Some(
                    RequestView::FetchBundleInBackground(user_id),
                ) && t == past(s),
                Action::NotifySessionCreated { contact_id } => r == Some(
                    RequestView::Notify(BridgeEvent::SessionReady { contact_id }),
                ) && t == past(s),
                Action::NotifyError { code, message } => r == Some(
                    RequestView::Notify(BridgeEvent::Error("["@ + code + "] "@ + message)),
                ) && t == past(s),
                Action::ScheduleTimer { timer_id, delay_ms } => r == Some(
                    RequestView::StartTimer { timer_id, delay_ms },
                ) && t == past(s),
                Action::CancelTimer { timer_id } => r == Some(RequestView::CancelTimer(timer_id))
                    && t == past(s),
                Action::HealSuppressed { retry_after_ms, .. } => r == Some(
                    RequestView::EnqueueLater {
                        delay_ms: retry_after_ms,
                        event: IncomingEvent::AppLaunched,
                    },
                ) && t == past(s),
                _ => true,
            }
        }),
{
}

/// What the core does itself, or only reports, needs nothing from anybody.
pub proof fn law_reports_of_the_core_need_nothing(
    s: ActorView,
    answer: AnswerView,
    action: ActionView,
)
    requires
        due(s, Task::Dispatch(action)),
        action is DecryptMessage || action is EncryptMessage || action is ApplyPQContribution
            || action is ArchiveSession || action is CallSignalDecrypted || action
            is EndSessionSuppressed || action is MessageQueuedPendingInit || action is SendReceipt
            || action is NotifyLinkedDevicesOfSessionReset,
    ensures
        stepped(s, answer) == (past(s), None::<RequestView>),
{
}

/// What the core asks of the store is answered to the core with what the store said, about the
/// very key or message.
pub proof fn law_the_store_answers_the_core(
    s: ActorView,
    answer: AnswerView,
    key: Seq<char>,
    data: Option<Seq<u8>>,
    known: bool,
)
    requires
        !s.nested,
    ensures
        due(s, Task::Dispatch(Action::LoadSessionFromSecureStore { key })) ==> {
            let (s1, r1) = stepped(s, answer);
            let (s2, r2) = stepped(s1, Answer::Payload(data));
            &&& r1 == Some(RequestView::SecureLoad(key))
            &&& r2 is None
            &&& s2 == (ActorView {
                follow_ups: s.follow_ups.push(IncomingEvent::SessionLoaded { key, data }),
                ..past(s)
            })
        },
        due(s, Task::Dispatch(Action::CheckAckInDb { message_id: key })) ==> {
            let (s1, r1) = stepped(s, answer);
            let (s2, r2) = stepped(s1, Answer::Flag(known));
            &&& r1 == Some(RequestView::HasAck(key))
            &&& r2 is None
            &&& s2 == (ActorView {
                follow_ups: s.follow_ups.push(
                    IncomingEvent::AckDbResult { message_id: key, is_processed: known },
                ),
                ..past(s)
            })
        },
{
}

/// A notice that the core gives is shown with the time at which it came.
pub proof fn law_a_preview_is_shown_with_the_time(
    s: ActorView,
    answer: AnswerView,
    chat_id: Seq<char>,
    preview: Seq<char>,
    ms: u64,
)
    requires
        due(s, Task::Dispatch(Action::NotifyNewMessage { chat_id, preview })),
        ms <= i64::MAX,
    ensures
        ({
            let (s1, r1) = stepped(s, answer);
            let (s2, r2) = stepped(s1, Answer::Millis(ms));
            &&& r1 == Some(RequestView::Now)
            &&& r2 == Some(
                RequestView::Notify(
                    BridgeEvent::NewMessage {
                        peer_id: chat_id,
                        message_id: Seq::empty(),
                        text: preview,
                        timestamp_ms: ms as i64,
                    },
                ),
            )
            &&& s2 == past(s)
        }),
{
}

/// A session that ended is archived before it is deleted, and it is deleted only when the archive
/// was kept. Either way it no longer counts as set up.
pub proof fn law_a_session_is_archived_before_it_goes(
    s: ActorView,
    answer: AnswerView,
    contact_id: Seq<char>,
    archive_bytes: Seq<u8>,
)
    requires
        due(s, Task::Dispatch(Action::SessionTerminated { contact_id, archive_bytes })),
    ensures
        ({
            let (s1, r1) = stepped(s, answer);
            let (kept, r2) = stepped(s1, Answer::Flag(true));
            let (lost, r3) = stepped(s1, Answer::Flag(false));
            &&& r1 == Some(
                RequestView::SecureSave { key: "archive_"@ + contact_id, data: archive_bytes },
            )
            &&& r2 == Some(RequestView::SecureDelete("session_"@ + contact_id))
            &&& r3 is None
            &&& kept == (ActorView { established: s.established.remove(contact_id), ..past(s) })
            &&& lost == kept
        }),
{
}

/// A decrypted text is kept under its own id and contact, and then shown; the watermark is offered
/// to the store in between, if the text was kept and stood in the stream.
pub proof fn law_a_decrypted_text_is_kept_and_shown(
    s: ActorView,
    answer: AnswerView,
    contact_id: Seq<char>,
    message_id: Seq<char>,
    plaintext: Seq<u8>,
    ms: u64,
)
    requires
        due(
            s,
            Task::Dispatch(Action::MessageDecrypted { contact_id, message_id, plaintext }),
        ),
        !silent_frame(plaintext),
        ms <= i64::MAX,
    ensures
        ({
            let text = shown_text(plaintext);
            let (s1, r1) = stepped(s, answer);
            let (s2, r2) = stepped(s1, Answer::Nothing);
            let (s3, r3) = stepped(s2, Answer::Millis(ms));
            let (s4, r4) = stepped(s3, Answer::Flag(true));
            let (t4, q4) = stepped(s3, Answer::Flag(false));
            let shown = Some(
                RequestView::Notify(
                    BridgeEvent::NewMessage {
                        peer_id: contact_id,
                        message_id,
                        text,
                        timestamp_ms: ms as i64,
                    },
                ),
            );
            &&& r1 is None
            &&& r2 == Some(RequestView::Now)
            &&& r3 matches Some(Request::StoreInbound(m)) && {
                &&& m.id == message_id
                &&& m.peer_id == contact_id
                &&& m.text == text
                &&& m.direction == "received"@
                &&& m.timestamp_ms == ms
            }
            &&& match cursor_of(s.cursor, message_id) {
                Some(c) => {
                    &&& r4 == Some(RequestView::SaveCursor(c))
                    &&& stepped(stepped(s4, Answer::Flag(true)).0, Answer::Nothing).1 == shown
                },
                None => r4 is None && stepped(s4, Answer::Nothing).1 == shown,
            }
            &&& q4 is None
            &&& t4.cursor == s.cursor
            &&& stepped(t4, Answer::Nothing).1 == shown
        }),
{
    let (s1, _) = stepped(s, answer);
    assert(s1.agenda.drop_last() =~= s.agenda.drop_last());
}

/// Forgetting a contact closes its chat for the core, has the core forget it, keeps the core's
/// state, and deletes its session and the archive of it; it no longer counts as set up.
pub proof fn law_a_forgotten_contact_leaves_nothing(
    s: ActorView,
    contact_id: Seq<char>,
    state: Seq<u8>,
)
    requires
        due(s, Task::ForgetContact(contact_id)),
    ensures
        ({
            let (s1, _) = stepped(s, Answer::Nothing);
            let (s2, r2) = stepped(s1, Answer::Nothing);
            let (s3, _) = stepped(s2, Answer::Actions(Seq::empty()));
            let (s4, _) = stepped(s3, Answer::Nothing);
            let (s5, r5) = stepped(s4, Answer::Nothing);
            let (s6, r6) = stepped(s5, Answer::Nothing);
            let (s7, r7) = stepped(s6, Answer::Payload(Some(state)));
            let (s8, r8) = stepped(s7, Answer::Nothing);
            let (s9, r9) = stepped(s8, Answer::Nothing);
            &&& r2 == Some(
                RequestView::Handle(
                    IncomingEvent::ActiveChatChanged { contact_id, is_active: false },
                ),
            )
            &&& r5 == Some(RequestView::ForgetContact(contact_id))
            &&& r6 == Some(RequestView::ExportState)
            &&& r7 == Some(
                RequestView::SecureSaveOrDelete {
                    key: "construct.orchestrator_state"@,
                    data: state,
                },
            )
            &&& r8 == Some(RequestView::SecureDelete("session_"@ + contact_id))
            &&& r9 == Some(RequestView::SecureDelete("archive_"@ + contact_id))
            &&& s9.established == s.established.remove(contact_id)
            &&& s9.agenda == s.agenda.drop_last()
            &&& s9.wait is Nothing
        }),
{
    let (s1, _) = stepped(s, Answer::Nothing);
    let rest = s.agenda.drop_last();
    let archive = TaskView::SecureDelete(archive_key(contact_id));
    let session = TaskView::SecureDelete(session_key(contact_id));
    assert(s1.agenda.drop_last() =~= rest.push(archive).push(session).push(Task::Export).push(
        Task::Forget(contact_id),
    ));
    let (s2, _) = stepped(s1, Answer::Nothing);
    let (s3, _) = stepped(s2, Answer::Actions(Seq::empty()));
    assert(s3.agenda =~= s2.agenda);
    let (s4, _) = stepped(s3, Answer::Nothing);
    assert(s4.agenda =~= s1.agenda.drop_last());
    assert(s4.agenda.drop_last() =~= rest.push(archive).push(session).push(Task::Export));
    let (s5, _) = stepped(s4, Answer::Nothing);
    assert(s5.agenda.drop_last() =~= rest.push(archive).push(session));
    let (s6, _) = stepped(s5, Answer::Nothing);
    let (s7, _) = stepped(s6, Answer::Payload(Some(state)));
    assert(s7.agenda.drop_last() =~= rest.push(archive));
    let (s8, _) = stepped(s7, Answer::Nothing);
    assert(s8.agenda.drop_last() =~= rest);
}

// ── Rounds ────────────────────────────────────────────────────────────────────

/// An event that needs no session goes to the core as it came.
pub proof fn law_other_events_go_straight_to_the_core(
    s: ActorView,
    answer: AnswerView,
    event: EventView,
)
    requires
        due(s, Task::Prepare(event)),
        event !is OutgoingMessage,
        event is ActiveChatChanged ==> !event->is_active,
    ensures
        ({
            let (s1, r1) = stepped(s, answer);
            &&& r1 is None
            &&& stepped(s1, Answer::Nothing).1 == Some(RequestView::Handle(event))
            &&& s1.agenda == s.agenda.drop_last().push(TaskView::Round { event, keep: true })
        }),
{
}

/// A message of the stream that is not stale is noted with its cursor, and goes to the core; a
/// stale one only has its cursor kept.
pub proof fn law_a_fresh_message_reaches_the_core(
    s: ActorView,
    answer: AnswerView,
    event: EventView,
    context: StreamMessageContext<Seq<char>>,
)
    requires
        due(s, Task::Stream { event, context }),
    ensures
        ({
            let (s1, r1) = stepped(s, answer);
            &&& !stale_replay(context, s.established) ==> {
                &&& r1 is None
                &&& stepped(s1, Answer::Nothing).1 == Some(RequestView::Handle(event))
                &&& s1.agenda == s.agenda.drop_last().push(TaskView::Round { event, keep: true })
                &&& context.stream_cursor matches Some(c) ==> (c.len() > 0 ==> cursor_of(
                    s1.cursor,
                    context.message_id,
                ) == Some(c))
                &&& s1.cursor.committed == s.cursor.committed
            }
            &&& stale_replay(context, s.established) ==> s1.cursor == s.cursor && (
            match context.stream_cursor {
                Some(c) => c.len() > 0 ==> r1 == Some(RequestView::SaveCursor(c)),
                None => r1 is None,
            })
        }),
{
}

proof fn lemma_cursor_time(ms: nat, rest: Seq<char>)
    ensures
        first_occurrence(decimal(ms) + "-"@ + rest, "-"@, decimal(ms).len() as int),
{
    reveal_strlit("-");
    crate::laws::numbers::lemma_decimal(ms);
    let c = decimal(ms) + "-"@ + rest;
    let n = decimal(ms).len() as int;
    assert(c.subrange(n, n + 1) =~= "-"@);
    assert forall|j: int| 0 <= j < n implies !occurs_at(c, "-"@, j) by {
        if occurs_at(c, "-"@, j) {
            assert(c.subrange(j, j + 1)[0] == '-');
            assert(crate::text::is_ascii_digit(decimal(ms)[j]));
        }
    }
}

/// The time of a message is the number in front of its cursor; and a message is stale exactly if
/// it could set up or tear down a session, there is one with its sender, and the message is older
/// than that.
pub proof fn law_stale_is_older_than_the_session(
    c: StreamMessageContext<Seq<char>>,
    established: Map<Seq<char>, u64>,
    ms: u64,
    rest: Seq<char>,
)
    requires
        c.stream_cursor == Some(decimal(ms as nat) + "-"@ + rest),
    ensures
        cursor_millis(c.stream_cursor) == Some(ms),
        stale_replay(c, established) <==> {
            &&& c.msg_num == 0 || c.content_type == 21 || c.content_type == 24
            &&& established.contains_key(c.contact_id)
            &&& ms < established[c.contact_id]
        },
{
    lemma_cursor_time(ms as nat, rest);
    let s = decimal(ms as nat) + "-"@ + rest;
    let n = decimal(ms as nat).len() as int;
    crate::text::lemma_first_occurrence(s, "-"@, n);
    assert(s.take(n) =~= decimal(ms as nat));
    crate::laws::numbers::law_decimal_is_read_back(ms as nat);
}

/// A message whose cursor has no time, or that has no cursor, is never stale.
pub proof fn law_without_a_time_nothing_is_stale(
    c: StreamMessageContext<Seq<char>>,
    established: Map<Seq<char>, u64>,
)
    requires
        c.stream_cursor matches Some(t) ==> !occurs(t, "-"@),
    ensures
        !stale_replay(c, established),
{
}

/// The actions that the core answers with are carried out next, in their order, before anything
/// else that is to be done.
pub proof fn law_the_answer_of_the_core_comes_next(s: ActorView, actions: Seq<ActionView>, i: int)
    requires
        s.wait is Actions,
        0 <= i < actions.len(),
    ensures
        ({
            let (t, r) = stepped(s, Answer::Actions(actions));
            &&& r is None
            &&& t.agenda.len() == s.agenda.len() + actions.len()
            &&& t.agenda[t.agenda.len() - 1 - i] == TaskView::Dispatch(actions[i])
            &&& t.agenda.take(s.agenda.len() as int) == s.agenda
        }),
{
    crate::orchestrator_task::law_actions_run_in_order(
        ActorView { wait: Wait::Nothing, ..s },
        actions,
        i,
    );
}

/// A round starts with nothing to follow up and no session set up in it. At its end, what its
/// actions left goes to the core in order, unless it is dropped; and from then on nothing more is
/// followed up.
pub proof fn law_a_round_ends_with_its_follow_ups(
    s: ActorView,
    answer: AnswerView,
    event: EventView,
    keep: bool,
    i: int,
)
    ensures
        due(s, Task::Round { event, keep }) ==> {
            let (t, r) = stepped(s, answer);
            &&& r == Some(RequestView::Handle(event))
            &&& t.follow_ups.len() == 0
            &&& t.inited == Set::<Seq<char>>::empty()
            &&& !t.nested
            &&& t.agenda == s.agenda.drop_last().push(Task::EndRound { keep })
        },
        due(s, Task::EndRound { keep }) ==> {
            let (t, r) = stepped(s, answer);
            &&& r is None
            &&& t.nested
            &&& t.follow_ups.len() == 0
            &&& !keep ==> t.agenda == s.agenda.drop_last()
            &&& keep ==> t.agenda.len() == s.agenda.len() - 1 + s.follow_ups.len()
            &&& keep && 0 <= i < s.follow_ups.len() ==> t.agenda[t.agenda.len() - 1 - i]
                == TaskView::Handle(s.follow_ups[i])
        },
{
    if due(s, Task::EndRound { keep }) && !keep {
        assert(stepped(s, answer).0.agenda =~= s.agenda.drop_last());
    }
}

/// Whether an answer is of the kind that is waited for.
pub open spec fn of_kind(wait: WaitView, answer: AnswerView) -> bool {
    match wait {
        Wait::Nothing => false,
        Wait::Actions => answer is Actions,
        Wait::InitCount { .. } | Wait::ChatCount(_) => answer is Count,
        Wait::InitPeek { .. } | Wait::HealPayload(_) | Wait::Loaded(_) | Wait::Exported => answer
            is Payload,
        Wait::Inited(_) | Wait::HealInited(_) => answer is Inited,
        Wait::Received { .. } => answer is Received,
        Wait::Popped { .. } => answer is MaybeId,
        Wait::Named { .. } | Wait::HealReset(_) | Wait::HealPing(_) | Wait::HealEnd(_)
        | Wait::Heartbeat(_) | Wait::ChatPing(_) => answer is Id,
        Wait::SurfaceAt { .. } | Wait::Established(_) | Wait::NotifyNew { .. } => answer is Millis,
        Wait::Stored(_) | Wait::Cursor(_) | Wait::AckChecked(_) | Wait::Archived(_)
        | Wait::SendCheck { .. } | Wait::EstablishCheck { .. } | Wait::Confirm { .. } => answer
            is Flag,
        Wait::HealBundle(_) | Wait::HealRespond { .. } | Wait::EstablishBundle { .. } => answer
            is Bundle,
    }
}

/// An answer of a kind that was not waited for ends the matter, and changes nothing.
pub proof fn law_a_wrong_answer_changes_nothing(s: ActorView, answer: AnswerView)
    requires
        s.wait !is Nothing,
        !of_kind(s.wait, answer),
    ensures
        stepped(s, answer) == (ActorView { wait: Wait::Nothing, ..s }, None::<RequestView>),
{
}

/// Where a session cannot be healed, a message cannot be decrypted while one is set up, a text
/// cannot be kept, or the core has no state to keep, nothing more is done about it.
pub proof fn law_such_failures_are_passed_over(s: ActorView, why: Seq<char>)
    ensures
        ({
            let done = (ActorView { wait: Wait::Nothing, ..s }, None::<RequestView>);
            &&& s.wait is HealBundle ==> stepped(s, Answer::Bundle(Err(why))) == done
            &&& s.wait is HealInited ==> stepped(s, Answer::Inited(Err(why))) == done
            &&& s.wait matches Wait::Received { heal, .. } ==> (!heal ==> stepped(
                s,
                Answer::Received(Err(why)),
            ) == done)
            &&& s.wait is Stored ==> stepped(s, Answer::Flag(false)) == done
            &&& s.wait is Exported ==> stepped(s, Answer::Payload(None)) == done
        }),
{
}

/// Who the actor is never changes; which sessions count as set up changes only when one was set
/// up, ended or was forgotten, and then for that contact alone.
pub proof fn law_sessions_are_noted_one_by_one(s: ActorView, answer: AnswerView)
    ensures
        ({
            let t = stepped(s, answer).0;
            &&& t.user == s.user
            &&& t.device == s.device
            &&& t.established == s.established || {
                ||| s.wait matches Wait::Established(c) && (answer matches Answer::Millis(ms)
                    && t.established == s.established.insert(c, ms))
                ||| s.wait matches Wait::Archived(c) && t.established == s.established.remove(c)
                ||| s.wait is Nothing && s.agenda.len() > 0 && (s.agenda.last() matches
                    Task::Forget(c) && t.established == s.established.remove(c))
            }
        }),
{
}

/// The names under which the core's things are kept.
pub proof fn law_things_are_kept_under_their_names(contact_id: Seq<char>, other: Seq<char>)
    ensures
        session_key(contact_id) == "session_"@ + contact_id,
        archive_key(contact_id) == "archive_"@ + contact_id,
        STATE_KEY@ == "construct.orchestrator_state"@,
        session_key(contact_id) != archive_key(other),
        session_key(contact_id) != STATE_KEY@,
        archive_key(contact_id) != STATE_KEY@,
        contact_id != other ==> session_key(contact_id) != session_key(other) && archive_key(
            contact_id,
        ) != archive_key(other),
{
    reveal_strlit("session_");
    reveal_strlit("archive_");
    reveal_strlit("construct.orchestrator_state");
    assert(session_key(contact_id)[0] == 's');
    assert(archive_key(contact_id)[0] == 'a');
    assert(archive_key(other)[0] == 'a');
    assert(session_key(contact_id).skip(8) =~= contact_id);
    assert(session_key(other).skip(8) =~= other);
    assert(archive_key(contact_id).skip(8) =~= contact_id);
    assert(archive_key(other).skip(8) =~= other);
}

/// A bundle that was fetched in the background goes to the actor, under the user that it is of;
/// one that could not be had is told of, with the reason.
pub proof fn law_a_fetched_bundle_reaches_the_actor(
    user_id: String,
    result: Result<String, String>,
    r: Request,
)
    requires
        call_ensures(bundle_fetched, (user_id, result), r),
    ensures
        result matches Ok(bundle) ==> r@ == RequestView::Enqueue(
            IncomingEvent::KeyBundleFetched { user_id: user_id@, bundle_json: bundle@ },
        ),
        result matches Err(why) ==> r@ == RequestView::Notify(
            BridgeEvent::Error("[PREKEY_BUNDLE] "@ + why@),
        ),
{
}

proof fn lemma_low_bits(six: u8, eight: u8)
    ensures
        (six % 16 + 64) as u8 == six % 16 + 64,
        (six % 16 + 64) as u8 % 16 == six % 16,
        (six % 16 + 64) as u8 / 16 == 4,
        (eight % 64 + 128) as u8 == eight % 64 + 128,
        (eight % 64 + 128) as u8 % 64 == eight % 64,
        (eight % 64 + 128) as u8 / 64 == 2,
{
}

/// A fresh id is a random UUID: it has the version and the variant of one, and else the random
/// bits that it was made of.
pub proof fn law_a_fresh_id_is_a_random_uuid(random: [u8; 16], r: String, i: int)
    requires
        call_ensures(uuid_from_random, (random,), r),
    ensures
        uuid_parsed(r@) matches Some(b) && {
            &&& random_uuid(b)
            &&& b[6] % 16 == random@[6] % 16
            &&& b[8] % 64 == random@[8] % 64
            &&& 0 <= i < 16 && i != 6 && i != 8 ==> b[i] == random@[i]
        },
{
    let b = crate::orchestrator_task::as_random_uuid(random@);
    lemma_low_bits(random@[6], random@[8]);
    assert(b.len() == 16);
    assert(b[6] == (random@[6] % 16 + 64) as u8);
    assert(b[8] == (random@[8] % 64 + 128) as u8);
    assert(0 <= i < 16 && i != 6 && i != 8 ==> b[i] == random@[i]);
    assert(uuid_parsed(r@) == Some(b)) by {
        crate::encoding::lemma_uuid_round_trip(b);
    }
}

} // verus!
