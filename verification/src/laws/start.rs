//! Bringing the core up, and passing on what the stream brings.

use crate::bridge::BridgeEvent;
use crate::envelope::InboundEnvelope;
use crate::orchestration::IncomingEvent;
use crate::startup::{
    first_upload, relay_message, relay_stream_event, start_step, KeyUpload, Relay, StartAnswer,
    StartAnswerView, StartPhase, StartRequestView, StartupView, WireHeader,
};
use crate::storage::{saved_or_deleted, StorageView};
use crate::streaming::{
    committed_view, noted, stored_cursor, usable_cursor, CursorView, StreamEvent,
};
use crate::text::signed_decimal;
use vstd::prelude::*;

verus! {

/// The core is made, the store is opened, the contacts are listed, and the core is given its
/// state back, in this order; a state that is empty or missing is passed over, and one that the
/// core does not take does not stop the start.
pub proof fn law_the_start_has_its_order(
    s: StartupView,
    contact_ids: Seq<Seq<char>>,
    state: Seq<u8>,
    outcome: Result<(), Seq<char>>,
)
    requires
        s.phase == StartPhase::Building,
        0 < contact_ids.len() <= usize::MAX,
        state.len() > 0,
    ensures
        ({
            let (s1, r1) = start_step(s, StartAnswer::Done(Ok(())));
            let (s2, r2) = start_step(s1, StartAnswer::Done(Ok(())));
            let (s3, r3) = start_step(s2, StartAnswer::Contacts(contact_ids));
            let (s4, r4) = start_step(s3, StartAnswer::Secret(Some(state)));
            let (s5, r5) = start_step(s4, StartAnswer::Done(outcome));
            let (t4, q4) = start_step(s3, StartAnswer::Secret(None));
            let (u4, v4) = start_step(s3, StartAnswer::Secret(Some(Seq::empty())));
            let first = StartRequestView::LoadSecret("archive_"@ + contact_ids[0]);
            &&& r1 == Some(StartRequestView::OpenStore)
            &&& r2 == Some(StartRequestView::ListContacts)
            &&& r3 == Some(StartRequestView::LoadSecret("construct.orchestrator_state"@))
            &&& r4 == Some(StartRequestView::ImportState(state))
            &&& r5 == Some(first)
            &&& q4 == Some(first)
            &&& v4 == Some(first)
            &&& s5.contact_ids == contact_ids
        }),
{
}

/// A core that cannot be made, or a store that cannot be opened, ends the start with the reason.
pub proof fn law_a_failed_start_says_why(s: StartupView, why: Seq<char>)
    ensures
        s.phase == StartPhase::Building ==> start_step(s, StartAnswer::Done(Err(why))) == (
            StartupView { phase: StartPhase::Finished, ..s },
            Some(StartRequestView::GiveUp("Orchestrator init error: "@ + why)),
        ),
        s.phase == StartPhase::Opening ==> start_step(s, StartAnswer::Done(Err(why))) == (
            StartupView { phase: StartPhase::Finished, ..s },
            Some(StartRequestView::GiveUp("Storage open error: "@ + why)),
        ),
{
}

/// Of each contact the archive is fed first and then the session, each under its name and as it
/// was kept, also where nothing was kept; after the last contact the stream worker is started for
/// all of them, with a hundred one-time keys.
pub proof fn law_a_contact_is_fed_archive_first(
    s: StartupView,
    contact: usize,
    archive: Option<Seq<u8>>,
    session: Option<Seq<u8>>,
    outcome: Result<(), Seq<char>>,
)
    requires
        s.phase == (StartPhase::Loading { contact, session: false }),
        contact < s.contact_ids.len() <= usize::MAX,
    ensures
        ({
            let id = s.contact_ids[contact as int];
            let (s1, r1) = start_step(s, StartAnswer::Secret(archive));
            let (s2, r2) = start_step(s1, StartAnswer::Done(outcome));
            let (s3, r3) = start_step(s2, StartAnswer::Secret(session));
            let (s4, r4) = start_step(s3, StartAnswer::Done(outcome));
            &&& r1 == Some(
                StartRequestView::Feed(
                    IncomingEvent::SessionLoaded { key: "archive_"@ + id, data: archive },
                ),
            )
            &&& r2 == Some(StartRequestView::LoadSecret("session_"@ + id))
            &&& r3 == Some(
                StartRequestView::Feed(
                    IncomingEvent::SessionLoaded { key: "session_"@ + id, data: session },
                ),
            )
            &&& contact + 1 < s.contact_ids.len() ==> r4 == Some(
                StartRequestView::LoadSecret("archive_"@ + s.contact_ids[contact + 1]),
            )
            &&& contact + 1 == s.contact_ids.len() ==> r4 == Some(
                StartRequestView::Launch { contact_ids: s.contact_ids, one_time_keys: 100 },
            )
            &&& s4.contact_ids == s.contact_ids
        }),
{
}

/// What the start waits for.
pub open spec fn start_waits_for(phase: StartPhase, answer: StartAnswerView) -> bool {
    match phase {
        StartPhase::Building | StartPhase::Opening | StartPhase::ImportingState => answer is Done,
        StartPhase::Feeding { .. } => answer is Done,
        StartPhase::Listing => answer is Contacts,
        StartPhase::LoadingState => answer is Secret,
        StartPhase::Loading { .. } => answer is Secret,
        StartPhase::Finished => false,
    }
}

/// A report that is not waited for changes nothing; one that is waited for always leads on.
pub proof fn law_the_start_goes_step_by_step(s: StartupView, answer: StartAnswerView)
    ensures
        !start_waits_for(s.phase, answer) ==> start_step(s, answer) == (
            s,
            None::<StartRequestView>,
        ),
        start_waits_for(s.phase, answer) ==> start_step(s, answer).1 is Some,
{
}

/// The keys that were made are uploaded for the device, all of them, beside those that the server
/// has; nothing is uploaded where none were made.
pub proof fn law_one_time_keys_are_added(
    device_id: &str,
    keys: Vec<(u32, Vec<u8>)>,
    r: Option<KeyUpload>,
)
    requires
        call_ensures(first_upload, (device_id, keys), r),
    ensures
        keys@.len() > 0 ==> (r matches Some(u) && u.device_id@ == device_id@ && u.keys@ == keys@
            && !u.replace_existing),
        keys@.len() == 0 ==> r is None,
{
}

/// What the stream brings goes where it belongs, with what came with it: a message is opened, an
/// acknowledgement is noted and told to the core, the state of the stream is shown, a refused
/// token is refreshed.
pub proof fn law_stream_events_go_where_they_belong(event: StreamEvent, r: Relay)
    requires
        call_ensures(relay_stream_event, (event,), r),
    ensures
        event matches StreamEvent::Message { envelope: e, stream_cursor: c } ==> (r matches
            Relay::Open { envelope, stream_cursor } && envelope == e && stream_cursor == c),
        event matches StreamEvent::Ack { message_id: id, stream_cursor: c } ==> (r matches
            Relay::NoteAndTell { message_id, stream_cursor, event: told } && message_id == id
            && stream_cursor == c && (told matches IncomingEvent::AckReceived { message_id: m }
            && m == id)),
        event is Heartbeat ==> r is Nothing,
        event is Connected ==> r is Online,
        event is AuthRequired ==> r is RefreshToken,
        event is Disconnected ==> (r matches Relay::Screen(
            BridgeEvent::StreamStatus { connected },
        ) && !connected),
        event matches StreamEvent::Reconnecting { attempt: n, delay_ms: ms } ==> (r matches
            Relay::Screen(BridgeEvent::StreamReconnecting { attempt, delay_ms }) && attempt == n
            && delay_ms == ms),
        event matches StreamEvent::StreamError {
            message_id: id,
            error_code: code,
            error_message: text,
            ..
        } ==> (r matches Relay::Screen(BridgeEvent::Error(m)) && {
            &&& id@.len() > 0 ==> m@ == "Stream error for "@ + id@ + ": "@ + text@
            &&& id@.len() == 0 ==> m@ == "Stream error "@ + signed_decimal(code as int) + ": "@
                + text@
        }),
{
}

/// A message that was opened is noted with its cursor and told to the core, with its sender, its
/// payload and the header in front of it; session resets, and nothing else, are control messages.
pub proof fn law_an_opened_message_reaches_the_core(
    inbound: InboundEnvelope,
    header: WireHeader,
    cursor: Option<String>,
    r: Relay,
)
    requires
        call_ensures(relay_message, (inbound, header, cursor), r),
    ensures
        r matches Relay::NoteAndTell { message_id, stream_cursor, event } && {
            &&& message_id@ == inbound@.message_id
            &&& stream_cursor == cursor
            &&& event@ matches IncomingEvent::MessageReceived {
                message_id: id,
                from,
                data,
                msg_num,
                kem_ct,
                otpk_id,
                is_control,
                content_type,
            } && {
                &&& id == inbound@.message_id
                &&& from == inbound@.from
                &&& data == inbound@.wire_payload
                &&& msg_num == header.message_number
                &&& header.kem_ciphertext matches Some(k) ==> kem_ct == k@
                &&& header.kem_ciphertext is None ==> kem_ct.len() == 0
                &&& otpk_id == header.one_time_prekey_id
                &&& content_type == inbound@.content_type
                &&& is_control <==> content_type == 21 || content_type == 24
            }
        },
{
}

// ── The store ─────────────────────────────────────────────────────────────────

/// Something that is kept is there, under its key; nothing to keep leaves nothing there. Other
/// keys and the cursor are not touched.
pub proof fn law_keeping_nothing_deletes(
    s: StorageView,
    key: Seq<char>,
    data: Seq<u8>,
    other: Seq<char>,
)
    requires
        other != key,
    ensures
        ({
            let t = saved_or_deleted(s, key, data);
            &&& data.len() > 0 ==> t.secure.contains_key(key) && t.secure[key] == data
            &&& data.len() == 0 ==> !t.secure.contains_key(key)
            &&& t.secure.contains_key(other) == s.secure.contains_key(other)
            &&& t.secure.contains_key(other) ==> t.secure[other] == s.secure[other]
            &&& t.cursor == s.cursor
        }),
{
}

/// A cursor that is kept is the one that the store has then, and the secrets stay; without a
/// cursor nothing changes. An empty cursor is none.
pub proof fn law_the_store_has_the_last_cursor(s: StorageView, v: CursorView, c: Seq<char>)
    ensures
        stored_cursor(s, Some(c)).cursor == Some(c),
        stored_cursor(s, Some(c)).secure == s.secure,
        stored_cursor(s, None) == s,
        committed_view(v, Some(c)).committed == Some(c),
        committed_view(v, Some(c)).pending == v.pending,
        committed_view(v, None) == v,
        c.len() > 0 ==> usable_cursor(Some(c)) == Some(c),
        c.len() == 0 ==> usable_cursor(Some(c)) is None,
        usable_cursor(None) is None,
{
}

/// A note stands for one message: noting another leaves it, and an empty cursor is not noted.
pub proof fn law_notes_are_independent(
    v: CursorView,
    message_id: Seq<char>,
    other: Seq<char>,
    c: Seq<char>,
)
    ensures
        c.len() > 0 ==> noted(v, message_id, Some(c)).pending.contains_key(message_id) && noted(
            v,
            message_id,
            Some(c),
        ).pending[message_id] == c,
        other != message_id ==> noted(v, message_id, Some(c)).pending.contains_key(other)
            == v.pending.contains_key(other),
        other != message_id && v.pending.contains_key(other) ==> noted(
            v,
            message_id,
            Some(c),
        ).pending[other] == v.pending[other],
        c.len() == 0 ==> noted(v, message_id, Some(c)) == v,
        noted(v, message_id, None) == v,
{
}

} // verus!
