//! Bringing the core up after sign-in, and passing stream events on to it.
//!
//! `Startup` decides; the caller opens the store, feeds the core and reports back.

use crate::bridge::BridgeEvent;
use crate::config::Session;
use crate::encoding::{hex_decode, hex_decoded, hex_error_text};
use crate::envelope::{opt_view, Envelope, InboundEnvelope};
use crate::orchestration::{EventView, IncomingEvent};
use crate::orchestrator_task::{archive_key, session_key, STATE_KEY};
use crate::streaming::{texts, StreamEvent};
use crate::text::{format_i64, join, signed_decimal};
use vstd::prelude::*;

verus! {

// ── Bringing the core up ──────────────────────────────────────────────────────

/// How many one-time keys are made at the start.
pub const ONE_TIME_KEYS: u32 = 100;

/// What the caller has to do.
#[derive(Debug)]
pub enum StartRequest<T = String, B = Vec<u8>, L = Vec<String>> {
    /// Make the core from its private keys: `StartAnswer::Done`.
    BuildCore { identity: B, signing: B, prekey: B, prekey_signature: B },
    /// Open the store: `StartAnswer::Done`.
    OpenStore,
    /// The contacts in the store: `StartAnswer::Contacts`.
    ListContacts,
    /// A secret in the store: `StartAnswer::Secret`.
    LoadSecret(T),
    /// Give the core its state back: `StartAnswer::Done`.
    ImportState(B),
    /// Hand an event to the core, whose actions are dropped: `StartAnswer::Done`.
    Feed(IncomingEvent<T, B>),
    /// Start the stream worker for these contacts, and the actor.
    Launch { contact_ids: L, one_time_keys: u32 },
    /// Give up, with a word to the user.
    GiveUp(T),
}

/// What the caller reports.
#[derive(Debug)]
pub enum StartAnswer<T = String, B = Vec<u8>, L = Vec<String>> {
    Done(Result<(), T>),
    /// The ids of the contacts; none when they cannot be read.
    Contacts(L),
    /// A secret; `None` also when it cannot be read.
    Secret(Option<B>),
}

/// How far it is.
#[derive(Debug, Clone, Copy, PartialEq, Eq, Structural)]
pub enum StartPhase {
    Building,
    Opening,
    Listing,
    LoadingState,
    ImportingState,
    /// A secret of the contact with this number is being loaded: the session, or the archive.
    Loading { contact: usize, session: bool },
    /// It is being fed to the core.
    Feeding { contact: usize, session: bool },
    Finished,
}

pub type StartRequestView = StartRequest<Seq<char>, Seq<u8>, Seq<Seq<char>>>;

pub type StartAnswerView = StartAnswer<Seq<char>, Seq<u8>, Seq<Seq<char>>>;

impl View for StartRequest<String, Vec<u8>, Vec<String>> {
    type V = StartRequestView;

    open spec fn view(&self) -> StartRequestView {
        match self {
            StartRequest::BuildCore { identity, signing, prekey, prekey_signature } =>
                StartRequest::BuildCore {
                identity: identity@,
                signing: signing@,
                prekey: prekey@,
                prekey_signature: prekey_signature@,
            },
            StartRequest::OpenStore => StartRequest::OpenStore,
            StartRequest::ListContacts => StartRequest::ListContacts,
            StartRequest::LoadSecret(key) => StartRequest::LoadSecret(key@),
            StartRequest::ImportState(data) => StartRequest::ImportState(data@),
            StartRequest::Feed(event) => StartRequest::Feed(event@),
            StartRequest::Launch { contact_ids, one_time_keys } => StartRequest::Launch {
                contact_ids: texts(contact_ids@),
                one_time_keys: *one_time_keys,
            },
            StartRequest::GiveUp(m) => StartRequest::GiveUp(m@),
        }
    }
}

impl View for StartAnswer<String, Vec<u8>, Vec<String>> {
    type V = StartAnswerView;

    open spec fn view(&self) -> StartAnswerView {
        match self {
            StartAnswer::Done(Ok(())) => StartAnswer::Done(Ok(())),
            StartAnswer::Done(Err(e)) => StartAnswer::Done(Err(e@)),
            StartAnswer::Contacts(ids) => StartAnswer::Contacts(texts(ids@)),
            StartAnswer::Secret(data) => StartAnswer::Secret(opt_view(*data)),
        }
    }
}

/// The core is being brought up.
pub struct Startup {
    phase: StartPhase,
    contact_ids: Vec<String>,
    /// The key of the secret that was asked for.
    key: String,
}

#[verifier::ext_equal]
pub struct StartupView {
    pub phase: StartPhase,
    pub contact_ids: Seq<Seq<char>>,
}

impl View for Startup {
    type V = StartupView;

    closed spec fn view(&self) -> StartupView {
        StartupView { phase: self.phase, contact_ids: texts(self.contact_ids@) }
    }
}

impl Startup {
    /// The key that was asked for is the one that the phase says.
    pub closed spec fn wf(&self) -> bool {
        &&& phase_fits(self@)
        &&& self.phase matches StartPhase::Loading { contact, session } ==> self.key@ == secret_key(
            self@.contact_ids,
            contact as int,
            session,
        )
    }
}

/// The contact that the phase speaks of is there.
pub open spec fn phase_fits(s: StartupView) -> bool {
    match s.phase {
        StartPhase::Loading { contact, .. } => contact < s.contact_ids.len(),
        StartPhase::Feeding { contact, .. } => contact < s.contact_ids.len(),
        _ => true,
    }
}

/// The secrets of a contact: the archive, which is loaded first, and the session.
pub open spec fn secret_key(contact_ids: Seq<Seq<char>>, contact: int, session: bool) -> Seq<char> {
    if session {
        session_key(contact_ids[contact])
    } else {
        archive_key(contact_ids[contact])
    }
}

/// The hexadecimal keys in a session, in the order in which they are read; the first that
/// cannot be read ends it.
pub open spec fn start_from_session(s: Session) -> (StartPhase, StartRequestView) {
    let fail = |t: Seq<char>|
        (
            StartPhase::Finished,
            StartRequestView::GiveUp("Orchestrator key decode error: "@ + hex_error_text(t)),
        );
    match hex_decoded(s.identity_key_hex@) {
        None => fail(s.identity_key_hex@),
        Some(identity) => match hex_decoded(s.signing_key_hex@) {
            None => fail(s.signing_key_hex@),
            Some(signing) => match hex_decoded(s.spk_key_hex@) {
                None => fail(s.spk_key_hex@),
                Some(prekey) => match hex_decoded(s.spk_sig_hex@) {
                    None => fail(s.spk_sig_hex@),
                    Some(prekey_signature) => (
                        StartPhase::Building,
                        StartRequest::BuildCore { identity, signing, prekey, prekey_signature },
                    ),
                },
            },
        },
    }
}

pub open spec fn to_phase(s: StartupView, phase: StartPhase, r: StartRequestView) -> (
    StartupView,
    Option<StartRequestView>,
) {
    (StartupView { phase, ..s }, Some(r))
}

/// A secret of the contact with a number, or the launch when there is no such contact.
pub open spec fn load_secret(s: StartupView, contact: int, session: bool) -> (
    StartupView,
    Option<StartRequestView>,
) {
    if contact < s.contact_ids.len() {
        to_phase(
            s,
            StartPhase::Loading { contact: contact as usize, session },
            StartRequest::LoadSecret(secret_key(s.contact_ids, contact, session)),
        )
    } else {
        to_phase(
            s,
            StartPhase::Finished,
            StartRequest::Launch { contact_ids: s.contact_ids, one_time_keys: ONE_TIME_KEYS },
        )
    }
}

/// What follows a report. A failure to make the core or to open the store ends it; one that
/// does not fit changes nothing.
pub open spec fn start_step(s: StartupView, answer: StartAnswerView) -> (
    StartupView,
    Option<StartRequestView>,
) {
    match (s.phase, answer) {
        (StartPhase::Building, StartAnswer::Done(Ok(()))) => to_phase(
            s,
            StartPhase::Opening,
            StartRequest::OpenStore,
        ),
        (StartPhase::Building, StartAnswer::Done(Err(e))) => to_phase(
            s,
            StartPhase::Finished,
            StartRequest::GiveUp("Orchestrator init error: "@ + e),
        ),
        (StartPhase::Opening, StartAnswer::Done(Ok(()))) => to_phase(
            s,
            StartPhase::Listing,
            StartRequest::ListContacts,
        ),
        (StartPhase::Opening, StartAnswer::Done(Err(e))) => to_phase(
            s,
            StartPhase::Finished,
            StartRequest::GiveUp("Storage open error: "@ + e),
        ),
        (StartPhase::Listing, StartAnswer::Contacts(contact_ids)) => to_phase(
            StartupView { contact_ids, ..s },
            StartPhase::LoadingState,
            StartRequest::LoadSecret(STATE_KEY@),
        ),
        (StartPhase::LoadingState, StartAnswer::Secret(data)) => match data {
            Some(state) => if state.len() > 0 {
                to_phase(s, StartPhase::ImportingState, StartRequest::ImportState(state))
            } else {
                load_secret(s, 0, false)
            },
            None => load_secret(s, 0, false),
        },
        (StartPhase::ImportingState, StartAnswer::Done(_)) => load_secret(s, 0, false),
        (StartPhase::Loading { contact, session }, StartAnswer::Secret(data)) => to_phase(
            s,
            StartPhase::Feeding { contact, session },
            StartRequest::Feed(
                IncomingEvent::SessionLoaded {
                    key: secret_key(s.contact_ids, contact as int, session),
                    data,
                },
            ),
        ),
        (StartPhase::Feeding { contact, session }, StartAnswer::Done(_)) => if session {
            load_secret(s, contact + 1, false)
        } else {
            load_secret(s, contact as int, true)
        },
        _ => (s, None),
    }
}

impl Startup {
    /// Starts with a session: the core's keys are in it.
    pub fn new(session: &Session) -> (r: (Startup, StartRequest))
        ensures
            r.0.wf(),
            r.0@.contact_ids == Seq::<Seq<char>>::empty(),
            (r.0@.phase, r.1@) == start_from_session(*session),
    {
        let mut s = Startup {
            phase: StartPhase::Finished,
            contact_ids: Vec::new(),
            key: String::new(),
        };
        assert(s@.contact_ids =~= Seq::<Seq<char>>::empty());
        let identity = match hex_decode(session.identity_key_hex.as_str()) {
            Ok(b) => b,
            Err(e) => {
                return (s, StartRequest::GiveUp(join("Orchestrator key decode error: ", e.as_str())));
            },
        };
        let signing = match hex_decode(session.signing_key_hex.as_str()) {
            Ok(b) => b,
            Err(e) => {
                return (s, StartRequest::GiveUp(join("Orchestrator key decode error: ", e.as_str())));
            },
        };
        let prekey = match hex_decode(session.spk_key_hex.as_str()) {
            Ok(b) => b,
            Err(e) => {
                return (s, StartRequest::GiveUp(join("Orchestrator key decode error: ", e.as_str())));
            },
        };
        let prekey_signature = match hex_decode(session.spk_sig_hex.as_str()) {
            Ok(b) => b,
            Err(e) => {
                return (s, StartRequest::GiveUp(join("Orchestrator key decode error: ", e.as_str())));
            },
        };
        s.phase = StartPhase::Building;
        (s, StartRequest::BuildCore { identity, signing, prekey, prekey_signature })
    }

    fn load_secret(&mut self, contact: usize, session: bool) -> (r: Option<StartRequest>)
        ensures
            final(self).wf(),
            (final(self)@, opt_view(r)) == load_secret(old(self)@, contact as int, session),
    {
        if contact < self.contact_ids.len() {
            let id = self.contact_ids[contact].as_str();
            let key = if session {
                join("session_", id)
            } else {
                join("archive_", id)
            };
            self.key = key.clone();
            self.phase = StartPhase::Loading { contact, session };
            assert(texts(self.contact_ids@)[contact as int] == self.contact_ids@[contact as int]@);
            Some(StartRequest::LoadSecret(key))
        } else {
            self.phase = StartPhase::Finished;
            Some(
                StartRequest::Launch {
                    contact_ids: crate::streaming::clone_texts(&self.contact_ids),
                    one_time_keys: ONE_TIME_KEYS,
                },
            )
        }
    }

    /// What to do after a report.
    pub fn step(&mut self, answer: StartAnswer) -> (r: Option<StartRequest>)
        requires
            old(self).wf(),
        ensures
            final(self).wf(),
            (final(self)@, opt_view(r)) == start_step(old(self)@, answer@),
    {
        match (self.phase, answer) {
            (StartPhase::Building, StartAnswer::Done(Ok(()))) => {
                self.phase = StartPhase::Opening;
                Some(StartRequest::OpenStore)
            },
            (StartPhase::Building, StartAnswer::Done(Err(e))) => {
                self.phase = StartPhase::Finished;
                Some(StartRequest::GiveUp(join("Orchestrator init error: ", e.as_str())))
            },
            (StartPhase::Opening, StartAnswer::Done(Ok(()))) => {
                self.phase = StartPhase::Listing;
                Some(StartRequest::ListContacts)
            },
            (StartPhase::Opening, StartAnswer::Done(Err(e))) => {
                self.phase = StartPhase::Finished;
                Some(StartRequest::GiveUp(join("Storage open error: ", e.as_str())))
            },
            (StartPhase::Listing, StartAnswer::Contacts(contact_ids)) => {
                self.contact_ids = contact_ids;
                self.phase = StartPhase::LoadingState;
                Some(StartRequest::LoadSecret(STATE_KEY.to_string()))
            },
            (StartPhase::LoadingState, StartAnswer::Secret(data)) => match data {
                Some(state) => if state.len() > 0 {
                    self.phase = StartPhase::ImportingState;
                    Some(StartRequest::ImportState(state))
                } else {
                    self.load_secret(0, false)
                },
                None => self.load_secret(0, false),
            },
            (StartPhase::ImportingState, StartAnswer::Done(_)) => self.load_secret(0, false),
            (StartPhase::Loading { contact, session }, StartAnswer::Secret(data)) => {
                self.phase = StartPhase::Feeding { contact, session };
                Some(
                    StartRequest::Feed(
                        IncomingEvent::SessionLoaded { key: self.key.clone(), data },
                    ),
                )
            },
            (StartPhase::Feeding { contact, session }, StartAnswer::Done(_)) => if session {
                let n: usize = self.contact_ids.len();
                assert(contact < n);
                self.load_secret(contact + 1, false)
            } else {
                self.load_secret(contact, true)
            },
            _ => None,
        }
    }
}

/// The requests that follow when the store holds `kept` and every report is one of success:
/// `request` and those of the next `rounds` reports.
pub open spec fn requests_from(
    s: StartupView,
    request: StartRequestView,
    kept: spec_fn(Seq<char>) -> Option<Seq<u8>>,
    rounds: nat,
) -> Seq<StartRequestView>
    decreases rounds,
{
    if rounds == 0 {
        seq![request]
    } else {
        let answer = match request {
            StartRequest::LoadSecret(key) => StartAnswer::Secret(kept(key)),
            _ => StartAnswer::Done(Ok(())),
        };
        match start_step(s, answer) {
            (t, Some(next)) => seq![request] + requests_from(t, next, kept, (rounds - 1) as nat),
            (_, None) => seq![request],
        }
    }
}

/// A secret is loaded, and what is kept is fed to the core.
pub open spec fn fed(key: Seq<char>, data: Option<Seq<u8>>) -> Seq<StartRequestView> {
    seq![
        StartRequest::LoadSecret(key),
        StartRequest::Feed(IncomingEvent::SessionLoaded { key, data }),
    ]
}

/// From one contact on, the archive and the session of each are fed; then comes the launch.
pub open spec fn all_fed(
    contact_ids: Seq<Seq<char>>,
    contact: int,
    kept: spec_fn(Seq<char>) -> Option<Seq<u8>>,
) -> Seq<StartRequestView>
    decreases contact_ids.len() - contact,
{
    if contact < contact_ids.len() {
        let archive = archive_key(contact_ids[contact]);
        let session = session_key(contact_ids[contact]);
        fed(archive, kept(archive)) + fed(session, kept(session)) + all_fed(
            contact_ids,
            contact + 1,
            kept,
        )
    } else {
        seq![StartRequest::Launch { contact_ids, one_time_keys: ONE_TIME_KEYS }]
    }
}

proof fn lemma_feeding(
    s: StartupView,
    contact: int,
    kept: spec_fn(Seq<char>) -> Option<Seq<u8>>,
)
    requires
        0 <= contact <= s.contact_ids.len() <= usize::MAX,
    ensures
        ({
            let (t, r) = load_secret(s, contact, false);
            &&& r is Some
            &&& requests_from(t, r->0, kept, (4 * (s.contact_ids.len() - contact)) as nat)
                == all_fed(s.contact_ids, contact, kept)
        }),
    decreases s.contact_ids.len() - contact,
{
    if contact < s.contact_ids.len() {
        let n = (4 * (s.contact_ids.len() - contact)) as nat;
        let archive = archive_key(s.contact_ids[contact]);
        let session = session_key(s.contact_ids[contact]);
        let (s0, r0) = load_secret(s, contact, false);
        let (s1, r1) = start_step(s0, StartAnswer::Secret(kept(archive)));
        let (s2, r2) = start_step(s1, StartAnswer::Done(Ok(())));
        let (s3, r3) = start_step(s2, StartAnswer::Secret(kept(session)));
        let (s4, r4) = start_step(s3, StartAnswer::Done(Ok(())));
        assert((s4, r4) == load_secret(s3, contact + 1, false));
        lemma_feeding(s3, contact + 1, kept);
        let rest = requests_from(s4, r4->0, kept, (n - 4) as nat);
        assert(rest == all_fed(s.contact_ids, contact + 1, kept));
        assert(requests_from(s3, r3->0, kept, (n - 3) as nat) == seq![r3->0] + rest);
        assert(requests_from(s2, r2->0, kept, (n - 2) as nat) == seq![r2->0] + (seq![r3->0]
            + rest));
        assert(requests_from(s1, r1->0, kept, (n - 1) as nat) == seq![r1->0] + (seq![r2->0] + (seq![
            r3->0,
        ] + rest)));
        assert(requests_from(s0, r0->0, kept, n) == seq![r0->0] + (seq![r1->0] + (seq![r2->0] + (
        seq![r3->0] + rest))));
        assert(requests_from(s0, r0->0, kept, n) =~= all_fed(s.contact_ids, contact, kept));
    }
}

/// Before the stream worker can hand out old messages, the core is fed the archive and the
/// session of every contact, in order, as they are kept; the launch comes last.
pub proof fn law_every_secret_is_fed(s: StartupView, kept: spec_fn(Seq<char>) -> Option<Seq<u8>>)
    requires
        s.contact_ids.len() <= usize::MAX,
    ensures
        ({
            let (t, r) = load_secret(s, 0, false);
            &&& r is Some
            &&& requests_from(t, r->0, kept, 4 * s.contact_ids.len()) == all_fed(
                s.contact_ids,
                0,
                kept,
            )
        }),
{
    lemma_feeding(s, 0, kept);
}

/// There is no launch but after the last secret of the last contact.
pub proof fn law_launch_comes_last(s: StartupView, answer: StartAnswerView)
    requires
        phase_fits(s),
        start_step(s, answer).1 matches Some(StartRequest::Launch { .. }),
    ensures
        ({
            let ids = start_step(s, answer).1->0->Launch_contact_ids;
            &&& ids == s.contact_ids
            &&& ids.len() > 0 ==> (s.phase matches StartPhase::Feeding { contact, session }
                && session && contact + 1 >= ids.len())
        }),
{
}

// ── One-time keys ─────────────────────────────────────────────────────────────

/// One-time keys for the server, each with its number.
#[derive(Debug)]
pub struct KeyUpload {
    pub device_id: String,
    pub keys: Vec<(u32, Vec<u8>)>,
    /// Whether the keys that the server has are thrown away.
    pub replace_existing: bool,
}

/// What is uploaded of the keys that were made at the launch: all of them, beside those that the
/// server has, unless none were made.
pub fn first_upload(device_id: &str, keys: Vec<(u32, Vec<u8>)>) -> (r: Option<KeyUpload>)
    ensures
        r is None <==> keys@.len() == 0,
        r matches Some(u) ==> u.device_id@ == device_id@ && u.keys == keys && !u.replace_existing,
{
    if keys.len() == 0 {
        None
    } else {
        Some(KeyUpload { device_id: device_id.to_string(), keys, replace_existing: false })
    }
}

// ── Passing stream events on ──────────────────────────────────────────────────

/// What a stream event leads to.
#[derive(Debug)]
pub enum Relay {
    /// Open the envelope; `relay_message` says what follows.
    Open { envelope: Box<Envelope>, stream_cursor: Option<String> },
    /// Note where a message stands, then tell the core.
    NoteAndTell { message_id: String, stream_cursor: Option<String>, event: IncomingEvent },
    /// Tell the screens.
    Screen(BridgeEvent),
    /// Tell the screens and the core that the stream is there.
    Online,
    /// Have the token refreshed.
    RefreshToken,
    Nothing,
}

/// What stands in front of an encrypted message.
#[derive(Debug, Clone)]
pub struct WireHeader {
    pub message_number: u32,
    pub kem_ciphertext: Option<Vec<u8>>,
    pub one_time_prekey_id: u32,
}

/// The text shown for an error of the stream.
pub open spec fn stream_error_text(
    message_id: Seq<char>,
    error_code: i32,
    error_message: Seq<char>,
) -> Seq<char> {
    if message_id.len() == 0 {
        "Stream error "@ + signed_decimal(error_code as int) + ": "@ + error_message
    } else {
        "Stream error for "@ + message_id + ": "@ + error_message
    }
}

/// Where a stream event goes.
pub fn relay_stream_event(event: StreamEvent) -> (r: Relay)
    ensures
        match event {
            StreamEvent::Message { envelope, stream_cursor } => r == (Relay::Open {
                envelope,
                stream_cursor,
            }),
            StreamEvent::Ack { message_id, stream_cursor } => r == (Relay::NoteAndTell {
                message_id,
                stream_cursor,
                event: IncomingEvent::AckReceived { message_id },
            }),
            StreamEvent::Heartbeat { .. } => r is Nothing,
            StreamEvent::StreamError { message_id, error_code, error_message, .. } => r matches
                Relay::Screen(BridgeEvent::Error(m)) && m@ == stream_error_text(
                message_id@,
                error_code,
                error_message@,
            ),
            StreamEvent::Connected => r is Online,
            StreamEvent::Disconnected => r == Relay::Screen(
                BridgeEvent::StreamStatus { connected: false },
            ),
            StreamEvent::Reconnecting { attempt, delay_ms } => r == Relay::Screen(
                BridgeEvent::StreamReconnecting { attempt, delay_ms },
            ),
            StreamEvent::AuthRequired => r is RefreshToken,
        },
{
    match event {
        StreamEvent::Message { envelope, stream_cursor } => Relay::Open {
            envelope,
            stream_cursor,
        },
        StreamEvent::Ack { message_id, stream_cursor } => {
            let event = IncomingEvent::AckReceived { message_id: message_id.clone() };
            Relay::NoteAndTell { message_id, stream_cursor, event }
        },
        StreamEvent::Heartbeat { .. } => Relay::Nothing,
        StreamEvent::StreamError { message_id, error_code, error_message, .. } => {
            let mut text = if message_id.as_str().is_empty() {
                join("Stream error ", format_i64(error_code as i64).as_str())
            } else {
                join("Stream error for ", message_id.as_str())
            };
            text.append(": ");
            text.append(error_message.as_str());
            Relay::Screen(BridgeEvent::Error(text))
        },
        StreamEvent::Connected => Relay::Online,
        StreamEvent::Disconnected => Relay::Screen(BridgeEvent::StreamStatus { connected: false }),
        StreamEvent::Reconnecting { attempt, delay_ms } => Relay::Screen(
            BridgeEvent::StreamReconnecting { attempt, delay_ms },
        ),
        StreamEvent::AuthRequired => Relay::RefreshToken,
    }
}

/// What an opened envelope leads to: the core is told of it, with what stands in front of the
/// message. Session resets are control messages.
pub fn relay_message(
    inbound: InboundEnvelope,
    header: WireHeader,
    stream_cursor: Option<String>,
) -> (r: Relay)
    ensures
        r matches Relay::NoteAndTell { message_id, stream_cursor: c, event } && {
            &&& message_id == inbound.message_id
            &&& c == stream_cursor
            &&& event@ == (EventView::MessageReceived {
                message_id: inbound.message_id@,
                from: inbound.from@,
                data: inbound.wire_payload@,
                msg_num: header.message_number,
                kem_ct: match header.kem_ciphertext {
                    Some(k) => k@,
                    None => Seq::empty(),
                },
                otpk_id: header.one_time_prekey_id,
                is_control: inbound.content_type == 21 || inbound.content_type == 24,
                content_type: inbound.content_type,
            })
        },
{
    let kem_ct = match header.kem_ciphertext {
        Some(k) => k,
        None => Vec::new(),
    };
    let event = IncomingEvent::MessageReceived {
        message_id: inbound.message_id.clone(),
        from: inbound.from,
        data: inbound.wire_payload,
        msg_num: header.message_number,
        kem_ct,
        otpk_id: header.one_time_prekey_id,
        is_control: inbound.content_type == 21 || inbound.content_type == 24,
        content_type: inbound.content_type,
    };
    Relay::NoteAndTell { message_id: inbound.message_id, stream_cursor, event }
}

} // verus!
