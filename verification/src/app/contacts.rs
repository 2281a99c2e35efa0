//! News from the background, and the people that one writes to.

use crate::auth::{RegistrationStep, step_number};
use crate::bridge::BridgeEvent;
use crate::config::{label_of, transport_label};
use crate::encoding::{
    Base64, base64_decode, base64_decoded, lemma_base64_round_trip, lemma_uuid_round_trip,
    random_uuid, uuid_new_v4, uuid_parsed, uuid_text, uuid_to_string,
};
use crate::invite::{Invite, InviteView, expired};
use crate::orchestration::{EventView, IncomingEvent};
use crate::screens::chat_list::{
    Contact, ContactView, contact_name, contacts_of, law_first_place, name_of, occurs_after,
    place_of, position,
};
use crate::screens::contact_search::{search_complaint, search_error};
use crate::streaming::texts;
use crate::text::{decimal, format_u64, join, opt_str, same};
use super::{
    App, AppView, Connection, PaneOp, Panes, PanesView, Reaction, Screen, UiEffect, UiEffectView,
    does, effects_of, none, on_pane, one, put, quiet, says, two,
};
use super::keys::{key32, vec_to_key32};
use super::session::outcome;
use vstd::utf8::{decode_utf8, encode_utf8, encode_utf8_decode_utf8, is_char_boundary};
use vstd::prelude::*;

verus! {

// ── News ──────────────────────────────────────────────────────────────────────

/// What is shown of a direct connection to a peer.
pub open spec fn on_p2p(
    a: AppView,
    peer_id: Seq<char>,
    connected: bool,
    latency_ms: Option<u32>,
    is_relay: bool,
) -> AppView {
    if connected {
        let latency = match latency_ms {
            Some(ms) => decimal(ms as nat) + "ms"@,
            None => "unknown"@,
        };
        AppView {
            status: "P2P connected to "@ + peer_id + " ("@ + latency + " latency)"@,
            connection: Connection::Connected { transport: "P2P"@, latency_ms },
            ..a
        }
    } else if is_relay {
        AppView {
            status: "P2P failed for "@ + peer_id + ", using relay"@,
            connection: Connection::Connected { transport: "Relay"@, latency_ms: None },
            ..a
        }
    } else {
        AppView { status: "P2P disconnected from "@ + peer_id, ..a }
    }
}

/// What is shown of news from the background.
pub open spec fn on_bridge(
    a: AppView,
    event: BridgeEvent<Seq<char>>,
    contacts: Seq<ContactView>,
) -> Reaction {
    match event {
        BridgeEvent::NewMessage { text, .. } => does(a, UiEffect::ShowReceived(text)),
        BridgeEvent::MessageDelivered { .. } => quiet(a),
        BridgeEvent::StreamStatus { connected } => if connected {
            says(
                AppView {
                    connection: Connection::Connected {
                        transport: label_of(a.transport),
                        latency_ms: None,
                    },
                    ..a
                },
                "● connected"@,
            )
        } else {
            says(AppView { connection: Connection::Disconnected, ..a }, "○ disconnected"@)
        },
        BridgeEvent::StreamReconnecting { attempt, delay_ms } => says(
            AppView { connection: Connection::Reconnecting { attempt, delay_ms }, ..a },
            "↺ reconnecting (attempt "@ + decimal(attempt as nat) + ")"@,
        ),
        BridgeEvent::Error(e) => says(a, "Bridge error: "@ + e),
        BridgeEvent::SessionReady { contact_id } => says(
            a,
            "Session ready with @"@ + (match name_of(contacts, contact_id) {
                Some(name) => name,
                None => "contact"@,
            }),
        ),
    }
}

impl App {
    /// A direct connection to a peer came up, went over to a relay, or went down.
    pub fn handle_p2p_status(
        &mut self,
        peer_id: &str,
        connected: bool,
        latency_ms: Option<u32>,
        is_relay: bool,
    )
        ensures
            final(self)@ == on_p2p(old(self)@, peer_id@, connected, latency_ms, is_relay),
    {
        if connected {
            let latency = match latency_ms {
                Some(ms) => join(format_u64(ms as u64).as_str(), "ms"),
                None => "unknown".to_string(),
            };
            let mut status = join("P2P connected to ", peer_id);
            status.append(" (");
            status.append(latency.as_str());
            status.append(" latency)");
            self.status = status;
            self.connection = Connection::Connected { transport: "P2P".to_string(), latency_ms };
        } else if is_relay {
            self.status = join(join("P2P failed for ", peer_id).as_str(), ", using relay");
            self.connection = Connection::Connected {
                transport: "Relay".to_string(),
                latency_ms: None,
            };
        } else {
            self.status = join("P2P disconnected from ", peer_id);
        }
        assert(self@ =~= on_p2p(old(self)@, peer_id@, connected, latency_ms, is_relay));
    }

    /// News from the background.
    pub fn handle_bridge_event(&mut self, event: BridgeEvent, contacts: &[Contact]) -> (r: Vec<
        UiEffect,
    >)
        ensures
            (final(self)@, effects_of(r@)) == on_bridge(
                old(self)@,
                event@,
                contacts_of(contacts@),
            ),
    {
        match event {
            BridgeEvent::NewMessage { text, .. } => one(UiEffect::ShowReceived(text)),
            BridgeEvent::MessageDelivered { .. } => none(),
            BridgeEvent::StreamStatus { connected } => {
                if connected {
                    self.connection = Connection::Connected {
                        transport: transport_label(self.transport).to_string(),
                        latency_ms: None,
                    };
                    self.status = "● connected".to_string();
                } else {
                    self.connection = Connection::Disconnected;
                    self.status = "○ disconnected".to_string();
                }
                none()
            },
            BridgeEvent::StreamReconnecting { attempt, delay_ms } => {
                self.connection = Connection::Reconnecting { attempt, delay_ms };
                self.status = join(
                    join("↺ reconnecting (attempt ", format_u64(attempt as u64).as_str()).as_str(),
                    ")",
                );
                none()
            },
            BridgeEvent::Error(e) => {
                self.status = join("Bridge error: ", e.as_str());
                none()
            },
            BridgeEvent::SessionReady { contact_id } => {
                let name = match contact_name(contacts, contact_id.as_str()) {
                    Some(name) => name,
                    None => "contact",
                };
                self.status = join("Session ready with @", name);
                none()
            },
        }
    }

    /// A step of the registration is done.
    pub fn registration_step(&self, step: RegistrationStep) -> (r: Vec<UiEffect>)
        ensures
            effects_of(r@) == seq![
                UiEffectView::Pane(PaneOp::RegistrationAdvance(step_number(step) as usize)),
            ],
    {
        on_pane(PaneOp::RegistrationAdvance(step.index()))
    }

    /// The spinner turns while a registration runs.
    pub fn tick(&self) -> (r: Vec<UiEffect>)
        ensures
            effects_of(r@) == (if self@.screen is Registering {
                seq![UiEffectView::Pane(PaneOp::RegistrationTick)]
            } else {
                seq![]
            }),
    {
        if let Screen::Registering = self.screen {
            on_pane(PaneOp::RegistrationTick)
        } else {
            none()
        }
    }
}

// ── Contacts ──────────────────────────────────────────────────────────────────

/// A person is added: kept, listed, subscribed to, and a session with them is opened.
pub open spec fn contact_added(a: AppView, user_id: Seq<char>, username: Seq<char>) -> Reaction {
    let b = AppView {
        status: "Added @"@ + username + " — opening session"@,
        screen: Screen::Main,
        ..a
    };
    let add = UiEffectView::AddContact { user_id, display_name: username };
    let reset = UiEffectView::Pane(PaneOp::SearchReset);
    (
        b,
        if a.wired {
            seq![
                UiEffect::UpsertContact { user_id, display_name: username },
                add,
                UiEffect::Resubscribe,
                UiEffect::ToCore(
                    IncomingEvent::ActiveChatChanged { contact_id: user_id, is_active: true },
                ),
                reset,
            ]
        } else {
            seq![add, reset]
        },
    )
}

/// The name to show for the maker of an invite: their user name, or else the first eight bytes
/// of their id.
pub open spec fn invite_name(i: InviteView) -> Seq<char> {
    match i.un {
        Some(un) => if un.len() > 0 {
            un
        } else {
            short_id(i.uuid)
        },
        None => short_id(i.uuid),
    }
}

pub open spec fn short_id(id: Seq<char>) -> Seq<char> {
    if encode_utf8(id).len() <= 8 {
        id
    } else {
        decode_utf8(encode_utf8(id).take(8))
    }
}

/// The id can be cut after eight bytes. (An id of ASCII characters always can.)
pub open spec fn can_shorten(id: Seq<char>) -> bool {
    encode_utf8(id).len() <= 8 || is_char_boundary(encode_utf8(id), 8)
}

fn short(id: &str) -> (r: String)
    requires
        can_shorten(id@),
    ensures
        r@ == short_id(id@),
{
    if id.as_bytes().len() <= 8 {
        id.to_string()
    } else {
        let (head, _) = id.split_at(8);
        proof {
            assert(encode_utf8(id@).subrange(0, 8) =~= encode_utf8(id@).take(8));
            encode_utf8_decode_utf8(head@);
        }
        head.to_string()
    }
}

/// The maker of an invite can be named: they gave a name, or their id can be cut.
pub open spec fn can_name(i: InviteView) -> bool {
    (i.un matches Some(un) && un.len() > 0) || can_shorten(i.uuid)
}

/// The name to show for the maker of an invite.
pub fn invite_display_name(invite: &Invite) -> (r: String)
    requires
        can_name(invite@),
    ensures
        r@ == invite_name(invite@),
{
    match &invite.un {
        Some(un) => if un.as_str().is_empty() {
            assert(un@.len() == 0);
            short(invite.uuid.as_str())
        } else {
            un.clone()
        },
        None => short(invite.uuid.as_str()),
    }
}

/// An invite that was read is redeemed, unless it has expired.
pub open spec fn on_invite(
    a: AppView,
    parsed: Result<InviteView, Seq<char>>,
    now: i64,
) -> Reaction {
    match parsed {
        Err(e) => does(a, UiEffect::SearchError("Bad invite: "@ + e)),
        Ok(invite) => if expired(invite, now) {
            does(a, UiEffect::SearchError("Invite expired"@))
        } else {
            (
                a,
                seq![
                    UiEffect::SearchBusy,
                    UiEffect::SearchStatus("Redeeming invite…"@),
                    UiEffect::Accept { invite, username: invite_name(invite) },
                ],
            )
        },
    }
}

pub open spec fn parsed_view(r: Result<Invite, String>) -> Result<InviteView, Seq<char>> {
    match r {
        Ok(i) => Ok(i@),
        Err(e) => Err(e@),
    }
}

/// No contact has the id.
pub open spec fn nobody(contacts: Seq<ContactView>, id: Seq<char>) -> bool {
    forall|j: int| 0 <= j < contacts.len() ==> (#[trigger] contacts[j]).id != id
}

/// A contact is removed: the core forgets them, the list loses them, the stream is subscribed
/// anew, and the chat is emptied if it is theirs or nobody of that id is left.
pub open spec fn contact_removed(a: AppView, peer_id: Seq<char>, panes: PanesView) -> Reaction {
    let forget = if a.wired {
        seq![UiEffectView::ForgetContact(peer_id)]
    } else {
        seq![]
    };
    let place = place_of(panes.contacts, peer_id);
    let remove = match place {
        Some(i) => seq![UiEffectView::RemoveContactAt(i as usize)],
        None => seq![],
    };
    let left = match place {
        Some(i) => panes.contacts.remove(i),
        None => panes.contacts,
    };
    let resubscribe = if a.wired {
        seq![UiEffectView::Resubscribe]
    } else {
        seq![]
    };
    let clear = if panes.chat_name == peer_id || nobody(left, peer_id) {
        seq![UiEffectView::ClearChat]
    } else {
        seq![]
    };
    (AppView { status: "Node removed."@, ..a }, forget + remove + resubscribe + clear)
}

/// What is done once a contact was to be deleted from the store.
pub open spec fn on_deleted(
    a: AppView,
    peer_id: Seq<char>,
    result: Result<(), Seq<char>>,
    panes: PanesView,
) -> Reaction {
    match result {
        Ok(()) => contact_removed(a, peer_id, panes),
        Err(e) => says(a, "Delete failed: "@ + e),
    }
}

/// Removing the first place of an id leaves another one only after it.
proof fn lemma_left(contacts: Seq<ContactView>, id: Seq<char>, i: int)
    requires
        place_of(contacts, id) == Some(i),
    ensures
        0 <= i < contacts.len(),
        nobody(contacts.remove(i), id) <==> !(exists|j: int|
            i < j < contacts.len() && (#[trigger] contacts[j]).id == id),
{
    law_first_place(contacts, id);
    let left = contacts.remove(i);
    if exists|j: int| i < j < contacts.len() && (#[trigger] contacts[j]).id == id {
        let j = choose|j: int| i < j < contacts.len() && (#[trigger] contacts[j]).id == id;
        assert(left[j - 1] == contacts[j]);
    } else {
        assert forall|j: int| 0 <= j < left.len() implies (#[trigger] left[j]).id != id by {
            if j < i {
                assert(left[j] == contacts[j]);
            } else {
                assert(left[j] == contacts[j + 1]);
            }
        }
    }
}

impl App {
    /// The server accepted an invite, or a search result was picked: the person is added.
    pub fn finish_add_contact(&mut self, user_id: String, username: String) -> (r: Vec<UiEffect>)
        ensures
            (final(self)@, effects_of(r@)) == contact_added(old(self)@, user_id@, username@),
    {
        self.status = join(join("Added @", username.as_str()).as_str(), " — opening session");
        self.screen = Screen::Main;
        let mut out = none();
        if self.wired {
            put(
                &mut out,
                UiEffect::UpsertContact {
                    user_id: user_id.clone(),
                    display_name: username.clone(),
                },
            );
        }
        put(
            &mut out,
            UiEffect::AddContact { user_id: user_id.clone(), display_name: username },
        );
        if self.wired {
            put(&mut out, UiEffect::Resubscribe);
            put(
                &mut out,
                UiEffect::ToCore(
                    IncomingEvent::ActiveChatChanged { contact_id: user_id, is_active: true },
                ),
            );
        }
        put(&mut out, UiEffect::Pane(PaneOp::SearchReset));
        assert(effects_of(out@) =~= contact_added(old(self)@, user_id@, username@).1);
        assert(self@ =~= contact_added(old(self)@, user_id@, username@).0);
        out
    }

    /// A search failed.
    pub fn search_failed(&self, msg: String) -> (r: Vec<UiEffect>)
        ensures
            effects_of(r@) == seq![UiEffectView::SearchError(search_complaint(msg@))],
    {
        one(UiEffect::SearchError(search_error(msg)))
    }

    /// The server did not accept an invite.
    pub fn invite_refused(&self, e: &str) -> (r: Vec<UiEffect>)
        ensures
            effects_of(r@) == seq![
                UiEffectView::SearchError(search_complaint("Invite: "@ + e@)),
            ],
    {
        self.search_failed(join("Invite: ", e))
    }

    /// A pasted invite was read, or could not be.
    pub fn invite_parsed(&self, parsed: Result<Invite, String>, now: i64) -> (r: Vec<UiEffect>)
        requires
            parsed matches Ok(i) ==> expired(i@, now) || can_name(i@),
        ensures
            (self@, effects_of(r@)) == on_invite(self@, parsed_view(parsed), now),
    {
        match parsed {
            Err(e) => one(UiEffect::SearchError(join("Bad invite: ", e.as_str()))),
            Ok(invite) => {
                if invite.is_expired(now) {
                    return one(UiEffect::SearchError("Invite expired".to_string()));
                }
                let username = invite_display_name(&invite);
                let mut out = two(
                    UiEffect::SearchBusy,
                    UiEffect::SearchStatus("Redeeming invite…".to_string()),
                );
                put(&mut out, UiEffect::Accept { invite, username });
                assert(effects_of(out@) =~= on_invite(self@, parsed_view(parsed), now).1);
                out
            },
        }
    }

    pub(super) fn remove_contact(&mut self, peer_id: String, panes: &Panes) -> (r: Vec<UiEffect>)
        ensures
            (final(self)@, effects_of(r@)) == contact_removed(old(self)@, peer_id@, panes@),
    {
        let ghost before = self@;
        let ghost id = peer_id@;
        let contacts = panes.contacts.as_slice();
        let place = position(contacts, peer_id.as_str());
        let again = match place {
            Some(i) => occurs_after(contacts, peer_id.as_str(), i),
            None => false,
        };
        let clear = same(panes.chat_name.as_str(), peer_id.as_str()) || !again;
        proof {
            law_first_place(panes@.contacts, id);
            if let Some(i) = place {
                lemma_left(panes@.contacts, id, i as int);
            }
        }
        let mut out = none();
        if self.wired {
            put(&mut out, UiEffect::ForgetContact(peer_id));
        }
        if let Some(i) = place {
            put(&mut out, UiEffect::RemoveContactAt(i));
        }
        if self.wired {
            put(&mut out, UiEffect::Resubscribe);
        }
        if clear {
            put(&mut out, UiEffect::ClearChat);
        }
        self.status = "Node removed.".to_string();
        proof {
            let expected = contact_removed(before, id, panes@);
            assert(effects_of(out@) =~= expected.1);
            assert(self@ =~= expected.0);
        }
        out
    }

    /// A contact was deleted from the store, or could not be.
    pub fn contact_deleted(
        &mut self,
        peer_id: String,
        result: Result<(), String>,
        panes: &Panes,
    ) -> (r: Vec<UiEffect>)
        ensures
            (final(self)@, effects_of(r@)) == on_deleted(
                old(self)@,
                peer_id@,
                outcome(result),
                panes@,
            ),
    {
        match result {
            Ok(()) => self.remove_contact(peer_id, panes),
            Err(e) => {
                self.status = join("Delete failed: ", e.as_str());
                none()
            },
        }
    }
}

// ── What is handed on ─────────────────────────────────────────────────────────

/// The ids of all contacts, in the order of the list.
pub fn contact_ids_for_stream(contacts: &[Contact]) -> (r: Vec<String>)
    ensures
        texts(r@) == contacts_of(contacts@).map_values(|c: ContactView| c.id),
{
    let mut out: Vec<String> = Vec::new();
    let mut i: usize = 0;
    while i < contacts.len()
        invariant
            i <= contacts@.len(),
            out@.len() == i,
            forall|j: int| 0 <= j < i ==> (#[trigger] out@[j])@ == contacts@[j].id@,
        decreases contacts@.len() - i,
    {
        out.push(contacts[i].id.clone());
        i = i + 1;
    }
    assert(texts(out@) =~= contacts_of(contacts@).map_values(|c: ContactView| c.id));
    out
}

/// A new message id: a random UUID.
pub fn generate_message_id() -> (r: String)
    ensures
        uuid_parsed(r@) matches Some(b) && random_uuid(b) && r@ == uuid_text(b),
{
    let b = uuid_new_v4();
    proof {
        lemma_uuid_round_trip(b@);
    }
    uuid_to_string(b)
}

/// The text of a message, for the core.
pub fn outgoing_text(contact_id: String, message_id: String, text: &str) -> (r: IncomingEvent)
    ensures
        r@ == (EventView::OutgoingMessage {
            contact_id: contact_id@,
            message_id: message_id@,
            plaintext: encode_utf8(text@),
            content_type: 0,
        }),
{
    IncomingEvent::OutgoingMessage {
        contact_id,
        message_id,
        plaintext: vstd::slice::slice_to_vec(text.as_bytes()),
        content_type: 0,
    }
}

/// The kept key of a contact; zeros when there is none that can be read.
pub open spec fn kept_key(identity_key_b64: Option<Seq<char>>) -> Seq<u8> {
    match identity_key_b64 {
        Some(text) => match base64_decoded(Base64::Standard, text) {
            Some(key) => key32(key),
            None => key32(Seq::empty()),
        },
        None => key32(Seq::empty()),
    }
}

/// The kept key of a contact, for comparing.
pub fn peer_key(identity_key_b64: Option<&str>) -> (r: [u8; 32])
    ensures
        r@ == kept_key(opt_str(identity_key_b64)),
{
    let zeros: [u8; 32] = [0; 32];
    assert(zeros@ =~= key32(Seq::empty()));
    match identity_key_b64 {
        Some(text) => match base64_decode(Base64::Standard, text) {
            Ok(key) => {
                proof {
                    lemma_base64_round_trip(Base64::Standard, key@);
                }
                vec_to_key32(key.as_slice())
            },
            Err(_) => zeros,
        },
        None => zeros,
    }
}

// ── Laws ──────────────────────────────────────────────────────────────────────

/// The place that is taken out of the list is that of the contact that was asked about.
pub proof fn law_the_right_contact_goes(a: AppView, id: Seq<char>, panes: PanesView, i: int)
    requires
        0 <= i < contact_removed(a, id, panes).1.len(),
        panes.contacts.len() <= usize::MAX,
    ensures
        contact_removed(a, id, panes).1[i] matches UiEffect::RemoveContactAt(place) ==> {
            &&& place < panes.contacts.len()
            &&& panes.contacts[place as int].id == id
        },
{
    law_first_place(panes.contacts, id);
}

/// An invite that has expired is never redeemed.
pub proof fn law_expired_invites_are_not_redeemed(a: AppView, invite: InviteView, now: i64, i: int)
    requires
        expired(invite, now),
        0 <= i < on_invite(a, Ok(invite), now).1.len(),
    ensures
        on_invite(a, Ok(invite), now).1[i] !is Accept,
{
}

} // verus!
