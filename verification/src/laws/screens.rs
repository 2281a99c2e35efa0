//! What the keys do and what is shown.

use crate::app::contacts::{
    contact_added, contact_ids_for_stream, contact_removed, invite_name, kept_key, on_bridge,
    on_deleted, on_invite, on_p2p, outgoing_text,
};
use crate::app::drawing::{drawn, notice_line, Base, Ink, Notice, Run};
use crate::app::keys::{
    chat_key, compose_key, confirm_key, key32, link_key, list_key, on_key, onboarding_key,
    passphrase_key, search_key, settings_key, unlock_key, vec_to_key32,
};
use crate::app::{
    started, AppView, Connection, Focus, PaneOp, PanesView, Screen, SettingsAction, UiEffect,
    UiEffectView,
};
use crate::bridge::BridgeEvent;
use crate::config::{label_of, SessionState, TransportConfig};
use crate::encoding::{base64_encoded, hex_encoded, Base64};
use crate::event::{KeyCode, KeyEvent, KeyModifiers};
use crate::grpc::users::{normalized_username, searchable};
use crate::invite::{expired, looks_like, Invite, InviteView};
use crate::orchestration::IncomingEvent;
use crate::screens::chat_list::{
    contacts_from_store, contacts_of, name_of, place_of, Contact, ContactView,
};
use crate::screens::chat_view::{
    decrypted_message, message_from_store, stored_time, time_of_day, ChatMessage, MessageKind,
};
use crate::screens::contact_search::{search_complaint, search_results, SearchResult};
use crate::screens::device_link::{form_fits, form_layout, DeviceLinkView};
use crate::screens::layout::Area;
use crate::storage::{StoredContact, StoredMessage};
use crate::text::{decimal, occurs, trimmed, utf8_lossy};
use vstd::arithmetic::div_mod::lemma_fundamental_div_mod_converse;
use vstd::prelude::*;
use vstd::utf8::encode_utf8;

verus! {

/// A key pressed without a modifier.
pub open spec fn plain_key(code: KeyCode) -> KeyEvent {
    KeyEvent { code, modifiers: KeyModifiers::NONE, pressed: true }
}

// ── Before sign-in ────────────────────────────────────────────────────────────

/// The first screen is chosen by what is on disk: an encrypted session is unlocked, a plain one
/// is signed in with at once, and without one there is a beginning to make.
pub proof fn law_the_first_screen_fits_the_disk(a: AppView)
    ensures
        started(a, SessionState::Encrypted) == (
            AppView { screen: Screen::Unlock, ..a },
            Seq::<UiEffectView>::empty(),
        ),
        started(a, SessionState::Plaintext).0.screen is Connecting,
        started(a, SessionState::Plaintext).1 == seq![UiEffectView::RestoreFromDisk],
        started(a, SessionState::Absent) == (
            AppView { screen: Screen::Onboarding, ..a },
            Seq::<UiEffectView>::empty(),
        ),
{
}

/// On the first screen a name is typed, and Enter registers with it, without the white space
/// around it; a blank one registers without a name. Tab leads to linking, with an empty form.
pub proof fn law_onboarding_registers_with_the_name(a: AppView, panes: PanesView, c: char)
    requires
        a.screen is Onboarding,
    ensures
        ({
            let (b, e) = on_key(a, plain_key(KeyCode::Enter), panes);
            &&& b == (AppView { screen: Screen::Registering, ..a })
            &&& trimmed(panes.username).len() > 0 ==> e.contains(
                UiEffectView::Register(Some(trimmed(panes.username))),
            )
            &&& trimmed(panes.username).len() == 0 ==> e.contains(UiEffectView::Register(None))
        }),
        ({
            let (b, e) = on_key(a, plain_key(KeyCode::Tab), panes);
            &&& b.screen is DeviceLink
            &&& b.link.token.len() == 0
            &&& !b.link.is_error
            &&& e.len() == 0
        }),
        ({
            let (b, e) = on_key(a, plain_key(KeyCode::Char(c)), panes);
            &&& c != 'q' || panes.username.len() > 0 ==> b == a && e[0] == UiEffectView::Pane(
                PaneOp::OnboardingPush(c),
            )
            &&& c == 'q' && panes.on_username_field && panes.username.len() == 0 ==> !b.running
                && e.len() == 0
        }),
        on_key(a, plain_key(KeyCode::Backspace), panes).1[0] == UiEffectView::Pane(
            PaneOp::OnboardingPop,
        ),
{
    let (b, e) = on_key(a, plain_key(KeyCode::Enter), panes);
    assert(e[1] is Register);
}

/// A session on disk is opened with exactly the passphrase that was typed, and the field is
/// emptied; without a passphrase nothing is opened.
pub proof fn law_unlocking_uses_the_passphrase(a: AppView, panes: PanesView, c: char)
    requires
        a.screen is Unlock,
    ensures
        ({
            let (b, e) = on_key(a, plain_key(KeyCode::Enter), panes);
            &&& b == a
            &&& e.len() == 2
            &&& e[0] == UiEffectView::Pane(PaneOp::UnlockTake)
            &&& panes.passphrase.len() > 0 ==> e[1] == UiEffectView::OpenSession(panes.passphrase)
            &&& panes.passphrase.len() == 0 ==> e[1] is UnlockError
        }),
        on_key(a, plain_key(KeyCode::Char(c)), panes) == (
            a,
            seq![
                UiEffectView::Pane(PaneOp::UnlockPush(c)),
                UiEffectView::Pane(PaneOp::UnlockClearError),
            ],
        ),
        on_key(a, plain_key(KeyCode::Backspace), panes) == (
            a,
            seq![
                UiEffectView::Pane(PaneOp::UnlockPop),
                UiEffectView::Pane(PaneOp::UnlockClearError),
            ],
        ),
{
}

/// The session that waits is protected with exactly the passphrase that was typed; only without
/// one is it kept in the clear.
pub proof fn law_a_new_passphrase_protects_the_session(a: AppView, panes: PanesView, c: char)
    requires
        a.screen is SetPassphrase,
    ensures
        ({
            let (b, e) = on_key(a, plain_key(KeyCode::Enter), panes);
            &&& b == a
            &&& e[0] == UiEffectView::Pane(PaneOp::UnlockTake)
            &&& a.pending matches Some(session) ==> {
                &&& e.len() == 2
                &&& panes.passphrase.len() > 0 ==> e[1] == (UiEffectView::CreateSession {
                    passphrase: panes.passphrase,
                    session,
                })
                &&& panes.passphrase.len() == 0 ==> e[1] == UiEffectView::SkipEncryption(session)
            }
            &&& a.pending is None ==> e.len() == 1
        }),
        on_key(a, plain_key(KeyCode::Char(c)), panes) == (
            a,
            seq![UiEffectView::Pane(PaneOp::UnlockPush(c))],
        ),
        on_key(a, plain_key(KeyCode::Backspace), panes) == (
            a,
            seq![UiEffectView::Pane(PaneOp::UnlockPop)],
        ),
{
}

/// A device is linked with the token that was typed, without the white space around it; a blank
/// one is complained about and linked with nothing. Esc goes back.
pub proof fn law_linking_uses_the_token(a: AppView, panes: PanesView)
    requires
        a.screen is DeviceLink,
    ensures
        ({
            let (b, e) = on_key(a, plain_key(KeyCode::Enter), panes);
            &&& trimmed(a.link.token).len() > 0 ==> {
                &&& e == seq![UiEffectView::Link(trimmed(a.link.token))]
                &&& b.screen is Connecting
                &&& b.link.token == a.link.token
            }
            &&& trimmed(a.link.token).len() == 0 ==> {
                &&& e.len() == 0
                &&& b.screen is DeviceLink
                &&& b.link.is_error
            }
        }),
        on_key(a, plain_key(KeyCode::Esc), panes) == (
            AppView { screen: Screen::Onboarding, ..a },
            Seq::<UiEffectView>::empty(),
        ),
{
}

/// What is typed into the token field is appended while there is room, and Backspace takes the
/// last character off.
pub proof fn law_the_token_field_is_a_line(a: AppView, panes: PanesView, c: char)
    requires
        a.screen is DeviceLink,
        c != 'q',
    ensures
        ({
            let (b, e) = on_key(a, plain_key(KeyCode::Char(c)), panes);
            &&& encode_utf8(a.link.token).len() < 64 ==> b == (AppView {
                link: DeviceLinkView { token: a.link.token.push(c), ..a.link },
                ..a
            })
            &&& encode_utf8(a.link.token).len() >= 64 ==> b == a
            &&& e.len() == 0
        }),
        ({
            let (b, e) = on_key(a, plain_key(KeyCode::Backspace), panes);
            &&& a.link.token.len() > 0 ==> b == (AppView {
                link: DeviceLinkView { token: a.link.token.drop_last(), ..a.link },
                ..a
            })
            &&& e.len() == 0
        }),
{
}

/// After a failed sign-in any key leads back: to the passphrase where there was one, and else to
/// the beginning.
pub proof fn law_a_failure_leads_back(a: AppView, key: KeyEvent, panes: PanesView)
    requires
        a.screen is AuthError,
        key.pressed,
        !crate::event::is_interrupt(key),
    ensures
        a.has_key ==> on_key(a, key, panes) == (
            AppView { screen: Screen::Unlock, ..a },
            seq![UiEffectView::ResetUnlock { new_passphrase: false }],
        ),
        !a.has_key ==> on_key(a, key, panes) == (
            AppView { screen: Screen::Onboarding, ..a },
            Seq::<UiEffectView>::empty(),
        ),
{
}

/// Control and `c` ends the program on every screen, and does nothing else.
pub proof fn law_control_c_ends_the_program(a: AppView, panes: PanesView)
    ensures
        on_key(
            a,
            (KeyEvent {
                code: KeyCode::Char('c'),
                modifiers: KeyModifiers::CONTROL,
                pressed: true,
            }),
            panes,
        ) == (AppView { running: false, ..a }, Seq::<UiEffectView>::empty()),
{
}

// ── The main screen ───────────────────────────────────────────────────────────

/// Signed in, with nothing to be confirmed.
pub open spec fn at_ease(a: AppView, focus: Focus) -> bool {
    a.screen is Main && a.delete_confirm is None && a.focus == focus
}

/// Enter or Tab in the list opens the chat with the selected contact, and the core is told of that
/// contact if it is there.
pub proof fn law_the_selected_chat_is_opened(a: AppView, panes: PanesView, c: ContactView)
    requires
        at_ease(a, Focus::ContactList),
        panes.selected == Some(c),
    ensures
        ({
            let (b, e) = on_key(a, plain_key(KeyCode::Enter), panes);
            let open = UiEffectView::OpenChat { contact_id: c.id, name: c.display_name };
            &&& b == (AppView { focus: Focus::ChatView, ..a })
            &&& !a.wired ==> e == seq![open]
            &&& a.wired ==> e == seq![
                UiEffectView::ToCore(
                    IncomingEvent::ActiveChatChanged { contact_id: c.id, is_active: true },
                ),
                open,
            ]
            &&& on_key(a, plain_key(KeyCode::Tab), panes) == (b, e)
        }),
{
}

/// The keys of the list: up and down, settings, search, and the question whether to delete the
/// selected contact, which deletes nothing yet.
pub proof fn law_the_list_has_its_keys(a: AppView, panes: PanesView)
    requires
        at_ease(a, Focus::ContactList),
    ensures
        on_key(a, plain_key(KeyCode::Down), panes) == (
            a,
            seq![UiEffectView::Pane(PaneOp::ListNext)],
        ),
        on_key(a, plain_key(KeyCode::Up), panes) == (a, seq![UiEffectView::Pane(PaneOp::ListPrev)]),
        on_key(a, plain_key(KeyCode::Char('j')), panes) == on_key(
            a,
            plain_key(KeyCode::Down),
            panes,
        ),
        on_key(a, plain_key(KeyCode::Char('k')), panes) == on_key(a, plain_key(KeyCode::Up), panes),
        on_key(a, plain_key(KeyCode::Char('s')), panes) == (
            AppView { screen: Screen::Settings, ..a },
            Seq::<UiEffectView>::empty(),
        ),
        on_key(a, plain_key(KeyCode::Char('a')), panes) == (
            AppView { screen: Screen::ContactSearch, ..a },
            seq![UiEffectView::Pane(PaneOp::SearchReset)],
        ),
        on_key(a, plain_key(KeyCode::Char('n')), panes) == on_key(
            a,
            plain_key(KeyCode::Char('a')),
            panes,
        ),
        panes.selected matches Some(c) ==> on_key(a, plain_key(KeyCode::Char('x')), panes) == (
            AppView { delete_confirm: Some(c.id), ..a },
            Seq::<UiEffectView>::empty(),
        ),
        panes.selected is None ==> on_key(a, plain_key(KeyCode::Char('x')), panes) == (
            a,
            Seq::<UiEffectView>::empty(),
        ),
{
}

/// A yes deletes the contact that was asked about, from the store where there is one; anything
/// else deletes nobody.
pub proof fn law_a_yes_deletes(a: AppView, panes: PanesView, id: Seq<char>, key: KeyEvent)
    requires
        a.screen is Main,
        a.delete_confirm == Some(id),
        key.pressed,
        !crate::event::is_interrupt(key),
    ensures
        (key.code == KeyCode::Char('y') || key.code == KeyCode::Char('Y')) && a.wired ==> on_key(
            a,
            key,
            panes,
        ) == (AppView { delete_confirm: None, ..a }, seq![UiEffectView::DeleteContact(id)]),
        key.code != KeyCode::Char('y') && key.code != KeyCode::Char('Y') ==> on_key(a, key, panes)
            == (AppView { delete_confirm: None, ..a }, Seq::<UiEffectView>::empty()),
{
}

/// The keys of the chat: writing, going back, and scrolling by a line, by ten, or to either end.
pub proof fn law_the_chat_has_its_keys(a: AppView, panes: PanesView)
    requires
        at_ease(a, Focus::ChatView),
    ensures
        on_key(a, plain_key(KeyCode::Tab), panes) == (
            AppView { focus: Focus::Compose, ..a },
            Seq::<UiEffectView>::empty(),
        ),
        on_key(a, plain_key(KeyCode::Char('i')), panes) == on_key(
            a,
            plain_key(KeyCode::Tab),
            panes,
        ),
        on_key(a, plain_key(KeyCode::Esc), panes) == (
            AppView { focus: Focus::ContactList, ..a },
            Seq::<UiEffectView>::empty(),
        ),
        on_key(a, plain_key(KeyCode::Up), panes) == (
            a,
            seq![UiEffectView::Pane(PaneOp::ScrollUp(1))],
        ),
        on_key(a, plain_key(KeyCode::Down), panes) == (
            a,
            seq![UiEffectView::Pane(PaneOp::ScrollDown(1))],
        ),
        on_key(a, plain_key(KeyCode::PageUp), panes) == (
            a,
            seq![UiEffectView::Pane(PaneOp::ScrollUp(10))],
        ),
        on_key(a, plain_key(KeyCode::PageDown), panes) == (
            a,
            seq![UiEffectView::Pane(PaneOp::ScrollDown(10))],
        ),
        on_key(a, plain_key(KeyCode::Home), panes) == (
            a,
            seq![UiEffectView::Pane(PaneOp::ScrollToTop)],
        ),
        on_key(a, plain_key(KeyCode::End), panes) == (
            a,
            seq![UiEffectView::Pane(PaneOp::ScrollToBottom)],
        ),
{
}

/// What is typed goes into the field. Enter empties it, and sends what was in it, unless that is
/// blank: to the selected contact, if the core is there. Esc goes back and sends nothing.
pub proof fn law_enter_sends_what_was_typed(a: AppView, panes: PanesView, c: char)
    requires
        at_ease(a, Focus::Compose),
    ensures
        on_key(a, plain_key(KeyCode::Char(c)), panes) == (
            a,
            seq![UiEffectView::Pane(PaneOp::ComposePush(c))],
        ),
        on_key(a, plain_key(KeyCode::Backspace), panes) == (
            a,
            seq![UiEffectView::Pane(PaneOp::ComposePop)],
        ),
        on_key(a, plain_key(KeyCode::Esc), panes) == (
            AppView { focus: Focus::ContactList, ..a },
            Seq::<UiEffectView>::empty(),
        ),
        trimmed(panes.compose).len() == 0 ==> on_key(a, plain_key(KeyCode::Enter), panes) == (
            a,
            seq![UiEffectView::Pane(PaneOp::ComposeTake)],
        ),
        trimmed(panes.compose).len() > 0 ==> {
            let (b, e) = on_key(a, plain_key(KeyCode::Enter), panes);
            &&& b == (AppView { status: "Message sent"@, ..a })
            &&& e.len() == 2
            &&& e[0] == UiEffectView::Pane(PaneOp::ComposeTake)
            &&& e[1] matches UiEffect::SendText { contact_id, text } && {
                &&& text == panes.compose
                &&& a.wired ==> (panes.selected matches Some(k) ==> contact_id == Some(k.id))
                &&& !a.wired || panes.selected is None ==> contact_id is None
            }
        },
{
}

/// The text of a message goes to the core for its contact, under its id, as it was typed.
pub proof fn law_typed_text_reaches_the_core(
    contact_id: String,
    message_id: String,
    text: &str,
    r: IncomingEvent,
)
    requires
        call_ensures(outgoing_text, (contact_id, message_id, text), r),
    ensures
        r@ matches IncomingEvent::OutgoingMessage {
            contact_id: c,
            message_id: m,
            plaintext,
            content_type,
        } && c == contact_id@ && m == message_id@ && plaintext == encode_utf8(text@)
            && content_type == 0,
{
}

// ── Settings and search ───────────────────────────────────────────────────────

/// The settings lead back, to the QR code, to the safety number, to an export of the identity
/// key, or out; signing out begins with the session on disk. A choice and its key do the same.
pub proof fn law_the_settings_have_their_keys(a: AppView, panes: PanesView, c: ContactView)
    requires
        a.screen is Settings,
    ensures
        on_key(a, plain_key(KeyCode::Esc), panes) == (
            AppView { screen: Screen::Main, ..a },
            Seq::<UiEffectView>::empty(),
        ),
        on_key(a, plain_key(KeyCode::Char('l')), panes) == (a, seq![UiEffectView::ClearSession]),
        on_key(a, plain_key(KeyCode::Char('Q')), panes) == (
            AppView { screen: Screen::IdentityQr, ..a },
            Seq::<UiEffectView>::empty(),
        ),
        on_key(a, plain_key(KeyCode::Up), panes) == (
            a,
            seq![UiEffectView::Pane(PaneOp::SettingsPrev)],
        ),
        on_key(a, plain_key(KeyCode::Down), panes) == (
            a,
            seq![UiEffectView::Pane(PaneOp::SettingsNext)],
        ),
        panes.settings_choice == Some(SettingsAction::Back) ==> on_key(
            a,
            plain_key(KeyCode::Enter),
            panes,
        ) == on_key(a, plain_key(KeyCode::Esc), panes),
        panes.settings_choice == Some(SettingsAction::Logout) ==> on_key(
            a,
            plain_key(KeyCode::Enter),
            panes,
        ) == on_key(a, plain_key(KeyCode::Char('l')), panes),
        panes.settings_choice == Some(SettingsAction::ShowMyQr) ==> on_key(
            a,
            plain_key(KeyCode::Enter),
            panes,
        ) == on_key(a, plain_key(KeyCode::Char('Q')), panes),
        panes.settings_choice == Some(SettingsAction::ShowSafetyNumber) ==> on_key(
            a,
            plain_key(KeyCode::Enter),
            panes,
        ) == on_key(a, plain_key(KeyCode::Char('s')), panes),
{
}

/// The safety number is that of our identity key and the selected contact; without either of them
/// there is none, and the screen stays.
pub proof fn law_the_safety_number_is_with_the_selected(
    a: AppView,
    panes: PanesView,
    c: ContactView,
    our_key: Seq<u8>,
)
    requires
        a.screen is Settings,
    ensures
        panes.selected == Some(c) && a.identity_key == Some(our_key) && our_key.len() == 32
            ==> on_key(a, plain_key(KeyCode::Char('s')), panes) == (
            AppView { screen: Screen::SafetyNumber, ..a },
            seq![
                UiEffectView::ShowSafetyNumber {
                    name: c.display_name,
                    contact_id: c.id,
                    our_key,
                },
            ],
        ),
        panes.selected is None || a.identity_key is None ==> {
            let (b, e) = on_key(a, plain_key(KeyCode::Char('s')), panes);
            b.screen is Settings && e.len() == 0
        },
{
    if our_key.len() == 32 {
        assert(key32(our_key) =~= our_key);
    }
}

/// What is exported is the public identity key in hexadecimal and the user it is of.
pub proof fn law_the_export_names_key_and_user(a: AppView, panes: PanesView, key: Seq<u8>)
    requires
        a.screen is Settings,
        panes.settings_choice == Some(SettingsAction::ExportKeys),
    ensures
        a.identity_key == Some(key) ==> on_key(a, plain_key(KeyCode::Enter), panes) == (
            a,
            seq![
                UiEffectView::ExportKey {
                    file_name: "construct_identity_"@ + a.user_id + ".txt"@,
                    content: "identity_public_key_hex="@ + hex_encoded(key) + "\nuser_id="@
                        + a.user_id + "\n"@,
                },
            ],
        ),
        a.identity_key is None ==> on_key(a, plain_key(KeyCode::Enter), panes).1.len() == 0,
{
}

/// A key of any length as one of 32 bytes: the first 32, with zeros behind a shorter one.
pub proof fn law_a_key_has_32_bytes(v: &[u8], r: [u8; 32], i: int)
    requires
        call_ensures(vec_to_key32, (v,), r),
        0 <= i < 32,
    ensures
        i < v@.len() ==> r@[i] == v@[i],
        i >= v@.len() ==> r@[i] == 0,
{
}

/// The key of a contact is the one that was kept for it; where none can be read, it is zeros.
pub proof fn law_the_kept_key_is_compared(key: Seq<u8>)
    requires
        key.len() == 32,
    ensures
        kept_key(Some(base64_encoded(Base64::Standard, key))) == key,
        kept_key(None) == Seq::new(32, |i: int| 0u8),
{
    crate::encoding::lemma_base64_round_trip(Base64::Standard, key);
    assert(key32(key) =~= key);
    assert(key32(Seq::empty()) =~= Seq::new(32, |i: int| 0u8));
}

/// A screen to look at is left with any key.
pub proof fn law_any_key_leaves_a_picture(a: AppView, key: KeyEvent, panes: PanesView)
    requires
        a.screen is SafetyNumber || a.screen is IdentityQr,
        key.pressed,
        !crate::event::is_interrupt(key),
    ensures
        on_key(a, key, panes) == (
            AppView { screen: Screen::Settings, ..a },
            Seq::<UiEffectView>::empty(),
        ),
{
}

/// In the search, a pasted invite is redeemed as it was pasted, a possible user name is looked up,
/// and anything else is complained about; what was found is added with Enter.
pub proof fn law_the_search_tells_invites_from_names(a: AppView, panes: PanesView, c: char)
    requires
        a.screen is ContactSearch,
    ensures
        ({
            let (b, e) = on_key(a, plain_key(KeyCode::Enter), panes);
            let name = normalized_username(panes.query);
            &&& panes.found is None && looks_like(trimmed(panes.query)) ==> b == a && e == seq![
                UiEffectView::Redeem(trimmed(panes.query)),
            ]
            &&& panes.found is None && !looks_like(trimmed(panes.query)) && searchable(name) ==> b
                == a && e == seq![UiEffectView::SearchBusy, UiEffectView::FindUser(name)]
            &&& panes.found is None && !looks_like(trimmed(panes.query)) && !searchable(name) ==> b
                == a && e.len() == 1 && e[0] is SearchError
            &&& panes.found matches Some(f) ==> (b, e) == contact_added(a, f.user_id, f.username)
        }),
        on_key(a, plain_key(KeyCode::Char(c)), panes) == (
            a,
            seq![UiEffectView::Pane(PaneOp::SearchPush(c))],
        ),
        on_key(a, plain_key(KeyCode::Backspace), panes) == (
            a,
            seq![UiEffectView::Pane(PaneOp::SearchPop)],
        ),
        on_key(a, plain_key(KeyCode::Esc), panes) == (
            AppView { screen: Screen::Main, ..a },
            seq![UiEffectView::Pane(PaneOp::SearchReset)],
        ),
        on_key(a, plain_key(KeyCode::Down), panes) == (
            a,
            seq![UiEffectView::Pane(PaneOp::SearchNext)],
        ),
        on_key(a, plain_key(KeyCode::Up), panes) == (
            a,
            seq![UiEffectView::Pane(PaneOp::SearchPrev)],
        ),
{
}

/// In the chat, letters stand for the scrolling keys, and Shift and Tab for Esc.
pub proof fn law_the_chat_scrolls_by_letters(a: AppView, panes: PanesView)
    requires
        at_ease(a, Focus::ChatView),
    ensures
        on_key(a, plain_key(KeyCode::Char('u')), panes) == on_key(
            a,
            plain_key(KeyCode::PageUp),
            panes,
        ),
        on_key(a, plain_key(KeyCode::Char('d')), panes) == on_key(
            a,
            plain_key(KeyCode::PageDown),
            panes,
        ),
        on_key(a, plain_key(KeyCode::Char('k')), panes) == on_key(a, plain_key(KeyCode::Up), panes),
        on_key(a, plain_key(KeyCode::Char('j')), panes) == on_key(
            a,
            plain_key(KeyCode::Down),
            panes,
        ),
        on_key(a, plain_key(KeyCode::BackTab), panes) == on_key(a, plain_key(KeyCode::Esc), panes),
{
}

/// On the other screens too, some keys mean the same as others.
pub proof fn law_some_keys_mean_the_same(a: AppView, panes: PanesView)
    ensures
        a.screen is Settings ==> {
            &&& on_key(a, plain_key(KeyCode::Char('q')), panes) == on_key(
                a,
                plain_key(KeyCode::Esc),
                panes,
            )
            &&& on_key(a, plain_key(KeyCode::Char('k')), panes) == on_key(
                a,
                plain_key(KeyCode::Up),
                panes,
            )
            &&& on_key(a, plain_key(KeyCode::Char('j')), panes) == on_key(
                a,
                plain_key(KeyCode::Down),
                panes,
            )
            &&& on_key(a, plain_key(KeyCode::Char('L')), panes) == on_key(
                a,
                plain_key(KeyCode::Char('l')),
                panes,
            )
            &&& on_key(a, plain_key(KeyCode::Char('S')), panes) == on_key(
                a,
                plain_key(KeyCode::Char('s')),
                panes,
            )
        },
        a.screen is Onboarding ==> on_key(a, plain_key(KeyCode::BackTab), panes) == on_key(
            a,
            plain_key(KeyCode::Tab),
            panes,
        ),
        a.screen is DeviceLink ==> on_key(a, plain_key(KeyCode::Char('q')), panes) == on_key(
            a,
            plain_key(KeyCode::Esc),
            panes,
        ),
        at_ease(a, Focus::Compose) ==> on_key(a, plain_key(KeyCode::BackTab), panes) == on_key(
            a,
            plain_key(KeyCode::Esc),
            panes,
        ),
        a.screen is ContactSearch ==> {
            &&& on_key(a, plain_key(KeyCode::Tab), panes) == on_key(
                a,
                plain_key(KeyCode::Down),
                panes,
            )
            &&& on_key(a, plain_key(KeyCode::BackTab), panes) == on_key(
                a,
                plain_key(KeyCode::Up),
                panes,
            )
        },
{
}

/// In the search, Control and `a` adds who was found, as Enter does; where nobody was found it
/// does nothing.
pub proof fn law_control_a_adds_who_was_found(a: AppView, panes: PanesView)
    requires
        a.screen is ContactSearch,
    ensures
        ({
            let key = KeyEvent {
                code: KeyCode::Char('a'),
                modifiers: KeyModifiers::CONTROL,
                pressed: true,
            };
            &&& panes.found is Some ==> on_key(a, key, panes) == on_key(
                a,
                plain_key(KeyCode::Enter),
                panes,
            )
            &&& panes.found is None ==> on_key(a, key, panes) == (a, Seq::<UiEffectView>::empty())
        }),
{
}

/// Where there is nothing to scroll, the scrolling keys do nothing.
pub proof fn law_other_keys_do_nothing(a: AppView, panes: PanesView, code: KeyCode)
    requires
        code is Home || code is End || code is PageUp || code is PageDown,
        !at_ease(a, Focus::ChatView),
        a.screen !is AuthError,
        a.screen !is SafetyNumber,
        a.screen !is IdentityQr,
        a.delete_confirm is None,
    ensures
        on_key(a, plain_key(code), panes) == (a, Seq::<UiEffectView>::empty()),
{
}

/// The two agree on the session, the tokens, the identity, and how sessions are kept.
pub open spec fn same_session(a: AppView, b: AppView) -> bool {
    &&& b.current == a.current
    &&& b.pending == a.pending
    &&& b.access_token == a.access_token
    &&& b.user_id == a.user_id
    &&& b.device_id == a.device_id
    &&& b.identity_key == a.identity_key
    &&& b.has_key == a.has_key
    &&& b.no_encrypt == a.no_encrypt
    &&& b.wired == a.wired
    &&& b.connection == a.connection
    &&& b.server_url == a.server_url
}

proof fn lemma_the_first_screens_keep_the_session(a: AppView, key: KeyEvent, panes: PanesView)
    ensures
        same_session(a, onboarding_key(a, key, panes).0),
        same_session(a, unlock_key(a, key, panes).0),
        same_session(a, passphrase_key(a, key, panes).0),
        same_session(a, link_key(a, key).0),
{
}

proof fn lemma_the_main_screen_keeps_the_session(a: AppView, key: KeyEvent, panes: PanesView)
    ensures
        same_session(a, list_key(a, key, panes).0),
        same_session(a, chat_key(a, key).0),
        same_session(a, compose_key(a, key, panes).0),
        same_session(a, confirm_key(a, key, panes).0),
{
}

proof fn lemma_the_other_screens_keep_the_session(a: AppView, key: KeyEvent, panes: PanesView)
    ensures
        same_session(a, settings_key(a, key, panes).0),
        same_session(a, search_key(a, key, panes).0),
{
}

/// No key, on any screen, touches the session, the tokens, the identity or how sessions are kept.
pub proof fn law_no_key_touches_the_session(a: AppView, key: KeyEvent, panes: PanesView)
    ensures
        same_session(a, on_key(a, key, panes).0),
{
    lemma_the_first_screens_keep_the_session(a, key, panes);
    lemma_the_main_screen_keeps_the_session(a, key, panes);
    lemma_the_other_screens_keep_the_session(a, key, panes);
}

// ── Contacts ──────────────────────────────────────────────────────────────────

/// A person is added under their id and name: to the list, and, where the core is there, to the
/// store first and to the stream, and a session with them is opened. The main screen comes up.
pub proof fn law_an_added_person_is_kept_and_listed(
    a: AppView,
    user_id: Seq<char>,
    username: Seq<char>,
)
    ensures
        ({
            let (b, e) = contact_added(a, user_id, username);
            let add = UiEffectView::AddContact { user_id, display_name: username };
            let reset = UiEffectView::Pane(PaneOp::SearchReset);
            &&& b == (AppView {
                screen: Screen::Main,
                status: "Added @"@ + username + " — opening session"@,
                ..a
            })
            &&& a.wired ==> e == seq![
                UiEffectView::UpsertContact { user_id, display_name: username },
                add,
                UiEffectView::Resubscribe,
                UiEffectView::ToCore(
                    IncomingEvent::ActiveChatChanged { contact_id: user_id, is_active: true },
                ),
                reset,
            ]
            &&& !a.wired ==> e == seq![add, reset]
        }),
{
}

/// A removed contact is forgotten by the core and no longer subscribed to, where the core is
/// there; the list loses it, if it had it; the chat is emptied if it was theirs, or nobody of
/// that id is left.
pub proof fn law_a_removed_contact_is_gone(a: AppView, id: Seq<char>, panes: PanesView, i: int)
    requires
        panes.contacts.len() <= usize::MAX,
    ensures
        ({
            let (b, e) = contact_removed(a, id, panes);
            &&& b == (AppView { status: "Node removed."@, ..a })
            &&& e.contains(UiEffectView::ForgetContact(id)) <==> a.wired
            &&& e.contains(UiEffectView::Resubscribe) <==> a.wired
            &&& panes.chat_name == id ==> e.contains(UiEffectView::ClearChat)
            &&& 0 <= i < panes.contacts.len() && panes.contacts[i].id == id && (forall|j: int|
                0 <= j < i ==> (#[trigger] panes.contacts[j]).id != id) ==> e.contains(
                UiEffectView::RemoveContactAt(i as usize),
            )
            &&& (forall|j: int| 0 <= j < panes.contacts.len() ==> (#[trigger] panes.contacts[j]).id
                != id) ==> e.contains(UiEffectView::ClearChat)
        }),
{
    let (b, e) = contact_removed(a, id, panes);
    crate::screens::chat_list::law_first_place(panes.contacts, id);
    let place = place_of(panes.contacts, id);
    let w: int = if a.wired {
        1
    } else {
        0
    };
    let p: int = if place is Some {
        1
    } else {
        0
    };
    if a.wired {
        assert(e[0] == UiEffectView::ForgetContact(id));
        assert(e[1 + p] == UiEffectView::Resubscribe);
    }
    if place is Some {
        assert(e[w] == UiEffectView::RemoveContactAt(place->0 as usize));
    }
    if panes.chat_name == id {
        assert(e[2 * w + p] == UiEffectView::ClearChat);
    }
    if place is None {
        assert(e[2 * w + p] == UiEffectView::ClearChat);
    }
    if !a.wired {
        assert forall|k: int| 0 <= k < e.len() implies e[k] !is ForgetContact && e[k]
            !is Resubscribe by {}
    }
}

/// A contact that could not be deleted stays, and the reason is told.
pub proof fn law_a_failed_deletion_removes_nobody(
    a: AppView,
    id: Seq<char>,
    why: Seq<char>,
    panes: PanesView,
)
    ensures
        on_deleted(a, id, Err(why), panes) == (
            AppView { status: "Delete failed: "@ + why, ..a },
            Seq::<UiEffectView>::empty(),
        ),
        on_deleted(a, id, Ok(()), panes) == contact_removed(a, id, panes),
{
}

/// An invite that was read and has not expired is redeemed as it was read, under the name of its
/// maker; one that could not be read, or has expired, is not, and the user is told.
pub proof fn law_a_good_invite_is_redeemed(a: AppView, invite: InviteView, now: i64, why: Seq<char>)
    ensures
        !expired(invite, now) ==> {
            let (b, e) = on_invite(a, Ok(invite), now);
            &&& b == a
            &&& e.last() matches UiEffect::Accept { invite: i, username } && i == invite && (
            match invite.un {
                Some(un) => un.len() > 0 ==> username == un,
                None => true,
            })
        },
        expired(invite, now) ==> on_invite(a, Ok(invite), now) == (
            a,
            seq![UiEffectView::SearchError("Invite expired"@)],
        ),
        on_invite(a, Err(why), now) == (
            a,
            seq![UiEffectView::SearchError("Bad invite: "@ + why)],
        ),
{
}

/// Somebody without a name is shown by the beginning of their id: the first eight characters of an
/// ASCII id, or the whole of a shorter one.
pub proof fn law_the_nameless_are_shown_by_id(invite: InviteView, id: Seq<char>)
    requires
        invite.un is None || invite.un->0.len() == 0,
        invite.uuid == id,
        forall|i: int| 0 <= i < id.len() ==> (#[trigger] id[i] as u32) < 0x80,
    ensures
        id.len() <= 8 ==> invite_name(invite) == id,
        id.len() > 8 ==> invite_name(invite) == id.take(8),
{
    lemma_ascii_take(id, 8);
    lemma_ascii_take(id, id.len());
    assert(id.take(id.len() as int) =~= id);
    if id.len() > 8 {
        vstd::utf8::encode_utf8_decode_utf8(id.take(8));
    }
}

proof fn lemma_ascii_take(s: Seq<char>, n: nat)
    requires
        forall|i: int| 0 <= i < s.len() ==> (#[trigger] s[i] as u32) < 0x80,
    ensures
        encode_utf8(s).len() == s.len(),
        n <= s.len() ==> encode_utf8(s.take(n as int)) == encode_utf8(s).take(n as int),
    decreases s.len(),
{
    reveal_with_fuel(encode_utf8, 2);
    if s.len() > 0 {
        let t = s.drop_first();
        assert forall|i: int| 0 <= i < t.len() implies (#[trigger] t[i] as u32) < 0x80 by {
            assert(t[i] == s[i + 1]);
        }
        assert((s[0] as u32) < 0x80);
        if n > 0 {
            lemma_ascii_take(t, (n - 1) as nat);
            if n <= s.len() {
                assert(s.take(n as int).drop_first() =~= t.take(n - 1));
                assert(encode_utf8(s.take(n as int)) =~= encode_utf8(s).take(n as int));
            }
        } else {
            lemma_ascii_take(t, 0);
            assert(s.take(0) =~= Seq::empty());
            assert(encode_utf8(s.take(0)) =~= encode_utf8(s).take(0));
        }
    } else if n == 0 {
        assert(s.take(0) =~= s);
        assert(encode_utf8(s.take(0)) =~= encode_utf8(s).take(0));
    }
}

/// The stream is asked for every contact of the list, in its order, and for nobody else.
pub proof fn law_all_contacts_are_subscribed_to(contacts: &[Contact], r: Vec<String>, i: int)
    requires
        call_ensures(contact_ids_for_stream, (contacts,), r),
        0 <= i < contacts@.len(),
    ensures
        r@.len() == contacts@.len(),
        r@[i]@ == contacts@[i].id@,
{
    let t = crate::streaming::texts(r@);
    assert(t.len() == r@.len());
    assert(t[i] == r@[i]@);
    assert(contacts_of(contacts@)[i] == contacts@[i]@);
}

/// The stored contacts are listed in their order, each under its id and name.
pub proof fn law_stored_contacts_are_listed(stored: Vec<StoredContact>, r: Vec<Contact>, i: int)
    requires
        call_ensures(contacts_from_store, (&stored,), r),
        0 <= i < stored@.len(),
    ensures
        r@.len() == stored@.len(),
        r@[i].id@ == stored@[i].user_id@,
        r@[i].display_name@ == stored@[i].display_name@,
        r@[i].unread == 0,
{
    let t = contacts_of(r@);
    assert(t.len() == r@.len());
    assert(t[i] == r@[i]@);
}

/// The name of a contact is that of the first in the list with its id.
pub proof fn law_names_are_looked_up_by_id(contacts: Seq<ContactView>, i: int)
    requires
        0 <= i < contacts.len(),
        forall|j: int| 0 <= j < i ==> (#[trigger] contacts[j]).id != contacts[i].id,
    ensures
        name_of(contacts, contacts[i].id) == Some(contacts[i].display_name),
        place_of(contacts, contacts[i].id) == Some(i),
{
    crate::screens::chat_list::law_first_place(contacts, contacts[i].id);
}

/// A user that was found is listed under the name that was asked for; nobody is listed where
/// nobody was found.
pub proof fn law_a_found_user_is_listed(
    query: &str,
    user_id: Option<String>,
    r: Vec<SearchResult>,
)
    requires
        call_ensures(search_results, (query, user_id), r),
    ensures
        user_id matches Some(id) ==> r@.len() == 1 && r@[0].user_id@ == id@ && r@[0].username@
            == query@,
        user_id is None ==> r@.len() == 0,
{
}

/// A complaint is shown as it is, unless it speaks of a limit, which is explained.
pub proof fn law_limits_are_explained(msg: Seq<char>)
    ensures
        !occurs(msg, "rate limit"@) && !occurs(msg, "8:"@) ==> search_complaint(msg) == msg,
        occurs(msg, "rate limit"@) || occurs(msg, "8:"@) ==> search_complaint(msg)
            == "Search limit (5/hour). Wait, then Enter once."@,
{
}

// ── News ──────────────────────────────────────────────────────────────────────

/// News from the background is shown for what it is: a message by its text, the stream by whether
/// it is there and how it is reached, an error by its text. Nothing of it touches the session.
pub proof fn law_news_are_shown(a: AppView, contacts: Seq<ContactView>, text: Seq<char>, n: u32)
    ensures
        ({
            let new = BridgeEvent::NewMessage {
                peer_id: text,
                message_id: text,
                text,
                timestamp_ms: 0,
            };
            on_bridge(a, new, contacts) == (a, seq![UiEffectView::ShowReceived(text)])
        }),
        ({
            let (b, e) = on_bridge(a, BridgeEvent::StreamStatus { connected: true }, contacts);
            &&& e.len() == 0
            &&& b == (AppView {
                status: "● connected"@,
                connection: Connection::Connected {
                    transport: label_of(a.transport),
                    latency_ms: None,
                },
                ..a
            })
        }),
        ({
            let (b, e) = on_bridge(a, BridgeEvent::StreamStatus { connected: false }, contacts);
            &&& e.len() == 0
            &&& b == (AppView {
                status: "○ disconnected"@,
                connection: Connection::Disconnected,
                ..a
            })
        }),
        ({
            let (b, e) = on_bridge(
                a,
                BridgeEvent::StreamReconnecting { attempt: n, delay_ms: 0 },
                contacts,
            );
            &&& e.len() == 0
            &&& b == (AppView {
                status: "↺ reconnecting (attempt "@ + decimal(n as nat) + ")"@,
                connection: Connection::Reconnecting { attempt: n, delay_ms: 0 },
                ..a
            })
        }),
        on_bridge(a, BridgeEvent::Error(text), contacts) == (
            AppView { status: "Bridge error: "@ + text, ..a },
            Seq::<UiEffectView>::empty(),
        ),
        name_of(contacts, text) matches Some(name) ==> on_bridge(
            a,
            BridgeEvent::SessionReady { contact_id: text },
            contacts,
        ) == (
            AppView { status: "Session ready with @"@ + name, ..a },
            Seq::<UiEffectView>::empty(),
        ),
{
}

/// A direct connection is shown with how fast it is, a relay as one; a connection that went down
/// leaves what is shown of the server.
pub proof fn law_direct_connections_are_shown(a: AppView, peer: Seq<char>, ms: u32, relay: bool)
    ensures
        on_p2p(a, peer, true, Some(ms), relay) == (AppView {
            status: "P2P connected to "@ + peer + " ("@ + (decimal(ms as nat) + "ms"@)
                + " latency)"@,
            connection: Connection::Connected { transport: "P2P"@, latency_ms: Some(ms) },
            ..a
        }),
        on_p2p(a, peer, false, Some(ms), true).connection == (Connection::Connected {
            transport: "Relay"@,
            latency_ms: None::<u32>,
        }),
        on_p2p(a, peer, false, Some(ms), false).connection == a.connection,
        on_p2p(a, peer, true, None, relay).connection == (Connection::Connected {
            transport: "P2P"@,
            latency_ms: None::<u32>,
        }),
{
}

/// Each way to the server has its own name.
pub proof fn law_transports_have_their_names()
    ensures
        label_of(TransportConfig::Direct) == "direct"@,
        label_of(TransportConfig::Obfs4) == "obfs4"@,
        label_of(TransportConfig::Obfs4Tls) == "obfs4+tls"@,
        label_of(TransportConfig::CdnFront) == "cdn-front"@,
{
}

// ── What is drawn ─────────────────────────────────────────────────────────────

/// Each screen is drawn as itself; a request in flight says what it is, and a failed sign-in why.
pub proof fn law_each_screen_is_drawn(
    v: AppView,
    contacts: Seq<ContactView>,
    number: bool,
    m: Seq<char>,
)
    ensures
        ({
            let d = drawn(v, contacts, number).1;
            &&& v.screen is Main ==> d.base == Base::Main
            &&& v.screen is Settings ==> d.base == Base::Settings
            &&& v.screen is ContactSearch ==> d.base == Base::ContactSearch
            &&& v.screen is SafetyNumber && number ==> d.base == Base::SafetyNumber
            &&& v.screen is SafetyNumber && !number ==> d.base == Base::Settings
            &&& v.screen is IdentityQr ==> d.base == Base::IdentityQr
            &&& v.screen is DeviceLink ==> d.base == Base::DeviceLink
            &&& v.screen is Registering ==> d.base == Base::Registering
            &&& v.screen is Unlock || v.screen is SetPassphrase ==> d.base == Base::Passphrase
            &&& v.screen is Onboarding || v.screen is Startup || v.screen is Connecting || v.screen
                is AuthError ==> d.base == Base::Onboarding
            &&& v.screen == Screen::Connecting(m) ==> d.notice == Notice::Busy(m)
            &&& v.screen == Screen::AuthError(m) ==> d.notice == Notice::Failed(m)
            &&& v.screen is Startup ==> d.notice is Busy
            &&& v.screen !is Main && v.screen !is Connecting && v.screen !is AuthError && v.screen
                !is Startup ==> d.notice is Silent
        }),
{
}

/// A notice is shown with its text in it; the question whether to remove a contact names it.
pub proof fn law_notices_show_their_text(t: Seq<char>)
    ensures
        notice_line(Notice::Silent).len() == 0,
        notice_line(Notice::Busy(t)).last() == (Run { ink: Ink::White, text: t }),
        notice_line(Notice::Removal(t)) == seq![
            Run { ink: Ink::Yellow, text: "  ⚠ Remove node "@ },
            Run { ink: Ink::White, text: t },
            Run { ink: Ink::Yellow, text: " and all messages? [y] confirm  [any] cancel"@ },
        ],
        notice_line(Notice::Failed(t))[0] == (Run {
            ink: Ink::Red,
            text: "  ✗ "@ + t + "  (any key to retry)"@,
        }),
{
}

/// The form shows the token that was typed, with a cursor behind it; the hint is the last of it.
pub proof fn law_the_form_shows_the_token(v: DeviceLinkView, area: Area)
    requires
        form_fits(v, area),
    ensures
        form_layout(v, area).field_text == v.token + "_"@,
        form_layout(v, area).status is Some <==> v.status is Some,
        form_layout(v, area).hint.y == form_layout(v, area).title.y + (if v.status is Some {
            8int
        } else {
            6int
        }),
{
}

// ── Times and messages ────────────────────────────────────────────────────────

/// Two digits.
pub open spec fn in_two_digits(n: nat) -> Seq<char> {
    if n < 10 {
        "0"@ + decimal(n)
    } else {
        decimal(n)
    }
}

proof fn lemma_hours_and_minutes(day: int, h: int, m: int, s: int)
    requires
        0 <= day,
        0 <= h < 24,
        0 <= m < 60,
        0 <= s < 60,
    ensures
        ({
            let t = 86_400 * day + 3_600 * h + 60 * m + s;
            t % 86_400 / 3_600 == h && t % 3_600 / 60 == m
        }),
{
    let t = 86_400 * day + 3_600 * h + 60 * m + s;
    let rest = 3_600 * h + 60 * m + s;
    lemma_fundamental_div_mod_converse(t, 86_400, day, rest);
    lemma_fundamental_div_mod_converse(rest, 3_600, h, 60 * m + s);
    lemma_fundamental_div_mod_converse(t, 3_600, 24 * day + h, 60 * m + s);
    lemma_fundamental_div_mod_converse(60 * m + s, 60, m, s);
}

/// A time is shown by its hours and minutes, each in two digits, on whatever day it is.
pub proof fn law_a_time_shows_hours_and_minutes(day: u64, h: u64, m: u64, s: u64)
    requires
        day < 1_000_000_000,
        h < 24,
        m < 60,
        s < 60,
    ensures
        time_of_day((86_400 * day + 3_600 * h + 60 * m + s) as u64) == in_two_digits(h as nat)
            + ":"@ + in_two_digits(m as nat),
        stored_time((1_000 * (86_400 * day + 3_600 * h + 60 * m + s)) as i64) == in_two_digits(
            h as nat,
        ) + ":"@ + in_two_digits(m as nat),
{
    let t = 86_400 * day + 3_600 * h + 60 * m + s;
    lemma_hours_and_minutes(day as int, h as int, m as int, s as int);
    lemma_fundamental_div_mod_converse(1_000 * t, 1_000, t, 0);
    crate::screens::chat_view::law_stored_time_is_the_clock((1_000 * t) as i64);
}

/// A time before the epoch is shown by its hours and minutes with their signs, where there are
/// any.
pub proof fn law_a_time_before_the_epoch_is_negative(h: u64, m: u64)
    requires
        h < 24,
        m < 60,
    ensures
        h > 0 && m > 0 ==> stored_time(-(1_000 * (3_600 * h + 60 * m)) as i64) == "-"@ + decimal(
            h as nat,
        ) + ":"@ + ("-"@ + decimal(m as nat)),
        h == 0 && m > 0 ==> stored_time(-(1_000 * (3_600 * h + 60 * m)) as i64) == "0"@ + decimal(0)
            + ":"@ + ("-"@ + decimal(m as nat)),
{
    let t = 3_600 * h + 60 * m;
    lemma_fundamental_div_mod_converse(1_000 * t, 1_000, t, 0);
    lemma_fundamental_div_mod_converse(t, 3_600, h as int, 60 * m);
    lemma_fundamental_div_mod_converse(t, 60, 60 * h + m, 0);
    lemma_fundamental_div_mod_converse(60 * h + m, 60, h as int, m as int);
    assert(h % 24 == h);
}

/// A stored message is shown as it was stored: as sent if it was, else as received.
pub proof fn law_a_stored_message_is_shown_as_stored(stored: StoredMessage, r: ChatMessage)
    requires
        call_ensures(message_from_store, (stored,), r),
    ensures
        r.id@ == stored.id@,
        r.text@ == stored.text@,
        r.kind == MessageKind::Sent <==> stored.direction@ == "sent"@,
        r.time@ == stored_time(stored.timestamp_ms),
{
}

/// A decrypted message shows in the chat that is open exactly if that is its conversation or its
/// sender, as received and with its own text.
pub proof fn law_a_message_shows_in_its_own_chat(
    id: String,
    plaintext: &[u8],
    sender: &str,
    conversation: &str,
    open_chat: &str,
    secs: u64,
    r: Option<ChatMessage>,
)
    requires
        call_ensures(decrypted_message, (id, plaintext, sender, conversation, open_chat, secs), r),
    ensures
        r is Some <==> open_chat@ == conversation@ || open_chat@ == sender@,
        r matches Some(m) ==> m.id@ == id@ && m.kind == MessageKind::Received && m.text@
            == utf8_lossy(plaintext@) && m.time@ == time_of_day(secs),
{
}

} // verus!
