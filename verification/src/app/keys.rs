//! What the keys do, screen by screen.

use crate::encoding::{hex_encode, hex_encoded};
use crate::event::{KeyCode, KeyEvent, KeyModifiers, is_interrupt, is_quit};
use crate::grpc::users::{
    normalize_username, normalized_username, searchable, username_is_searchable,
};
use crate::invite::{looks_like, looks_like_invite};
use crate::orchestration::IncomingEvent;
use crate::screens::chat_list::Contact;
use crate::screens::device_link::{DeviceLinkScreen, DeviceLinkView, blank_link_form, erased, typed};
use crate::text::{join, trim, trimmed};
use super::{
    App, AppView, Focus, PaneOp, Panes, PanesView, Reaction, Screen, SettingsAction, UiEffect,
    UiEffectView, does, effects_of, focused, none, on_pane, one, pane, put, quiet, says,
    signed_out_screen, to_screen, two,
};
use super::contacts::{contact_added, contact_removed};
use super::session::{copied, in_the_clear};
use vstd::prelude::*;

verus! {

// ── Keys, screen by screen ────────────────────────────────────────────────────

/// Typing a user name, and registering with it.
pub open spec fn onboarding_key(a: AppView, key: KeyEvent, panes: PanesView) -> Reaction {
    match key.code {
        KeyCode::Tab | KeyCode::BackTab => to_screen(
            AppView { link: blank_link_form(), ..a },
            Screen::DeviceLink,
        ),
        KeyCode::Enter => {
            let name = trimmed(panes.username);
            (
                AppView { screen: Screen::Registering, ..a },
                seq![
                    UiEffect::Pane(PaneOp::OnboardingClearStatus),
                    UiEffect::Register(
                        if name.len() == 0 {
                            None
                        } else {
                            Some(name)
                        },
                    ),
                    UiEffect::Pane(PaneOp::RegistrationReset),
                    UiEffect::Pane(PaneOp::StartTicker),
                ],
            )
        },
        KeyCode::Backspace => (
            a,
            seq![
                UiEffect::Pane(PaneOp::OnboardingPop),
                UiEffect::Pane(PaneOp::OnboardingClearStatus),
            ],
        ),
        KeyCode::Char(c) => if c == 'q' && key.modifiers == KeyModifiers::NONE
            && panes.on_username_field && panes.username.len() == 0 {
            (AppView { running: false, ..a }, seq![])
        } else {
            (
                a,
                seq![
                    UiEffect::Pane(PaneOp::OnboardingPush(c)),
                    UiEffect::Pane(PaneOp::OnboardingClearStatus),
                ],
            )
        },
        _ => quiet(a),
    }
}

/// Typing the passphrase, and opening the session with it.
pub open spec fn unlock_key(a: AppView, key: KeyEvent, panes: PanesView) -> Reaction {
    match key.code {
        KeyCode::Backspace => (
            a,
            seq![
                UiEffect::Pane(PaneOp::UnlockPop),
                UiEffect::Pane(PaneOp::UnlockClearError),
            ],
        ),
        KeyCode::Char(c) => (
            a,
            seq![
                UiEffect::Pane(PaneOp::UnlockPush(c)),
                UiEffect::Pane(PaneOp::UnlockClearError),
            ],
        ),
        KeyCode::Enter => (
            a,
            seq![
                UiEffect::Pane(PaneOp::UnlockTake),
                if panes.passphrase.len() == 0 {
                    UiEffect::UnlockError("Enter your passphrase"@)
                } else {
                    UiEffect::OpenSession(panes.passphrase)
                },
            ],
        ),
        _ => quiet(a),
    }
}

/// Typing a new passphrase, and protecting the waiting session with it; an empty one leaves the
/// session unencrypted.
pub open spec fn passphrase_key(a: AppView, key: KeyEvent, panes: PanesView) -> Reaction {
    match key.code {
        KeyCode::Backspace => pane(a, PaneOp::UnlockPop),
        KeyCode::Char(c) => pane(a, PaneOp::UnlockPush(c)),
        KeyCode::Enter => {
            let take = UiEffectView::Pane(PaneOp::UnlockTake);
            match a.pending {
                Some(session) => (
                    a,
                    seq![
                        take,
                        if panes.passphrase.len() == 0 {
                            UiEffect::SkipEncryption(session)
                        } else {
                            UiEffect::CreateSession { passphrase: panes.passphrase, session }
                        },
                    ],
                ),
                None => does(a, take),
            }
        },
        _ => quiet(a),
    }
}

/// Typing a link token, and linking with it.
pub open spec fn link_key(a: AppView, key: KeyEvent) -> Reaction {
    if (key.code == KeyCode::Esc || key.code == KeyCode::Char('q')) && key.modifiers
        == KeyModifiers::NONE {
        to_screen(a, Screen::Onboarding)
    } else {
        match key.code {
            KeyCode::Enter => {
                let token = trimmed(a.link.token);
                if token.len() == 0 {
                    quiet(
                        AppView {
                            link: DeviceLinkView {
                                status: Some("Paste the link token first"@),
                                is_error: true,
                                ..a.link
                            },
                            ..a
                        },
                    )
                } else {
                    (
                        AppView {
                            link: DeviceLinkView { status: None, is_error: false, ..a.link },
                            screen: Screen::Connecting("Confirming device link…"@),
                            ..a
                        },
                        seq![UiEffect::Link(token)],
                    )
                }
            },
            KeyCode::Backspace => quiet(AppView { link: erased(a.link), ..a }),
            KeyCode::Char(c) => quiet(AppView { link: typed(a.link, c), ..a }),
            _ => quiet(a),
        }
    }
}

/// Opening the chat with the selected contact.
pub open spec fn chat_opened(a: AppView, panes: PanesView) -> Reaction {
    let b = AppView { focus: Focus::ChatView, ..a };
    match panes.selected {
        Some(c) => {
            let open = UiEffectView::OpenChat { contact_id: c.id, name: c.display_name };
            if a.wired {
                (
                    b,
                    seq![
                        UiEffect::ToCore(
                            IncomingEvent::ActiveChatChanged {
                                contact_id: c.id,
                                is_active: true,
                            },
                        ),
                        open,
                    ],
                )
            } else {
                (b, seq![open])
            }
        },
        None => quiet(b),
    }
}

pub open spec fn list_key(a: AppView, key: KeyEvent, panes: PanesView) -> Reaction {
    let plain = key.modifiers == KeyModifiers::NONE;
    match key.code {
        KeyCode::Down => pane(a, PaneOp::ListNext),
        KeyCode::Up => pane(a, PaneOp::ListPrev),
        KeyCode::Enter | KeyCode::Tab => chat_opened(a, panes),
        KeyCode::Char(c) => if c == 'j' {
            pane(a, PaneOp::ListNext)
        } else if c == 'k' {
            pane(a, PaneOp::ListPrev)
        } else if c == 'x' && plain {
            quiet(
                match panes.selected {
                    Some(c) => AppView { delete_confirm: Some(c.id), ..a },
                    None => a,
                },
            )
        } else if c == 's' && plain {
            to_screen(a, Screen::Settings)
        } else if (c == 'a' || c == 'n') && plain {
            (
                AppView { screen: Screen::ContactSearch, ..a },
                seq![UiEffect::Pane(PaneOp::SearchReset)],
            )
        } else {
            quiet(a)
        },
        _ => quiet(a),
    }
}

pub open spec fn chat_key(a: AppView, key: KeyEvent) -> Reaction {
    match key.code {
        KeyCode::Tab | KeyCode::Char('i') => focused(a, Focus::Compose),
        KeyCode::BackTab | KeyCode::Esc => focused(a, Focus::ContactList),
        KeyCode::PageUp | KeyCode::Char('u') => pane(a, PaneOp::ScrollUp(10)),
        KeyCode::PageDown | KeyCode::Char('d') => pane(a, PaneOp::ScrollDown(10)),
        KeyCode::Up | KeyCode::Char('k') => pane(a, PaneOp::ScrollUp(1)),
        KeyCode::Down | KeyCode::Char('j') => pane(a, PaneOp::ScrollDown(1)),
        KeyCode::Home => pane(a, PaneOp::ScrollToTop),
        KeyCode::End => pane(a, PaneOp::ScrollToBottom),
        _ => quiet(a),
    }
}

/// Sending what was typed, unless it is blank. It goes to the selected contact if the core is
/// there, and is shown in any case.
pub open spec fn text_sent(a: AppView, panes: PanesView) -> Reaction {
    let take = UiEffectView::Pane(PaneOp::ComposeTake);
    if trimmed(panes.compose).len() == 0 {
        does(a, take)
    } else {
        (
            AppView { status: "Message sent"@, ..a },
            seq![
                take,
                UiEffect::SendText {
                    contact_id: match panes.selected {
                        Some(c) => if a.wired {
                            Some(c.id)
                        } else {
                            None
                        },
                        None => None,
                    },
                    text: panes.compose,
                },
            ],
        )
    }
}

pub open spec fn compose_key(a: AppView, key: KeyEvent, panes: PanesView) -> Reaction {
    match key.code {
        KeyCode::Esc | KeyCode::BackTab => focused(a, Focus::ContactList),
        KeyCode::Enter => text_sent(a, panes),
        KeyCode::Backspace => pane(a, PaneOp::ComposePop),
        KeyCode::Char(c) => pane(a, PaneOp::ComposePush(c)),
        _ => quiet(a),
    }
}

/// The answer to whether a contact is to be deleted: `y`, or anything else for no.
pub open spec fn confirm_key(a: AppView, key: KeyEvent, panes: PanesView) -> Reaction {
    let b = AppView { delete_confirm: None, ..a };
    if key.code == KeyCode::Char('y') || key.code == KeyCode::Char('Y') {
        let peer_id = a.delete_confirm->0;
        if a.wired {
            does(b, UiEffect::DeleteContact(peer_id))
        } else {
            contact_removed(b, peer_id, panes)
        }
    } else {
        quiet(b)
    }
}

pub open spec fn main_key(a: AppView, key: KeyEvent, panes: PanesView) -> Reaction {
    if a.delete_confirm is Some {
        confirm_key(a, key, panes)
    } else if key.code == KeyCode::Char('q') && key.modifiers == KeyModifiers::NONE && a.focus
        != Focus::Compose {
        quiet(AppView { running: false, ..a })
    } else {
        match a.focus {
            Focus::ContactList => list_key(a, key, panes),
            Focus::ChatView => chat_key(a, key),
            Focus::Compose => compose_key(a, key, panes),
        }
    }
}

/// A key as 32 bytes: cut off, or filled up with zeros.
pub open spec fn key32(v: Seq<u8>) -> Seq<u8> {
    Seq::new(
        32,
        |i: int|
            if i < v.len() {
                v[i]
            } else {
                0u8
            },
    )
}

/// Comparing keys with the selected contact.
pub open spec fn safety_number_opened(a: AppView, panes: PanesView) -> Reaction {
    match panes.selected {
        None => says(a, "Select a contact first"@),
        Some(c) => match a.identity_key {
            None => says(a, "Identity key not available"@),
            Some(key) => (
                AppView { screen: Screen::SafetyNumber, ..a },
                seq![
                    UiEffect::ShowSafetyNumber {
                        name: c.display_name,
                        contact_id: c.id,
                        our_key: key32(key),
                    },
                ],
            ),
        },
    }
}

/// Writing the identity key to a file.
pub open spec fn key_export(a: AppView) -> Reaction {
    match a.identity_key {
        None => says(a, "Identity key not available"@),
        Some(key) => does(
            a,
            UiEffect::ExportKey {
                file_name: "construct_identity_"@ + a.user_id + ".txt"@,
                content: "identity_public_key_hex="@ + hex_encoded(key) + "\nuser_id="@ + a.user_id
                    + "\n"@,
            },
        ),
    }
}

pub open spec fn settings_key(a: AppView, key: KeyEvent, panes: PanesView) -> Reaction {
    match key.code {
        KeyCode::Esc | KeyCode::Char('q') => to_screen(a, Screen::Main),
        KeyCode::Up | KeyCode::Char('k') => pane(a, PaneOp::SettingsPrev),
        KeyCode::Down | KeyCode::Char('j') => pane(a, PaneOp::SettingsNext),
        KeyCode::Enter => match panes.settings_choice {
            Some(SettingsAction::Back) => to_screen(a, Screen::Main),
            Some(SettingsAction::Logout) => does(a, UiEffect::ClearSession),
            Some(SettingsAction::ShowSafetyNumber) => safety_number_opened(a, panes),
            Some(SettingsAction::ExportKeys) => key_export(a),
            Some(SettingsAction::ShowMyQr) => to_screen(a, Screen::IdentityQr),
            None => quiet(a),
        },
        KeyCode::Char('l') | KeyCode::Char('L') => does(a, UiEffect::ClearSession),
        KeyCode::Char('Q') => to_screen(a, Screen::IdentityQr),
        KeyCode::Char('s') | KeyCode::Char('S') => safety_number_opened(a, panes),
        _ => quiet(a),
    }
}

/// Looking for what was typed: an invite is redeemed, a possible user name is looked up.
pub open spec fn search_submitted(a: AppView, query: Seq<char>) -> Reaction {
    let name = normalized_username(query);
    if looks_like(trimmed(query)) {
        does(a, UiEffect::Redeem(trimmed(query)))
    } else if searchable(name) {
        (a, seq![UiEffect::SearchBusy, UiEffect::FindUser(name)])
    } else {
        does(a, UiEffect::SearchError("Username: 3–30 chars, letters/digits/_  (no @)"@))
    }
}

pub open spec fn search_key(a: AppView, key: KeyEvent, panes: PanesView) -> Reaction {
    match key.code {
        KeyCode::Esc => (
            AppView { screen: Screen::Main, ..a },
            seq![UiEffect::Pane(PaneOp::SearchReset)],
        ),
        KeyCode::Down | KeyCode::Tab => pane(a, PaneOp::SearchNext),
        KeyCode::Up | KeyCode::BackTab => pane(a, PaneOp::SearchPrev),
        KeyCode::Enter => match panes.found {
            Some(found) => contact_added(a, found.user_id, found.username),
            None => search_submitted(a, panes.query),
        },
        KeyCode::Backspace => pane(a, PaneOp::SearchPop),
        KeyCode::Char(c) => if c == 'a' && key.modifiers == KeyModifiers::CONTROL {
            match panes.found {
                Some(found) => contact_added(a, found.user_id, found.username),
                None => quiet(a),
            }
        } else {
            pane(a, PaneOp::SearchPush(c))
        },
        _ => quiet(a),
    }
}

/// What a key does. One that is released does nothing; Control and `c` ends the program on
/// every screen.
pub open spec fn on_key(a: AppView, key: KeyEvent, panes: PanesView) -> Reaction {
    if !key.pressed {
        quiet(a)
    } else if is_interrupt(key) {
        quiet(AppView { running: false, ..a })
    } else {
        match a.screen {
            Screen::Startup | Screen::Connecting(_) | Screen::Registering => quiet(a),
            Screen::AuthError(_) => if a.has_key {
                (
                    AppView { screen: Screen::Unlock, ..a },
                    seq![UiEffect::ResetUnlock { new_passphrase: false }],
                )
            } else {
                to_screen(a, Screen::Onboarding)
            },
            Screen::Unlock => unlock_key(a, key, panes),
            Screen::SetPassphrase => passphrase_key(a, key, panes),
            Screen::Onboarding => onboarding_key(a, key, panes),
            Screen::DeviceLink => link_key(a, key),
            Screen::Main => main_key(a, key, panes),
            Screen::Settings => settings_key(a, key, panes),
            Screen::ContactSearch => search_key(a, key, panes),
            Screen::SafetyNumber | Screen::IdentityQr => to_screen(a, Screen::Settings),
        }
    }
}

fn selected_contact(panes: &Panes) -> (r: Option<&Contact>)
    ensures
        (match r {
            Some(c) => Some(c@),
            None => None,
        }) == panes@.selected,
{
    match panes.selected {
        Some(i) => if i < panes.contacts.len() {
            Some(&panes.contacts[i])
        } else {
            None
        },
        None => None,
    }
}

/// Cuts a key off after 32 bytes, or fills it up with zeros.
pub fn vec_to_key32(v: &[u8]) -> (r: [u8; 32])
    ensures
        r@ == key32(v@),
{
    let mut out: [u8; 32] = [0; 32];
    let mut i: usize = 0;
    while i < 32 && i < v.len()
        invariant
            i <= 32,
            i <= v@.len(),
            forall|j: int| 0 <= j < i ==> out@[j] == v@[j],
            forall|j: int| i <= j < 32 ==> out@[j] == 0,
        decreases 32 - i,
    {
        out[i] = v[i];
        i = i + 1;
    }
    assert(out@ =~= key32(v@));
    out
}

impl App {
    fn onboarding_key(&mut self, key: KeyEvent, panes: &Panes) -> (r: Vec<UiEffect>)
        ensures
            (final(self)@, effects_of(r@)) == onboarding_key(old(self)@, key, panes@),
    {
        match key.code {
            KeyCode::Tab | KeyCode::BackTab => {
                self.device_link = DeviceLinkScreen::new();
                self.screen = Screen::DeviceLink;
                none()
            },
            KeyCode::Enter => {
                let name = trim(panes.username.as_str());
                let name = if name.is_empty() {
                    None
                } else {
                    Some(name.to_string())
                };
                let mut out = two(
                    UiEffect::Pane(PaneOp::OnboardingClearStatus),
                    UiEffect::Register(name),
                );
                put(&mut out, UiEffect::Pane(PaneOp::RegistrationReset));
                put(&mut out, UiEffect::Pane(PaneOp::StartTicker));
                self.screen = Screen::Registering;
                assert(effects_of(out@) =~= onboarding_key(old(self)@, key, panes@).1);
                out
            },
            KeyCode::Backspace => two(
                UiEffect::Pane(PaneOp::OnboardingPop),
                UiEffect::Pane(PaneOp::OnboardingClearStatus),
            ),
            KeyCode::Char(c) => {
                if c == 'q' && key.modifiers == KeyModifiers::NONE && panes.on_username_field
                    && panes.username.as_str().is_empty() {
                    self.running = false;
                    none()
                } else {
                    two(
                        UiEffect::Pane(PaneOp::OnboardingPush(c)),
                        UiEffect::Pane(PaneOp::OnboardingClearStatus),
                    )
                }
            },
            _ => none(),
        }
    }

    fn unlock_key(&self, key: KeyEvent, panes: &Panes) -> (r: Vec<UiEffect>)
        ensures
            (self@, effects_of(r@)) == unlock_key(self@, key, panes@),
    {
        match key.code {
            KeyCode::Backspace => two(
                UiEffect::Pane(PaneOp::UnlockPop),
                UiEffect::Pane(PaneOp::UnlockClearError),
            ),
            KeyCode::Char(c) => two(
                UiEffect::Pane(PaneOp::UnlockPush(c)),
                UiEffect::Pane(PaneOp::UnlockClearError),
            ),
            KeyCode::Enter => two(
                UiEffect::Pane(PaneOp::UnlockTake),
                if panes.passphrase.as_str().is_empty() {
                    UiEffect::UnlockError("Enter your passphrase".to_string())
                } else {
                    UiEffect::OpenSession(panes.passphrase.clone())
                },
            ),
            _ => none(),
        }
    }

    fn passphrase_key(&self, key: KeyEvent, panes: &Panes) -> (r: Vec<UiEffect>)
        ensures
            (self@, effects_of(r@)) == passphrase_key(self@, key, panes@),
    {
        match key.code {
            KeyCode::Backspace => on_pane(PaneOp::UnlockPop),
            KeyCode::Char(c) => on_pane(PaneOp::UnlockPush(c)),
            KeyCode::Enter => {
                let take = UiEffect::Pane(PaneOp::UnlockTake);
                match copied(&self.pending_session) {
                    Some(session) => two(
                        take,
                        if panes.passphrase.as_str().is_empty() {
                            UiEffect::SkipEncryption(session)
                        } else {
                            UiEffect::CreateSession {
                                passphrase: panes.passphrase.clone(),
                                session,
                            }
                        },
                    ),
                    None => one(take),
                }
            },
            _ => none(),
        }
    }

    fn link_key(&mut self, key: KeyEvent) -> (r: Vec<UiEffect>)
        ensures
            (final(self)@, effects_of(r@)) == link_key(old(self)@, key),
    {
        if (key.code == KeyCode::Esc || key.code == KeyCode::Char('q')) && key.modifiers
            == KeyModifiers::NONE {
            self.screen = Screen::Onboarding;
            return none();
        }
        match key.code {
            KeyCode::Enter => {
                let token = trim(self.device_link.token.as_str()).to_string();
                if token.as_str().is_empty() {
                    self.device_link.set_status("Paste the link token first", true);
                    none()
                } else {
                    self.device_link.clear_status();
                    self.screen = Screen::Connecting("Confirming device link…".to_string());
                    one(UiEffect::Link(token))
                }
            },
            KeyCode::Backspace => {
                self.device_link.pop_char();
                none()
            },
            KeyCode::Char(c) => {
                self.device_link.push_char(c);
                none()
            },
            _ => none(),
        }
    }

    fn open_chat(&mut self, panes: &Panes) -> (r: Vec<UiEffect>)
        ensures
            (final(self)@, effects_of(r@)) == chat_opened(old(self)@, panes@),
    {
        self.focus = Focus::ChatView;
        match selected_contact(panes) {
            Some(c) => {
                let open = UiEffect::OpenChat {
                    contact_id: c.id.clone(),
                    name: c.display_name.clone(),
                };
                if self.wired {
                    two(
                        UiEffect::ToCore(
                            IncomingEvent::ActiveChatChanged {
                                contact_id: c.id.clone(),
                                is_active: true,
                            },
                        ),
                        open,
                    )
                } else {
                    one(open)
                }
            },
            None => none(),
        }
    }

    fn list_key(&mut self, key: KeyEvent, panes: &Panes) -> (r: Vec<UiEffect>)
        ensures
            (final(self)@, effects_of(r@)) == list_key(old(self)@, key, panes@),
    {
        let plain = key.modifiers == KeyModifiers::NONE;
        match key.code {
            KeyCode::Down => on_pane(PaneOp::ListNext),
            KeyCode::Up => on_pane(PaneOp::ListPrev),
            KeyCode::Enter | KeyCode::Tab => self.open_chat(panes),
            KeyCode::Char(c) => {
                if c == 'j' {
                    on_pane(PaneOp::ListNext)
                } else if c == 'k' {
                    on_pane(PaneOp::ListPrev)
                } else if c == 'x' && plain {
                    if let Some(c) = selected_contact(panes) {
                        self.delete_confirm = Some(c.id.clone());
                    }
                    none()
                } else if c == 's' && plain {
                    self.screen = Screen::Settings;
                    none()
                } else if (c == 'a' || c == 'n') && plain {
                    self.screen = Screen::ContactSearch;
                    on_pane(PaneOp::SearchReset)
                } else {
                    none()
                }
            },
            _ => none(),
        }
    }

    fn chat_key(&mut self, key: KeyEvent) -> (r: Vec<UiEffect>)
        ensures
            (final(self)@, effects_of(r@)) == chat_key(old(self)@, key),
    {
        match key.code {
            KeyCode::Tab | KeyCode::Char('i') => {
                self.focus = Focus::Compose;
                none()
            },
            KeyCode::BackTab | KeyCode::Esc => {
                self.focus = Focus::ContactList;
                none()
            },
            KeyCode::PageUp | KeyCode::Char('u') => on_pane(PaneOp::ScrollUp(10)),
            KeyCode::PageDown | KeyCode::Char('d') => on_pane(PaneOp::ScrollDown(10)),
            KeyCode::Up | KeyCode::Char('k') => on_pane(PaneOp::ScrollUp(1)),
            KeyCode::Down | KeyCode::Char('j') => on_pane(PaneOp::ScrollDown(1)),
            KeyCode::Home => on_pane(PaneOp::ScrollToTop),
            KeyCode::End => on_pane(PaneOp::ScrollToBottom),
            _ => none(),
        }
    }

    fn send_text(&mut self, panes: &Panes) -> (r: Vec<UiEffect>)
        ensures
            (final(self)@, effects_of(r@)) == text_sent(old(self)@, panes@),
    {
        let take = UiEffect::Pane(PaneOp::ComposeTake);
        if trim(panes.compose.as_str()).is_empty() {
            return one(take);
        }
        let contact_id = match selected_contact(panes) {
            Some(c) => if self.wired {
                Some(c.id.clone())
            } else {
                None
            },
            None => None,
        };
        self.status = "Message sent".to_string();
        two(take, UiEffect::SendText { contact_id, text: panes.compose.clone() })
    }

    fn compose_key(&mut self, key: KeyEvent, panes: &Panes) -> (r: Vec<UiEffect>)
        ensures
            (final(self)@, effects_of(r@)) == compose_key(old(self)@, key, panes@),
    {
        match key.code {
            KeyCode::Esc | KeyCode::BackTab => {
                self.focus = Focus::ContactList;
                none()
            },
            KeyCode::Enter => self.send_text(panes),
            KeyCode::Backspace => on_pane(PaneOp::ComposePop),
            KeyCode::Char(c) => on_pane(PaneOp::ComposePush(c)),
            _ => none(),
        }
    }

    fn main_key(&mut self, key: KeyEvent, panes: &Panes) -> (r: Vec<UiEffect>)
        requires
            !is_interrupt(key),
        ensures
            (final(self)@, effects_of(r@)) == main_key(old(self)@, key, panes@),
    {
        if let Some(peer_id) = self.delete_confirm.take() {
            return match key.code {
                KeyCode::Char('y') | KeyCode::Char('Y') => {
                    if self.wired {
                        one(UiEffect::DeleteContact(peer_id))
                    } else {
                        self.remove_contact(peer_id, panes)
                    }
                },
                _ => none(),
            };
        }
        if is_quit(&key) && self.focus != Focus::Compose {
            self.running = false;
            return none();
        }
        match self.focus {
            Focus::ContactList => self.list_key(key, panes),
            Focus::ChatView => self.chat_key(key),
            Focus::Compose => self.compose_key(key, panes),
        }
    }

    fn open_safety_number_screen(&mut self, panes: &Panes) -> (r: Vec<UiEffect>)
        ensures
            (final(self)@, effects_of(r@)) == safety_number_opened(old(self)@, panes@),
    {
        match selected_contact(panes) {
            None => {
                self.status = "Select a contact first".to_string();
                none()
            },
            Some(c) => match &self.our_identity_key {
                None => {
                    self.status = "Identity key not available".to_string();
                    none()
                },
                Some(key) => {
                    let our_key = vstd::slice::slice_to_vec(&vec_to_key32(key.as_slice()));
                    self.screen = Screen::SafetyNumber;
                    one(
                        UiEffect::ShowSafetyNumber {
                            name: c.display_name.clone(),
                            contact_id: c.id.clone(),
                            our_key,
                        },
                    )
                },
            },
        }
    }

    fn export_identity_key(&mut self) -> (r: Vec<UiEffect>)
        ensures
            (final(self)@, effects_of(r@)) == key_export(old(self)@),
    {
        match &self.our_identity_key {
            None => {
                self.status = "Identity key not available".to_string();
                none()
            },
            Some(key) => {
                let mut file_name = join("construct_identity_", self.user_id.as_str());
                file_name.append(".txt");
                let mut content = join(
                    "identity_public_key_hex=",
                    hex_encode(key.as_slice()).as_str(),
                );
                content.append("\nuser_id=");
                content.append(self.user_id.as_str());
                content.append("\n");
                one(UiEffect::ExportKey { file_name, content })
            },
        }
    }

    fn settings_key(&mut self, key: KeyEvent, panes: &Panes) -> (r: Vec<UiEffect>)
        ensures
            (final(self)@, effects_of(r@)) == settings_key(old(self)@, key, panes@),
    {
        match key.code {
            KeyCode::Esc | KeyCode::Char('q') => {
                self.screen = Screen::Main;
                none()
            },
            KeyCode::Up | KeyCode::Char('k') => on_pane(PaneOp::SettingsPrev),
            KeyCode::Down | KeyCode::Char('j') => on_pane(PaneOp::SettingsNext),
            KeyCode::Enter => match panes.settings_choice {
                Some(SettingsAction::Back) => {
                    self.screen = Screen::Main;
                    none()
                },
                Some(SettingsAction::Logout) => one(UiEffect::ClearSession),
                Some(SettingsAction::ShowSafetyNumber) => self.open_safety_number_screen(panes),
                Some(SettingsAction::ExportKeys) => self.export_identity_key(),
                Some(SettingsAction::ShowMyQr) => {
                    self.screen = Screen::IdentityQr;
                    none()
                },
                None => none(),
            },
            KeyCode::Char('l') | KeyCode::Char('L') => one(UiEffect::ClearSession),
            KeyCode::Char('Q') => {
                self.screen = Screen::IdentityQr;
                none()
            },
            KeyCode::Char('s') | KeyCode::Char('S') => self.open_safety_number_screen(panes),
            _ => none(),
        }
    }

    fn submit_contact_search(&self, query: &str) -> (r: Vec<UiEffect>)
        ensures
            (self@, effects_of(r@)) == search_submitted(self@, query@),
    {
        let raw = trim(query);
        if looks_like_invite(raw) {
            return one(UiEffect::Redeem(raw.to_string()));
        }
        let name = normalize_username(query);
        if username_is_searchable(name.as_str()) {
            two(UiEffect::SearchBusy, UiEffect::FindUser(name))
        } else {
            one(
                UiEffect::SearchError(
                    "Username: 3–30 chars, letters/digits/_  (no @)".to_string(),
                ),
            )
        }
    }

    fn search_key(&mut self, key: KeyEvent, panes: &Panes) -> (r: Vec<UiEffect>)
        ensures
            (final(self)@, effects_of(r@)) == search_key(old(self)@, key, panes@),
    {
        match key.code {
            KeyCode::Esc => {
                self.screen = Screen::Main;
                on_pane(PaneOp::SearchReset)
            },
            KeyCode::Down | KeyCode::Tab => on_pane(PaneOp::SearchNext),
            KeyCode::Up | KeyCode::BackTab => on_pane(PaneOp::SearchPrev),
            KeyCode::Enter => match &panes.found {
                Some(found) => self.finish_add_contact(
                    found.user_id.clone(),
                    found.username.clone(),
                ),
                None => self.submit_contact_search(panes.query.as_str()),
            },
            KeyCode::Backspace => on_pane(PaneOp::SearchPop),
            KeyCode::Char(c) => {
                if c == 'a' && key.modifiers == KeyModifiers::CONTROL {
                    match &panes.found {
                        Some(found) => self.finish_add_contact(
                            found.user_id.clone(),
                            found.username.clone(),
                        ),
                        None => none(),
                    }
                } else {
                    on_pane(PaneOp::SearchPush(c))
                }
            },
            _ => none(),
        }
    }

    /// A key was pressed or released.
    pub fn handle_event(&mut self, key: KeyEvent, panes: &Panes) -> (r: Vec<UiEffect>)
        ensures
            (final(self)@, effects_of(r@)) == on_key(old(self)@, key, panes@),
    {
        if !key.pressed {
            return none();
        }
        if key.code == KeyCode::Char('c') && key.modifiers == KeyModifiers::CONTROL {
            self.running = false;
            return none();
        }
        match &self.screen {
            Screen::Startup | Screen::Connecting(_) | Screen::Registering => none(),
            Screen::AuthError(_) => {
                if self.has_key {
                    self.screen = Screen::Unlock;
                    one(UiEffect::ResetUnlock { new_passphrase: false })
                } else {
                    self.screen = Screen::Onboarding;
                    none()
                }
            },
            Screen::Unlock => self.unlock_key(key, panes),
            Screen::SetPassphrase => self.passphrase_key(key, panes),
            Screen::Onboarding => self.onboarding_key(key, panes),
            Screen::DeviceLink => self.link_key(key),
            Screen::Main => self.main_key(key, panes),
            Screen::Settings => self.settings_key(key, panes),
            Screen::ContactSearch => self.search_key(key, panes),
            Screen::SafetyNumber | Screen::IdentityQr => {
                self.screen = Screen::Settings;
                none()
            },
        }
    }
}

// ── Laws ──────────────────────────────────────────────────────────────────────


/// Control and `c` ends the program on every screen, and does nothing else.
pub proof fn law_interrupt_always_ends(a: AppView, key: KeyEvent, panes: PanesView)
    requires
        key.pressed,
        is_interrupt(key),
    ensures
        on_key(a, key, panes) == quiet(AppView { running: false, ..a }),
{
}

/// A key that is released does nothing.
pub proof fn law_released_keys_do_nothing(a: AppView, key: KeyEvent, panes: PanesView)
    requires
        !key.pressed,
    ensures
        on_key(a, key, panes) == quiet(a),
{
}

/// While a request is in flight, no key but Control and `c` does anything.
pub proof fn law_waiting_ignores_keys(a: AppView, key: KeyEvent, panes: PanesView)
    requires
        a.screen is Startup || a.screen is Connecting || a.screen is Registering,
        !is_interrupt(key),
    ensures
        on_key(a, key, panes) == quiet(a),
{
}

/// A plain `q` ends the program on the main screen, unless a message is being typed or a
/// deletion is to be confirmed; while one is typed, it is typed too.
pub proof fn law_q_quits_unless_typing(a: AppView, key: KeyEvent, panes: PanesView)
    requires
        key == (KeyEvent {
            code: KeyCode::Char('q'),
            modifiers: KeyModifiers::NONE,
            pressed: true,
        }),
        a.screen is Main,
        a.delete_confirm is None,
    ensures
        on_key(a, key, panes) == (if a.focus == Focus::Compose {
            pane(a, PaneOp::ComposePush('q'))
        } else {
            quiet(AppView { running: false, ..a })
        }),
{
}

/// No key leads past the sign-in.
pub proof fn law_no_key_signs_in(a: AppView, key: KeyEvent, panes: PanesView)
    requires
        signed_out_screen(a.screen),
    ensures
        signed_out_screen(on_key(a, key, panes).0.screen),
        on_key(a, key, panes).0.current == a.current,
        on_key(a, key, panes).0.access_token == a.access_token,
{
}

/// A contact is deleted only where the user was asked about that very contact, and said yes.
pub proof fn law_deletion_is_confirmed(a: AppView, key: KeyEvent, panes: PanesView, i: int)
    requires
        0 <= i < on_key(a, key, panes).1.len(),
    ensures
        match on_key(a, key, panes).1[i] {
            UiEffect::DeleteContact(id) | UiEffect::ForgetContact(id) => {
                &&& a.delete_confirm == Some(id)
                &&& key.code == KeyCode::Char('y') || key.code == KeyCode::Char('Y')
            },
            UiEffect::RemoveContactAt(_) => {
                &&& a.delete_confirm is Some
                &&& key.code == KeyCode::Char('y') || key.code == KeyCode::Char('Y')
            },
            _ => true,
        },
{
}

/// A question whether to delete a contact goes away with the next key that is pressed, unless
/// that key ends the program.
pub proof fn law_question_is_asked_once(a: AppView, key: KeyEvent, panes: PanesView)
    requires
        a.screen is Main,
        a.delete_confirm is Some,
        key.pressed,
        !is_interrupt(key),
    ensures
        on_key(a, key, panes).0.delete_confirm is None,
{
}

/// A key writes a session in the clear only where a new passphrase was asked for and none was
/// given.
pub proof fn law_only_an_empty_passphrase_skips(
    a: AppView,
    key: KeyEvent,
    panes: PanesView,
    i: int,
)
    requires
        0 <= i < on_key(a, key, panes).1.len(),
        in_the_clear(on_key(a, key, panes).1[i]),
    ensures
        a.screen is SetPassphrase,
        key.code == KeyCode::Enter,
        panes.passphrase.len() == 0,
{
}

/// What is sent is what was typed, and nothing blank is sent.
pub proof fn law_text_is_sent_as_typed(a: AppView, key: KeyEvent, panes: PanesView, i: int)
    requires
        0 <= i < on_key(a, key, panes).1.len(),
    ensures
        on_key(a, key, panes).1[i] matches UiEffect::SendText { contact_id, text } ==> {
            &&& text == panes.compose
            &&& trimmed(text).len() > 0
            &&& contact_id is Some ==> panes.selected is Some && contact_id
                == Some(panes.selected->0.id)
        },
{
}

} // verus!
