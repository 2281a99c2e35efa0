//! The screens as a state machine: which one is up, what a key or a background message does to
//! it, and what has to be done about it.
//!
//! `App` decides; the caller draws, holds the input fields and lists (`Panes`), touches the disk
//! and the network, and reports back.

pub mod contacts;
pub mod drawing;
pub mod keys;
pub mod session;

use crate::app::drawing::asked_name;
use crate::auth::SessionView;
use crate::config::{Session, SessionState, TransportConfig};
use crate::envelope::opt_view;
use crate::invite::{Invite, InviteView};
use crate::orchestration::IncomingEvent;
use crate::screens::chat_list::{Contact, ContactView, contact_name, contacts_of};
use crate::screens::contact_search::{SearchResult, SearchResultView};
use crate::screens::device_link::{DeviceLinkScreen, DeviceLinkView, blank_link_form};
use crate::text::opt_text;
use vstd::prelude::*;

verus! {

// ── State ─────────────────────────────────────────────────────────────────────

/// The screen that is up.
#[derive(Debug, Clone, PartialEq)]
pub enum Screen<T = String> {
    /// Looking for a session on disk.
    Startup,
    /// An encrypted session was found: the passphrase is asked for.
    Unlock,
    /// A new session: a passphrase to protect it is asked for.
    SetPassphrase,
    Onboarding,
    DeviceLink,
    /// Registration in progress.
    Registering,
    /// A request is in flight.
    Connecting(T),
    AuthError(T),
    /// Signed in.
    Main,
    Settings,
    IdentityQr,
    ContactSearch,
    SafetyNumber,
}

/// The part of the main screen that the keys go to.
#[derive(Debug, Clone, Copy, PartialEq, Eq, Structural)]
pub enum Focus {
    ContactList,
    ChatView,
    Compose,
}

/// The state of the connection, as shown.
#[derive(Debug, Clone, PartialEq)]
pub enum Connection<T = String> {
    Connected { transport: T, latency_ms: Option<u32> },
    Disconnected,
    Reconnecting { attempt: u32, delay_ms: u64 },
}

/// What an entry of the settings does.
#[derive(Debug, Clone, Copy, PartialEq, Eq, Structural)]
pub enum SettingsAction {
    Back,
    Logout,
    ShowSafetyNumber,
    ExportKeys,
    ShowMyQr,
}

/// What the input fields and lists hold when a key is pressed.
#[derive(Debug)]
pub struct Panes {
    pub contacts: Vec<Contact>,
    /// The place of the selected contact.
    pub selected: Option<usize>,
    /// The name over the chat.
    pub chat_name: String,
    /// The user name typed on the onboarding screen.
    pub username: String,
    pub on_username_field: bool,
    pub passphrase: String,
    pub compose: String,
    /// What is typed in the search.
    pub query: String,
    pub found: Option<SearchResult>,
    /// The selected entry of the settings.
    pub settings_choice: Option<SettingsAction>,
}

#[verifier::ext_equal]
pub struct PanesView {
    pub contacts: Seq<ContactView>,
    pub selected: Option<ContactView>,
    pub chat_name: Seq<char>,
    pub username: Seq<char>,
    pub on_username_field: bool,
    pub passphrase: Seq<char>,
    pub compose: Seq<char>,
    pub query: Seq<char>,
    pub found: Option<SearchResultView>,
    pub settings_choice: Option<SettingsAction>,
}

impl View for Screen<String> {
    type V = Screen<Seq<char>>;

    open spec fn view(&self) -> Screen<Seq<char>> {
        match self {
            Screen::Startup => Screen::Startup,
            Screen::Unlock => Screen::Unlock,
            Screen::SetPassphrase => Screen::SetPassphrase,
            Screen::Onboarding => Screen::Onboarding,
            Screen::DeviceLink => Screen::DeviceLink,
            Screen::Registering => Screen::Registering,
            Screen::Connecting(m) => Screen::Connecting(m@),
            Screen::AuthError(m) => Screen::AuthError(m@),
            Screen::Main => Screen::Main,
            Screen::Settings => Screen::Settings,
            Screen::IdentityQr => Screen::IdentityQr,
            Screen::ContactSearch => Screen::ContactSearch,
            Screen::SafetyNumber => Screen::SafetyNumber,
        }
    }
}

impl View for Connection<String> {
    type V = Connection<Seq<char>>;

    open spec fn view(&self) -> Connection<Seq<char>> {
        match self {
            Connection::Connected { transport, latency_ms } => Connection::Connected {
                transport: transport@,
                latency_ms: *latency_ms,
            },
            Connection::Disconnected => Connection::Disconnected,
            Connection::Reconnecting { attempt, delay_ms } => Connection::Reconnecting {
                attempt: *attempt,
                delay_ms: *delay_ms,
            },
        }
    }
}

impl View for Panes {
    type V = PanesView;

    open spec fn view(&self) -> PanesView {
        PanesView {
            contacts: contacts_of(self.contacts@),
            selected: match self.selected {
                Some(i) => if i < self.contacts@.len() {
                    Some(self.contacts@[i as int]@)
                } else {
                    None
                },
                None => None,
            },
            chat_name: self.chat_name@,
            username: self.username@,
            on_username_field: self.on_username_field,
            passphrase: self.passphrase@,
            compose: self.compose@,
            query: self.query@,
            found: opt_view(self.found),
            settings_choice: self.settings_choice,
        }
    }
}

/// Settings from the configuration and the command line.
pub struct AppConfig {
    pub server_url: String,
    pub transport: TransportConfig,
    pub no_encrypt: bool,
    pub headless: bool,
    pub pq_active: bool,
}

// ── Effects ───────────────────────────────────────────────────────────────────

/// What is done to an input field, a list or the registration screen.
#[derive(Debug, Clone, Copy, PartialEq, Eq, Structural)]
pub enum PaneOp {
    ListNext,
    ListPrev,
    ScrollUp(u16),
    ScrollDown(u16),
    ScrollToTop,
    ScrollToBottom,
    ComposePush(char),
    ComposePop,
    /// Empty the compose field.
    ComposeTake,
    OnboardingPush(char),
    OnboardingPop,
    OnboardingClearStatus,
    UnlockPush(char),
    UnlockPop,
    UnlockClearError,
    /// Empty the passphrase field.
    UnlockTake,
    SearchReset,
    SearchNext,
    SearchPrev,
    SearchPush(char),
    SearchPop,
    SettingsNext,
    SettingsPrev,
    RegistrationReset,
    /// Mark every step as done.
    RegistrationDone,
    RegistrationTick,
    RegistrationAdvance(usize),
    StartTicker,
    StopTicker,
}

/// What the caller has to do.
#[derive(Debug)]
pub enum UiEffect<T = String, B = Vec<u8>, S = Session, I = Invite> {
    Pane(PaneOp),
    /// Sign in with the session on disk.
    RestoreFromDisk,
    /// Sign in with a session.
    Restore(S),
    Register(Option<T>),
    Link(T),
    /// Sign in again with the signing key, because the tokens were refused.
    Reauth(S),
    RefreshNow(S),
    /// Refresh the tokens when they are about to expire.
    ScheduleRefresh(S),
    /// Keep a session; `session_saved` takes the outcome.
    Save { session: S, encrypted: bool },
    /// Keep a session, whatever comes of it.
    SaveQuietly { session: S, encrypted: bool },
    /// Remove the session from disk; `logged_out` takes the outcome.
    ClearSession,
    SetToken(Option<T>),
    SetDeviceId(Option<T>),
    UpdateSettings { device_id: T, user_id: T, signing_key_hex: T },
    StartOrchestrator(S),
    /// Clear the passphrase screen, for a new passphrase or for the known one.
    ResetUnlock { new_passphrase: bool },
    UnlockError(T),
    /// Open the session on disk with a passphrase; `unlocked` takes the outcome.
    OpenSession(T),
    /// Protect a session with a new passphrase; `passphrase_set` takes the outcome.
    CreateSession { passphrase: T, session: S },
    /// Keep a session in the clear; `passphrase_set` takes the outcome.
    SkipEncryption(S),
    ToCore(IncomingEvent<T, B>),
    ForgetContact(T),
    /// Show the chat with a contact, with its last messages.
    OpenChat { contact_id: T, name: T },
    /// Give the text an id, send it if there is a contact, and show it as sent.
    SendText { contact_id: Option<T>, text: T },
    ShowReceived(T),
    /// Empty the chat and put the name of the selected contact over it.
    ClearChat,
    UpsertContact { user_id: T, display_name: T },
    AddContact { user_id: T, display_name: T },
    RemoveContactAt(usize),
    /// Delete a contact from the store; `contact_deleted` takes the outcome.
    DeleteContact(T),
    /// Subscribe the stream to all contacts, from the kept cursor on.
    Resubscribe,
    ShowSafetyNumber { name: T, contact_id: T, our_key: B },
    /// Write a file to the home directory; `key_exported` takes the outcome.
    ExportKey { file_name: T, content: T },
    FindUser(T),
    /// Parse an invite; `invite_parsed` takes the outcome.
    Redeem(T),
    /// Have the server accept an invite.
    Accept { invite: I, username: T },
    SearchError(T),
    SearchBusy,
    SearchStatus(T),
    /// Stop the actor and the stream, forget the cursor, and drop the connection and the store.
    Shutdown,
    ResetPanes,
}

pub type UiEffectView = UiEffect<Seq<char>, Seq<u8>, SessionView, InviteView>;

impl View for UiEffect<String, Vec<u8>, Session, Invite> {
    type V = UiEffectView;

    open spec fn view(&self) -> UiEffectView {
        match self {
            UiEffect::Pane(x0) => UiEffect::Pane(*x0),
            UiEffect::RestoreFromDisk => UiEffect::RestoreFromDisk,
            UiEffect::Restore(x0) => UiEffect::Restore(x0@),
            UiEffect::Register(x0) => UiEffect::Register(opt_text(*x0)),
            UiEffect::Link(x0) => UiEffect::Link(x0@),
            UiEffect::Reauth(x0) => UiEffect::Reauth(x0@),
            UiEffect::RefreshNow(x0) => UiEffect::RefreshNow(x0@),
            UiEffect::ScheduleRefresh(x0) => UiEffect::ScheduleRefresh(x0@),
            UiEffect::Save { session, encrypted } => UiEffect::Save {
                session: session@,
                encrypted: *encrypted,
            },
            UiEffect::SaveQuietly { session, encrypted } => UiEffect::SaveQuietly {
                session: session@,
                encrypted: *encrypted,
            },
            UiEffect::ClearSession => UiEffect::ClearSession,
            UiEffect::SetToken(x0) => UiEffect::SetToken(opt_text(*x0)),
            UiEffect::SetDeviceId(x0) => UiEffect::SetDeviceId(opt_text(*x0)),
            UiEffect::UpdateSettings { device_id, user_id, signing_key_hex } => UiEffect::UpdateSettings {
                device_id: device_id@,
                user_id: user_id@,
                signing_key_hex: signing_key_hex@,
            },
            UiEffect::StartOrchestrator(x0) => UiEffect::StartOrchestrator(x0@),
            UiEffect::ResetUnlock { new_passphrase } => UiEffect::ResetUnlock {
                new_passphrase: *new_passphrase,
            },
            UiEffect::UnlockError(x0) => UiEffect::UnlockError(x0@),
            UiEffect::OpenSession(x0) => UiEffect::OpenSession(x0@),
            UiEffect::CreateSession { passphrase, session } => UiEffect::CreateSession {
                passphrase: passphrase@,
                session: session@,
            },
            UiEffect::SkipEncryption(x0) => UiEffect::SkipEncryption(x0@),
            UiEffect::ToCore(x0) => UiEffect::ToCore(x0@),
            UiEffect::ForgetContact(x0) => UiEffect::ForgetContact(x0@),
            UiEffect::OpenChat { contact_id, name } => UiEffect::OpenChat {
                contact_id: contact_id@,
                name: name@,
            },
            UiEffect::SendText { contact_id, text } => UiEffect::SendText {
                contact_id: opt_text(*contact_id),
                text: text@,
            },
            UiEffect::ShowReceived(x0) => UiEffect::ShowReceived(x0@),
            UiEffect::ClearChat => UiEffect::ClearChat,
            UiEffect::UpsertContact { user_id, display_name } => UiEffect::UpsertContact {
                user_id: user_id@,
                display_name: display_name@,
            },
            UiEffect::AddContact { user_id, display_name } => UiEffect::AddContact {
                user_id: user_id@,
                display_name: display_name@,
            },
            UiEffect::RemoveContactAt(x0) => UiEffect::RemoveContactAt(*x0),
            UiEffect::DeleteContact(x0) => UiEffect::DeleteContact(x0@),
            UiEffect::Resubscribe => UiEffect::Resubscribe,
            UiEffect::ShowSafetyNumber { name, contact_id, our_key } => UiEffect::ShowSafetyNumber {
                name: name@,
                contact_id: contact_id@,
                our_key: our_key@,
            },
            UiEffect::ExportKey { file_name, content } => UiEffect::ExportKey {
                file_name: file_name@,
                content: content@,
            },
            UiEffect::FindUser(x0) => UiEffect::FindUser(x0@),
            UiEffect::Redeem(x0) => UiEffect::Redeem(x0@),
            UiEffect::Accept { invite, username } => UiEffect::Accept {
                invite: invite@,
                username: username@,
            },
            UiEffect::SearchError(x0) => UiEffect::SearchError(x0@),
            UiEffect::SearchBusy => UiEffect::SearchBusy,
            UiEffect::SearchStatus(x0) => UiEffect::SearchStatus(x0@),
            UiEffect::Shutdown => UiEffect::Shutdown,
            UiEffect::ResetPanes => UiEffect::ResetPanes,
        }
    }
}

pub open spec fn effects_of(v: Seq<UiEffect>) -> Seq<UiEffectView> {
    v.map_values(|e: UiEffect| e@)
}

/// The program.
pub struct App {
    screen: Screen,
    focus: Focus,
    running: bool,
    status: String,
    server_url: String,
    transport: TransportConfig,
    pq_active: bool,
    no_encrypt: bool,
    configured_no_encrypt: bool,
    user_id: String,
    device_id: String,
    access_token: String,
    has_key: bool,
    current_session: Option<Session>,
    pending_session: Option<Session>,
    device_link: DeviceLinkScreen,
    connection: Connection,
    wired: bool,
    our_identity_key: Option<Vec<u8>>,
    delete_confirm: Option<String>,
}

#[verifier::ext_equal]
pub struct AppView {
    pub screen: Screen<Seq<char>>,
    pub focus: Focus,
    pub running: bool,
    pub status: Seq<char>,
    pub server_url: Seq<char>,
    pub transport: TransportConfig,
    pub pq_active: bool,
    /// Sessions are kept unencrypted.
    pub no_encrypt: bool,
    /// The configuration says so.
    pub configured_no_encrypt: bool,
    pub user_id: Seq<char>,
    pub device_id: Seq<char>,
    pub access_token: Seq<char>,
    /// A passphrase was given, and the key from it is at hand.
    pub has_key: bool,
    /// The session in use.
    pub current: Option<SessionView>,
    /// A new session that waits for its passphrase.
    pub pending: Option<SessionView>,
    pub link: DeviceLinkView,
    pub connection: Connection<Seq<char>>,
    /// The actor, the stream and the store are there.
    pub wired: bool,
    pub identity_key: Option<Seq<u8>>,
    /// The contact that the user is asked whether to delete.
    pub delete_confirm: Option<Seq<char>>,
}

impl View for App {
    type V = AppView;

    closed spec fn view(&self) -> AppView {
        AppView {
            screen: self.screen@,
            focus: self.focus,
            running: self.running,
            status: self.status@,
            server_url: self.server_url@,
            transport: self.transport,
            pq_active: self.pq_active,
            no_encrypt: self.no_encrypt,
            configured_no_encrypt: self.configured_no_encrypt,
            user_id: self.user_id@,
            device_id: self.device_id@,
            access_token: self.access_token@,
            has_key: self.has_key,
            current: opt_view(self.current_session),
            pending: opt_view(self.pending_session),
            link: self.device_link@,
            connection: self.connection@,
            wired: self.wired,
            identity_key: opt_view(self.our_identity_key),
            delete_confirm: opt_text(self.delete_confirm),
        }
    }
}

// ── Reactions ─────────────────────────────────────────────────────────────────

/// The state after something happened, and what has to be done.
pub type Reaction = (AppView, Seq<UiEffectView>);

pub open spec fn quiet(a: AppView) -> Reaction {
    (a, seq![])
}

pub open spec fn to_screen(a: AppView, screen: Screen<Seq<char>>) -> Reaction {
    (AppView { screen, ..a }, seq![])
}

pub open spec fn says(a: AppView, status: Seq<char>) -> Reaction {
    (AppView { status, ..a }, seq![])
}

pub open spec fn does(a: AppView, e: UiEffectView) -> Reaction {
    (a, seq![e])
}

pub open spec fn pane(a: AppView, op: PaneOp) -> Reaction {
    does(a, UiEffect::Pane(op))
}

pub open spec fn focused(a: AppView, focus: Focus) -> Reaction {
    (AppView { focus, ..a }, seq![])
}

/// One reaction after some effects.
pub open spec fn after(first: Seq<UiEffectView>, r: Reaction) -> Reaction {
    (r.0, first + r.1)
}

fn none() -> (r: Vec<UiEffect>)
    ensures
        effects_of(r@) == Seq::<UiEffectView>::empty(),
{
    let r: Vec<UiEffect> = Vec::new();
    assert(effects_of(r@) =~= Seq::<UiEffectView>::empty());
    r
}

fn put(v: &mut Vec<UiEffect>, e: UiEffect)
    ensures
        effects_of(final(v)@) == effects_of(old(v)@).push(e@),
{
    v.push(e);
    assert(effects_of(v@) =~= effects_of(old(v)@).push(e@));
}

fn one(e: UiEffect) -> (r: Vec<UiEffect>)
    ensures
        effects_of(r@) == seq![e@],
{
    let mut r = none();
    put(&mut r, e);
    assert(effects_of(r@) =~= seq![e@]);
    r
}

fn two(e: UiEffect, f: UiEffect) -> (r: Vec<UiEffect>)
    ensures
        effects_of(r@) == seq![e@, f@],
{
    let mut r = one(e);
    put(&mut r, f);
    assert(effects_of(r@) =~= seq![e@, f@]);
    r
}

fn on_pane(op: PaneOp) -> (r: Vec<UiEffect>)
    ensures
        effects_of(r@) == seq![UiEffectView::Pane(op)],
{
    one(UiEffect::Pane(op))
}

// ── The start ─────────────────────────────────────────────────────────────────

/// The program before it has looked for a session.
pub open spec fn initial(cfg: AppConfig) -> AppView {
    AppView {
        screen: Screen::Startup,
        focus: Focus::ContactList,
        running: true,
        status: "Ready"@,
        server_url: cfg.server_url@,
        transport: cfg.transport,
        pq_active: cfg.pq_active,
        no_encrypt: cfg.no_encrypt,
        configured_no_encrypt: cfg.no_encrypt,
        user_id: Seq::empty(),
        device_id: Seq::empty(),
        access_token: Seq::empty(),
        has_key: false,
        current: None,
        pending: None,
        link: blank_link_form(),
        connection: Connection::Disconnected,
        wired: false,
        identity_key: None,
        delete_confirm: None,
    }
}

/// What is done about the session on disk.
pub open spec fn started(a: AppView, found: SessionState) -> Reaction {
    match found {
        SessionState::Encrypted => to_screen(a, Screen::Unlock),
        SessionState::Plaintext => (
            AppView { screen: Screen::Connecting("Restoring session…"@), ..a },
            seq![UiEffect::RestoreFromDisk],
        ),
        SessionState::Absent => to_screen(a, Screen::Onboarding),
    }
}

impl App {
    pub fn new(cfg: AppConfig) -> (r: Self)
        ensures
            r@ == initial(cfg),
    {
        App {
            screen: Screen::Startup,
            focus: Focus::ContactList,
            running: true,
            status: "Ready".to_string(),
            server_url: cfg.server_url,
            transport: cfg.transport,
            pq_active: cfg.pq_active,
            no_encrypt: cfg.no_encrypt,
            configured_no_encrypt: cfg.no_encrypt,
            user_id: String::new(),
            device_id: String::new(),
            access_token: String::new(),
            has_key: false,
            current_session: None,
            pending_session: None,
            device_link: DeviceLinkScreen::new(),
            connection: Connection::Disconnected,
            wired: false,
            our_identity_key: None,
            delete_confirm: None,
        }
    }

    /// Picks the first screen, by what is on disk.
    pub fn startup_check(&mut self, found: SessionState) -> (r: Vec<UiEffect>)
        ensures
            (final(self)@, effects_of(r@)) == started(old(self)@, found),
    {
        match found {
            SessionState::Encrypted => {
                self.screen = Screen::Unlock;
                none()
            },
            SessionState::Plaintext => {
                self.screen = Screen::Connecting("Restoring session…".to_string());
                one(UiEffect::RestoreFromDisk)
            },
            SessionState::Absent => {
                self.screen = Screen::Onboarding;
                none()
            },
        }
    }
}

// ── What is drawn ─────────────────────────────────────────────────────────────

impl App {
    pub fn screen(&self) -> (r: &Screen)
        ensures
            r@ == self@.screen,
    {
        &self.screen
    }

    pub fn focus(&self) -> (r: Focus)
        ensures
            r == self@.focus,
    {
        self.focus
    }

    pub fn running(&self) -> (r: bool)
        ensures
            r == self@.running,
    {
        self.running
    }

    pub fn status(&self) -> (r: &str)
        ensures
            r@ == self@.status,
    {
        self.status.as_str()
    }

    pub fn connection(&self) -> (r: &Connection)
        ensures
            r@ == self@.connection,
    {
        &self.connection
    }

    pub fn device_link(&self) -> (r: &DeviceLinkScreen)
        ensures
            r@ == self@.link,
    {
        &self.device_link
    }

    pub fn user_id(&self) -> (r: &str)
        ensures
            r@ == self@.user_id,
    {
        self.user_id.as_str()
    }

    pub fn device_id(&self) -> (r: &str)
        ensures
            r@ == self@.device_id,
    {
        self.device_id.as_str()
    }

    /// The name to ask about when a contact is to be deleted: theirs, or else their id.
    pub fn delete_prompt(&self, contacts: &[Contact]) -> (r: Option<String>)
        ensures
            opt_text(r) == (match self@.delete_confirm {
                Some(id) => Some(asked_name(contacts_of(contacts@), id)),
                None => None,
            }),
    {
        match &self.delete_confirm {
            Some(id) => Some(
                match contact_name(contacts, id.as_str()) {
                    Some(name) => name.to_string(),
                    None => id.clone(),
                },
            ),
            None => None,
        }
    }
}

/// Before sign-in, or after sign-out.
pub open spec fn signed_out_screen(s: Screen<Seq<char>>) -> bool {
    match s {
        Screen::Main | Screen::Settings | Screen::IdentityQr | Screen::ContactSearch
        | Screen::SafetyNumber => false,
        _ => true,
    }
}

} // verus!
