//! The screens.

use konstruct::app::contacts::{
    contact_ids_for_stream, generate_message_id, invite_display_name, outgoing_text, peer_key,
};
use konstruct::app::drawing::{Base, Ink, Notice};
use konstruct::app::keys::vec_to_key32;
use konstruct::app::session::{
    reauth_failed, reauth_outcome, refresh_outcome, refresh_wait, restore_outcome,
    sign_in_outcome, AuthMsg, Opened, Protected, TokenRefreshMsg,
};
use konstruct::app::{
    App, AppConfig, Connection, Focus, PaneOp, Panes, Screen, SettingsAction, UiEffect,
};
use konstruct::auth::{AuthResult, RegistrationStep};
use konstruct::bridge::BridgeEvent;
use konstruct::config::{Session, SessionState, TransportConfig};
use konstruct::event::{is_quit, KeyCode, KeyEvent, KeyModifiers};
use konstruct::grpc::error::GrpcError;
use konstruct::invite::Invite;
use konstruct::orchestration::IncomingEvent;
use konstruct::screens::chat_list::{
    contact_name, contacts_from_store, new_contact, position, Contact,
};
use konstruct::screens::chat_view::{
    current_time_hhmm, decrypted_message, hhmm, hhmm_from_ms, message_at, message_from_store,
    message_now, MessageKind,
};
use konstruct::screens::contact_search::{search_error, search_results, SearchResult};
use konstruct::screens::device_link::{DeviceLinkScreen, HINT, TITLE};
use konstruct::screens::layout::{centred, centred_at, cut, notice, text_cells, text_line, Area};
use konstruct::storage::{StoredContact, StoredMessage};

#[test]
fn stream_resubscribe_uses_the_full_contact_set() {
    let contacts = vec![
        Contact {
            id: "alice".to_string(),
            display_name: "Alice".to_string(),
            unread: 0,
            last_message: None,
        },
        Contact {
            id: "bob".to_string(),
            display_name: "Bob".to_string(),
            unread: 0,
            last_message: None,
        },
    ];

    assert_eq!(
        contact_ids_for_stream(&contacts),
        vec!["alice".to_string(), "bob".to_string()]
    );
}

fn app() -> App {
    App::new(AppConfig {
        server_url: "https://ams.konstruct.cc:443".to_string(),
        transport: TransportConfig::Direct,
        no_encrypt: false,
        headless: false,
        pq_active: true,
    })
}

fn panes() -> Panes {
    Panes {
        contacts: vec![
            new_contact("alice".to_string(), "Alice".to_string()),
            new_contact("bob".to_string(), "Bob".to_string()),
        ],
        selected: Some(1),
        chat_name: "Bob".to_string(),
        username: String::new(),
        on_username_field: true,
        passphrase: String::new(),
        compose: String::new(),
        query: String::new(),
        found: None,
        settings_choice: None,
    }
}

fn session() -> Session {
    Session {
        signing_key_hex: "aa".to_string(),
        identity_key_hex: "bb".to_string(),
        device_id: "dev".to_string(),
        user_id: "usr".to_string(),
        access_token: "acc".to_string(),
        refresh_token: "ref".to_string(),
        expires_at: 100,
        spk_key_hex: "cc".to_string(),
        spk_sig_hex: "dd".to_string(),
    }
}

fn outcome() -> AuthResult {
    AuthResult {
        user_id: "usr".to_string(),
        device_id: "dev".to_string(),
        access_token: "acc".to_string(),
        session: Some(session()),
    }
}

fn success(pending: bool) -> AuthMsg {
    if pending {
        sign_in_outcome(Ok(outcome()))
    } else {
        restore_outcome(Ok(Some((AuthResult { session: None, ..outcome() }, session()))))
    }
}

fn key(code: KeyCode) -> KeyEvent {
    KeyEvent { code, modifiers: KeyModifiers::NONE, pressed: true }
}

fn press(a: &mut App, code: KeyCode, p: &Panes) -> Vec<UiEffect> {
    a.handle_event(key(code), p)
}

/// Signed in, with the core running.
fn signed_in() -> App {
    let mut a = app();
    a.startup_check(SessionState::Plaintext);
    a.handle_auth_msg(success(false), "");
    a.core_started(Some(vec![1, 2, 3]));
    a
}

#[test]
fn the_disk_decides_the_first_screen() {
    let mut a = app();
    assert_eq!(a.screen(), &Screen::Startup);
    assert!(a.startup_check(SessionState::Encrypted).is_empty());
    assert_eq!(a.screen(), &Screen::Unlock);
    let mut a = app();
    a.startup_check(SessionState::Absent);
    assert_eq!(a.screen(), &Screen::Onboarding);
    let mut a = app();
    let out = a.startup_check(SessionState::Plaintext);
    assert!(matches!(&out[..], [UiEffect::RestoreFromDisk]));
    assert_eq!(a.screen(), &Screen::Connecting("Restoring session…".to_string()));
    // nothing to restore after all
    let out = a.handle_auth_msg(AuthMsg::Failure("timeout".to_string()), "");
    assert!(matches!(&out[..], [UiEffect::Pane(PaneOp::StopTicker)]));
    assert_eq!(a.screen(), &Screen::Onboarding);
}

#[test]
fn a_restored_session_goes_straight_to_the_main_screen() {
    let a = signed_in();
    assert_eq!(a.screen(), &Screen::Main);
    assert_eq!(a.status(), "Connected as usr");
    assert_eq!((a.user_id(), a.device_id()), ("usr", "dev"));
    assert_eq!(
        a.connection(),
        &Connection::Connected { transport: "direct".to_string(), latency_ms: None }
    );
}

#[test]
fn a_new_session_asks_for_a_passphrase() {
    let mut a = app();
    a.startup_check(SessionState::Absent);
    let mut p = panes();
    p.username = "  fox ".to_string();
    let out = press(&mut a, KeyCode::Enter, &p);
    assert!(matches!(
        &out[..],
        [
            UiEffect::Pane(PaneOp::OnboardingClearStatus),
            UiEffect::Register(Some(name)),
            UiEffect::Pane(PaneOp::RegistrationReset),
            UiEffect::Pane(PaneOp::StartTicker)
        ] if name == "fox"
    ));
    assert_eq!(a.screen(), &Screen::Registering);
    assert!(matches!(
        &a.registration_step(RegistrationStep::SolvingPoW)[..],
        [UiEffect::Pane(PaneOp::RegistrationAdvance(n))] if *n == RegistrationStep::SolvingPoW.index()
    ));
    assert!(matches!(&a.tick()[..], [UiEffect::Pane(PaneOp::RegistrationTick)]));
    assert!(press(&mut a, KeyCode::Enter, &p).is_empty());
    let out = a.handle_auth_msg(success(true), "fox");
    assert_eq!(a.screen(), &Screen::SetPassphrase);
    assert!(a.tick().is_empty());
    assert_eq!(out.len(), 7);
    assert!(matches!(&out[5], UiEffect::ScheduleRefresh(s) if s == &session()));
    assert!(matches!(&out[6], UiEffect::ResetUnlock { new_passphrase: true }));

    p.passphrase = "secret".to_string();
    let out = press(&mut a, KeyCode::Enter, &p);
    assert!(matches!(
        &out[..],
        [UiEffect::Pane(PaneOp::UnlockTake), UiEffect::CreateSession { passphrase, session: s }]
            if passphrase == "secret" && s == &session()
    ));
    let out = a.passphrase_set(Protected::KeyFailed("oom".to_string()));
    assert!(matches!(&out[..], [UiEffect::UnlockError(m)] if m == "Key derivation failed: oom"));
    let out = a.passphrase_set(Protected::SaveFailed("full".to_string()));
    assert!(matches!(&out[..], [UiEffect::UnlockError(m)] if m == "Save failed: full"));
    assert_eq!(a.screen(), &Screen::SetPassphrase);
    let out = a.passphrase_set(Protected::Saved);
    assert!(matches!(&out[..], [UiEffect::StartOrchestrator(s)] if s == &session()));
    assert_eq!(a.screen(), &Screen::Main);
    // from now on the session is kept encrypted
    let out = a.handle_token_refresh_msg(TokenRefreshMsg::Refreshed {
        access_token: "acc2".to_string(),
        refresh_token: "ref2".to_string(),
        expires_at: 7,
    });
    assert!(matches!(&out[2], UiEffect::SaveQuietly { encrypted: true, session: s } if s.refresh_token == "ref2"));
}

#[test]
fn an_empty_passphrase_skips_encryption() {
    let mut a = app();
    a.startup_check(SessionState::Absent);
    press(&mut a, KeyCode::Enter, &panes());
    a.handle_auth_msg(success(true), "");
    let out = press(&mut a, KeyCode::Enter, &panes());
    assert!(matches!(
        &out[..],
        [UiEffect::Pane(PaneOp::UnlockTake), UiEffect::SkipEncryption(s)] if s == &session()
    ));
    a.passphrase_set(Protected::SavedInTheClear);
    assert_eq!(a.screen(), &Screen::Main);
    let out = a.handle_token_refresh_msg(TokenRefreshMsg::Refreshed {
        access_token: "acc2".to_string(),
        refresh_token: "ref2".to_string(),
        expires_at: 7,
    });
    assert!(matches!(&out[2], UiEffect::SaveQuietly { encrypted: false, .. }));
}

#[test]
fn unlocking() {
    let mut a = app();
    a.startup_check(SessionState::Encrypted);
    let mut p = panes();
    let out = press(&mut a, KeyCode::Enter, &p);
    assert!(matches!(&out[1], UiEffect::UnlockError(m) if m == "Enter your passphrase"));
    p.passphrase = "secret".to_string();
    let out = press(&mut a, KeyCode::Enter, &p);
    assert!(matches!(&out[1], UiEffect::OpenSession(x) if x == "secret"));
    for (outcome, text) in [
        (Opened::Missing, "No session found"),
        (Opened::Corrupted("tag".to_string()), "Session corrupted: tag"),
        (Opened::WrongPassphrase, "Wrong passphrase or corrupted session"),
    ] {
        let out = a.unlocked(outcome);
        assert!(matches!(&out[..], [UiEffect::UnlockError(m)] if m == text));
        assert_eq!(a.screen(), &Screen::Unlock);
    }
    let out = a.unlocked(Opened::Session(session()));
    assert!(matches!(&out[..], [UiEffect::Restore(_)]));
    assert_eq!(a.screen(), &Screen::Connecting("Authenticating…".to_string()));
    // a failure now is shown, and the next key leads back
    a.handle_auth_msg(reauth_failed("offline"), "");
    assert_eq!(a.screen(), &Screen::AuthError("Device re-auth failed: offline".to_string()));
    let out = press(&mut a, KeyCode::Esc, &p);
    assert!(matches!(&out[..], [UiEffect::ResetUnlock { new_passphrase: false }]));
    assert_eq!(a.screen(), &Screen::Unlock);
    a.unlocked(Opened::Session(session()));
    let out = a.handle_auth_msg(success(true), "");
    assert!(matches!(out.last(), Some(UiEffect::Save { encrypted: true, .. })));
    a.session_saved(Err("full".to_string()));
    assert_eq!(a.screen(), &Screen::AuthError("Save failed: full".to_string()));
    let out = a.session_saved(Ok(()));
    assert!(matches!(&out[..], [UiEffect::StartOrchestrator(_)]));
    assert_eq!(a.screen(), &Screen::Main);
}

#[test]
fn interrupt_ends_everywhere() {
    let interrupt = KeyEvent {
        code: KeyCode::Char('c'),
        modifiers: KeyModifiers::CONTROL,
        pressed: true,
    };
    let mut a = app();
    assert!(a.running());
    assert!(a.handle_event(KeyEvent { pressed: false, ..interrupt }, &panes()).is_empty());
    assert!(a.running());
    a.handle_event(interrupt, &panes());
    assert!(!a.running());
    assert!(is_quit(&interrupt));
    assert!(is_quit(&key(KeyCode::Char('q'))));
    assert!(!is_quit(&key(KeyCode::Char('c'))));
}

#[test]
fn q_quits_unless_a_message_is_typed() {
    let p = panes();
    let mut a = signed_in();
    press(&mut a, KeyCode::Enter, &p);
    assert_eq!(a.focus(), Focus::ChatView);
    press(&mut a, KeyCode::Char('i'), &p);
    assert_eq!(a.focus(), Focus::Compose);
    let out = press(&mut a, KeyCode::Char('q'), &p);
    assert!(matches!(&out[..], [UiEffect::Pane(PaneOp::ComposePush('q'))]));
    assert!(a.running());
    press(&mut a, KeyCode::Esc, &p);
    assert_eq!(a.focus(), Focus::ContactList);
    press(&mut a, KeyCode::Enter, &p);
    press(&mut a, KeyCode::Tab, &p);
    assert_eq!(a.focus(), Focus::Compose);
    press(&mut a, KeyCode::BackTab, &p);
    assert_eq!(a.focus(), Focus::ContactList);
    press(&mut a, KeyCode::Char('q'), &p);
    assert!(!a.running());
}

#[test]
fn opening_a_chat_and_sending() {
    let mut a = signed_in();
    let mut p = panes();
    let out = press(&mut a, KeyCode::Enter, &p);
    assert!(matches!(
        &out[..],
        [
            UiEffect::ToCore(IncomingEvent::ActiveChatChanged { contact_id, is_active: true }),
            UiEffect::OpenChat { name, .. }
        ] if contact_id == "bob" && name == "Bob"
    ));
    press(&mut a, KeyCode::Char('i'), &p);
    p.compose = "   ".to_string();
    assert!(matches!(
        &press(&mut a, KeyCode::Enter, &p)[..],
        [UiEffect::Pane(PaneOp::ComposeTake)]
    ));
    p.compose = " hi ".to_string();
    let out = press(&mut a, KeyCode::Enter, &p);
    assert!(matches!(
        &out[..],
        [UiEffect::Pane(PaneOp::ComposeTake), UiEffect::SendText { contact_id: Some(id), text }]
            if id == "bob" && text == " hi "
    ));
    assert_eq!(a.status(), "Message sent");
    match outgoing_text("bob".to_string(), "m".to_string(), "hé") {
        IncomingEvent::OutgoingMessage { plaintext, content_type, .. } => {
            assert_eq!((plaintext, content_type), ("hé".as_bytes().to_vec(), 0))
        }
        other => panic!("{other:?}"),
    }
}

#[test]
fn a_contact_is_deleted_after_a_yes_only() {
    let p = panes();
    let mut a = signed_in();
    press(&mut a, KeyCode::Char('x'), &p);
    assert_eq!(a.delete_prompt(&p.contacts).as_deref(), Some("Bob"));
    assert_eq!(a.delete_prompt(&[]).as_deref(), Some("bob"));
    assert!(press(&mut a, KeyCode::Char('q'), &p).is_empty());
    assert!(a.running());
    assert_eq!(a.delete_prompt(&p.contacts), None);
    press(&mut a, KeyCode::Char('x'), &p);
    let out = press(&mut a, KeyCode::Char('Y'), &p);
    assert!(matches!(&out[..], [UiEffect::DeleteContact(id)] if id == "bob"));
    let out = a.contact_deleted("bob".to_string(), Err("locked".to_string()), &p);
    assert!(out.is_empty());
    assert_eq!(a.status(), "Delete failed: locked");
    let out = a.contact_deleted("bob".to_string(), Ok(()), &p);
    assert!(matches!(
        &out[..],
        [
            UiEffect::ForgetContact(id),
            UiEffect::RemoveContactAt(1),
            UiEffect::Resubscribe,
            UiEffect::ClearChat
        ] if id == "bob"
    ));
    assert_eq!(a.status(), "Node removed.");
    // another entry with the same id keeps the chat
    let mut twice = panes();
    twice.contacts.push(new_contact("bob".to_string(), "Bob 2".to_string()));
    let out = a.contact_deleted("bob".to_string(), Ok(()), &twice);
    assert!(!out.iter().any(|e| matches!(e, UiEffect::ClearChat)));
}

#[test]
fn settings() {
    let mut p = panes();
    let mut a = signed_in();
    press(&mut a, KeyCode::Char('s'), &p);
    assert_eq!(a.screen(), &Screen::Settings);
    press(&mut a, KeyCode::Char('q'), &p);
    assert_eq!(a.screen(), &Screen::Main);
    press(&mut a, KeyCode::Char('s'), &p);
    press(&mut a, KeyCode::Char('Q'), &p);
    assert_eq!(a.screen(), &Screen::IdentityQr);
    press(&mut a, KeyCode::Char('z'), &p);
    assert_eq!(a.screen(), &Screen::Settings);
    p.settings_choice = Some(SettingsAction::ExportKeys);
    let out = press(&mut a, KeyCode::Enter, &p);
    assert!(matches!(
        &out[..],
        [UiEffect::ExportKey { file_name, content }]
            if file_name == "construct_identity_usr.txt"
                && content == "identity_public_key_hex=010203\nuser_id=usr\n"
    ));
    a.key_exported(Ok("/x".to_string()));
    assert_eq!(a.status(), "Key exported → /x");
    a.key_exported(Err("ro".to_string()));
    assert_eq!(a.status(), "Export failed: ro");
    let out = press(&mut a, KeyCode::Char('S'), &p);
    match &out[..] {
        [UiEffect::ShowSafetyNumber { name, our_key, .. }] => {
            assert_eq!(name, "Bob");
            assert_eq!(&our_key[..4], &[1, 2, 3, 0]);
            assert_eq!(our_key.len(), 32);
        }
        other => panic!("{other:?}"),
    }
    assert_eq!(a.screen(), &Screen::SafetyNumber);
    press(&mut a, KeyCode::Enter, &p);
    p.selected = None;
    press(&mut a, KeyCode::Char('s'), &p);
    assert_eq!(a.status(), "Select a contact first");
}

#[test]
fn logging_out_leaves_nothing() {
    let p = panes();
    let mut a = signed_in();
    press(&mut a, KeyCode::Char('s'), &p);
    let out = press(&mut a, KeyCode::Char('l'), &p);
    assert!(matches!(&out[..], [UiEffect::ClearSession]));
    a.logged_out(Err("busy".to_string()));
    assert_eq!(a.status(), "Logout error: busy");
    let out = a.logged_out(Ok(()));
    assert!(matches!(&out[0], UiEffect::Shutdown));
    assert!(matches!(&out[1], UiEffect::SetToken(None)));
    assert!(matches!(&out[2], UiEffect::SetDeviceId(None)));
    assert_eq!(a.screen(), &Screen::Onboarding);
    assert_eq!((a.user_id(), a.device_id()), ("", ""));
    assert!(a.refresh_token_now().is_empty());
    a.handle_token_refresh_msg(TokenRefreshMsg::FailedAuth("16".to_string()));
    assert_eq!(a.status(), "Device re-auth failed: no session in memory");
}

#[test]
fn refused_tokens_lead_to_a_new_sign_in() {
    let mut a = signed_in();
    assert!(matches!(&a.refresh_token_now()[..], [UiEffect::RefreshNow(s)] if s == &session()));
    assert!(a.handle_token_refresh_msg(TokenRefreshMsg::FailedTransport("x".to_string())).is_empty());
    let out = a.handle_token_refresh_msg(TokenRefreshMsg::FailedAuth("x".to_string()));
    assert!(matches!(&out[..], [UiEffect::Reauth(s)] if s == &session()));
}

#[test]
fn searching_and_adding() {
    let mut a = signed_in();
    let mut p = panes();
    press(&mut a, KeyCode::Char('a'), &p);
    assert_eq!(a.screen(), &Screen::ContactSearch);
    p.query = " @Fox ".to_string();
    let out = press(&mut a, KeyCode::Enter, &p);
    assert!(matches!(&out[..], [UiEffect::SearchBusy, UiEffect::FindUser(n)] if n == "fox"));
    p.query = "x".to_string();
    let out = press(&mut a, KeyCode::Enter, &p);
    assert!(matches!(&out[..], [UiEffect::SearchError(m)] if m.starts_with("Username: 3–30")));
    p.query = " konstruct://add?invite=abc ".to_string();
    let out = press(&mut a, KeyCode::Enter, &p);
    assert!(matches!(&out[..], [UiEffect::Redeem(r)] if r == "konstruct://add?invite=abc"));
    p.found = Some(SearchResult {
        user_id: "id-9".to_string(),
        username: "fox".to_string(),
        display_name: "fox".to_string(),
    });
    let out = press(&mut a, KeyCode::Enter, &p);
    assert!(matches!(
        &out[..],
        [
            UiEffect::UpsertContact { .. },
            UiEffect::AddContact { user_id, .. },
            UiEffect::Resubscribe,
            UiEffect::ToCore(_),
            UiEffect::Pane(PaneOp::SearchReset)
        ] if user_id == "id-9"
    ));
    assert_eq!(a.status(), "Added @fox — opening session");
    assert_eq!(a.screen(), &Screen::Main);
    let found = search_results("fox", Some("id-9".to_string()));
    assert_eq!((found.len(), found[0].user_id.as_str()), (1, "id-9"));
    assert!(search_results("fox", None).is_empty());
    assert_eq!(
        search_error("status 8: slow".to_string()),
        "Search limit (5/hour). Wait, then Enter once."
    );
    assert!(matches!(
        &a.search_failed("down".to_string())[..],
        [UiEffect::SearchError(m)] if m == "down"
    ));
    assert!(matches!(
        &a.invite_refused("used")[..],
        [UiEffect::SearchError(m)] if m == "Invite: used"
    ));
}

fn invite(un: Option<&str>) -> Invite {
    Invite {
        v: 5,
        jti: "j".to_string(),
        uuid: "22222222-2222-4222-8222-222222222222".to_string(),
        device_id: "d".to_string(),
        server: "s".to_string(),
        eph_key: String::new(),
        ts: 1000,
        sig: String::new(),
        un: un.map(str::to_string),
        ttl: Some(60),
    }
}

#[test]
fn invites_are_redeemed_until_they_expire() {
    let a = signed_in();
    let out = a.invite_parsed(Ok(invite(Some("fox"))), 1060);
    assert!(matches!(
        &out[..],
        [UiEffect::SearchBusy, UiEffect::SearchStatus(_), UiEffect::Accept { username, .. }]
            if username == "fox"
    ));
    let out = a.invite_parsed(Ok(invite(None)), 1061);
    assert!(matches!(&out[..], [UiEffect::SearchError(m)] if m == "Invite expired"));
    let out = a.invite_parsed(Err("bad magic".to_string()), 0);
    assert!(matches!(&out[..], [UiEffect::SearchError(m)] if m == "Bad invite: bad magic"));
    let long = Invite { uuid: "1234567é".to_string(), ..invite(Some("fox")) };
    assert_eq!(invite_display_name(&long), "fox");
    let out = a.invite_parsed(Ok(long), 1060);
    assert!(matches!(out.last(), Some(UiEffect::Accept { username, .. }) if username == "fox"));
    let late = Invite { uuid: "1234567é".to_string(), ..invite(None) };
    let out = a.invite_parsed(Ok(late), 1061);
    assert!(matches!(&out[..], [UiEffect::SearchError(m)] if m == "Invite expired"));
    assert_eq!(invite_display_name(&invite(None)), "22222222");
    assert_eq!(invite_display_name(&invite(Some(""))), "22222222");
    let mut short = invite(None);
    short.uuid = "abc".to_string();
    assert_eq!(invite_display_name(&short), "abc");
}

#[test]
fn news_is_shown() {
    let p = panes();
    let mut a = signed_in();
    let out = a.handle_bridge_event(
        BridgeEvent::NewMessage {
            peer_id: "bob".to_string(),
            message_id: "m".to_string(),
            text: "hi".to_string(),
            timestamp_ms: 0,
        },
        &p.contacts,
    );
    assert!(matches!(&out[..], [UiEffect::ShowReceived(t)] if t == "hi"));
    a.handle_bridge_event(BridgeEvent::StreamStatus { connected: false }, &p.contacts);
    assert_eq!((a.status(), a.connection()), ("○ disconnected", &Connection::Disconnected));
    a.handle_bridge_event(BridgeEvent::StreamReconnecting { attempt: 3, delay_ms: 4000 }, &p.contacts);
    assert_eq!(a.status(), "↺ reconnecting (attempt 3)");
    assert_eq!(a.connection(), &Connection::Reconnecting { attempt: 3, delay_ms: 4000 });
    a.handle_bridge_event(BridgeEvent::SessionReady { contact_id: "bob".to_string() }, &p.contacts);
    assert_eq!(a.status(), "Session ready with @Bob");
    a.handle_bridge_event(BridgeEvent::SessionReady { contact_id: "zed".to_string() }, &p.contacts);
    assert_eq!(a.status(), "Session ready with @contact");
    a.handle_bridge_event(BridgeEvent::Error("x".to_string()), &p.contacts);
    assert_eq!(a.status(), "Bridge error: x");
    a.handle_p2p_status("bob", true, Some(12), false);
    assert_eq!(a.status(), "P2P connected to bob (12ms latency)");
    a.handle_p2p_status("bob", true, None, false);
    assert_eq!(a.status(), "P2P connected to bob (unknown latency)");
    a.handle_p2p_status("bob", false, None, true);
    assert_eq!(a.status(), "P2P failed for bob, using relay");
    a.handle_p2p_status("bob", false, None, false);
    assert_eq!(a.status(), "P2P disconnected from bob");
    a.core_failed("Storage open error: x".to_string());
    assert_eq!(a.status(), "Storage open error: x");
}

#[test]
fn linking_a_device() {
    let mut a = app();
    a.startup_check(SessionState::Absent);
    let p = panes();
    press(&mut a, KeyCode::Tab, &p);
    assert_eq!(a.screen(), &Screen::DeviceLink);
    press(&mut a, KeyCode::Enter, &p);
    assert_eq!(a.device_link().status.as_deref(), Some("Paste the link token first"));
    assert!(a.device_link().is_error);
    for c in " tokQ ".chars() {
        press(&mut a, KeyCode::Char(c), &p);
    }
    press(&mut a, KeyCode::Char('x'), &p);
    press(&mut a, KeyCode::Backspace, &p);
    let out = press(&mut a, KeyCode::Enter, &p);
    assert!(matches!(&out[..], [UiEffect::Link(t)] if t == "tokQ"));
    let mut form = DeviceLinkScreen::new();
    for _ in 0..100 {
        form.push_char('é');
    }
    assert_eq!(form.token.len(), 64);
    form.pop_char();
    assert_eq!(form.token.chars().count(), 31);
    form.clear_status();
    assert_eq!(form.status, None);
}

#[test]
fn times_of_day() {
    assert_eq!(hhmm(0), "00:00");
    assert_eq!(hhmm(86_399), "23:59");
    assert_eq!(hhmm(86_400 + 3_660), "01:01");
    assert_eq!(hhmm_from_ms(3_660_999), "01:01");
    assert_eq!(hhmm_from_ms(-3_660_000), "-1:-1");
    assert_eq!(hhmm_from_ms(-999), "00:00");
    assert_eq!(hhmm_from_ms(i64::MIN), "-7:-12");
    let now = current_time_hhmm();
    assert_eq!((now.len(), now.as_bytes()[2]), (5, b':'));
    let m = message_now("m".to_string(), MessageKind::Received, "hi".to_string());
    assert_eq!((m.text.as_str(), m.time.len()), ("hi", 5));
}

#[test]
fn messages_as_shown() {
    let m = message_at("m".to_string(), MessageKind::Sent, "hi".to_string(), 60);
    assert_eq!((m.time.as_str(), m.kind), ("00:01", MessageKind::Sent));
    let stored = StoredMessage {
        id: "m".to_string(),
        peer_id: "bob".to_string(),
        text: "yo".to_string(),
        direction: "sent".to_string(),
        timestamp_ms: 60_000,
        delivery_status: String::new(),
    };
    assert_eq!(message_from_store(stored.clone()).kind, MessageKind::Sent);
    let other = StoredMessage { direction: "received".to_string(), ..stored };
    assert_eq!(message_from_store(other).kind, MessageKind::Received);
    let shown = decrypted_message("m".to_string(), b"a\xffb", "bob", "conv", "bob", 0).unwrap();
    assert_eq!(shown.text, "a\u{fffd}b");
    assert!(decrypted_message("m".to_string(), b"ab", "bob", "conv", "eve", 0).is_none());
}

#[test]
fn contacts_are_found_by_id() {
    let p = panes();
    assert_eq!(position(&p.contacts, "bob"), Some(1));
    assert_eq!(position(&p.contacts, "zed"), None);
    assert_eq!(contact_name(&p.contacts, "alice"), Some("Alice"));
    let listed = contacts_from_store(&vec![StoredContact {
        user_id: "u".to_string(),
        display_name: "U".to_string(),
        identity_key_b64: String::new(),
    }]);
    assert_eq!(listed, vec![new_contact("u".to_string(), "U".to_string())]);
}

#[test]
fn keys_are_cut_or_filled() {
    assert_eq!(vec_to_key32(&[9; 40]), [9; 32]);
    assert_eq!(vec_to_key32(&[]), [0; 32]);
    assert_eq!(vec_to_key32(&[5])[..2], [5, 0]);
    assert_eq!(peer_key(None), [0; 32]);
    assert_eq!(peer_key(Some("")), [0; 32]);
    assert_eq!(peer_key(Some("!!")), [0; 32]);
    assert_eq!(peer_key(Some("AQI="))[..3], [1, 2, 0]);
    let id = generate_message_id();
    assert_eq!((id.len(), id.as_bytes()[14]), (36, b'4'));
    assert!(generate_message_id() != id);
}

#[test]
fn link_form_stands_in_the_middle() {
    let area = Area { x: 0, y: 0, width: 80, height: 24 };
    let mut form = DeviceLinkScreen::new();
    form.push_char('a');
    let l = form.layout(area);
    assert_eq!(TITLE.len(), 23);
    assert_eq!(l.title, Area { x: 28, y: 7, width: 23, height: 1 });
    assert_eq!(l.field, Area { x: 15, y: 9, width: 50, height: 3 });
    assert_eq!(l.field_text, "a_");
    assert_eq!(l.status, Some(Area { x: 12, y: 13, width: 55, height: 1 }));
    assert_eq!(HINT.len(), 33);
    assert_eq!(l.hint, Area { x: 23, y: 15, width: 33, height: 1 });

    form.clear_status();
    let l = form.layout(area);
    assert_eq!(l.status, None);
    assert_eq!(l.hint, Area { x: 23, y: 13, width: 33, height: 1 });
}

#[test]
fn small_terminals_cut_the_form() {
    let l = DeviceLinkScreen::new().layout(Area { x: 3, y: 2, width: 10, height: 4 });
    assert_eq!(l.title, Area { x: 3, y: 2, width: 10, height: 1 });
    assert_eq!(l.field, Area { x: 5, y: 4, width: 6, height: 3 });
    assert_eq!(l.hint, Area { x: 3, y: 10, width: 10, height: 1 });
    let none = DeviceLinkScreen::new().layout(Area { x: 0, y: 0, width: 3, height: 0 });
    assert_eq!(none.field, Area { x: 1, y: 2, width: 0, height: 3 });
}

#[test]
fn boxes_are_centred_and_cut() {
    let area = Area { x: 10, y: 20, width: 81, height: 25 };
    assert_eq!(centred(area, 50, 6), Area { x: 25, y: 29, width: 50, height: 6 });
    assert_eq!(centred(area, 90, 30), area);
    assert_eq!(centred_at(5, 4, 9), 5);
    assert_eq!((cut(3, 4), cut(4, 3)), (3, 3));
    assert_eq!(text_cells("é"), 2);
    assert_eq!(text_cells(&"x".repeat(65_537)), 1);
    assert_eq!(text_line(area, "abc", 7), Area { x: 49, y: 7, width: 3, height: 1 });
    assert_eq!(notice(area), Area { x: 0, y: 23, width: 81, height: 1 });
    assert_eq!(notice(Area { height: 1, ..area }).y, 0);
}

#[test]
fn starting_up_is_drawn_as_busy() {
    let mut a = app();
    let d = a.drawing(&[], false);
    assert_eq!(d.base, Base::Onboarding);
    assert_eq!(d.notice, Notice::Busy("Restoring session…".to_string()));
    let line = d.notice.line();
    assert_eq!((line[0].ink, line[0].text.as_str()), (Ink::Cyan, "  ⠋ "));
    assert_eq!((line[1].ink, line[1].text.as_str()), (Ink::White, "Restoring session…"));
}

#[test]
fn main_screen_is_drawn_plainly() {
    let mut a = signed_in();
    let d = a.drawing(&[], false);
    assert_eq!((d.base, d.notice.line().len()), (Base::Main, 0));
}

#[test]
fn failures_and_questions_are_said() {
    let line = Notice::Failed("no network".to_string()).line();
    assert_eq!(line.len(), 1);
    assert_eq!((line[0].ink, line[0].text.as_str()), (Ink::Red, "  ✗ no network  (any key to retry)"));
    let line = Notice::Removal("Alice".to_string()).line();
    let text: String = line.iter().map(|run| run.text.as_str()).collect();
    assert_eq!(text, "  ⚠ Remove node Alice and all messages? [y] confirm  [any] cancel");
    assert_eq!(line.iter().map(|run| run.ink).collect::<Vec<_>>(), vec![Ink::Yellow, Ink::White, Ink::Yellow]);
}

#[test]
fn a_missing_safety_number_gives_way_to_the_settings() {
    let p = panes();
    let mut a = signed_in();
    press(&mut a, KeyCode::Char('s'), &p);
    press(&mut a, KeyCode::Char('s'), &p);
    assert_eq!(a.drawing(&p.contacts, true).base, Base::SafetyNumber);
    assert_eq!(a.screen(), &Screen::SafetyNumber);
    assert_eq!(a.drawing(&p.contacts, false).base, Base::Settings);
    assert_eq!(a.screen(), &Screen::Settings);
}

#[test]
fn deletion_is_asked_about_by_name() {
    let p = panes();
    let mut a = signed_in();
    press(&mut a, KeyCode::Char('x'), &p);
    assert_eq!(a.drawing(&p.contacts, false).notice, Notice::Removal("Bob".to_string()));
    assert_eq!(a.drawing(&[], false).notice, Notice::Removal("bob".to_string()));
}

#[test]
fn sign_in_outcomes_say_what_is_left_to_keep() {
    assert!(matches!(
        restore_outcome(Ok(Some((AuthResult { session: None, ..outcome() }, session())))),
        AuthMsg::Success { pending_save: None, full_session, .. } if full_session.device_id == "dev"
    ));
    assert!(matches!(restore_outcome(Ok(None)), AuthMsg::Failure(m) if m == "no_session"));
    assert!(matches!(restore_outcome(Err("disk".into())), AuthMsg::Failure(m) if m == "disk"));
    assert!(matches!(
        sign_in_outcome(Ok(outcome())),
        AuthMsg::Success { pending_save: Some(s), .. } if s.device_id == "dev"
    ));
    assert!(matches!(sign_in_outcome(Err("net".into())), AuthMsg::Failure(m) if m == "net"));
    assert!(matches!(
        reauth_outcome(Ok(outcome())),
        AuthMsg::Success { pending_save: Some(_), .. }
    ));
    assert!(matches!(
        reauth_outcome(Err("net".into())),
        AuthMsg::Failure(m) if m == "Device re-auth failed: net"
    ));
}

#[test]
fn refreshes_are_told_apart() {
    assert!(matches!(
        refresh_outcome(Ok(("a".into(), "r".into(), 5))),
        TokenRefreshMsg::Refreshed { access_token, refresh_token, expires_at: 5 }
            if access_token == "a" && refresh_token == "r"
    ));
    assert!(matches!(
        refresh_outcome(Err(GrpcError::transport("reset"))),
        TokenRefreshMsg::FailedTransport(m) if m == "transport: reset"
    ));
    assert!(matches!(
        refresh_outcome(Err(GrpcError::unauthenticated("old"))),
        TokenRefreshMsg::FailedAuth(m) if m == "unauthenticated: old"
    ));
    assert_eq!(refresh_wait(1_000, 100), 840);
    assert_eq!(refresh_wait(100, 1_000), 0);
    assert_eq!(refresh_wait(i64::MAX, i64::MIN), u64::MAX - 60);
}

#[test]
fn esc_and_shift_tab_lead_back_to_the_contacts() {
    let p = panes();
    for back in [KeyCode::Esc, KeyCode::BackTab] {
        let mut a = signed_in();
        press(&mut a, KeyCode::Enter, &p);
        press(&mut a, KeyCode::Char('i'), &p);
        assert_eq!(a.focus(), Focus::Compose);
        assert!(press(&mut a, back, &p).is_empty());
        assert_eq!(a.focus(), Focus::ContactList);
    }
}

#[test]
fn skipping_encryption_ends_with_the_session() {
    let mut a = app();
    a.startup_check(SessionState::Absent);
    a.handle_auth_msg(success(true), "");
    assert_eq!(a.screen(), &Screen::SetPassphrase);
    a.passphrase_set(Protected::SavedInTheClear);
    assert_eq!(a.screen(), &Screen::Main);
    a.logged_out(Ok(()));
    let out = a.handle_auth_msg(success(true), "");
    assert_eq!(a.screen(), &Screen::SetPassphrase);
    assert!(!out.iter().any(|e| matches!(e, UiEffect::Save { .. })));

    let mut a = App::new(AppConfig {
        server_url: "https://ams.konstruct.cc:443".to_string(),
        transport: TransportConfig::Direct,
        no_encrypt: true,
        headless: false,
        pq_active: true,
    });
    a.startup_check(SessionState::Absent);
    a.logged_out(Ok(()));
    let out = a.handle_auth_msg(success(true), "");
    assert!(out.iter().any(|e| matches!(e, UiEffect::Save { encrypted: false, .. })));
}
