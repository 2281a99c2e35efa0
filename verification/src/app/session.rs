//! Signing in and out, and the tokens in between.

use crate::auth::{AuthResult, AuthResultView, SessionView};
use crate::config::{Session, label_of, transport_label};
use crate::envelope::opt_view;
use crate::grpc::error::{GrpcError, GrpcErrorView, error_text, retryable};
use crate::text::{join, same};
use super::{
    App, AppView, Connection, PaneOp, Reaction, Screen, UiEffect, UiEffectView, after, does,
    effects_of, none, one, put, quiet, says, signed_out_screen, to_screen, two,
};
use vstd::prelude::*;

verus! {

// ── Signing in ────────────────────────────────────────────────────────────────

/// What became of a sign-in.
#[derive(Debug)]
pub enum AuthMsg<T = String, S = Session> {
    Success {
        user_id: T,
        device_id: T,
        access_token: T,
        /// The session with its private keys.
        full_session: S,
        /// The session, when it has yet to be kept.
        pending_save: Option<S>,
    },
    Failure(T),
}

pub type AuthMsgView = AuthMsg<Seq<char>, SessionView>;

impl View for AuthMsg<String, Session> {
    type V = AuthMsgView;

    open spec fn view(&self) -> AuthMsgView {
        match self {
            AuthMsg::Success { user_id, device_id, access_token, full_session, pending_save } =>
                AuthMsg::Success {
                user_id: user_id@,
                device_id: device_id@,
                access_token: access_token@,
                full_session: full_session@,
                pending_save: opt_view(*pending_save),
            },
            AuthMsg::Failure(m) => AuthMsg::Failure(m@),
        }
    }
}

/// The news that a device has signed in with a session that has yet to be kept.
pub open spec fn success_of(r: AuthResultView) -> AuthMsgView {
    AuthMsg::Success {
        user_id: r.user_id,
        device_id: r.device_id,
        access_token: r.access_token,
        full_session: r.session->0,
        pending_save: r.session,
    }
}

fn success(result: AuthResult) -> (r: AuthMsg)
    requires
        result@.session is Some,
    ensures
        r@ == success_of(result@),
{
    let session = result.session.unwrap();
    AuthMsg::Success {
        user_id: result.user_id,
        device_id: result.device_id,
        access_token: result.access_token,
        full_session: session.copy(),
        pending_save: Some(session),
    }
}

/// What became of looking for a session on disk and signing in with it. On success the session
/// with the new tokens is given beside the result, and is on disk by then.
pub open spec fn restore_outcome_of(
    result: Result<Option<(AuthResult, Session)>, String>,
) -> AuthMsgView {
    match result {
        Ok(Some((a, session))) => AuthMsg::Success {
            user_id: a.user_id@,
            device_id: a.device_id@,
            access_token: a.access_token@,
            full_session: session@,
            pending_save: None,
        },
        Ok(None) => AuthMsg::Failure("no_session"@),
        Err(e) => AuthMsg::Failure(e@),
    }
}

pub fn restore_outcome(result: Result<Option<(AuthResult, Session)>, String>) -> (r: AuthMsg)
    ensures
        r@ == restore_outcome_of(result),
{
    match result {
        Ok(Some((a, session))) => AuthMsg::Success {
            user_id: a.user_id,
            device_id: a.device_id,
            access_token: a.access_token,
            full_session: session,
            pending_save: None,
        },
        Ok(None) => AuthMsg::Failure("no_session".to_string()),
        Err(e) => AuthMsg::Failure(e),
    }
}

/// What became of a sign-in whose session has yet to be kept. A failure is told as it is.
pub open spec fn sign_in_outcome_of(result: Result<AuthResult, String>) -> AuthMsgView {
    match result {
        Ok(a) => success_of(a@),
        Err(e) => AuthMsg::Failure(e@),
    }
}

pub fn sign_in_outcome(result: Result<AuthResult, String>) -> (r: AuthMsg)
    requires
        result matches Ok(a) ==> a@.session is Some,
    ensures
        r@ == sign_in_outcome_of(result),
{
    match result {
        Ok(a) => success(a),
        Err(e) => AuthMsg::Failure(e),
    }
}

/// What became of signing in again with the signing key.
pub fn reauth_outcome(result: Result<AuthResult, String>) -> (r: AuthMsg)
    requires
        result matches Ok(a) ==> a@.session is Some,
    ensures
        r@ == (match result {
            Ok(a) => success_of(a@),
            Err(e) => AuthMsg::Failure("Device re-auth failed: "@ + e@),
        }),
{
    match result {
        Ok(a) => success(a),
        Err(e) => reauth_failed(e.as_str()),
    }
}

/// The news that signing in again with the signing key failed.
pub fn reauth_failed(e: &str) -> (r: AuthMsg)
    ensures
        r@ == AuthMsgView::Failure("Device re-auth failed: "@ + e@),
{
    AuthMsg::Failure(join("Device re-auth failed: ", e))
}

/// Signed in: the tokens are taken over and the session is kept, under the key at hand, in the
/// clear where that is wanted, or under a passphrase that is asked for now.
pub open spec fn signed_in(
    a: AppView,
    user_id: Seq<char>,
    device_id: Seq<char>,
    access_token: Seq<char>,
    full_session: SessionView,
    pending_save: Option<SessionView>,
) -> Reaction {
    let b = AppView {
        status: "Connected as "@ + user_id,
        user_id,
        device_id,
        access_token,
        connection: Connection::Connected { transport: label_of(a.transport), latency_ms: None },
        current: Some(full_session),
        ..a
    };
    let first = seq![
        UiEffectView::SetToken(Some(access_token)),
        UiEffectView::SetDeviceId(Some(device_id)),
        UiEffectView::UpdateSettings {
            device_id,
            user_id,
            signing_key_hex: full_session.signing_key_hex,
        },
    ];
    match pending_save {
        Some(session) => after(
            first.push(UiEffectView::ScheduleRefresh(session)),
            if a.has_key {
                does(b, UiEffect::Save { session, encrypted: true })
            } else if a.no_encrypt {
                does(b, UiEffect::Save { session, encrypted: false })
            } else {
                (
                    AppView { pending: Some(session), screen: Screen::SetPassphrase, ..b },
                    seq![UiEffect::ResetUnlock { new_passphrase: true }],
                )
            },
        ),
        None => after(
            first,
            (AppView { screen: Screen::Main, ..b }, seq![UiEffect::StartOrchestrator(full_session)]),
        ),
    }
}

/// A sign-in that failed. Where nobody had asked for it, there is just nobody signed in;
/// otherwise the user is told.
pub open spec fn sign_in_failed(a: AppView, msg: Seq<char>, username: Seq<char>) -> Reaction {
    let stopped = seq![UiEffectView::Pane(PaneOp::StopTicker)];
    if msg == "no_session"@ || (a.screen is Connecting && !a.has_key && username.len() == 0) {
        (AppView { screen: Screen::Onboarding, ..a }, stopped)
    } else {
        (AppView { screen: Screen::AuthError(msg), ..a }, stopped)
    }
}

/// What is done about the outcome of a sign-in. `username` is what was typed when registering.
pub open spec fn on_auth(a: AppView, msg: AuthMsgView, username: Seq<char>) -> Reaction {
    let first = if a.screen is Registering {
        seq![
            UiEffectView::Pane(PaneOp::StopTicker),
            UiEffectView::Pane(PaneOp::RegistrationDone),
        ]
    } else {
        seq![]
    };
    after(
        first,
        match msg {
            AuthMsg::Success { user_id, device_id, access_token, full_session, pending_save } =>
                signed_in(a, user_id, device_id, access_token, full_session, pending_save),
            AuthMsg::Failure(m) => sign_in_failed(a, m, username),
        },
    )
}

/// What is done once the session was to be kept.
pub open spec fn on_saved(a: AppView, result: Result<(), Seq<char>>) -> Reaction {
    match result {
        Ok(()) => (
            AppView { screen: Screen::Main, ..a },
            match a.current {
                Some(full) => seq![UiEffect::StartOrchestrator(full)],
                None => seq![],
            },
        ),
        Err(e) => to_screen(a, Screen::AuthError("Save failed: "@ + e)),
    }
}

/// The text of a failure.
pub open spec fn outcome(r: Result<(), String>) -> Result<(), Seq<char>> {
    match r {
        Ok(()) => Ok(()),
        Err(e) => Err(e@),
    }
}

/// What became of opening the session on disk with a passphrase.
#[derive(Debug)]
pub enum Opened<T = String, S = Session> {
    Session(S),
    /// There is none.
    Missing,
    Corrupted(T),
    WrongPassphrase,
}

impl View for Opened<String, Session> {
    type V = Opened<Seq<char>, SessionView>;

    open spec fn view(&self) -> Opened<Seq<char>, SessionView> {
        match self {
            Opened::Session(s) => Opened::Session(s@),
            Opened::Missing => Opened::Missing,
            Opened::Corrupted(e) => Opened::Corrupted(e@),
            Opened::WrongPassphrase => Opened::WrongPassphrase,
        }
    }
}

/// What is done once the session was to be opened.
pub open spec fn on_opened(a: AppView, opened: Opened<Seq<char>, SessionView>) -> Reaction {
    match opened {
        Opened::Session(session) => (
            AppView { has_key: true, screen: Screen::Connecting("Authenticating…"@), ..a },
            seq![UiEffect::Restore(session)],
        ),
        Opened::Missing => does(a, UiEffect::UnlockError("No session found"@)),
        Opened::Corrupted(e) => does(a, UiEffect::UnlockError("Session corrupted: "@ + e)),
        Opened::WrongPassphrase => does(
            a,
            UiEffect::UnlockError("Wrong passphrase or corrupted session"@),
        ),
    }
}

/// What became of protecting a session with a new passphrase.
#[derive(Debug)]
pub enum Protected<T = String> {
    Saved,
    /// Kept, without a passphrase.
    SavedInTheClear,
    SaveFailed(T),
    KeyFailed(T),
}

impl View for Protected<String> {
    type V = Protected<Seq<char>>;

    open spec fn view(&self) -> Protected<Seq<char>> {
        match self {
            Protected::Saved => Protected::Saved,
            Protected::SavedInTheClear => Protected::SavedInTheClear,
            Protected::SaveFailed(e) => Protected::SaveFailed(e@),
            Protected::KeyFailed(e) => Protected::KeyFailed(e@),
        }
    }
}

/// The waiting session is kept: on to the main screen.
pub open spec fn on_kept(a: AppView) -> Reaction {
    (
        AppView { pending: None, screen: Screen::Main, ..a },
        match a.current {
            Some(full) => seq![UiEffect::StartOrchestrator(full)],
            None => seq![],
        },
    )
}

/// What is done once a session was to be protected. From one that is kept without a passphrase
/// on, encryption is off until it is signed out.
pub open spec fn on_protected(a: AppView, p: Protected<Seq<char>>) -> Reaction {
    match p {
        Protected::Saved => on_kept(AppView { has_key: true, ..a }),
        Protected::SavedInTheClear => on_kept(AppView { no_encrypt: true, ..a }),
        Protected::SaveFailed(e) => does(a, UiEffect::UnlockError("Save failed: "@ + e)),
        Protected::KeyFailed(e) => does(a, UiEffect::UnlockError("Key derivation failed: "@ + e)),
    }
}

pub(super) fn copied(s: &Option<Session>) -> (r: Option<Session>)
    ensures
        r == *s,
{
    match s {
        Some(s) => Some(s.copy()),
        None => None,
    }
}

impl App {
    fn signed_in(
        &mut self,
        user_id: String,
        device_id: String,
        access_token: String,
        full_session: Session,
        pending_save: Option<Session>,
    ) -> (r: Vec<UiEffect>)
        ensures
            (final(self)@, effects_of(r@)) == signed_in(
                old(self)@,
                user_id@,
                device_id@,
                access_token@,
                full_session@,
                opt_view(pending_save),
            ),
    {
        let ghost before = self@;
        let ghost session = full_session@;
        self.status = join("Connected as ", user_id.as_str());
        self.connection = Connection::Connected {
            transport: transport_label(self.transport).to_string(),
            latency_ms: None,
        };
        self.user_id = user_id.clone();
        self.device_id = device_id.clone();
        self.access_token = access_token.clone();
        self.current_session = Some(full_session.copy());
        let mut out = two(
            UiEffect::SetToken(Some(access_token)),
            UiEffect::SetDeviceId(Some(device_id.clone())),
        );
        put(
            &mut out,
            UiEffect::UpdateSettings {
                device_id,
                user_id,
                signing_key_hex: full_session.signing_key_hex.clone(),
            },
        );
        match pending_save {
            Some(session) => {
                put(&mut out, UiEffect::ScheduleRefresh(session.copy()));
                if self.has_key {
                    put(&mut out, UiEffect::Save { session, encrypted: true });
                } else if self.no_encrypt {
                    put(&mut out, UiEffect::Save { session, encrypted: false });
                } else {
                    self.pending_session = Some(session);
                    self.screen = Screen::SetPassphrase;
                    put(&mut out, UiEffect::ResetUnlock { new_passphrase: true });
                }
            },
            None => {
                put(&mut out, UiEffect::StartOrchestrator(full_session));
                self.screen = Screen::Main;
            },
        }
        proof {
            let expected = signed_in(
                before,
                user_id@,
                device_id@,
                access_token@,
                session,
                opt_view(pending_save),
            );
            assert(effects_of(out@) =~= expected.1);
            assert(self@ =~= expected.0);
        }
        out
    }

    /// A sign-in came to an end. `username` is what was typed when registering.
    pub fn handle_auth_msg(&mut self, msg: AuthMsg, username: &str) -> (r: Vec<UiEffect>)
        ensures
            (final(self)@, effects_of(r@)) == on_auth(old(self)@, msg@, username@),
    {
        let ghost before = self@;
        let mut out = none();
        if let Screen::Registering = self.screen {
            put(&mut out, UiEffect::Pane(PaneOp::StopTicker));
            put(&mut out, UiEffect::Pane(PaneOp::RegistrationDone));
        }
        match msg {
            AuthMsg::Success { user_id, device_id, access_token, full_session, pending_save } => {
                let mut rest = self.signed_in(
                    user_id,
                    device_id,
                    access_token,
                    full_session,
                    pending_save,
                );
                let ghost first = out@;
                let ghost last = rest@;
                out.append(&mut rest);
                assert(effects_of(out@) =~= effects_of(first) + effects_of(last));
            },
            AuthMsg::Failure(m) => {
                put(&mut out, UiEffect::Pane(PaneOp::StopTicker));
                let connecting = if let Screen::Connecting(_) = self.screen {
                    true
                } else {
                    false
                };
                if same(m.as_str(), "no_session") || (connecting && !self.has_key
                    && username.is_empty()) {
                    self.screen = Screen::Onboarding;
                } else {
                    self.screen = Screen::AuthError(m);
                }
            },
        }
        proof {
            let expected = on_auth(before, msg@, username@);
            assert(effects_of(out@) =~= expected.1);
            assert(self@ =~= expected.0);
        }
        out
    }

    /// The session was kept, or could not be.
    pub fn session_saved(&mut self, result: Result<(), String>) -> (r: Vec<UiEffect>)
        ensures
            (final(self)@, effects_of(r@)) == on_saved(old(self)@, outcome(result)),
    {
        match result {
            Ok(()) => {
                self.screen = Screen::Main;
                match copied(&self.current_session) {
                    Some(full) => one(UiEffect::StartOrchestrator(full)),
                    None => none(),
                }
            },
            Err(e) => {
                self.screen = Screen::AuthError(join("Save failed: ", e.as_str()));
                none()
            },
        }
    }

    /// The session on disk was opened with the passphrase, or could not be.
    pub fn unlocked(&mut self, opened: Opened) -> (r: Vec<UiEffect>)
        ensures
            (final(self)@, effects_of(r@)) == on_opened(old(self)@, opened@),
    {
        match opened {
            Opened::Session(session) => {
                self.has_key = true;
                self.screen = Screen::Connecting("Authenticating…".to_string());
                one(UiEffect::Restore(session))
            },
            Opened::Missing => one(UiEffect::UnlockError("No session found".to_string())),
            Opened::Corrupted(e) => one(
                UiEffect::UnlockError(join("Session corrupted: ", e.as_str())),
            ),
            Opened::WrongPassphrase => one(
                UiEffect::UnlockError("Wrong passphrase or corrupted session".to_string()),
            ),
        }
    }

    fn session_kept(&mut self) -> (r: Vec<UiEffect>)
        ensures
            (final(self)@, effects_of(r@)) == on_kept(old(self)@),
    {
        self.pending_session = None;
        self.screen = Screen::Main;
        match copied(&self.current_session) {
            Some(full) => one(UiEffect::StartOrchestrator(full)),
            None => none(),
        }
    }

    /// The new session was kept, under the passphrase or without one, or could not be.
    pub fn passphrase_set(&mut self, p: Protected) -> (r: Vec<UiEffect>)
        ensures
            (final(self)@, effects_of(r@)) == on_protected(old(self)@, p@),
    {
        match p {
            Protected::Saved => {
                self.has_key = true;
                self.session_kept()
            },
            Protected::SavedInTheClear => {
                self.no_encrypt = true;
                self.session_kept()
            },
            Protected::SaveFailed(e) => one(
                UiEffect::UnlockError(join("Save failed: ", e.as_str())),
            ),
            Protected::KeyFailed(e) => one(
                UiEffect::UnlockError(join("Key derivation failed: ", e.as_str())),
            ),
        }
    }

    /// The actor, the stream and the store are there.
    pub fn core_started(&mut self, identity_key: Option<Vec<u8>>)
        ensures
            final(self)@ == (AppView {
                wired: true,
                identity_key: opt_view(identity_key),
                ..old(self)@
            }),
    {
        self.wired = true;
        self.our_identity_key = identity_key;
    }

    /// They could not be brought up.
    pub fn core_failed(&mut self, reason: String)
        ensures
            final(self)@ == (AppView { status: reason@, ..old(self)@ }),
    {
        self.status = reason;
    }
}

// ── Tokens ────────────────────────────────────────────────────────────────────

/// What became of refreshing the tokens.
#[derive(Debug)]
pub enum TokenRefreshMsg<T = String> {
    Refreshed { access_token: T, refresh_token: T, expires_at: i64 },
    /// The server was not reached.
    FailedTransport(T),
    /// The server refused.
    FailedAuth(T),
}

pub type TokenRefreshView = TokenRefreshMsg<Seq<char>>;

impl View for TokenRefreshMsg<String> {
    type V = TokenRefreshView;

    open spec fn view(&self) -> TokenRefreshView {
        match self {
            TokenRefreshMsg::Refreshed { access_token, refresh_token, expires_at } =>
                TokenRefreshMsg::Refreshed {
                access_token: access_token@,
                refresh_token: refresh_token@,
                expires_at: *expires_at,
            },
            TokenRefreshMsg::FailedTransport(e) => TokenRefreshMsg::FailedTransport(e@),
            TokenRefreshMsg::FailedAuth(e) => TokenRefreshMsg::FailedAuth(e@),
        }
    }
}

/// What became of a refresh, from the server's reply. Only a broken connection is no refusal.
pub open spec fn refresh_outcome_of(
    result: Result<(Seq<char>, Seq<char>, i64), GrpcErrorView>,
) -> TokenRefreshView {
    match result {
        Ok((access_token, refresh_token, expires_at)) => TokenRefreshMsg::Refreshed {
            access_token,
            refresh_token,
            expires_at,
        },
        Err(e) => if retryable(e) {
            TokenRefreshMsg::FailedTransport(error_text(e))
        } else {
            TokenRefreshMsg::FailedAuth(error_text(e))
        },
    }
}

pub fn refresh_outcome(result: Result<(String, String, i64), GrpcError>) -> (r: TokenRefreshMsg)
    ensures
        r@ == refresh_outcome_of(
            match result {
                Ok((access_token, refresh_token, expires_at)) => Ok(
                    (access_token@, refresh_token@, expires_at),
                ),
                Err(e) => Err(e@),
            },
        ),
{
    match result {
        Ok((access_token, refresh_token, expires_at)) => TokenRefreshMsg::Refreshed {
            access_token,
            refresh_token,
            expires_at,
        },
        Err(e) => if e.is_retryable_transport() {
            TokenRefreshMsg::FailedTransport(e.message())
        } else {
            TokenRefreshMsg::FailedAuth(e.message())
        },
    }
}

/// The tokens are refreshed this many seconds before they expire.
pub const REFRESH_AHEAD_SECS: i64 = 60;

/// The seconds to wait before a refresh: none where it is due already.
pub open spec fn wait_of(expires_at: i64, now: i64) -> int {
    let left = expires_at - now - REFRESH_AHEAD_SECS;
    if left < 0 {
        0
    } else {
        left
    }
}

pub fn refresh_wait(expires_at: i64, now: i64) -> (r: u64)
    ensures
        r == wait_of(expires_at, now),
{
    let left: i128 = expires_at as i128 - now as i128 - REFRESH_AHEAD_SECS as i128;
    if left < 0 {
        0
    } else {
        left as u64
    }
}

/// New tokens are taken over and kept as the session was; a refusal leads to a new sign-in with
/// the signing key. A server that was not reached changes nothing.
pub open spec fn on_refresh(a: AppView, msg: TokenRefreshView) -> Reaction {
    match msg {
        TokenRefreshMsg::Refreshed { access_token, refresh_token, expires_at } => {
            let b = AppView { access_token, ..a };
            let first = seq![UiEffectView::SetToken(Some(access_token))];
            match a.current {
                Some(old_session) => {
                    let session = SessionView {
                        access_token,
                        refresh_token,
                        expires_at,
                        ..old_session
                    };
                    let scheduled = first.push(UiEffectView::ScheduleRefresh(session));
                    (
                        AppView { current: Some(session), ..b },
                        if a.has_key || a.no_encrypt {
                            scheduled.push(
                                UiEffectView::SaveQuietly { session, encrypted: a.has_key },
                            )
                        } else {
                            scheduled
                        },
                    )
                },
                None => (b, first),
            }
        },
        TokenRefreshMsg::FailedTransport(_) => quiet(a),
        TokenRefreshMsg::FailedAuth(_) => match a.current {
            Some(session) => does(a, UiEffect::Reauth(session)),
            None => says(a, "Device re-auth failed: no session in memory"@),
        },
    }
}

/// A refused stream has the tokens refreshed, where there is a session.
pub open spec fn on_refused_stream(a: AppView) -> Seq<UiEffectView> {
    match a.current {
        Some(session) => seq![UiEffectView::RefreshNow(session)],
        None => seq![],
    }
}

impl App {
    /// The tokens were refreshed, or could not be.
    pub fn handle_token_refresh_msg(&mut self, msg: TokenRefreshMsg) -> (r: Vec<UiEffect>)
        ensures
            (final(self)@, effects_of(r@)) == on_refresh(old(self)@, msg@),
    {
        let ghost before = self@;
        match msg {
            TokenRefreshMsg::Refreshed { access_token, refresh_token, expires_at } => {
                let mut out = one(UiEffect::SetToken(Some(access_token.clone())));
                self.access_token = access_token.clone();
                if let Some(session) = copied(&self.current_session) {
                    let session = session.with_tokens(access_token, refresh_token, expires_at);
                    self.current_session = Some(session.copy());
                    put(&mut out, UiEffect::ScheduleRefresh(session.copy()));
                    if self.has_key || self.no_encrypt {
                        put(&mut out, UiEffect::SaveQuietly { session, encrypted: self.has_key });
                    }
                }
                proof {
                    let expected = on_refresh(before, msg@);
                    assert(effects_of(out@) =~= expected.1);
                    assert(self@ =~= expected.0);
                }
                out
            },
            TokenRefreshMsg::FailedTransport(_) => none(),
            TokenRefreshMsg::FailedAuth(_) => match copied(&self.current_session) {
                Some(session) => one(UiEffect::Reauth(session)),
                None => {
                    self.status = "Device re-auth failed: no session in memory".to_string();
                    none()
                },
            },
        }
    }

    /// The stream was refused: the tokens are refreshed at once.
    pub fn refresh_token_now(&self) -> (r: Vec<UiEffect>)
        ensures
            effects_of(r@) == on_refused_stream(self@),
    {
        match copied(&self.current_session) {
            Some(session) => one(UiEffect::RefreshNow(session)),
            None => none(),
        }
    }
}

// ── Leaving ───────────────────────────────────────────────────────────────────

/// Signed out: nothing of the session is left, and encryption is as it was configured.
pub open spec fn signed_out(a: AppView) -> Reaction {
    (
        AppView {
            wired: false,
            has_key: false,
            no_encrypt: a.configured_no_encrypt,
            current: None,
            pending: None,
            identity_key: None,
            user_id: Seq::empty(),
            device_id: Seq::empty(),
            access_token: Seq::empty(),
            connection: Connection::Disconnected,
            screen: Screen::Onboarding,
            ..a
        },
        seq![
            UiEffect::Shutdown,
            UiEffect::SetToken(None),
            UiEffect::SetDeviceId(None),
            UiEffect::Pane(PaneOp::SearchReset),
            UiEffect::ResetPanes,
        ],
    )
}

impl App {
    /// The session was removed from disk, or could not be.
    pub fn logged_out(&mut self, result: Result<(), String>) -> (r: Vec<UiEffect>)
        ensures
            (final(self)@, effects_of(r@)) == (match outcome(result) {
                Ok(()) => signed_out(old(self)@),
                Err(e) => says(old(self)@, "Logout error: "@ + e),
            }),
    {
        match result {
            Ok(()) => {
                self.wired = false;
                self.has_key = false;
                self.no_encrypt = self.configured_no_encrypt;
                self.current_session = None;
                self.pending_session = None;
                self.our_identity_key = None;
                self.user_id = String::new();
                self.device_id = String::new();
                self.access_token = String::new();
                self.connection = Connection::Disconnected;
                self.screen = Screen::Onboarding;
                let mut out = two(UiEffect::Shutdown, UiEffect::SetToken(None));
                put(&mut out, UiEffect::SetDeviceId(None));
                put(&mut out, UiEffect::Pane(PaneOp::SearchReset));
                put(&mut out, UiEffect::ResetPanes);
                assert(effects_of(out@) =~= signed_out(old(self)@).1);
                assert(self@ =~= signed_out(old(self)@).0);
                out
            },
            Err(e) => {
                self.status = join("Logout error: ", e.as_str());
                none()
            },
        }
    }

    /// The identity key was written to a file, or could not be.
    pub fn key_exported(&mut self, result: Result<String, String>)
        ensures
            final(self)@ == says(
                old(self)@,
                match result {
                    Ok(path) => "Key exported → "@ + path@,
                    Err(e) => "Export failed: "@ + e@,
                },
            ).0,
    {
        self.status = match result {
            Ok(path) => join("Key exported → ", path.as_str()),
            Err(e) => join("Export failed: ", e.as_str()),
        };
    }
}

// ── Laws ──────────────────────────────────────────────────────────────────────

/// Writes a session in the clear.
pub open spec fn in_the_clear(e: UiEffectView) -> bool {
    match e {
        UiEffect::Save { encrypted, .. } => !encrypted,
        UiEffect::SaveQuietly { encrypted, .. } => !encrypted,
        UiEffect::SkipEncryption(_) => true,
        _ => false,
    }
}

/// After a sign-in, a session is written in the clear only where encryption is switched off and
/// there is no key.
pub proof fn law_sign_in_encrypts(a: AppView, msg: AuthMsgView, username: Seq<char>, i: int)
    requires
        0 <= i < on_auth(a, msg, username).1.len(),
        in_the_clear(on_auth(a, msg, username).1[i]),
    ensures
        a.no_encrypt,
        !a.has_key,
{
    let first: int = if a.screen is Registering {
        2
    } else {
        0
    };
    let e = on_auth(a, msg, username).1;
    match msg {
        AuthMsg::Success { user_id, device_id, access_token, full_session, pending_save } => {
            let s = signed_in(a, user_id, device_id, access_token, full_session, pending_save).1;
            assert(i >= first ==> e[i] == s[i - first]);
            assert(s[0] is SetToken && s[1] is SetDeviceId && s[2] is UpdateSettings);
            if pending_save is Some {
                assert(s[3] is ScheduleRefresh);
                assert(s.len() == 5);
            } else {
                assert(s[3] is StartOrchestrator);
                assert(s.len() == 4);
            }
        },
        AuthMsg::Failure(m) => {
            assert(i >= first ==> e[i] == sign_in_failed(a, m, username).1[i - first]);
        },
    }
}

/// After a refresh, a session is written in the clear only where encryption is switched off and
/// there is no key.
pub proof fn law_refresh_encrypts(a: AppView, msg: TokenRefreshView, i: int)
    requires
        0 <= i < on_refresh(a, msg).1.len(),
        in_the_clear(on_refresh(a, msg).1[i]),
    ensures
        a.no_encrypt,
        !a.has_key,
{
}

/// A refresh, however it ends, leaves the private keys and the ids of the session alone.
pub proof fn law_refresh_keeps_the_keys(a: AppView, msg: TokenRefreshView)
    ensures
        match (a.current, on_refresh(a, msg).0.current) {
            (Some(s), Some(t)) => {
                &&& t.signing_key_hex == s.signing_key_hex
                &&& t.identity_key_hex == s.identity_key_hex
                &&& t.spk_key_hex == s.spk_key_hex
                &&& t.spk_sig_hex == s.spk_sig_hex
                &&& t.user_id == s.user_id
                &&& t.device_id == s.device_id
            },
            (None, None) => true,
            _ => false,
        },
{
}

/// A server that was not reached costs nobody their tokens.
pub proof fn law_transport_failure_keeps_tokens(a: AppView, e: GrpcErrorView)
    requires
        retryable(e),
    ensures
        on_refresh(a, refresh_outcome_of(Err(e))) == quiet(a),
{
}

/// A passphrase that does not open the session changes nothing, and one that could not be used
/// to protect a session leaves that session waiting.
pub proof fn law_failed_passphrase_changes_nothing(
    a: AppView,
    opened: Opened<Seq<char>, SessionView>,
    p: Protected<Seq<char>>,
)
    ensures
        opened !is Session ==> on_opened(a, opened).0 == a,
        p is SaveFailed || p is KeyFailed ==> on_protected(a, p).0 == a,
{
}

/// After sign-out nothing of the session is left, and a refused stream asks for no refresh.
pub proof fn law_sign_out_leaves_nothing(a: AppView)
    ensures
        ({
            let b = signed_out(a).0;
            &&& b.current is None
            &&& b.pending is None
            &&& b.identity_key is None
            &&& !b.has_key
            &&& !b.wired
            &&& b.user_id.len() == 0
            &&& b.device_id.len() == 0
            &&& b.access_token.len() == 0
            &&& signed_out_screen(b.screen)
        }),
        signed_out(a).1.contains(UiEffectView::SetToken(None)),
        signed_out(a).1.contains(UiEffectView::SetDeviceId(None)),
        signed_out(a).1.contains(UiEffectView::Shutdown),
        on_refused_stream(signed_out(a).0) == Seq::<UiEffectView>::empty(),
{
    let e = signed_out(a).1;
    assert(e[0] == UiEffectView::Shutdown);
    assert(e[1] == UiEffectView::SetToken(None));
    assert(e[2] == UiEffectView::SetDeviceId(None));
}

/// Whatever was chosen for the last session, a new one after a sign-out waits for its passphrase
/// and is not written before, unless the configuration switches encryption off.
pub proof fn law_each_session_is_asked_about(
    a: AppView,
    user_id: Seq<char>,
    device_id: Seq<char>,
    access_token: Seq<char>,
    session: SessionView,
    i: int,
)
    requires
        !a.configured_no_encrypt,
    ensures
        ({
            let r = signed_in(
                signed_out(a).0,
                user_id,
                device_id,
                access_token,
                session,
                Some(session),
            );
            &&& r.0.screen is SetPassphrase
            &&& r.0.pending == Some(session)
            &&& 0 <= i < r.1.len() ==> r.1[i] !is Save && r.1[i] !is SaveQuietly
        }),
{
}

} // verus!
