//! The session on disk and the tokens in use.

use crate::app::keys::on_key;
use crate::app::session::{
    on_auth, on_opened, on_protected, on_refresh, on_refused_stream, on_saved, reauth_outcome,
    refresh_outcome, refresh_wait, restore_outcome, sign_in_failed, sign_in_outcome, signed_in,
    signed_out, AuthMsg, AuthMsgView, Opened, Protected, TokenRefreshMsg, TokenRefreshView,
};
use crate::app::{AppView, Connection, PaneOp, PanesView, Screen, UiEffect, UiEffectView};
use crate::auth::{AuthResult, SessionView};
use crate::config::{label_of, Session};
use crate::event::KeyCode;
use crate::grpc::error::{error_text, GrpcError};
use crate::laws::screens::plain_key;
use vstd::prelude::*;

verus! {

// ── Signing in ────────────────────────────────────────────────────────────────

/// A device that signed in with the session on disk goes on under the ids and the token of the
/// server's answer, with that session, and nothing has to be kept.
pub proof fn law_a_restored_session_is_taken_over(
    result: Result<Option<(AuthResult, Session)>, String>,
    r: AuthMsg,
)
    requires
        call_ensures(restore_outcome, (result,), r),
    ensures
        result matches Ok(Some((a, session))) ==> (r@ matches AuthMsg::Success {
            user_id,
            device_id,
            access_token,
            full_session,
            pending_save,
        } && user_id == a.user_id@ && device_id == a.device_id@ && access_token == a.access_token@
            && full_session == session@ && pending_save is None),
        result matches Ok(None) ==> r@ == AuthMsgView::Failure("no_session"@),
        result matches Err(e) ==> r@ == AuthMsgView::Failure(e@),
{
}

/// A device that registered, linked or signed in again goes on under the ids and the token of the
/// server's answer, with a session that has yet to be kept; a failure is told.
pub proof fn law_a_new_session_has_to_be_kept(
    result: Result<AuthResult, String>,
    r: AuthMsg,
    again: AuthMsg,
)
    requires
        call_ensures(sign_in_outcome, (result,), r),
        call_ensures(reauth_outcome, (result,), again),
    ensures
        result matches Ok(a) ==> (a@.session matches Some(session) ==> (r@ matches
            AuthMsg::Success { user_id, device_id, access_token, full_session, pending_save }
            && user_id == a.user_id@ && device_id == a.device_id@ && access_token
            == a.access_token@ && full_session == session && pending_save == Some(session))),
        result is Ok ==> again@ == r@,
        result matches Err(e) ==> r@ == AuthMsgView::Failure(e@) && again@
            == AuthMsgView::Failure("Device re-auth failed: "@ + e@),
{
}

/// Once signed in, requests carry the token and the device id of the server's answer, and what is
/// shown is that user over that transport.
pub proof fn law_requests_carry_the_new_token(
    a: AppView,
    user_id: Seq<char>,
    device_id: Seq<char>,
    access_token: Seq<char>,
    full: SessionView,
    pending: Option<SessionView>,
    username: Seq<char>,
)
    requires
        a.screen !is Registering,
    ensures
        ({
            let (b, e) = on_auth(
                a,
                AuthMsg::Success {
                    user_id,
                    device_id,
                    access_token,
                    full_session: full,
                    pending_save: pending,
                },
                username,
            );
            &&& b.user_id == user_id
            &&& b.device_id == device_id
            &&& b.access_token == access_token
            &&& b.current == Some(full)
            &&& b.status == "Connected as "@ + user_id
            &&& b.connection == (Connection::Connected {
                transport: label_of(a.transport),
                latency_ms: None::<u32>,
            })
            &&& e.len() >= 3
            &&& e[0] == UiEffectView::SetToken(Some(access_token))
            &&& e[1] == UiEffectView::SetDeviceId(Some(device_id))
            &&& e[2] == (UiEffectView::UpdateSettings {
                device_id,
                user_id,
                signing_key_hex: full.signing_key_hex,
            })
        }),
{
}

/// A session that is on disk leads straight to the main screen and starts the core with it.
pub proof fn law_a_kept_session_starts_the_core(
    a: AppView,
    user_id: Seq<char>,
    device_id: Seq<char>,
    access_token: Seq<char>,
    full: SessionView,
)
    ensures
        ({
            let (b, e) = signed_in(a, user_id, device_id, access_token, full, None);
            &&& b.screen is Main
            &&& b.pending == a.pending
            &&& e.len() == 4
            &&& e[3] == UiEffectView::StartOrchestrator(full)
        }),
{
}

/// A session that has yet to be kept is due for a refresh, and is kept before anything starts:
/// under the key where there is one, in the clear only where that is wanted, and else under a
/// passphrase that is asked for.
pub proof fn law_a_new_session_is_kept_first(
    a: AppView,
    user_id: Seq<char>,
    device_id: Seq<char>,
    access_token: Seq<char>,
    full: SessionView,
    session: SessionView,
)
    ensures
        ({
            let (b, e) = signed_in(a, user_id, device_id, access_token, full, Some(session));
            &&& e.len() == 5
            &&& e[3] == UiEffectView::ScheduleRefresh(session)
            &&& a.has_key ==> e[4] == (UiEffectView::Save { session, encrypted: true })
            &&& !a.has_key && a.no_encrypt ==> e[4] == (UiEffectView::Save {
                session,
                encrypted: false,
            })
            &&& a.has_key || a.no_encrypt ==> b.screen == a.screen && b.pending == a.pending
            &&& !a.has_key && !a.no_encrypt ==> {
                &&& e[4] == (UiEffectView::ResetUnlock { new_passphrase: true })
                &&& b.screen is SetPassphrase
                &&& b.pending == Some(session)
            }
        }),
{
}

/// The end of a registration stops its ticker, however it ended.
pub proof fn law_a_registration_stops_its_ticker(
    a: AppView,
    msg: AuthMsgView,
    username: Seq<char>,
)
    requires
        a.screen is Registering,
    ensures
        on_auth(a, msg, username).1.len() >= 2,
        on_auth(a, msg, username).1[0] == UiEffectView::Pane(PaneOp::StopTicker),
        on_auth(a, msg, username).1[1] == UiEffectView::Pane(PaneOp::RegistrationDone),
{
}

/// A failed sign-in leads to the beginning where there was no session, or nobody had asked for
/// anything; everybody else is told why. It changes nothing but the screen.
pub proof fn law_a_failed_sign_in_is_told(a: AppView, msg: Seq<char>, username: Seq<char>)
    ensures
        ({
            let (b, e) = sign_in_failed(a, msg, username);
            let unasked = a.screen is Connecting && !a.has_key && username.len() == 0;
            &&& b == (AppView { screen: b.screen, ..a })
            &&& msg == "no_session"@ || unasked ==> b.screen is Onboarding
            &&& msg != "no_session"@ && !unasked ==> b.screen == Screen::AuthError(msg)
            &&& e == seq![UiEffectView::Pane(PaneOp::StopTicker)]
        }),
{
}

/// A session that was kept leads to the main screen and starts the core with it; one that could
/// not be kept starts nothing.
pub proof fn law_the_core_starts_once_the_session_is_kept(
    a: AppView,
    full: SessionView,
    why: Seq<char>,
)
    requires
        a.current == Some(full),
    ensures
        on_saved(a, Ok(())) == (
            AppView { screen: Screen::Main, ..a },
            seq![UiEffectView::StartOrchestrator(full)],
        ),
        on_saved(a, Err(why)) == (
            AppView { screen: Screen::AuthError("Save failed: "@ + why), ..a },
            Seq::<UiEffectView>::empty(),
        ),
{
}

// ── Passphrases ───────────────────────────────────────────────────────────────

/// A passphrase that opens the session has the device sign in with that session, and later
/// sessions are kept under its key; one that does not is told why, and nothing changes.
pub proof fn law_an_opened_session_is_signed_in_with(
    a: AppView,
    session: SessionView,
    why: Seq<char>,
)
    ensures
        ({
            let (b, e) = on_opened(a, Opened::Session(session));
            &&& b == (AppView { has_key: true, screen: b.screen, ..a })
            &&& b.screen is Connecting
            &&& e == seq![UiEffectView::Restore(session)]
        }),
        on_opened(a, Opened::Missing) == (a, seq![UiEffectView::UnlockError("No session found"@)]),
        on_opened(a, Opened::Corrupted(why)) == (
            a,
            seq![UiEffectView::UnlockError("Session corrupted: "@ + why)],
        ),
        on_opened(a, Opened::WrongPassphrase) == (
            a,
            seq![UiEffectView::UnlockError("Wrong passphrase or corrupted session"@)],
        ),
{
}

/// The whole way of a new session: it waits for a passphrase, is protected with the one that was
/// typed, and once that is done the core starts with it; from then on it is written under the key.
pub proof fn law_a_passphrase_protects_from_then_on(
    a: AppView,
    panes: PanesView,
    user_id: Seq<char>,
    device_id: Seq<char>,
    access_token: Seq<char>,
    session: SessionView,
    access: Seq<char>,
    refresh: Seq<char>,
    expires_at: i64,
)
    requires
        !a.has_key,
        !a.no_encrypt,
        panes.passphrase.len() > 0,
    ensures
        ({
            let (b, _) = signed_in(a, user_id, device_id, access_token, session, Some(session));
            let (c, asked) = on_key(b, plain_key(KeyCode::Enter), panes);
            let (d, kept) = on_protected(c, Protected::Saved);
            let (f, renewed) = on_refresh(
                d,
                TokenRefreshMsg::Refreshed {
                    access_token: access,
                    refresh_token: refresh,
                    expires_at,
                },
            );
            &&& asked.last() == (UiEffectView::CreateSession {
                passphrase: panes.passphrase,
                session,
            })
            &&& d.screen is Main
            &&& d.pending is None
            &&& kept == seq![UiEffectView::StartOrchestrator(session)]
            &&& renewed.last() matches UiEffect::SaveQuietly { session: s, encrypted } && encrypted
                && s.access_token == access && s.refresh_token == refresh && s.signing_key_hex
                == session.signing_key_hex
        }),
{
}

/// Without a passphrase the session is kept in the clear, and so it is from then on.
pub proof fn law_no_passphrase_keeps_it_in_the_clear(
    a: AppView,
    panes: PanesView,
    session: SessionView,
)
    requires
        a.screen is SetPassphrase,
        a.pending == Some(session),
        a.current == Some(session),
        !a.has_key,
        panes.passphrase.len() == 0,
    ensures
        ({
            let (b, asked) = on_key(a, plain_key(KeyCode::Enter), panes);
            let (c, kept) = on_protected(b, Protected::SavedInTheClear);
            &&& asked.last() == UiEffectView::SkipEncryption(session)
            &&& c == (AppView { no_encrypt: true, pending: None, screen: Screen::Main, ..a })
            &&& kept == seq![UiEffectView::StartOrchestrator(session)]
        }),
{
}

/// A session that could not be protected goes on waiting, and the user is told why.
pub proof fn law_an_unprotected_session_waits(a: AppView, why: Seq<char>)
    ensures
        on_protected(a, Protected::SaveFailed(why)) == (
            a,
            seq![UiEffectView::UnlockError("Save failed: "@ + why)],
        ),
        on_protected(a, Protected::KeyFailed(why)) == (
            a,
            seq![UiEffectView::UnlockError("Key derivation failed: "@ + why)],
        ),
{
}

// ── Tokens ────────────────────────────────────────────────────────────────────

/// The wait before a refresh ends a minute before the tokens expire, and at once where that has
/// passed.
pub proof fn law_tokens_are_refreshed_a_minute_early(expires_at: i64, now: i64, wait: u64)
    requires
        call_ensures(refresh_wait, (expires_at, now), wait),
    ensures
        now + 60 <= expires_at ==> now + wait == expires_at - 60,
        now + 60 > expires_at ==> wait == 0,
{
}

/// A refresh that the server answered gives its tokens; a broken connection is no refusal, and
/// every other error is one.
pub proof fn law_only_a_broken_connection_is_no_refusal(
    result: Result<(String, String, i64), GrpcError>,
    r: TokenRefreshMsg,
)
    requires
        call_ensures(refresh_outcome, (result,), r),
    ensures
        result matches Ok((access, refresh, expires)) ==> (r@ matches TokenRefreshMsg::Refreshed {
            access_token,
            refresh_token,
            expires_at,
        } && access_token == access@ && refresh_token == refresh@ && expires_at == expires),
        result matches Err(e) ==> {
            &&& e@ is Transport || e@ is Tls ==> r@ == TokenRefreshView::FailedTransport(
                error_text(e@),
            )
            &&& e@ !is Transport && e@ !is Tls ==> r@ == TokenRefreshView::FailedAuth(error_text(e@))
        },
{
}

/// New tokens are used at once; they replace those of the session and nothing else of it, and the
/// next refresh goes by them. The session is kept as it was: under the key, in the clear, or not
/// at all while it waits for its passphrase.
pub proof fn law_new_tokens_replace_the_old(
    a: AppView,
    session: SessionView,
    access: Seq<char>,
    refresh: Seq<char>,
    expires: i64,
)
    requires
        a.current == Some(session),
    ensures
        ({
            let (b, e) = on_refresh(
                a,
                TokenRefreshMsg::Refreshed {
                    access_token: access,
                    refresh_token: refresh,
                    expires_at: expires,
                },
            );
            let renewed = SessionView {
                access_token: access,
                refresh_token: refresh,
                expires_at: expires,
                ..session
            };
            &&& b == (AppView { access_token: access, current: Some(renewed), ..a })
            &&& e[0] == UiEffectView::SetToken(Some(access))
            &&& e[1] == UiEffectView::ScheduleRefresh(renewed)
            &&& a.has_key ==> e.len() == 3 && e[2] == (UiEffectView::SaveQuietly {
                session: renewed,
                encrypted: true,
            })
            &&& !a.has_key && a.no_encrypt ==> e.len() == 3 && e[2] == (UiEffectView::SaveQuietly {
                session: renewed,
                encrypted: false,
            })
            &&& !a.has_key && !a.no_encrypt ==> e.len() == 2
        }),
{
}

/// Refused tokens have the device sign in again with the session in use; nothing changes until
/// that is answered. A refused stream has them refreshed first.
pub proof fn law_refused_tokens_lead_to_a_new_sign_in(
    a: AppView,
    session: SessionView,
    why: Seq<char>,
)
    requires
        a.current == Some(session),
    ensures
        on_refresh(a, TokenRefreshMsg::FailedAuth(why)) == (a, seq![UiEffectView::Reauth(session)]),
        on_refresh(a, TokenRefreshMsg::FailedTransport(why)) == (
            a,
            Seq::<UiEffectView>::empty(),
        ),
        on_refused_stream(a) == seq![UiEffectView::RefreshNow(session)],
{
}

/// Without a session there is nothing to sign in with.
pub proof fn law_without_a_session_nothing_is_asked(a: AppView, why: Seq<char>)
    requires
        a.current is None,
    ensures
        on_refresh(a, TokenRefreshMsg::FailedAuth(why)).1.len() == 0,
        on_refused_stream(a).len() == 0,
{
}

// ── Leaving ───────────────────────────────────────────────────────────────────

/// Signing out forgets the session, the ids, the tokens and the key, disconnects, and stops the
/// core before the token is taken away; the server and the transport stay, and encryption is as
/// it was configured.
pub proof fn law_signing_out_stops_and_forgets(a: AppView)
    ensures
        ({
            let (b, e) = signed_out(a);
            &&& b.screen is Onboarding
            &&& b.current is None
            &&& b.pending is None
            &&& b.identity_key is None
            &&& b.access_token.len() == 0
            &&& b.user_id.len() == 0
            &&& b.device_id.len() == 0
            &&& !b.has_key
            &&& !b.wired
            &&& b.connection is Disconnected
            &&& b.no_encrypt == a.configured_no_encrypt
            &&& b.configured_no_encrypt == a.configured_no_encrypt
            &&& b.server_url == a.server_url
            &&& b.transport == a.transport
            &&& b.running == a.running
            &&& e == seq![
                UiEffectView::Shutdown,
                UiEffectView::SetToken(None),
                UiEffectView::SetDeviceId(None),
                UiEffectView::Pane(PaneOp::SearchReset),
                UiEffectView::ResetPanes,
            ]
        }),
{
}

} // verus!
