//! Becoming a device of an account: registering, linking, signing in again.
//!
//! `Enrollment` decides what comes next; the caller makes keys, solves the proof of work, talks
//! to the server and reports back.

use crate::clock::unix_seconds;
use crate::config::Session;
use crate::encoding::{hex_decode, hex_decoded, hex_encode, hex_encoded, hex_error_text};
use crate::grpc::auth::{device_public_keys, AuthTokens, DevicePublicKeys};
use crate::invite::array32;
use crate::signing::{ed25519_signature, sign};
use crate::text::{format_i64, join, opt_text, signed_decimal};
use vstd::prelude::*;
use vstd::utf8::encode_utf8;

verus! {

/// The steps of a registration, as they are shown.
#[derive(Debug, Clone, Copy, PartialEq, Eq, Structural)]
pub enum RegistrationStep {
    GeneratingSigningKey,
    GeneratingIdentityKey,
    GeneratingPreKey,
    SigningPreKey,
    Connecting,
    SolvingPoW,
    Registering,
}

pub open spec fn step_number(s: RegistrationStep) -> int {
    match s {
        RegistrationStep::GeneratingSigningKey => 0,
        RegistrationStep::GeneratingIdentityKey => 1,
        RegistrationStep::GeneratingPreKey => 2,
        RegistrationStep::SigningPreKey => 3,
        RegistrationStep::Connecting => 4,
        RegistrationStep::SolvingPoW => 5,
        RegistrationStep::Registering => 6,
    }
}

impl RegistrationStep {
    /// The step's place in the checklist.
    pub fn index(self) -> (r: usize)
        ensures
            r == step_number(self),
    {
        match self {
            RegistrationStep::GeneratingSigningKey => 0,
            RegistrationStep::GeneratingIdentityKey => 1,
            RegistrationStep::GeneratingPreKey => 2,
            RegistrationStep::SigningPreKey => 3,
            RegistrationStep::Connecting => 4,
            RegistrationStep::SolvingPoW => 5,
            RegistrationStep::Registering => 6,
        }
    }
}

/// How long each step stays visible at least.
pub const MIN_STEP_MS: u64 = 500;

/// A device that has signed in.
#[derive(Debug, Clone)]
pub struct AuthResult {
    pub user_id: String,
    pub device_id: String,
    pub access_token: String,
    /// The session to keep. There is none where it has been written back already.
    pub session: Option<Session>,
}

// ── Signing in again ──────────────────────────────────────────────────────────

/// Why a kept session cannot be used to sign in. `T` is what the error behind it says.
#[derive(Debug, Clone, PartialEq, Eq)]
pub enum AuthError<T = String> {
    SigningKeyHex(T),
    SigningKeyLength,
    /// The clock stands before the epoch.
    Clock,
}

pub type AuthErrorView = AuthError<Seq<char>>;

impl View for AuthError {
    type V = AuthErrorView;

    open spec fn view(&self) -> AuthErrorView {
        match *self {
            AuthError::SigningKeyHex(e) => AuthError::SigningKeyHex(e@),
            AuthError::SigningKeyLength => AuthError::SigningKeyLength,
            AuthError::Clock => AuthError::Clock,
        }
    }
}

/// What is said of an error in short, without the error behind it.
pub open spec fn auth_error_text(e: AuthErrorView) -> Seq<char> {
    match e {
        AuthError::SigningKeyHex(_) => "invalid signing key hex"@,
        AuthError::SigningKeyLength => "signing key must be 32 bytes"@,
        AuthError::Clock => "second time provided was later than self"@,
    }
}

/// What is said of an error in full.
pub open spec fn auth_error_report(e: AuthErrorView) -> Seq<char> {
    match e {
        AuthError::SigningKeyHex(behind) => auth_error_text(e) + ": "@ + behind,
        _ => auth_error_text(e),
    }
}

impl AuthError {
    /// What is said of it in short.
    pub fn message(&self) -> (r: String)
        ensures
            r@ == auth_error_text(self@),
    {
        match self {
            AuthError::SigningKeyHex(_) => "invalid signing key hex".to_string(),
            AuthError::SigningKeyLength => "signing key must be 32 bytes".to_string(),
            AuthError::Clock => "second time provided was later than self".to_string(),
        }
    }

    /// What is said of it in full.
    pub fn report(&self) -> (r: String)
        ensures
            r@ == auth_error_report(self@),
    {
        match self {
            AuthError::SigningKeyHex(behind) => {
                let mut text = join(self.message().as_str(), ": ");
                text.append(behind.as_str());
                text
            },
            _ => self.message(),
        }
    }
}

/// What the server is shown: the signature of the device id followed by the time.
#[derive(Debug, Clone)]
pub struct AuthRequest {
    pub device_id: String,
    pub timestamp: i64,
    pub signature: [u8; 64],
}

/// The text that a device signs to sign in.
pub open spec fn challenge_text(device_id: Seq<char>, timestamp: i64) -> Seq<char> {
    device_id + signed_decimal(timestamp as int)
}

impl View for AuthRequest {
    type V = AuthRequestView;

    open spec fn view(&self) -> AuthRequestView {
        AuthRequestView {
            device_id: self.device_id@,
            timestamp: self.timestamp,
            signature: self.signature@,
        }
    }
}

#[verifier::ext_equal]
pub struct AuthRequestView {
    pub device_id: Seq<char>,
    pub timestamp: i64,
    pub signature: Seq<u8>,
}

/// What a kept session comes to when the clock shows `now`, or stands before the epoch. The key
/// is looked at first.
pub open spec fn sign_in_request(s: SessionView, now: Option<i64>) -> Result<
    AuthRequestView,
    AuthErrorView,
> {
    match hex_decoded(s.signing_key_hex) {
        None => Err(AuthError::SigningKeyHex(hex_error_text(s.signing_key_hex))),
        Some(key) => if key.len() != 32 {
            Err(AuthError::SigningKeyLength)
        } else {
            match now {
                None => Err(AuthError::Clock),
                Some(timestamp) => Ok(
                    AuthRequestView {
                        device_id: s.device_id,
                        timestamp,
                        signature: ed25519_signature(
                            key,
                            encode_utf8(challenge_text(s.device_id, timestamp)),
                        ),
                    },
                ),
            }
        },
    }
}

pub open spec fn request_seen(r: Result<AuthRequest, AuthError>) -> Result<
    AuthRequestView,
    AuthErrorView,
> {
    match r {
        Ok(q) => Ok(q@),
        Err(e) => Err(e@),
    }
}

/// Signs in with a kept session when the clock shows `now`; `None` stands for a clock before the
/// epoch.
pub fn authenticate_saved_session_at(session: &Session, now: Option<i64>) -> (r: Result<
    AuthRequest,
    AuthError,
>)
    ensures
        request_seen(r) == sign_in_request(session@, now),
{
    let key = match hex_decode(session.signing_key_hex.as_str()) {
        Ok(b) => b,
        Err(e) => return Err(AuthError::SigningKeyHex(e)),
    };
    if key.len() != 32 {
        return Err(AuthError::SigningKeyLength);
    }
    let timestamp = match now {
        Some(timestamp) => timestamp,
        None => return Err(AuthError::Clock),
    };
    let key = array32(key.as_slice());
    let message = join(session.device_id.as_str(), format_i64(timestamp).as_str());
    let signature = sign(&key, message.as_str().as_bytes());
    Ok(AuthRequest { device_id: session.device_id.clone(), timestamp, signature })
}

/// Signs in with a kept session now.
pub fn authenticate_saved_session(session: &Session) -> (r: Result<AuthRequest, AuthError>)
    ensures
        exists|now: Option<i64>| request_seen(r) == sign_in_request(session@, now),
{
    authenticate_saved_session_at(session, unix_seconds())
}

/// The session after the server has accepted it: new tokens, the rest as it was.
pub fn authenticated(session: Session, tokens: AuthTokens) -> (r: AuthResult)
    ensures
        r == (AuthResult {
            user_id: tokens.user_id,
            device_id: session.device_id,
            access_token: tokens.access_token,
            session: Some(
                Session {
                    access_token: tokens.access_token,
                    refresh_token: tokens.refresh_token,
                    expires_at: tokens.expires_at,
                    ..session
                },
            ),
        }),
{
    let device_id = session.device_id.clone();
    let access_token = tokens.access_token.clone();
    let session = session.with_tokens(tokens.access_token, tokens.refresh_token, tokens.expires_at);
    AuthResult { user_id: tokens.user_id, device_id, access_token, session: Some(session) }
}

/// What follows when a session from disk was accepted: the result, which holds no session to
/// keep, and the session from disk with the new tokens, which is to be written back at once.
pub fn restored(session: Session, result: AuthResult) -> (r: (AuthResult, Session))
    ensures
        r.0 == (AuthResult { session: None, ..result }),
        r.1 == (match result.session {
            Some(fresh) => Session {
                access_token: result.access_token,
                refresh_token: fresh.refresh_token,
                expires_at: fresh.expires_at,
                ..session
            },
            None => Session { access_token: result.access_token, ..session },
        }),
{
    let mut updated = session;
    updated.access_token = result.access_token.clone();
    if let Some(fresh) = result.session {
        updated.refresh_token = fresh.refresh_token;
        updated.expires_at = fresh.expires_at;
    }
    (
        AuthResult {
            user_id: result.user_id,
            device_id: result.device_id,
            access_token: result.access_token,
            session: None,
        },
        updated,
    )
}

// ── Becoming a device ─────────────────────────────────────────────────────────

/// A private key and its public half.
#[derive(Debug, Clone, Copy)]
pub struct KeyPair {
    pub secret: [u8; 32],
    pub public: [u8; 32],
}

/// The three keys of a device: for signing, for its identity, and the signed pre-key.
#[derive(Debug, Clone, Copy)]
pub struct DeviceKeys {
    pub signing: KeyPair,
    pub identity: KeyPair,
    pub prekey: KeyPair,
}

/// A device that the server does not know yet. `S` is the signature of its pre-key.
#[derive(Debug)]
pub struct Device<T = String, S = [u8; 64]> {
    pub keys: DeviceKeys,
    pub device_id: T,
    pub prekey_signature: S,
}

/// Whether a new account is wanted, or an existing one.
#[derive(Debug)]
pub enum Plan<T = String> {
    Register { username: Option<T> },
    Link { token: T },
}

/// How far the enrollment is.
#[derive(Debug)]
pub enum Enrollment<T = String, S = [u8; 64]> {
    Start(Plan<T>),
    /// The signing key is being made.
    Signing(Plan<T>),
    /// The identity key is being made.
    Identity { plan: Plan<T>, signing: KeyPair },
    /// The pre-key is being made.
    PreKey { plan: Plan<T>, signing: KeyPair, identity: KeyPair },
    /// The device gets its id.
    Naming { plan: Plan<T>, keys: DeviceKeys },
    /// The server is asked for a challenge.
    Challenge { username: Option<T>, device: Device<T, S> },
    /// The challenge is being solved.
    Pow { username: Option<T>, device: Device<T, S>, challenge: T },
    /// The server is asked for tokens.
    Tokens { device: Device<T, S>, linking: bool },
    Done,
}

/// What the caller reports.
#[derive(Debug)]
pub enum EnrollInput<T = String, B = Vec<u8>, A = AuthTokens> {
    Begin,
    Key(KeyPair),
    /// The device id, and what stands before the pre-key in the message that is signed.
    Named { device_id: T, prologue: B },
    Challenge(Result<(T, u32), T>),
    Solved { nonce: u64, hash: T },
    /// Solving it failed, and why.
    PowFailed(T),
    Tokens(Result<A, T>),
}

/// What the caller has to do.
#[derive(Debug)]
pub enum EnrollEffect<T = String, P = DevicePublicKeys, R = AuthResult> {
    Show(RegistrationStep),
    /// Let the step be seen for `MIN_STEP_MS`.
    Pause,
    MakeSigningKey,
    MakeAgreementKey,
    NameDevice { identity_public: [u8; 32] },
    SetDeviceId(T),
    GetChallenge,
    SolvePow { challenge: T, difficulty: u32 },
    Register { username: Option<T>, device_id: T, keys: P, challenge: T, nonce: u64, hash: T },
    ConfirmLink { token: T, device_id: T, keys: P },
    Enrolled(R),
    Failed(T),
}

#[verifier::ext_equal]
pub struct PublicKeysView {
    pub verifying_key: Seq<u8>,
    pub identity_public: Seq<u8>,
    pub signed_prekey_public: Seq<u8>,
    pub signed_prekey_signature: Seq<u8>,
    pub crypto_suite: Seq<char>,
}

impl View for DevicePublicKeys {
    type V = PublicKeysView;

    open spec fn view(&self) -> PublicKeysView {
        PublicKeysView {
            verifying_key: self.verifying_key@,
            identity_public: self.identity_public@,
            signed_prekey_public: self.signed_prekey_public@,
            signed_prekey_signature: self.signed_prekey_signature@,
            crypto_suite: self.crypto_suite@,
        }
    }
}

#[verifier::ext_equal]
pub struct SessionView {
    pub signing_key_hex: Seq<char>,
    pub identity_key_hex: Seq<char>,
    pub device_id: Seq<char>,
    pub user_id: Seq<char>,
    pub access_token: Seq<char>,
    pub refresh_token: Seq<char>,
    pub expires_at: i64,
    pub spk_key_hex: Seq<char>,
    pub spk_sig_hex: Seq<char>,
}

impl View for Session {
    type V = SessionView;

    open spec fn view(&self) -> SessionView {
        SessionView {
            signing_key_hex: self.signing_key_hex@,
            identity_key_hex: self.identity_key_hex@,
            device_id: self.device_id@,
            user_id: self.user_id@,
            access_token: self.access_token@,
            refresh_token: self.refresh_token@,
            expires_at: self.expires_at,
            spk_key_hex: self.spk_key_hex@,
            spk_sig_hex: self.spk_sig_hex@,
        }
    }
}

#[verifier::ext_equal]
pub struct AuthResultView {
    pub user_id: Seq<char>,
    pub device_id: Seq<char>,
    pub access_token: Seq<char>,
    pub session: Option<SessionView>,
}

impl View for AuthResult {
    type V = AuthResultView;

    open spec fn view(&self) -> AuthResultView {
        AuthResultView {
            user_id: self.user_id@,
            device_id: self.device_id@,
            access_token: self.access_token@,
            session: match self.session {
                Some(s) => Some(s@),
                None => None,
            },
        }
    }
}

#[verifier::ext_equal]
pub struct AuthTokensView {
    pub user_id: Seq<char>,
    pub access_token: Seq<char>,
    pub refresh_token: Seq<char>,
    pub expires_at: i64,
}

impl View for AuthTokens {
    type V = AuthTokensView;

    open spec fn view(&self) -> AuthTokensView {
        AuthTokensView {
            user_id: self.user_id@,
            access_token: self.access_token@,
            refresh_token: self.refresh_token@,
            expires_at: self.expires_at,
        }
    }
}

pub type PlanView = Plan<Seq<char>>;

pub type DeviceView = Device<Seq<char>, Seq<u8>>;

pub type EnrollmentView = Enrollment<Seq<char>, Seq<u8>>;

pub type EnrollInputView = EnrollInput<Seq<char>, Seq<u8>, AuthTokensView>;

pub type EnrollEffectView = EnrollEffect<Seq<char>, PublicKeysView, AuthResultView>;

impl View for Plan<String> {
    type V = PlanView;

    open spec fn view(&self) -> PlanView {
        match self {
            Plan::Register { username } => Plan::Register { username: opt_text(*username) },
            Plan::Link { token } => Plan::Link { token: token@ },
        }
    }
}

impl View for Device<String, [u8; 64]> {
    type V = DeviceView;

    open spec fn view(&self) -> DeviceView {
        Device {
            keys: self.keys,
            device_id: self.device_id@,
            prekey_signature: self.prekey_signature@,
        }
    }
}

impl View for Enrollment<String, [u8; 64]> {
    type V = EnrollmentView;

    open spec fn view(&self) -> EnrollmentView {
        match self {
            Enrollment::Start(plan) => Enrollment::Start(plan@),
            Enrollment::Signing(plan) => Enrollment::Signing(plan@),
            Enrollment::Identity { plan, signing } => Enrollment::Identity {
                plan: plan@,
                signing: *signing,
            },
            Enrollment::PreKey { plan, signing, identity } => Enrollment::PreKey {
                plan: plan@,
                signing: *signing,
                identity: *identity,
            },
            Enrollment::Naming { plan, keys } => Enrollment::Naming { plan: plan@, keys: *keys },
            Enrollment::Challenge { username, device } => Enrollment::Challenge {
                username: opt_text(*username),
                device: device@,
            },
            Enrollment::Pow { username, device, challenge } => Enrollment::Pow {
                username: opt_text(*username),
                device: device@,
                challenge: challenge@,
            },
            Enrollment::Tokens { device, linking } => Enrollment::Tokens {
                device: device@,
                linking: *linking,
            },
            Enrollment::Done => Enrollment::Done,
        }
    }
}

impl View for EnrollInput<String, Vec<u8>, AuthTokens> {
    type V = EnrollInputView;

    open spec fn view(&self) -> EnrollInputView {
        match self {
            EnrollInput::Begin => EnrollInput::Begin,
            EnrollInput::Key(k) => EnrollInput::Key(*k),
            EnrollInput::Named { device_id, prologue } => EnrollInput::Named {
                device_id: device_id@,
                prologue: prologue@,
            },
            EnrollInput::Challenge(Ok((c, d))) => EnrollInput::Challenge(Ok((c@, *d))),
            EnrollInput::Challenge(Err(e)) => EnrollInput::Challenge(Err(e@)),
            EnrollInput::Solved { nonce, hash } => EnrollInput::Solved {
                nonce: *nonce,
                hash: hash@,
            },
            EnrollInput::PowFailed(e) => EnrollInput::PowFailed(e@),
            EnrollInput::Tokens(Ok(t)) => EnrollInput::Tokens(Ok(t@)),
            EnrollInput::Tokens(Err(e)) => EnrollInput::Tokens(Err(e@)),
        }
    }
}

impl View for EnrollEffect<String, DevicePublicKeys, AuthResult> {
    type V = EnrollEffectView;

    open spec fn view(&self) -> EnrollEffectView {
        match self {
            EnrollEffect::Show(s) => EnrollEffect::Show(*s),
            EnrollEffect::Pause => EnrollEffect::Pause,
            EnrollEffect::MakeSigningKey => EnrollEffect::MakeSigningKey,
            EnrollEffect::MakeAgreementKey => EnrollEffect::MakeAgreementKey,
            EnrollEffect::NameDevice { identity_public } => EnrollEffect::NameDevice {
                identity_public: *identity_public,
            },
            EnrollEffect::SetDeviceId(id) => EnrollEffect::SetDeviceId(id@),
            EnrollEffect::GetChallenge => EnrollEffect::GetChallenge,
            EnrollEffect::SolvePow { challenge, difficulty } => EnrollEffect::SolvePow {
                challenge: challenge@,
                difficulty: *difficulty,
            },
            EnrollEffect::Register { username, device_id, keys, challenge, nonce, hash } =>
                EnrollEffect::Register {
                username: opt_text(*username),
                device_id: device_id@,
                keys: keys@,
                challenge: challenge@,
                nonce: *nonce,
                hash: hash@,
            },
            EnrollEffect::ConfirmLink { token, device_id, keys } => EnrollEffect::ConfirmLink {
                token: token@,
                device_id: device_id@,
                keys: keys@,
            },
            EnrollEffect::Enrolled(r) => EnrollEffect::Enrolled(r@),
            EnrollEffect::Failed(m) => EnrollEffect::Failed(m@),
        }
    }
}

pub open spec fn enroll_effects(v: Seq<EnrollEffect>) -> Seq<EnrollEffectView> {
    v.map_values(|e: EnrollEffect| e@)
}

/// The public keys of a device.
pub open spec fn public_keys(d: DeviceView) -> PublicKeysView {
    PublicKeysView {
        verifying_key: d.keys.signing.public@,
        identity_public: d.keys.identity.public@,
        signed_prekey_public: d.keys.prekey.public@,
        signed_prekey_signature: d.prekey_signature,
        crypto_suite: "Curve25519+Ed25519"@,
    }
}

/// The session of a device that the server has accepted: its private keys and its tokens.
pub open spec fn new_session(d: DeviceView, t: AuthTokensView) -> SessionView {
    SessionView {
        signing_key_hex: hex_encoded(d.keys.signing.secret@),
        identity_key_hex: hex_encoded(d.keys.identity.secret@),
        device_id: d.device_id,
        user_id: t.user_id,
        access_token: t.access_token,
        refresh_token: t.refresh_token,
        expires_at: t.expires_at,
        spk_key_hex: hex_encoded(d.keys.prekey.secret@),
        spk_sig_hex: hex_encoded(d.prekey_signature),
    }
}

/// A step is shown while registering only, and what comes before it stays visible for a while.
pub open spec fn shown(plan: PlanView, pause: bool, step: RegistrationStep) -> Seq<
    EnrollEffectView,
> {
    match plan {
        Plan::Register { .. } => if pause {
            seq![EnrollEffect::Pause, EnrollEffect::Show(step)]
        } else {
            seq![EnrollEffect::Show(step)]
        },
        Plan::Link { .. } => Seq::empty(),
    }
}

/// The device with its pre-key signed: the signature covers the prologue and the public pre-key.
pub open spec fn signed_device(
    keys: DeviceKeys,
    device_id: Seq<char>,
    prologue: Seq<u8>,
) -> DeviceView {
    Device {
        keys,
        device_id,
        prekey_signature: ed25519_signature(keys.signing.secret@, prologue + keys.prekey.public@),
    }
}

/// What follows a report. One that does not fit changes nothing.
pub open spec fn enroll_step(s: EnrollmentView, input: EnrollInputView) -> (
    EnrollmentView,
    Seq<EnrollEffectView>,
) {
    match (s, input) {
        (Enrollment::Start(plan), EnrollInput::Begin) => (
            Enrollment::Signing(plan),
            shown(plan, false, RegistrationStep::GeneratingSigningKey).push(
                EnrollEffect::MakeSigningKey,
            ),
        ),
        (Enrollment::Signing(plan), EnrollInput::Key(signing)) => (
            Enrollment::Identity { plan, signing },
            shown(plan, true, RegistrationStep::GeneratingIdentityKey).push(
                EnrollEffect::MakeAgreementKey,
            ),
        ),
        (Enrollment::Identity { plan, signing }, EnrollInput::Key(identity)) => (
            Enrollment::PreKey { plan, signing, identity },
            shown(plan, true, RegistrationStep::GeneratingPreKey).push(
                EnrollEffect::MakeAgreementKey,
            ),
        ),
        (Enrollment::PreKey { plan, signing, identity }, EnrollInput::Key(prekey)) => (
            Enrollment::Naming { plan, keys: DeviceKeys { signing, identity, prekey } },
            shown(plan, true, RegistrationStep::SigningPreKey).push(
                EnrollEffect::NameDevice { identity_public: identity.public },
            ),
        ),
        (Enrollment::Naming { plan, keys }, EnrollInput::Named { device_id, prologue }) => {
            let device = signed_device(keys, device_id, prologue);
            match plan {
                Plan::Register { username } => (
                    Enrollment::Challenge { username, device },
                    seq![
                        EnrollEffect::Pause,
                        EnrollEffect::Show(RegistrationStep::Connecting),
                        EnrollEffect::Pause,
                        EnrollEffect::Show(RegistrationStep::SolvingPoW),
                        EnrollEffect::SetDeviceId(device_id),
                        EnrollEffect::GetChallenge,
                    ],
                ),
                Plan::Link { token } => (
                    Enrollment::Tokens { device, linking: true },
                    seq![
                        EnrollEffect::SetDeviceId(device_id),
                        EnrollEffect::ConfirmLink { token, device_id, keys: public_keys(device) },
                    ],
                ),
            }
        },
        (
            Enrollment::Challenge { username, device },
            EnrollInput::Challenge(Ok((challenge, difficulty))),
        ) => (
            Enrollment::Pow { username, device, challenge },
            seq![EnrollEffect::SolvePow { challenge, difficulty }],
        ),
        (Enrollment::Challenge { .. }, EnrollInput::Challenge(Err(e))) => (
            Enrollment::Done,
            seq![EnrollEffect::Failed("pow challenge: "@ + e)],
        ),
        (Enrollment::Pow { username, device, challenge }, EnrollInput::Solved { nonce, hash }) => (
            Enrollment::Tokens { device, linking: false },
            seq![
                EnrollEffect::Show(RegistrationStep::Registering),
                EnrollEffect::Pause,
                EnrollEffect::Register {
                    username,
                    device_id: device.device_id,
                    keys: public_keys(device),
                    challenge,
                    nonce,
                    hash,
                },
            ],
        ),
        (Enrollment::Pow { .. }, EnrollInput::PowFailed(e)) => (
            Enrollment::Done,
            seq![EnrollEffect::Failed("PoW computation panicked: "@ + e)],
        ),
        (Enrollment::Tokens { device, .. }, EnrollInput::Tokens(Ok(tokens))) => (
            Enrollment::Done,
            seq![
                EnrollEffect::Enrolled(
                    AuthResultView {
                        user_id: tokens.user_id,
                        device_id: device.device_id,
                        access_token: tokens.access_token,
                        session: Some(new_session(device, tokens)),
                    },
                ),
            ],
        ),
        (Enrollment::Tokens { linking, .. }, EnrollInput::Tokens(Err(e))) => (
            Enrollment::Done,
            seq![
                EnrollEffect::Failed(
                    (if linking {
                        "confirm device link: "@
                    } else {
                        "register device: "@
                    }) + e,
                ),
            ],
        ),
        _ => (s, Seq::empty()),
    }
}

fn push_shown(out: &mut Vec<EnrollEffect>, plan: &Plan, pause: bool, step: RegistrationStep)
    ensures
        enroll_effects(final(out)@) == enroll_effects(old(out)@) + shown(plan@, pause, step),
{
    if let Plan::Register { .. } = plan {
        if pause {
            out.push(EnrollEffect::Pause);
        }
        out.push(EnrollEffect::Show(step));
    }
    assert(enroll_effects(out@) =~= enroll_effects(old(out)@) + shown(plan@, pause, step));
}

fn keys_of(device: &Device) -> (r: DevicePublicKeys)
    ensures
        r@ == public_keys(device@),
{
    device_public_keys(
        &device.keys.signing.public,
        &device.keys.identity.public,
        &device.keys.prekey.public,
        &device.prekey_signature,
    )
}

fn sign_device(keys: DeviceKeys, device_id: String, prologue: Vec<u8>) -> (r: Device)
    ensures
        r@ == signed_device(keys, device_id@, prologue@),
{
    let mut message = prologue;
    message.extend_from_slice(&keys.prekey.public);
    assert(message@ =~= prologue@ + keys.prekey.public@);
    let prekey_signature = sign(&keys.signing.secret, message.as_slice());
    Device { keys, device_id, prekey_signature }
}

fn session_of(device: &Device, tokens: &AuthTokens) -> (r: Session)
    ensures
        r@ == new_session(device@, tokens@),
{
    Session {
        signing_key_hex: hex_encode(&device.keys.signing.secret),
        identity_key_hex: hex_encode(&device.keys.identity.secret),
        device_id: device.device_id.clone(),
        user_id: tokens.user_id.clone(),
        access_token: tokens.access_token.clone(),
        refresh_token: tokens.refresh_token.clone(),
        expires_at: tokens.expires_at,
        spk_key_hex: hex_encode(&device.keys.prekey.secret),
        spk_sig_hex: hex_encode(&device.prekey_signature),
    }
}

/// A new device with a new account.
pub fn register_new_device(username: Option<String>) -> (r: Enrollment)
    ensures
        r@ == EnrollmentView::Start(Plan::Register { username: opt_text(username) }),
{
    Enrollment::Start(Plan::Register { username })
}

/// A new device of an existing account, by a token from another device.
pub fn link_existing_device(link_token: String) -> (r: Enrollment)
    ensures
        r@ == EnrollmentView::Start(Plan::Link { token: link_token@ }),
{
    Enrollment::Start(Plan::Link { token: link_token })
}

impl Enrollment<String, [u8; 64]> {
    /// What follows a report: the new state, and what to do, in order.
    pub fn step(self, input: EnrollInput) -> (r: (Enrollment, Vec<EnrollEffect>))
        ensures
            (r.0@, enroll_effects(r.1@)) == enroll_step(self@, input@),
    {
        let mut out: Vec<EnrollEffect> = Vec::new();
        let next = match (self, input) {
            (Enrollment::Start(plan), EnrollInput::Begin) => {
                push_shown(&mut out, &plan, false, RegistrationStep::GeneratingSigningKey);
                out.push(EnrollEffect::MakeSigningKey);
                Enrollment::Signing(plan)
            },
            (Enrollment::Signing(plan), EnrollInput::Key(signing)) => {
                push_shown(&mut out, &plan, true, RegistrationStep::GeneratingIdentityKey);
                out.push(EnrollEffect::MakeAgreementKey);
                Enrollment::Identity { plan, signing }
            },
            (Enrollment::Identity { plan, signing }, EnrollInput::Key(identity)) => {
                push_shown(&mut out, &plan, true, RegistrationStep::GeneratingPreKey);
                out.push(EnrollEffect::MakeAgreementKey);
                Enrollment::PreKey { plan, signing, identity }
            },
            (Enrollment::PreKey { plan, signing, identity }, EnrollInput::Key(prekey)) => {
                push_shown(&mut out, &plan, true, RegistrationStep::SigningPreKey);
                out.push(EnrollEffect::NameDevice { identity_public: identity.public });
                Enrollment::Naming { plan, keys: DeviceKeys { signing, identity, prekey } }
            },
            (Enrollment::Naming { plan, keys }, EnrollInput::Named { device_id, prologue }) => {
                let device = sign_device(keys, device_id.clone(), prologue);
                match plan {
                    Plan::Register { username } => {
                        out.push(EnrollEffect::Pause);
                        out.push(EnrollEffect::Show(RegistrationStep::Connecting));
                        out.push(EnrollEffect::Pause);
                        out.push(EnrollEffect::Show(RegistrationStep::SolvingPoW));
                        out.push(EnrollEffect::SetDeviceId(device_id));
                        out.push(EnrollEffect::GetChallenge);
                        Enrollment::Challenge { username, device }
                    },
                    Plan::Link { token } => {
                        let keys = keys_of(&device);
                        out.push(EnrollEffect::SetDeviceId(device_id.clone()));
                        out.push(EnrollEffect::ConfirmLink { token, device_id, keys });
                        Enrollment::Tokens { device, linking: true }
                    },
                }
            },
            (
                Enrollment::Challenge { username, device },
                EnrollInput::Challenge(Ok((challenge, difficulty))),
            ) => {
                out.push(EnrollEffect::SolvePow { challenge: challenge.clone(), difficulty });
                Enrollment::Pow { username, device, challenge }
            },
            (Enrollment::Challenge { .. }, EnrollInput::Challenge(Err(e))) => {
                out.push(EnrollEffect::Failed(join("pow challenge: ", e.as_str())));
                Enrollment::Done
            },
            (
                Enrollment::Pow { username, device, challenge },
                EnrollInput::Solved { nonce, hash },
            ) => {
                let keys = keys_of(&device);
                let device_id = device.device_id.clone();
                out.push(EnrollEffect::Show(RegistrationStep::Registering));
                out.push(EnrollEffect::Pause);
                out.push(
                    EnrollEffect::Register { username, device_id, keys, challenge, nonce, hash },
                );
                Enrollment::Tokens { device, linking: false }
            },
            (Enrollment::Pow { .. }, EnrollInput::PowFailed(e)) => {
                out.push(EnrollEffect::Failed(join("PoW computation panicked: ", e.as_str())));
                Enrollment::Done
            },
            (Enrollment::Tokens { device, .. }, EnrollInput::Tokens(Ok(tokens))) => {
                let session = session_of(&device, &tokens);
                let r = AuthResult {
                    user_id: tokens.user_id,
                    device_id: device.device_id,
                    access_token: tokens.access_token,
                    session: Some(session),
                };
                out.push(EnrollEffect::Enrolled(r));
                Enrollment::Done
            },
            (Enrollment::Tokens { linking, .. }, EnrollInput::Tokens(Err(e))) => {
                let what = if linking {
                    "confirm device link: "
                } else {
                    "register device: "
                };
                out.push(EnrollEffect::Failed(join(what, e.as_str())));
                Enrollment::Done
            },
            (state, _) => state,
        };
        assert(enroll_effects(out@) =~= enroll_step(self@, input@).1);
        (next, out)
    }
}

/// A new session can be used to sign in: the keys in it are the keys that were made.
pub proof fn law_new_session_can_sign_in(d: DeviceView, t: AuthTokensView)
    ensures
        hex_decoded(new_session(d, t).signing_key_hex) == Some(d.keys.signing.secret@),
        hex_decoded(new_session(d, t).identity_key_hex) == Some(d.keys.identity.secret@),
        hex_decoded(new_session(d, t).spk_key_hex) == Some(d.keys.prekey.secret@),
        hex_decoded(new_session(d, t).spk_sig_hex) == Some(d.prekey_signature),
{
    crate::encoding::lemma_hex_round_trip(d.keys.signing.secret@);
    crate::encoding::lemma_hex_round_trip(d.keys.identity.secret@);
    crate::encoding::lemma_hex_round_trip(d.keys.prekey.secret@);
    crate::encoding::lemma_hex_round_trip(d.prekey_signature);
}

/// The keys that the server is sent, to register a device or to link one, are the public keys of
/// that device.
pub proof fn law_public_keys_are_sent(s: EnrollmentView, input: EnrollInputView, i: int)
    requires
        0 <= i < enroll_step(s, input).1.len(),
    ensures
        match enroll_step(s, input).1[i] {
            EnrollEffect::Register { device_id, keys, .. } => {
                &&& s matches Enrollment::Pow { device, .. }
                &&& device_id == device.device_id
                &&& keys == public_keys(device)
            },
            EnrollEffect::ConfirmLink { device_id, keys, .. } => {
                &&& s matches Enrollment::Naming { keys: made, .. }
                &&& input matches EnrollInput::Named { device_id: id, prologue }
                &&& device_id == id
                &&& keys == public_keys(signed_device(made, id, prologue))
            },
            _ => true,
        },
{
}

/// The public keys of a device tell nothing of its private keys: they are the public halves and
/// the signature over the public pre-key.
pub proof fn law_public_keys_only(a: DeviceView, b: DeviceView)
    requires
        a.keys.signing.public@ == b.keys.signing.public@,
        a.keys.identity.public@ == b.keys.identity.public@,
        a.keys.prekey.public@ == b.keys.prekey.public@,
        a.prekey_signature == b.prekey_signature,
    ensures
        public_keys(a) == public_keys(b),
{
}

/// The first step of the checklist that has yet to be shown.
pub open spec fn next_step(s: EnrollmentView) -> int {
    match s {
        Enrollment::Start(_) => 0,
        Enrollment::Signing(_) => 1,
        Enrollment::Identity { .. } => 2,
        Enrollment::PreKey { .. } => 3,
        Enrollment::Naming { .. } => 4,
        Enrollment::Challenge { .. } => 6,
        Enrollment::Pow { .. } => 6,
        Enrollment::Tokens { .. } => 7,
        Enrollment::Done => 7,
    }
}

/// The checklist only moves forward: a report shows steps that were not shown before, and in
/// their order.
pub proof fn law_steps_come_in_order(s: EnrollmentView, input: EnrollInputView, i: int, j: int)
    requires
        0 <= i < enroll_step(s, input).1.len(),
        enroll_step(s, input).1[i] is Show,
    ensures
        next_step(s) <= step_number(enroll_step(s, input).1[i]->Show_0) < next_step(
            enroll_step(s, input).0,
        ),
        i < j < enroll_step(s, input).1.len() && enroll_step(s, input).1[j] is Show ==> step_number(
            enroll_step(s, input).1[i]->Show_0,
        ) < step_number(enroll_step(s, input).1[j]->Show_0),
{
}

/// No report takes a step back.
pub proof fn law_no_step_back(s: EnrollmentView, input: EnrollInputView)
    ensures
        next_step(s) <= next_step(enroll_step(s, input).0),
{
}

} // verus!
