//! From new keys to a signed-in device, and from its session back to the core.

use crate::auth::{
    auth_error_report, authenticate_saved_session_at, authenticated, enroll_step,
    link_existing_device, register_new_device, restored, step_number, AuthError, AuthErrorView,
    AuthRequest, AuthResult, DeviceKeys, EnrollEffect, EnrollEffectView, EnrollInput,
    EnrollInputView, Enrollment, EnrollmentView, KeyPair, Plan, PlanView, RegistrationStep,
    SessionView, AuthTokensView,
};
use crate::config::Session;
use crate::encoding::{hex_decoded, lemma_hex_round_trip};
use crate::grpc::auth::AuthTokens;
use crate::signing::{ed25519_signature, ed25519_verifies};
use crate::startup::{start_from_session, StartPhase, StartRequestView};
use crate::text::signed_decimal;
use vstd::prelude::*;
use vstd::utf8::encode_utf8;

verus! {

// ── Keys ──────────────────────────────────────────────────────────────────────

/// The three keys are asked for one after the other and kept apart: the first signs, the second
/// is the identity, by whose public half the device is named, and the third is the pre-key.
pub proof fn law_the_keys_are_kept_apart(
    plan: PlanView,
    signing: KeyPair,
    identity: KeyPair,
    prekey: KeyPair,
)
    ensures
        ({
            let (s0, e0) = enroll_step(Enrollment::Start(plan), EnrollInput::Begin);
            let (s1, e1) = enroll_step(s0, EnrollInput::Key(signing));
            let (s2, e2) = enroll_step(s1, EnrollInput::Key(identity));
            let (s3, e3) = enroll_step(s2, EnrollInput::Key(prekey));
            &&& e0.last() == EnrollEffectView::MakeSigningKey
            &&& e1.last() == EnrollEffectView::MakeAgreementKey
            &&& e2.last() == EnrollEffectView::MakeAgreementKey
            &&& e3.last() == (EnrollEffectView::NameDevice { identity_public: identity.public })
            &&& s3 == (EnrollmentView::Naming {
                plan,
                keys: DeviceKeys { signing, identity, prekey },
            })
        }),
{
}

/// While registering, each of the seven steps is shown in its place, the one before it having
/// stayed for a while; while linking, none is.
pub proof fn law_the_checklist_is_for_registering(
    username: Option<Seq<char>>,
    token: Seq<char>,
    key: KeyPair,
    keys: DeviceKeys,
    device_id: Seq<char>,
    prologue: Seq<u8>,
)
    ensures
        ({
            let register = PlanView::Register { username };
            let link = PlanView::Link { token };
            &&& enroll_step(Enrollment::Start(register), EnrollInput::Begin).1 == seq![
                EnrollEffectView::Show(RegistrationStep::GeneratingSigningKey),
                EnrollEffectView::MakeSigningKey,
            ]
            &&& enroll_step(Enrollment::Signing(register), EnrollInput::Key(key)).1 == seq![
                EnrollEffectView::Pause,
                EnrollEffectView::Show(RegistrationStep::GeneratingIdentityKey),
                EnrollEffectView::MakeAgreementKey,
            ]
            &&& enroll_step(
                Enrollment::Identity { plan: register, signing: key },
                EnrollInput::Key(key),
            ).1 == seq![
                EnrollEffectView::Pause,
                EnrollEffectView::Show(RegistrationStep::GeneratingPreKey),
                EnrollEffectView::MakeAgreementKey,
            ]
            &&& enroll_step(
                Enrollment::PreKey { plan: register, signing: key, identity: key },
                EnrollInput::Key(key),
            ).1 == seq![
                EnrollEffectView::Pause,
                EnrollEffectView::Show(RegistrationStep::SigningPreKey),
                EnrollEffectView::NameDevice { identity_public: key.public },
            ]
            &&& enroll_step(
                Enrollment::Naming { plan: register, keys },
                EnrollInput::Named { device_id, prologue },
            ).1 == seq![
                EnrollEffectView::Pause,
                EnrollEffectView::Show(RegistrationStep::Connecting),
                EnrollEffectView::Pause,
                EnrollEffectView::Show(RegistrationStep::SolvingPoW),
                EnrollEffectView::SetDeviceId(device_id),
                EnrollEffectView::GetChallenge,
            ]
            &&& enroll_step(Enrollment::Start(link), EnrollInput::Begin).1 == seq![
                EnrollEffectView::MakeSigningKey,
            ]
            &&& enroll_step(Enrollment::Signing(link), EnrollInput::Key(key)).1 == seq![
                EnrollEffectView::MakeAgreementKey,
            ]
            &&& enroll_step(
                Enrollment::Identity { plan: link, signing: key },
                EnrollInput::Key(key),
            ).1 == seq![EnrollEffectView::MakeAgreementKey]
            &&& enroll_step(
                Enrollment::PreKey { plan: link, signing: key, identity: key },
                EnrollInput::Key(key),
            ).1 == seq![EnrollEffectView::NameDevice { identity_public: key.public }]
        }),
        step_number(RegistrationStep::GeneratingSigningKey) == 0,
        step_number(RegistrationStep::GeneratingIdentityKey) == 1,
        step_number(RegistrationStep::GeneratingPreKey) == 2,
        step_number(RegistrationStep::SigningPreKey) == 3,
        step_number(RegistrationStep::Connecting) == 4,
        step_number(RegistrationStep::SolvingPoW) == 5,
        step_number(RegistrationStep::Registering) == 6,
{
    let register = PlanView::Register { username };
    let link = PlanView::Link { token };
    assert(enroll_step(Enrollment::Start(register), EnrollInput::Begin).1 =~= seq![
        EnrollEffectView::Show(RegistrationStep::GeneratingSigningKey),
        EnrollEffectView::MakeSigningKey,
    ]);
    assert(enroll_step(Enrollment::Signing(register), EnrollInput::Key(key)).1 =~= seq![
        EnrollEffectView::Pause,
        EnrollEffectView::Show(RegistrationStep::GeneratingIdentityKey),
        EnrollEffectView::MakeAgreementKey,
    ]);
    assert(enroll_step(
        Enrollment::Identity { plan: register, signing: key },
        EnrollInput::Key(key),
    ).1 =~= seq![
        EnrollEffectView::Pause,
        EnrollEffectView::Show(RegistrationStep::GeneratingPreKey),
        EnrollEffectView::MakeAgreementKey,
    ]);
    assert(enroll_step(
        Enrollment::PreKey { plan: register, signing: key, identity: key },
        EnrollInput::Key(key),
    ).1 =~= seq![
        EnrollEffectView::Pause,
        EnrollEffectView::Show(RegistrationStep::SigningPreKey),
        EnrollEffectView::NameDevice { identity_public: key.public },
    ]);
    assert(enroll_step(Enrollment::Start(link), EnrollInput::Begin).1 =~= seq![
        EnrollEffectView::MakeSigningKey,
    ]);
    assert(enroll_step(Enrollment::Signing(link), EnrollInput::Key(key)).1 =~= seq![
        EnrollEffectView::MakeAgreementKey,
    ]);
    assert(enroll_step(
        Enrollment::Identity { plan: link, signing: key },
        EnrollInput::Key(key),
    ).1 =~= seq![EnrollEffectView::MakeAgreementKey]);
    assert(enroll_step(
        Enrollment::PreKey { plan: link, signing: key, identity: key },
        EnrollInput::Key(key),
    ).1 =~= seq![EnrollEffectView::NameDevice { identity_public: key.public }]);
}

/// The two halves of a key pair belong together: what the secret half signs, the public half
/// verifies.
pub open spec fn belong_together(k: KeyPair) -> bool {
    forall|m: Seq<u8>|
        ed25519_verifies(k.public@, m, #[trigger] ed25519_signature(k.secret@, m))
}

// ── Registering ───────────────────────────────────────────────────────────────

/// A device registers with the public halves of its keys, with its name and the user's, and with
/// the solution of the challenge that it was given. The signature that it sends is one of its
/// signing key over the prologue and the very pre-key that it sends: whoever checks it with the
/// verifying key beside it accepts it.
pub proof fn law_registering_sends_a_signed_prekey(
    username: Option<Seq<char>>,
    keys: DeviceKeys,
    device_id: Seq<char>,
    prologue: Seq<u8>,
    challenge: Seq<char>,
    difficulty: u32,
    nonce: u64,
    hash: Seq<char>,
)
    ensures
        ({
            let (s1, e1) = enroll_step(
                Enrollment::Naming { plan: Plan::Register { username }, keys },
                EnrollInput::Named { device_id, prologue },
            );
            let (s2, e2) = enroll_step(s1, EnrollInput::Challenge(Ok((challenge, difficulty))));
            let (s3, e3) = enroll_step(s2, EnrollInput::Solved { nonce, hash });
            &&& e1.contains(EnrollEffectView::SetDeviceId(device_id))
            &&& e1.last() == EnrollEffectView::GetChallenge
            &&& e2 == seq![EnrollEffectView::SolvePow { challenge, difficulty }]
            &&& e3.len() == 3
            &&& e3[0] == EnrollEffectView::Show(RegistrationStep::Registering)
            &&& e3[1] == EnrollEffectView::Pause
            &&& e3[2] matches EnrollEffect::Register {
                username: name,
                device_id: id,
                keys: sent,
                challenge: solved,
                nonce: n,
                hash: h,
            } && {
                &&& name == username
                &&& id == device_id
                &&& solved == challenge
                &&& n == nonce
                &&& h == hash
                &&& sent.verifying_key == keys.signing.public@
                &&& sent.identity_public == keys.identity.public@
                &&& sent.signed_prekey_public == keys.prekey.public@
                &&& sent.crypto_suite == "Curve25519+Ed25519"@
                &&& sent.signed_prekey_signature == ed25519_signature(
                    keys.signing.secret@,
                    prologue + sent.signed_prekey_public,
                )
                &&& belong_together(keys.signing) ==> ed25519_verifies(
                    sent.verifying_key,
                    prologue + sent.signed_prekey_public,
                    sent.signed_prekey_signature,
                )
            }
        }),
{
    let (s1, e1) = enroll_step(
        Enrollment::Naming { plan: Plan::Register { username }, keys },
        EnrollInput::Named { device_id, prologue },
    );
    assert(e1[4] == EnrollEffectView::SetDeviceId(device_id));
}

/// A device that is linked sends the token as it is, its name, and the public halves of its keys,
/// with the pre-key signed in the same way.
pub proof fn law_linking_sends_a_signed_prekey(
    token: Seq<char>,
    keys: DeviceKeys,
    device_id: Seq<char>,
    prologue: Seq<u8>,
)
    ensures
        ({
            let (s1, e1) = enroll_step(
                Enrollment::Naming { plan: Plan::Link { token }, keys },
                EnrollInput::Named { device_id, prologue },
            );
            &&& e1.len() == 2
            &&& e1[0] == EnrollEffectView::SetDeviceId(device_id)
            &&& e1[1] matches EnrollEffect::ConfirmLink {
                token: t,
                device_id: id,
                keys: sent,
            } && {
                &&& t == token
                &&& id == device_id
                &&& sent.verifying_key == keys.signing.public@
                &&& sent.identity_public == keys.identity.public@
                &&& sent.signed_prekey_public == keys.prekey.public@
                &&& sent.crypto_suite == "Curve25519+Ed25519"@
                &&& sent.signed_prekey_signature == ed25519_signature(
                    keys.signing.secret@,
                    prologue + sent.signed_prekey_public,
                )
                &&& belong_together(keys.signing) ==> ed25519_verifies(
                    sent.verifying_key,
                    prologue + sent.signed_prekey_public,
                    sent.signed_prekey_signature,
                )
            }
        }),
{
}

/// The state after the device has its name, and, where it registers, has solved the challenge.
pub open spec fn asked_for_tokens(
    plan: PlanView,
    keys: DeviceKeys,
    device_id: Seq<char>,
    prologue: Seq<u8>,
    challenge: Seq<char>,
    difficulty: u32,
    nonce: u64,
    hash: Seq<char>,
) -> EnrollmentView {
    let s1 = enroll_step(
        Enrollment::Naming { plan, keys },
        EnrollInput::Named { device_id, prologue },
    ).0;
    if plan is Link {
        s1
    } else {
        let s2 = enroll_step(s1, EnrollInput::Challenge(Ok((challenge, difficulty)))).0;
        enroll_step(s2, EnrollInput::Solved { nonce, hash }).0
    }
}

/// An enrolled device is signed in with the tokens that it was given, under its own name, and has
/// a session to keep: its private keys, and the signature of its pre-key as it was sent.
pub proof fn law_the_session_holds_the_keys(
    plan: PlanView,
    keys: DeviceKeys,
    device_id: Seq<char>,
    prologue: Seq<u8>,
    challenge: Seq<char>,
    difficulty: u32,
    nonce: u64,
    hash: Seq<char>,
    tokens: AuthTokensView,
)
    ensures
        ({
            let s = asked_for_tokens(
                plan,
                keys,
                device_id,
                prologue,
                challenge,
                difficulty,
                nonce,
                hash,
            );
            let (t, e) = enroll_step(s, EnrollInput::Tokens(Ok(tokens)));
            &&& t == EnrollmentView::Done
            &&& e.len() == 1
            &&& e[0] matches EnrollEffect::Enrolled(r) && {
                &&& r.user_id == tokens.user_id
                &&& r.device_id == device_id
                &&& r.access_token == tokens.access_token
                &&& r.session matches Some(kept) && {
                    &&& kept.user_id == tokens.user_id
                    &&& kept.device_id == device_id
                    &&& kept.access_token == tokens.access_token
                    &&& kept.refresh_token == tokens.refresh_token
                    &&& kept.expires_at == tokens.expires_at
                    &&& hex_decoded(kept.signing_key_hex) == Some(keys.signing.secret@)
                    &&& hex_decoded(kept.identity_key_hex) == Some(keys.identity.secret@)
                    &&& hex_decoded(kept.spk_key_hex) == Some(keys.prekey.secret@)
                    &&& hex_decoded(kept.spk_sig_hex) == Some(
                        ed25519_signature(
                            keys.signing.secret@,
                            prologue + keys.prekey.public@,
                        ),
                    )
                }
            }
        }),
{
    lemma_hex_round_trip(keys.signing.secret@);
    lemma_hex_round_trip(keys.identity.secret@);
    lemma_hex_round_trip(keys.prekey.secret@);
    lemma_hex_round_trip(
        ed25519_signature(keys.signing.secret@, prologue + keys.prekey.public@),
    );
}

/// What goes wrong on the way is told, with where it happened, and ends the enrollment.
pub proof fn law_failures_end_the_enrollment(
    plan: PlanView,
    keys: DeviceKeys,
    device_id: Seq<char>,
    prologue: Seq<u8>,
    challenge: Seq<char>,
    difficulty: u32,
    nonce: u64,
    hash: Seq<char>,
    why: Seq<char>,
)
    ensures
        ({
            let s1 = enroll_step(
                Enrollment::Naming { plan, keys },
                EnrollInput::Named { device_id, prologue },
            ).0;
            let s2 = enroll_step(s1, EnrollInput::Challenge(Ok((challenge, difficulty)))).0;
            let s3 = asked_for_tokens(
                plan,
                keys,
                device_id,
                prologue,
                challenge,
                difficulty,
                nonce,
                hash,
            );
            &&& plan is Register ==> {
                &&& enroll_step(s1, EnrollInput::Challenge(Err(why))) == (
                    EnrollmentView::Done,
                    seq![EnrollEffectView::Failed("pow challenge: "@ + why)],
                )
                &&& enroll_step(s2, EnrollInput::PowFailed(why)) == (
                    EnrollmentView::Done,
                    seq![EnrollEffectView::Failed("PoW computation panicked: "@ + why)],
                )
                &&& enroll_step(s3, EnrollInput::Tokens(Err(why))) == (
                    EnrollmentView::Done,
                    seq![EnrollEffectView::Failed("register device: "@ + why)],
                )
            }
            &&& plan is Link ==> enroll_step(s3, EnrollInput::Tokens(Err(why))) == (
                EnrollmentView::Done,
                seq![EnrollEffectView::Failed("confirm device link: "@ + why)],
            )
        }),
{
}

/// What an enrollment waits for.
pub open spec fn waits_for(s: EnrollmentView, input: EnrollInputView) -> bool {
    match s {
        Enrollment::Start(_) => input is Begin,
        Enrollment::Signing(_) | Enrollment::Identity { .. } | Enrollment::PreKey { .. } => input
            is Key,
        Enrollment::Naming { .. } => input is Named,
        Enrollment::Challenge { .. } => input is Challenge,
        Enrollment::Pow { .. } => input is Solved || input is PowFailed,
        Enrollment::Tokens { .. } => input is Tokens,
        Enrollment::Done => false,
    }
}

/// A report that is not waited for changes nothing; one that is waited for always has something
/// done.
pub proof fn law_enrollment_goes_step_by_step(s: EnrollmentView, input: EnrollInputView)
    ensures
        !waits_for(s, input) ==> enroll_step(s, input) == (s, Seq::<EnrollEffectView>::empty()),
        waits_for(s, input) ==> enroll_step(s, input).1.len() > 0,
{
}

/// An enrollment begins with what it was asked for.
pub proof fn law_an_enrollment_knows_its_plan(
    username: Option<String>,
    token: String,
    r: Enrollment,
    l: Enrollment,
)
    requires
        call_ensures(register_new_device, (username,), r),
        call_ensures(link_existing_device, (token,), l),
    ensures
        r@ matches Enrollment::Start(Plan::Register { username: name }) && name
            == crate::text::opt_text(username),
        l@ == EnrollmentView::Start(Plan::Link { token: token@ }),
{
}

// ── Signing in again ──────────────────────────────────────────────────────────

/// Signing in again shows the server the signature of the kept signing key over the device id and
/// the time, both of which are shown too. It works exactly where the kept key is one and the
/// clock shows a time, and the key is looked at first.
pub proof fn law_signing_in_proves_the_key(session: Session, now: i64, before: bool, r: Result<
    AuthRequest,
    AuthError,
>)
    requires
        call_ensures(
            authenticate_saved_session_at,
            (
                &session,
                if before {
                    None
                } else {
                    Some(now)
                },
            ),
            r,
        ),
    ensures
        ({
            let key = hex_decoded(session.signing_key_hex@);
            &&& r is Ok <==> key is Some && key->0.len() == 32 && !before
            &&& r matches Ok(q) ==> {
                &&& q.device_id@ == session.device_id@
                &&& q.timestamp == now
                &&& q.signature@ == ed25519_signature(
                    key->0,
                    encode_utf8(session.device_id@ + signed_decimal(now as int)),
                )
            }
            &&& r matches Err(e) ==> {
                &&& e is SigningKeyHex <==> key is None
                &&& e is SigningKeyLength <==> key is Some && key->0.len() != 32
                &&& e is Clock <==> key is Some && key->0.len() == 32 && before
            }
        }),
{
}

/// The proof for one time is none for another: what is signed differs.
pub proof fn law_each_time_is_signed_anew(device_id: Seq<char>, a: i64, b: i64)
    requires
        a != b,
    ensures
        crate::auth::challenge_text(device_id, a) != crate::auth::challenge_text(device_id, b),
{
    let x = crate::auth::challenge_text(device_id, a);
    let y = crate::auth::challenge_text(device_id, b);
    assert(x.skip(device_id.len() as int) =~= signed_decimal(a as int));
    assert(y.skip(device_id.len() as int) =~= signed_decimal(b as int));
    crate::laws::numbers::law_decimals_differ(a as int, b as int);
}

/// An error is told with the error behind it.
pub proof fn law_auth_errors_say_why(behind: Seq<char>)
    ensures
        auth_error_report(AuthError::SigningKeyHex(behind)) == "invalid signing key hex"@ + ": "@
            + behind,
        auth_error_report(AuthErrorView::SigningKeyLength) == "signing key must be 32 bytes"@,
        auth_error_report(AuthErrorView::Clock) == "second time provided was later than self"@,
{
}

/// The keys and ids of a session.
pub open spec fn same_keys(a: SessionView, b: SessionView) -> bool {
    &&& a.signing_key_hex == b.signing_key_hex
    &&& a.identity_key_hex == b.identity_key_hex
    &&& a.spk_key_hex == b.spk_key_hex
    &&& a.spk_sig_hex == b.spk_sig_hex
    &&& a.device_id == b.device_id
    &&& a.user_id == b.user_id
}

/// Signing in again renews the tokens, all of them, and leaves the keys and ids alone.
pub proof fn law_signing_in_renews_the_tokens(session: Session, tokens: AuthTokens, r: AuthResult)
    requires
        call_ensures(authenticated, (session, tokens), r),
    ensures
        r@.user_id == tokens@.user_id,
        r@.device_id == session@.device_id,
        r@.access_token == tokens@.access_token,
        r@.session matches Some(kept) && {
            &&& same_keys(kept, session@)
            &&& kept.access_token == tokens@.access_token
            &&& kept.refresh_token == tokens@.refresh_token
            &&& kept.expires_at == tokens@.expires_at
        },
{
}

/// Of a session from disk, what is written back has its keys and the new tokens; the result
/// itself has no session that would have to be kept once more.
pub proof fn law_a_restored_session_is_written_back(
    session: Session,
    tokens: AuthTokens,
    result: AuthResult,
    r: (AuthResult, Session),
)
    requires
        call_ensures(authenticated, (session, tokens), result),
        call_ensures(restored, (session, result), r),
    ensures
        r.0@.session is None,
        r.0@.user_id == tokens@.user_id,
        r.0@.device_id == session@.device_id,
        r.0@.access_token == tokens@.access_token,
        same_keys(r.1@, session@),
        r.1@.access_token == tokens@.access_token,
        r.1@.refresh_token == tokens@.refresh_token,
        r.1@.expires_at == tokens@.expires_at,
{
}

// ── Back to the core ──────────────────────────────────────────────────────────

/// The core is made of the very keys in the session, each in its place; where one cannot be read,
/// that is told, and nothing is started.
pub proof fn law_the_core_gets_the_keys_of_the_session(
    s: Session,
    identity: Seq<u8>,
    signing: Seq<u8>,
    prekey: Seq<u8>,
    signature: Seq<u8>,
)
    ensures
        hex_decoded(s.identity_key_hex@) == Some(identity) && hex_decoded(s.signing_key_hex@)
            == Some(signing) && hex_decoded(s.spk_key_hex@) == Some(prekey) && hex_decoded(
            s.spk_sig_hex@,
        ) == Some(signature) ==> start_from_session(s) == (
            StartPhase::Building,
            StartRequestView::BuildCore {
                identity,
                signing,
                prekey,
                prekey_signature: signature,
            },
        ),
        hex_decoded(s.identity_key_hex@) is None || hex_decoded(s.signing_key_hex@) is None
            || hex_decoded(s.spk_key_hex@) is None || hex_decoded(s.spk_sig_hex@) is None ==> {
            &&& start_from_session(s).0 == StartPhase::Finished
            &&& start_from_session(s).1 is GiveUp
        },
{
}

/// A device that was enrolled is brought up with the keys that were made for it.
pub proof fn law_an_enrolled_device_starts(
    plan: PlanView,
    keys: DeviceKeys,
    device_id: Seq<char>,
    prologue: Seq<u8>,
    challenge: Seq<char>,
    difficulty: u32,
    nonce: u64,
    hash: Seq<char>,
    tokens: AuthTokensView,
    session: Session,
)
    requires
        enroll_step(
            asked_for_tokens(
                plan,
                keys,
                device_id,
                prologue,
                challenge,
                difficulty,
                nonce,
                hash,
            ),
            EnrollInput::Tokens(Ok(tokens)),
        ).1[0] matches EnrollEffect::Enrolled(r) && r.session == Some(session@),
    ensures
        start_from_session(session) == (
            StartPhase::Building,
            StartRequestView::BuildCore {
                identity: keys.identity.secret@,
                signing: keys.signing.secret@,
                prekey: keys.prekey.secret@,
                prekey_signature: ed25519_signature(
                    keys.signing.secret@,
                    prologue + keys.prekey.public@,
                ),
            },
        ),
{
    law_the_session_holds_the_keys(
        plan,
        keys,
        device_id,
        prologue,
        challenge,
        difficulty,
        nonce,
        hash,
        tokens,
    );
}

} // verus!
