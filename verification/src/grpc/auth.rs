//! Registration and sign-in: what the server is told and what its replies mean.

use crate::grpc::client::error_viewed;
use crate::grpc::error::{GrpcError, GrpcErrorView};
use vstd::prelude::*;
use vstd::slice::slice_to_vec;

verus! {

/// The tokens of a signed-in device.
#[derive(Debug, Clone)]
pub struct AuthTokens {
    pub user_id: String,
    pub access_token: String,
    pub refresh_token: String,
    pub expires_at: i64,
}

/// The public half of a device's keys.
#[derive(Debug, Clone)]
pub struct DevicePublicKeys {
    pub verifying_key: Vec<u8>,
    pub identity_public: Vec<u8>,
    pub signed_prekey_public: Vec<u8>,
    pub signed_prekey_signature: Vec<u8>,
    pub crypto_suite: String,
}

/// The proof-of-work challenge in a reply. An empty one is an error.
pub fn get_pow_challenge(challenge: String, difficulty: u32) -> (r: Result<
    (String, u32),
    GrpcError,
>)
    ensures
        error_viewed(r) == (if challenge@.len() == 0 {
            Err::<(String, u32), GrpcErrorView>(
                GrpcErrorView::Transport(
                    "GetPowChallenge returned an empty challenge (HTTP/2 body missing?)"@,
                ),
            )
        } else {
            Ok::<(String, u32), GrpcErrorView>((challenge, difficulty))
        }),
{
    if challenge.as_str().is_empty() {
        return Err(
            GrpcError::transport(
                "GetPowChallenge returned an empty challenge (HTTP/2 body missing?)",
            ),
        );
    }
    Ok((challenge, difficulty))
}

/// The tokens in a reply. A reply without any is an error.
pub fn tokens_from(tokens: Option<AuthTokens>) -> (r: Result<AuthTokens, GrpcError>)
    ensures
        error_viewed(r) == (match tokens {
            Some(t) => Ok::<AuthTokens, GrpcErrorView>(t),
            None => Err::<AuthTokens, GrpcErrorView>(
                GrpcErrorView::Transport("server returned empty tokens"@),
            ),
        }),
{
    match tokens {
        Some(t) => Ok(t),
        None => Err(GrpcError::transport("server returned empty tokens")),
    }
}

/// The refreshed access token, refresh token and expiry. A reply without a refresh token gives
/// an empty one.
pub fn refresh_token(
    access_token: String,
    refreshed: Option<String>,
    expires_at: i64,
) -> (r: (String, String, i64))
    ensures
        r.0 == access_token,
        r.1@ == (match refreshed {
            Some(t) => t@,
            None => Seq::empty(),
        }),
        r.2 == expires_at,
{
    let refresh = match refreshed {
        Some(t) => t,
        None => String::new(),
    };
    (access_token, refresh, expires_at)
}

/// The public keys of a device, of the one suite there is.
pub fn device_public_keys(
    verifying_key: &[u8],
    identity_public: &[u8],
    signed_prekey_public: &[u8],
    signed_prekey_signature: &[u8],
) -> (r: DevicePublicKeys)
    ensures
        r.verifying_key@ == verifying_key@,
        r.identity_public@ == identity_public@,
        r.signed_prekey_public@ == signed_prekey_public@,
        r.signed_prekey_signature@ == signed_prekey_signature@,
        r.crypto_suite@ == "Curve25519+Ed25519"@,
{
    DevicePublicKeys {
        verifying_key: slice_to_vec(verifying_key),
        identity_public: slice_to_vec(identity_public),
        signed_prekey_public: slice_to_vec(signed_prekey_public),
        signed_prekey_signature: slice_to_vec(signed_prekey_signature),
        crypto_suite: "Curve25519+Ed25519".to_string(),
    }
}

} // verus!
