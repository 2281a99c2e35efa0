//! What is kept on disk: the device's session and the program's settings.

use vstd::prelude::*;

verus! {

/// A device's keys and tokens.
#[derive(Debug, Clone, PartialEq, Eq)]
pub struct Session {
    /// Ed25519 signing key, private, hexadecimal.
    pub signing_key_hex: String,
    /// X25519 identity key, private, hexadecimal.
    pub identity_key_hex: String,
    pub device_id: String,
    pub user_id: String,
    pub access_token: String,
    pub refresh_token: String,
    /// When the access token expires, in Unix seconds.
    pub expires_at: i64,
    /// X25519 signed pre-key, private, hexadecimal.
    pub spk_key_hex: String,
    /// Signature of the signed pre-key, hexadecimal.
    pub spk_sig_hex: String,
}

impl Session {
    /// The same session once more.
    pub fn copy(&self) -> (r: Session)
        ensures
            r == *self,
    {
        Session {
            signing_key_hex: self.signing_key_hex.clone(),
            identity_key_hex: self.identity_key_hex.clone(),
            device_id: self.device_id.clone(),
            user_id: self.user_id.clone(),
            access_token: self.access_token.clone(),
            refresh_token: self.refresh_token.clone(),
            expires_at: self.expires_at,
            spk_key_hex: self.spk_key_hex.clone(),
            spk_sig_hex: self.spk_sig_hex.clone(),
        }
    }

    /// The session with new tokens.
    pub fn with_tokens(self, access_token: String, refresh_token: String, expires_at: i64) -> (r:
        Session)
        ensures
            r == (Session { access_token, refresh_token, expires_at, ..self }),
    {
        let mut s = self;
        s.access_token = access_token;
        s.refresh_token = refresh_token;
        s.expires_at = expires_at;
        s
    }
}

/// The program's settings.
#[derive(Debug, Clone, PartialEq, Eq)]
pub struct Config {
    pub server: String,
}

pub const DEFAULT_SERVER: &'static str = "https://ams.konstruct.cc:443";

pub fn default_server() -> (r: String)
    ensures
        r@ == DEFAULT_SERVER@,
{
    DEFAULT_SERVER.to_string()
}

impl Default for Config {
    fn default() -> (r: Self)
        ensures
            r.server@ == DEFAULT_SERVER@,
    {
        Config { server: default_server() }
    }
}

/// What session is on disk.
#[derive(Debug, Clone, Copy, PartialEq, Eq, Structural)]
pub enum SessionState {
    Encrypted,
    Plaintext,
    Absent,
}

/// How the server is reached.
#[derive(Debug, Clone, Copy, PartialEq, Eq, Structural)]
pub enum TransportConfig {
    Direct,
    Obfs4,
    Obfs4Tls,
    CdnFront,
}

pub open spec fn label_of(t: TransportConfig) -> Seq<char> {
    match t {
        TransportConfig::Direct => "direct"@,
        TransportConfig::Obfs4 => "obfs4"@,
        TransportConfig::Obfs4Tls => "obfs4+tls"@,
        TransportConfig::CdnFront => "cdn-front"@,
    }
}

pub fn transport_label(t: TransportConfig) -> (r: &'static str)
    ensures
        r@ == label_of(t),
{
    match t {
        TransportConfig::Direct => "direct",
        TransportConfig::Obfs4 => "obfs4",
        TransportConfig::Obfs4Tls => "obfs4+tls",
        TransportConfig::CdnFront => "cdn-front",
    }
}

} // verus!
