//! Device-minted contact invites.
//!
//! Protocol version 5: signed TTL, no ephemeral key. The container on the wire is CIv1, a
//! compact binary layout. Links are `https://konstruct.cc/add?invite=<base64url(CIv1)>` and
//! `konstruct://add?invite=<base64url(CIv1)>`. A payload that is not CIv1 is a legacy JSON
//! invite of version 3 or 4, which `legacy_payload` hands out undecoded.
//!
//! ```text
//! "CIv1" | flags | v | jti 16 | uuid 16 | device 16 | [v <= 3: ephKey 32] | ts 8 | sig 64
//!        | len, server | [flags bit 0: len, username] | [v >= 5: ttl 4]
//! ```

use crate::encoding::{
    all_hex, base64_decode, base64_decoded, base64_encode, base64_encoded, base64_error_text,
    be_bytes, be_value, hex_decode, hex_decoded, hex_encode, hex_encoded, hex_error_text,
    lemma_uuid_round_trip, push_be_u32, push_be_u64, random_uuid, read_be_u32, read_be_u64,
    uuid_error_text, uuid_new_v4, uuid_parse, uuid_parsed, uuid_text, uuid_to_string, Base64,
};
use crate::clock::now_unix;
use crate::signing::{
    ed25519_public_key, ed25519_refusal, ed25519_signature, ed25519_verifies, public_key, sign,
    verify,
};
use crate::text::{
    as_deref, contains, decimal, format_i64, format_u64, from_utf8, is_ascii_hex_digit, join,
    lemma_first_occurrence, lemma_trimmed_fixed, lemma_trimmed_twice, lowercased, occurs, opt_str,
    opt_text, signed_decimal, split_at_first, split_once, starts_with, strip_suffix, to_lowercase,
    trim, trim_end_matches, trim_start_matches, trimmed, utf8_error_text, without_prefixes,
    without_trailing,
};
use vstd::prelude::*;
use vstd::slice::{slice_subrange, slice_to_vec};
use vstd::utf8::{decode_utf8, encode_utf8, valid_utf8};

verus! {

pub const CURRENT_VERSION: u8 = 5;

/// Lifetime of an invite shown as a QR code.
pub const QR_TTL_SECONDS: u32 = 300;

/// Longest lifetime that an invite can have.
pub const LINK_TTL_SECONDS: u32 = 43_200;

/// Shortest lifetime that an invite can have.
pub const MIN_TTL_SECONDS: u32 = 60;

/// How far ahead of the reader's clock an invite may be dated.
pub const MAX_FUTURE_SKEW: i64 = 300;

/// "CIv1".
pub const MAGIC: [u8; 4] = [0x43, 0x49, 0x76, 0x31];

pub const FLAG_HAS_USERNAME: u8 = 1;

pub const HTTPS_ADD: &'static str = "https://konstruct.cc/add?invite=";

pub const SCHEME_ADD: &'static str = "konstruct://add?invite=";

/// Why an invite could not be written, read or minted. Where there is an error behind it, `T` is
/// what that says.
#[derive(Clone, Debug, PartialEq, Eq)]
pub enum InviteError<T = String> {
    /// A version 5 invite without a TTL.
    MissingTtl,
    UnsupportedVersion(u8),
    Uuid(T),
    DeviceIdHex(T),
    DeviceIdLength,
    SignatureBase64(T),
    SignatureLength,
    UsernameTooLong,
    InvalidServer,
    EphKeyBase64(T),
    EphKeyLength,
    NegativeTimestamp,
    Truncated,
    BadMagic,
    ServerUtf8(T),
    UsernameUtf8(T),
    TrailingBytes,
    InvalidTimestamp,
    TtlBelowFloor(u32),
    UserId(T),
    /// A device id that is not 32 hexadecimal digits.
    DeviceId,
    SigningKeyHex(T),
    SigningKeyLength,
    SelfVerify(T),
    /// No payload, or one that is no invite.
    Unrecognized,
}

pub type InviteErrorView = InviteError<Seq<char>>;

impl View for InviteError {
    type V = InviteErrorView;

    open spec fn view(&self) -> InviteErrorView {
        match *self {
            InviteError::MissingTtl => InviteError::MissingTtl,
            InviteError::UnsupportedVersion(v) => InviteError::UnsupportedVersion(v),
            InviteError::Uuid(e) => InviteError::Uuid(e@),
            InviteError::DeviceIdHex(e) => InviteError::DeviceIdHex(e@),
            InviteError::DeviceIdLength => InviteError::DeviceIdLength,
            InviteError::SignatureBase64(e) => InviteError::SignatureBase64(e@),
            InviteError::SignatureLength => InviteError::SignatureLength,
            InviteError::UsernameTooLong => InviteError::UsernameTooLong,
            InviteError::InvalidServer => InviteError::InvalidServer,
            InviteError::EphKeyBase64(e) => InviteError::EphKeyBase64(e@),
            InviteError::EphKeyLength => InviteError::EphKeyLength,
            InviteError::NegativeTimestamp => InviteError::NegativeTimestamp,
            InviteError::Truncated => InviteError::Truncated,
            InviteError::BadMagic => InviteError::BadMagic,
            InviteError::ServerUtf8(e) => InviteError::ServerUtf8(e@),
            InviteError::UsernameUtf8(e) => InviteError::UsernameUtf8(e@),
            InviteError::TrailingBytes => InviteError::TrailingBytes,
            InviteError::InvalidTimestamp => InviteError::InvalidTimestamp,
            InviteError::TtlBelowFloor(ttl) => InviteError::TtlBelowFloor(ttl),
            InviteError::UserId(e) => InviteError::UserId(e@),
            InviteError::DeviceId => InviteError::DeviceId,
            InviteError::SigningKeyHex(e) => InviteError::SigningKeyHex(e@),
            InviteError::SigningKeyLength => InviteError::SigningKeyLength,
            InviteError::SelfVerify(e) => InviteError::SelfVerify(e@),
            InviteError::Unrecognized => InviteError::Unrecognized,
        }
    }
}

/// A result, by the views of what it holds.
pub open spec fn seen<T: View>(r: Result<T, InviteError>) -> Result<T::V, InviteErrorView> {
    match r {
        Ok(t) => Ok(t@),
        Err(e) => Err(e@),
    }
}

/// What is said of an error, with what the error behind it says.
pub open spec fn error_text(e: InviteErrorView) -> Seq<char> {
    match e {
        InviteError::UnsupportedVersion(v) => "unsupported invite version "@ + decimal(v as nat),
        InviteError::TtlBelowFloor(ttl) => "ttl "@ + decimal(ttl as nat) + "s below floor"@,
        InviteError::MissingTtl => "v5 invite without ttl"@,
        InviteError::Uuid(e) => "uuid: "@ + e,
        InviteError::DeviceIdHex(e) => "device id hex: "@ + e,
        InviteError::DeviceIdLength => "device id must be 16 bytes"@,
        InviteError::SignatureBase64(e) => "sig base64: "@ + e,
        InviteError::SignatureLength => "signature must be 64 bytes"@,
        InviteError::UsernameTooLong => "username too long"@,
        InviteError::InvalidServer => "invalid server"@,
        InviteError::EphKeyBase64(e) => "ephKey: "@ + e,
        InviteError::EphKeyLength => "ephKey must be 32 bytes"@,
        InviteError::NegativeTimestamp => "out of range integral type conversion attempted"@,
        InviteError::Truncated => "truncated CIv1"@,
        InviteError::BadMagic => "bad CIv1 magic"@,
        InviteError::ServerUtf8(e) => "server utf8: "@ + e,
        InviteError::UsernameUtf8(e) => "un utf8: "@ + e,
        InviteError::TrailingBytes => "trailing bytes"@,
        InviteError::InvalidTimestamp => "invalid timestamp"@,
        InviteError::UserId(e) => "user id: "@ + e,
        InviteError::DeviceId => "device id must be 32 hex chars"@,
        InviteError::SigningKeyHex(e) => "signing key hex: "@ + e,
        InviteError::SigningKeyLength => "signing key must be 32 bytes"@,
        InviteError::SelfVerify(e) => "invite self-verify: "@ + e,
        InviteError::Unrecognized => "unrecognized invite payload"@,
    }
}

impl InviteError {
    /// What is said of it.
    pub fn message(self) -> (r: String)
        ensures
            r@ == error_text(self@),
    {
        match self {
            InviteError::UnsupportedVersion(v) => join(
                "unsupported invite version ",
                format_u64(v as u64).as_str(),
            ),
            InviteError::TtlBelowFloor(ttl) => join(
                join("ttl ", format_u64(ttl as u64).as_str()).as_str(),
                "s below floor",
            ),
            InviteError::MissingTtl => "v5 invite without ttl".to_string(),
            InviteError::Uuid(e) => join("uuid: ", e.as_str()),
            InviteError::DeviceIdHex(e) => join("device id hex: ", e.as_str()),
            InviteError::DeviceIdLength => "device id must be 16 bytes".to_string(),
            InviteError::SignatureBase64(e) => join("sig base64: ", e.as_str()),
            InviteError::SignatureLength => "signature must be 64 bytes".to_string(),
            InviteError::UsernameTooLong => "username too long".to_string(),
            InviteError::InvalidServer => "invalid server".to_string(),
            InviteError::EphKeyBase64(e) => join("ephKey: ", e.as_str()),
            InviteError::EphKeyLength => "ephKey must be 32 bytes".to_string(),
            InviteError::NegativeTimestamp => "out of range integral type conversion attempted".to_string(),
            InviteError::Truncated => "truncated CIv1".to_string(),
            InviteError::BadMagic => "bad CIv1 magic".to_string(),
            InviteError::ServerUtf8(e) => join("server utf8: ", e.as_str()),
            InviteError::UsernameUtf8(e) => join("un utf8: ", e.as_str()),
            InviteError::TrailingBytes => "trailing bytes".to_string(),
            InviteError::InvalidTimestamp => "invalid timestamp".to_string(),
            InviteError::UserId(e) => join("user id: ", e.as_str()),
            InviteError::DeviceId => "device id must be 32 hex chars".to_string(),
            InviteError::SigningKeyHex(e) => join("signing key hex: ", e.as_str()),
            InviteError::SigningKeyLength => "signing key must be 32 bytes".to_string(),
            InviteError::SelfVerify(e) => join("invite self-verify: ", e.as_str()),
            InviteError::Unrecognized => "unrecognized invite payload".to_string(),
        }
    }
}

#[derive(Debug, Clone, PartialEq, Eq)]
pub struct Invite {
    pub v: u8,
    pub jti: String,
    pub uuid: String,
    pub device_id: String,
    pub server: String,
    pub eph_key: String,
    pub ts: i64,
    pub sig: String,
    pub un: Option<String>,
    pub ttl: Option<u32>,
}

/// What an invite says.
#[verifier::ext_equal]
pub struct InviteView {
    pub v: u8,
    pub jti: Seq<char>,
    pub uuid: Seq<char>,
    pub device_id: Seq<char>,
    pub server: Seq<char>,
    pub eph_key: Seq<char>,
    pub ts: i64,
    pub sig: Seq<char>,
    pub un: Option<Seq<char>>,
    pub ttl: Option<u32>,
}

impl View for Invite {
    type V = InviteView;

    open spec fn view(&self) -> InviteView {
        InviteView {
            v: self.v,
            jti: self.jti@,
            uuid: self.uuid@,
            device_id: self.device_id@,
            server: self.server@,
            eph_key: self.eph_key@,
            ts: self.ts,
            sig: self.sig@,
            un: opt_text(self.un),
            ttl: self.ttl,
        }
    }
}

// ── The signed text ───────────────────────────────────────────────────────────

/// The fields with a bar between neighbours.
pub open spec fn piped(fields: Seq<Seq<char>>) -> Seq<char>
    decreases fields.len(),
{
    if fields.len() == 0 {
        Seq::empty()
    } else if fields.len() == 1 {
        fields[0]
    } else {
        piped(fields.drop_last()) + seq!['|'] + fields.last()
    }
}

/// The text that an invite's signature covers.
pub open spec fn canonical(i: InviteView) -> Result<Seq<char>, InviteErrorView> {
    let v = decimal(i.v as nat);
    let jti = lowercased(i.jti);
    let uuid = lowercased(i.uuid);
    let ts = signed_decimal(i.ts as int);
    let un = match i.un {
        Some(un) => un,
        None => Seq::empty(),
    };
    if i.v == 1 {
        Ok(piped(seq![v, jti, uuid, i.server, i.eph_key, ts]))
    } else if i.v == 2 {
        Ok(piped(seq![v, jti, uuid, i.device_id, i.server, i.eph_key, ts]))
    } else if i.v == 3 {
        Ok(piped(seq![v, jti, uuid, i.device_id, i.server, i.eph_key, ts, un]))
    } else if i.v == 4 {
        Ok(piped(seq![v, jti, uuid, i.device_id, i.server, ts, un]))
    } else if i.v == 5 {
        match i.ttl {
            Some(ttl) => Ok(
                piped(seq![v, jti, uuid, i.device_id, i.server, ts, un, decimal(ttl as nat)]),
            ),
            None => Err(InviteError::MissingTtl),
        }
    } else {
        Err(InviteError::UnsupportedVersion(i.v))
    }
}

spec fn field_views(fields: Seq<&str>) -> Seq<Seq<char>> {
    Seq::new(fields.len(), |i: int| fields[i]@)
}

fn piped_fields(fields: &[&str]) -> (r: String)
    ensures
        r@ == piped(field_views(fields@)),
{
    let ghost all = field_views(fields@);
    let mut out = String::new();
    let mut i: usize = 0;
    while i < fields.len()
        invariant
            i <= fields@.len(),
            all == field_views(fields@),
            out@ == piped(all.take(i as int)),
        decreases fields@.len() - i,
    {
        if i > 0 {
            out.append("|");
        }
        out.append(fields[i]);
        proof {
            reveal_strlit("|");
            let next = all.take(i + 1);
            assert(next.drop_last() =~= all.take(i as int));
            assert("|"@ =~= seq!['|']);
            if i == 0 {
                assert(out@ =~= next[0]);
            } else {
                assert(out@ =~= piped(all.take(i as int)) + seq!['|'] + all[i as int]);
            }
        }
        i = i + 1;
    }
    assert(all.take(i as int) =~= all);
    out
}

// ── The wire layout ───────────────────────────────────────────────────────────

/// The username that goes on the wire: trimmed, and absent when nothing is left.
pub open spec fn wire_username(un: Option<Seq<char>>) -> Option<Seq<char>> {
    match un {
        Some(un) => if trimmed(un).len() > 0 {
            Some(trimmed(un))
        } else {
            None
        },
        None => None,
    }
}

/// A length byte and the bytes of a text.
pub open spec fn short_text(s: Seq<char>) -> Seq<u8> {
    seq![encode_utf8(s).len() as u8] + encode_utf8(s)
}

/// The first reason, in the order in which the fields are looked at, why an invite has no
/// binary form.
pub open spec fn encode_error(i: InviteView) -> Option<InviteErrorView> {
    if uuid_parsed(i.jti) is None {
        Some(InviteError::Uuid(uuid_error_text(i.jti)))
    } else if uuid_parsed(i.uuid) is None {
        Some(InviteError::Uuid(uuid_error_text(i.uuid)))
    } else if hex_decoded(i.device_id) is None {
        Some(InviteError::DeviceIdHex(hex_error_text(i.device_id)))
    } else if hex_decoded(i.device_id)->0.len() != 16 {
        Some(InviteError::DeviceIdLength)
    } else if base64_decoded(Base64::Standard, i.sig) is None {
        Some(InviteError::SignatureBase64(base64_error_text(false, i.sig)))
    } else if base64_decoded(Base64::Standard, i.sig)->0.len() != 64 {
        Some(InviteError::SignatureLength)
    } else if wire_username(i.un) is Some && encode_utf8(wire_username(i.un)->0).len() > 255 {
        Some(InviteError::UsernameTooLong)
    } else if i.server.len() == 0 || encode_utf8(i.server).len() > 255 {
        Some(InviteError::InvalidServer)
    } else if i.v <= 3 && base64_decoded(Base64::Standard, i.eph_key) is None {
        Some(InviteError::EphKeyBase64(base64_error_text(false, i.eph_key)))
    } else if i.v <= 3 && base64_decoded(Base64::Standard, i.eph_key)->0.len() != 32 {
        Some(InviteError::EphKeyLength)
    } else if i.ts < 0 {
        Some(InviteError::NegativeTimestamp)
    } else if i.v >= 5 && i.ttl is None {
        Some(InviteError::MissingTtl)
    } else {
        None
    }
}

/// The binary form of an invite that has one.
pub open spec fn wire(i: InviteView) -> Seq<u8> {
    wire_head(i) + wire_tail(i)
}

/// The part of the binary form up to the signature.
pub open spec fn wire_head(i: InviteView) -> Seq<u8> {
    MAGIC@ + seq![
        if wire_username(i.un) is Some {
            FLAG_HAS_USERNAME
        } else {
            0
        },
        i.v,
    ] + uuid_parsed(i.jti)->0 + uuid_parsed(i.uuid)->0 + hex_decoded(i.device_id)->0 + (if i.v <= 3 {
        base64_decoded(Base64::Standard, i.eph_key)->0
    } else {
        Seq::empty()
    }) + be_bytes(i.ts as nat, 8) + base64_decoded(Base64::Standard, i.sig)->0
}

/// The part of the binary form after the signature.
pub open spec fn wire_tail(i: InviteView) -> Seq<u8> {
    short_text(i.server) + (match wire_username(i.un) {
        Some(un) => short_text(un),
        None => Seq::empty(),
    }) + (if i.v >= 5 {
        be_bytes(i.ttl->0 as nat, 4)
    } else {
        Seq::empty()
    })
}

/// Decodes Base64, with the result stated by `base64_decoded`.
fn decode_base64(kind: Base64, s: &str) -> (r: Result<Vec<u8>, String>)
    ensures
        r is Ok <==> base64_decoded(kind, s@) is Some,
        r matches Ok(b) ==> base64_decoded(kind, s@) == Some(b@),
        r matches Err(e) ==> e@ == base64_error_text(kind == Base64::UrlSafeNoPad, s@),
{
    let r = base64_decode(kind, s);
    proof {
        if r is Ok {
            crate::encoding::lemma_base64_round_trip(kind, r->Ok_0@);
        }
    }
    r
}

/// The trimmed text, unless nothing is left of it.
fn non_blank(un: Option<&str>) -> (r: Option<&str>)
    ensures
        opt_str(r) == wire_username(opt_str(un)),
{
    match un {
        Some(un) => {
            let s = trim(un);
            if s.is_empty() {
                None
            } else {
                Some(s)
            }
        },
        None => None,
    }
}

fn push_short_text(out: &mut Vec<u8>, b: &[u8], Ghost(s): Ghost<Seq<char>>)
    requires
        b@ == encode_utf8(s),
        b@.len() <= 255,
    ensures
        final(out)@ == old(out)@ + short_text(s),
{
    out.push(b.len() as u8);
    out.extend_from_slice(b);
    assert(out@ =~= old(out)@ + short_text(s));
}

impl Invite {
    /// The text that the signature covers.
    pub fn canonical_string(&self) -> (r: Result<String, InviteError>)
        ensures
            seen(r) == canonical(self@),
    {
        let v = format_u64(self.v as u64);
        let jti = to_lowercase(self.jti.as_str());
        let uuid = to_lowercase(self.uuid.as_str());
        let ts = format_i64(self.ts);
        let un: &str = match &self.un {
            Some(un) => un.as_str(),
            None => "",
        };
        proof {
            reveal_strlit("");
            assert(""@ =~= Seq::<char>::empty());
        }
        let device = self.device_id.as_str();
        let server = self.server.as_str();
        let eph = self.eph_key.as_str();
        match self.v {
            1 => {
                let fields = [v.as_str(), jti.as_str(), uuid.as_str(), server, eph, ts.as_str()];
                assert(field_views(fields@) =~= seq![v@, jti@, uuid@, server@, eph@, ts@]);
                Ok(piped_fields(&fields))
            },
            2 => {
                let fields = [
                    v.as_str(),
                    jti.as_str(),
                    uuid.as_str(),
                    device,
                    server,
                    eph,
                    ts.as_str(),
                ];
                assert(field_views(fields@) =~= seq![v@, jti@, uuid@, device@, server@, eph@, ts@]);
                Ok(piped_fields(&fields))
            },
            3 => {
                let fields = [
                    v.as_str(),
                    jti.as_str(),
                    uuid.as_str(),
                    device,
                    server,
                    eph,
                    ts.as_str(),
                    un,
                ];
                assert(field_views(fields@) =~= seq![
                    v@,
                    jti@,
                    uuid@,
                    device@,
                    server@,
                    eph@,
                    ts@,
                    un@,
                ]);
                Ok(piped_fields(&fields))
            },
            4 => {
                let fields = [
                    v.as_str(),
                    jti.as_str(),
                    uuid.as_str(),
                    device,
                    server,
                    ts.as_str(),
                    un,
                ];
                assert(field_views(fields@) =~= seq![v@, jti@, uuid@, device@, server@, ts@, un@]);
                Ok(piped_fields(&fields))
            },
            5 => match self.ttl {
                Some(ttl) => {
                    let ttl = format_u64(ttl as u64);
                    let fields = [
                        v.as_str(),
                        jti.as_str(),
                        uuid.as_str(),
                        device,
                        server,
                        ts.as_str(),
                        un,
                        ttl.as_str(),
                    ];
                    assert(field_views(fields@) =~= seq![
                        v@,
                        jti@,
                        uuid@,
                        device@,
                        server@,
                        ts@,
                        un@,
                        ttl@,
                    ]);
                    Ok(piped_fields(&fields))
                },
                None => Err(InviteError::MissingTtl),
            },
            other => Err(InviteError::UnsupportedVersion(other)),
        }
    }

    /// The lifetime in seconds: what the invite says, at most `LINK_TTL_SECONDS`.
    pub fn effective_ttl(&self) -> (r: u32)
        ensures
            r == effective_ttl(self@),
    {
        match self.ttl {
            Some(t) => if t < LINK_TTL_SECONDS {
                t
            } else {
                LINK_TTL_SECONDS
            },
            None => LINK_TTL_SECONDS,
        }
    }

    /// Whether the lifetime has passed at `now`.
    pub fn is_expired(&self, now: i64) -> (r: bool)
        ensures
            r == expired(self@, now),
    {
        now as i128 > self.ts as i128 + self.effective_ttl() as i128
    }

    /// The binary form.
    pub fn encode_binary(&self) -> (r: Result<Vec<u8>, InviteError>)
        ensures
            seen(r) == match encode_error(self@) {
                Some(e) => Err(e),
                None => Ok(wire(self@)),
            },
    {
        let jti = match uuid_parse(self.jti.as_str()) {
            Ok(b) => b,
            Err(e) => return Err(InviteError::Uuid(e)),
        };
        let uuid = match uuid_parse(self.uuid.as_str()) {
            Ok(b) => b,
            Err(e) => return Err(InviteError::Uuid(e)),
        };
        let device = match hex_decode(self.device_id.as_str()) {
            Ok(b) => b,
            Err(e) => return Err(InviteError::DeviceIdHex(e)),
        };
        if device.len() != 16 {
            return Err(InviteError::DeviceIdLength);
        }
        let sig = match decode_base64(Base64::Standard, self.sig.as_str()) {
            Ok(b) => b,
            Err(e) => return Err(InviteError::SignatureBase64(e)),
        };
        if sig.len() != 64 {
            return Err(InviteError::SignatureLength);
        }
        let un = non_blank(as_deref(&self.un));
        if let Some(un) = un {
            if un.as_bytes().len() > 255 {
                return Err(InviteError::UsernameTooLong);
            }
        }
        let server = self.server.as_str();
        if server.is_empty() || server.as_bytes().len() > 255 {
            return Err(InviteError::InvalidServer);
        }
        let mut out: Vec<u8> = Vec::with_capacity(128);
        out.extend_from_slice(&MAGIC);
        out.push(
            if un.is_some() {
                FLAG_HAS_USERNAME
            } else {
                0
            },
        );
        out.push(self.v);
        out.extend_from_slice(&jti);
        out.extend_from_slice(&uuid);
        out.extend_from_slice(device.as_slice());
        if self.v <= 3 {
            let eph = match decode_base64(Base64::Standard, self.eph_key.as_str()) {
                Ok(b) => b,
                Err(e) => return Err(InviteError::EphKeyBase64(e)),
            };
            if eph.len() != 32 {
                return Err(InviteError::EphKeyLength);
            }
            out.extend_from_slice(eph.as_slice());
        }
        if self.ts < 0 {
            return Err(InviteError::NegativeTimestamp);
        }
        push_be_u64(&mut out, self.ts as u64);
        out.extend_from_slice(sig.as_slice());
        assert(out@ =~= wire_head(self@));
        push_short_text(&mut out, server.as_bytes(), Ghost(server@));
        if let Some(un) = un {
            push_short_text(&mut out, un.as_bytes(), Ghost(un@));
        }
        if self.v >= 5 {
            match self.ttl {
                Some(ttl) => {
                    push_be_u32(&mut out, ttl);
                },
                None => return Err(InviteError::MissingTtl),
            }
        }
        assert(out@ =~= wire(self@));
        Ok(out)
    }

    /// The binary form in URL-safe Base64.
    pub fn to_base64url(&self) -> (r: Result<String, InviteError>)
        ensures
            seen(r) == match encode_error(self@) {
                Some(e) => Err(e),
                None => Ok(base64_encoded(Base64::UrlSafeNoPad, wire(self@))),
            },
    {
        match self.encode_binary() {
            Ok(b) => Ok(base64_encode(Base64::UrlSafeNoPad, b.as_slice())),
            Err(e) => Err(e),
        }
    }

    /// The link that opens in a browser or in the app.
    pub fn https_link(&self) -> (r: Result<String, InviteError>)
        ensures
            seen(r) == link(HTTPS_ADD@, self@),
    {
        match self.to_base64url() {
            Ok(s) => Ok(join(HTTPS_ADD, s.as_str())),
            Err(e) => Err(e),
        }
    }

    /// The link that only the app opens.
    pub fn scheme_link(&self) -> (r: Result<String, InviteError>)
        ensures
            seen(r) == link(SCHEME_ADD@, self@),
    {
        match self.to_base64url() {
            Ok(s) => Ok(join(SCHEME_ADD, s.as_str())),
            Err(e) => Err(e),
        }
    }
}

pub open spec fn effective_ttl(i: InviteView) -> u32 {
    match i.ttl {
        Some(t) => if t < LINK_TTL_SECONDS {
            t
        } else {
            LINK_TTL_SECONDS
        },
        None => LINK_TTL_SECONDS,
    }
}

/// Whether the lifetime has passed at `now`.
pub open spec fn expired(i: InviteView, now: i64) -> bool {
    now > i.ts + effective_ttl(i)
}

/// A prefix followed by the Base64 text of the invite.
pub open spec fn link(prefix: Seq<char>, i: InviteView) -> Result<Seq<char>, InviteErrorView> {
    match encode_error(i) {
        Some(e) => Err(e),
        None => Ok(prefix + base64_encoded(Base64::UrlSafeNoPad, wire(i))),
    }
}

// ── Reading the wire layout ───────────────────────────────────────────────────

/// Where the timestamp stands.
pub open spec fn ts_offset(v: u8) -> int {
    if v <= 3 {
        86
    } else {
        54
    }
}

/// The two's complement reading of a 64-bit number.
pub open spec fn as_signed(n: nat) -> int {
    if n < 0x8000_0000_0000_0000 {
        n as int
    } else {
        n - 0x1_0000_0000_0000_0000
    }
}

/// The invite whose binary form is `d`, read at the time `now`.
pub open spec fn decoded(d: Seq<u8>, now: i64) -> Result<InviteView, InviteErrorView> {
    if d.len() < 4 {
        Err(InviteError::Truncated)
    } else if d.take(4) != MAGIC@ {
        Err(InviteError::BadMagic)
    } else if d.len() < 6 || d.len() < ts_offset(d[5]) + 73 {
        Err(InviteError::Truncated)
    } else {
        let from = ts_offset(d[5]) + 73;
        let server_end = from + d[from - 1];
        if d.len() < server_end {
            Err(InviteError::Truncated)
        } else if !valid_utf8(d.subrange(from, server_end)) {
            Err(InviteError::ServerUtf8(utf8_error_text(d.subrange(from, server_end))))
        } else if d[4] % 2 == 1 {
            if d.len() < server_end + 1 || d.len() < server_end + 1 + d[server_end] {
                Err(InviteError::Truncated)
            } else {
                let end = server_end + 1 + d[server_end];
                let un = d.subrange(server_end + 1, end);
                if !valid_utf8(un) {
                    Err(InviteError::UsernameUtf8(utf8_error_text(un)))
                } else {
                    decoded_end(d, server_end, Some(decode_utf8(un)), end, now)
                }
            }
        } else {
            decoded_end(d, server_end, None, server_end, now)
        }
    }
}

/// The end of `decoded`: the TTL stands at `end`.
pub open spec fn decoded_end(
    d: Seq<u8>,
    server_end: int,
    un: Option<Seq<char>>,
    end: int,
    now: i64,
) -> Result<InviteView, InviteErrorView> {
    let v = d[5];
    let at = ts_offset(v);
    let ts = as_signed(be_value(d.subrange(at, at + 8))) as i64;
    let ttl = if v >= 5 {
        Some(be_value(d.subrange(end, end + 4)) as u32)
    } else {
        None
    };
    if v >= 5 && d.len() < end + 4 {
        Err(InviteError::Truncated)
    } else if d.len() > end + (if v >= 5 {
        4int
    } else {
        0
    }) {
        Err(InviteError::TrailingBytes)
    } else if !(0 < ts <= now + MAX_FUTURE_SKEW) {
        Err(InviteError::InvalidTimestamp)
    } else if v >= 5 && ttl->0 < MIN_TTL_SECONDS {
        Err(InviteError::TtlBelowFloor(ttl->0))
    } else {
        Ok(
            InviteView {
                v,
                jti: uuid_text(d.subrange(6, 22)),
                uuid: uuid_text(d.subrange(22, 38)),
                device_id: hex_encoded(d.subrange(38, 54)),
                server: decode_utf8(d.subrange(at + 73, server_end)),
                eph_key: if v <= 3 {
                    base64_encoded(Base64::Standard, d.subrange(54, 86))
                } else {
                    Seq::empty()
                },
                ts,
                sig: base64_encoded(Base64::Standard, d.subrange(at + 8, at + 72)),
                un,
                ttl,
            },
        )
    }
}

/// A position in a buffer.
struct Reader<'a> {
    data: &'a [u8],
    i: usize,
}

impl<'a> Reader<'a> {
    spec fn wf(&self) -> bool {
        self.i <= self.data@.len()
    }

    fn new(data: &'a [u8]) -> (r: Self)
        ensures
            r.wf(),
            r.data@ == data@,
            r.i == 0,
    {
        Reader { data, i: 0 }
    }

    fn at_end(&self) -> (r: bool)
        ensures
            r == (self.i == self.data@.len()),
    {
        self.i == self.data.len()
    }

    /// The next `n` bytes.
    fn take(&mut self, n: usize) -> (r: Result<&'a [u8], InviteError>)
        requires
            old(self).wf(),
        ensures
            final(self).wf(),
            final(self).data == old(self).data,
            match r {
                Ok(b) => {
                    &&& old(self).i + n <= old(self).data@.len()
                    &&& final(self).i == old(self).i + n
                    &&& b@ == old(self).data@.subrange(old(self).i as int, old(self).i + n)
                },
                Err(e) => {
                    &&& old(self).i + n > old(self).data@.len()
                    &&& e is Truncated
                },
            },
    {
        if n > self.data.len() - self.i {
            return Err(InviteError::Truncated);
        }
        let b = slice_subrange(self.data, self.i, self.i + n);
        self.i = self.i + n;
        Ok(b)
    }

    /// The next byte.
    fn u8(&mut self) -> (r: Result<u8, InviteError>)
        requires
            old(self).wf(),
        ensures
            final(self).wf(),
            final(self).data == old(self).data,
            match r {
                Ok(b) => {
                    &&& old(self).i < old(self).data@.len()
                    &&& final(self).i == old(self).i + 1
                    &&& b == old(self).data@[old(self).i as int]
                },
                Err(e) => {
                    &&& old(self).i == old(self).data@.len()
                    &&& e is Truncated
                },
            },
    {
        match self.take(1) {
            Ok(b) => Ok(b[0]),
            Err(e) => Err(e),
        }
    }

    /// The next sixteen bytes as UUID text.
    fn uuid(&mut self) -> (r: Result<String, InviteError>)
        requires
            old(self).wf(),
        ensures
            final(self).wf(),
            final(self).data == old(self).data,
            match r {
                Ok(s) => {
                    &&& old(self).i + 16 <= old(self).data@.len()
                    &&& final(self).i == old(self).i + 16
                    &&& s@ == uuid_text(
                        old(self).data@.subrange(old(self).i as int, old(self).i + 16),
                    )
                },
                Err(e) => {
                    &&& old(self).i + 16 > old(self).data@.len()
                    &&& e is Truncated
                },
            },
    {
        match self.take(16) {
            Ok(b) => Ok(uuid_to_string(array16(b))),
            Err(e) => Err(e),
        }
    }
}

/// Sixteen bytes as an array.
fn array16(b: &[u8]) -> (r: [u8; 16])
    requires
        b@.len() == 16,
    ensures
        r@ == b@,
{
    let mut r: [u8; 16] = [0; 16];
    let mut i: usize = 0;
    while i < 16
        invariant
            i <= 16,
            b@.len() == 16,
            forall|j: int| 0 <= j < i ==> r@[j] == b@[j],
        decreases 16 - i,
    {
        r[i] = b[i];
        i = i + 1;
    }
    assert(r@ =~= b@);
    r
}

/// A number in two's complement.
pub(crate) fn signed(n: u64) -> (r: i64)
    ensures
        r == as_signed(n as nat),
{
    if n < 0x8000_0000_0000_0000 {
        n as i64
    } else {
        -((u64::MAX - n) as i64) - 1
    }
}

/// The invite whose binary form is `data`, at the time `now`.
pub fn decode_binary_at(data: &[u8], now: i64) -> (r: Result<Invite, InviteError>)
    ensures
        seen(r) == decoded(data@, now),
{
    let mut r = Reader::new(data);
    let magic = match r.take(4) {
        Ok(b) => b,
        Err(e) => return Err(e),
    };
    assert(data@.take(4) =~= magic@);
    if magic[0] != MAGIC[0] || magic[1] != MAGIC[1] || magic[2] != MAGIC[2] || magic[3]
        != MAGIC[3] {
        return Err(InviteError::BadMagic);
    }
    assert(magic@ =~= MAGIC@);
    let flags = match r.u8() {
        Ok(b) => b,
        Err(e) => return Err(e),
    };
    let v = match r.u8() {
        Ok(b) => b,
        Err(e) => return Err(e),
    };
    let jti = match r.uuid() {
        Ok(s) => s,
        Err(e) => return Err(e),
    };
    let uuid = match r.uuid() {
        Ok(s) => s,
        Err(e) => return Err(e),
    };
    let device_id = match r.take(16) {
        Ok(b) => hex_encode(b),
        Err(e) => return Err(e),
    };
    let eph_key = if v <= 3 {
        match r.take(32) {
            Ok(b) => base64_encode(Base64::Standard, b),
            Err(e) => return Err(e),
        }
    } else {
        String::new()
    };
    let ts = match r.take(8) {
        Ok(b) => {
            assert(b@.subrange(0, 8) =~= b@);
            signed(read_be_u64(b, 0))
        },
        Err(e) => return Err(e),
    };
    let sig = match r.take(64) {
        Ok(b) => base64_encode(Base64::Standard, b),
        Err(e) => return Err(e),
    };
    let server_len = match r.u8() {
        Ok(n) => n as usize,
        Err(e) => return Err(e),
    };
    let server = match r.take(server_len) {
        Ok(b) => match from_utf8(slice_to_vec(b)) {
            Ok(s) => s,
            Err(e) => return Err(InviteError::ServerUtf8(e)),
        },
        Err(e) => return Err(e),
    };
    let ghost server_end = r.i as int;
    assert((flags & 1 != 0) == (flags % 2 == 1)) by (bit_vector);
    let un = if flags & FLAG_HAS_USERNAME != 0 {
        let n = match r.u8() {
            Ok(n) => n as usize,
            Err(e) => return Err(e),
        };
        match r.take(n) {
            Ok(b) => match from_utf8(slice_to_vec(b)) {
                Ok(s) => Some(s),
                Err(e) => return Err(InviteError::UsernameUtf8(e)),
            },
            Err(e) => return Err(e),
        }
    } else {
        None
    };
    let ghost end = r.i as int;
    let ttl = if v >= 5 {
        match r.take(4) {
            Ok(b) => {
                assert(b@.subrange(0, 4) =~= b@);
                Some(read_be_u32(b, 0))
            },
            Err(e) => return Err(e),
        }
    } else {
        None
    };
    assert(decoded(data@, now) == decoded_end(data@, server_end, opt_text(un), end, now));
    if !r.at_end() {
        return Err(InviteError::TrailingBytes);
    }
    if !(ts > 0 && ts - MAX_FUTURE_SKEW <= now) {
        return Err(InviteError::InvalidTimestamp);
    }
    if let Some(t) = ttl {
        if t < MIN_TTL_SECONDS {
            return Err(InviteError::TtlBelowFloor(t));
        }
    }
    Ok(Invite { v, jti, uuid, device_id, server, eph_key, ts, sig, un, ttl })
}

/// The invite whose binary form is `data`, now.
pub fn decode_binary(data: &[u8]) -> (r: Result<Invite, InviteError>)
    ensures
        exists|now: i64| seen(r) == decoded(data@, now),
{
    decode_binary_at(data, now_unix())
}

// ── Links ─────────────────────────────────────────────────────────────────────

/// What stands after `invite=`, up to the next `&`.
pub open spec fn invite_param(s: Seq<char>) -> Option<Seq<char>> {
    match split_at_first(s, "invite="@) {
        Some((_, rest)) => match split_at_first(rest, "&"@) {
            Some((value, _)) => Some(value),
            None => Some(rest),
        },
        None => None,
    }
}

/// The bytes that a pasted text carries: the Base64 of its `invite` parameter, or of the text
/// as a whole when it has none. The URL-safe dialect is tried first.
pub open spec fn payload_bytes(raw: Seq<char>) -> Option<Seq<u8>> {
    let payload = match invite_param(trimmed(raw)) {
        Some(p) => p,
        None => trimmed(raw),
    };
    match base64_decoded(Base64::UrlSafeNoPad, trimmed(payload)) {
        Some(b) => Some(b),
        None => base64_decoded(Base64::Standard, trimmed(payload)),
    }
}

/// The invite in a pasted text, read at the time `now`, where `legacy` is what a reader of legacy
/// JSON made of the payload. The binary form comes first, and is never read as JSON.
pub open spec fn parsed(raw: Seq<char>, now: i64, legacy: Option<InviteView>) -> Result<
    InviteView,
    InviteErrorView,
> {
    match payload_bytes(raw) {
        Some(b) => if MAGIC@.is_prefix_of(b) {
            decoded(b, now)
        } else {
            match legacy {
                Some(i) => Ok(i),
                None => Err(InviteError::Unrecognized),
            }
        },
        None => Err(InviteError::Unrecognized),
    }
}

pub open spec fn viewed_option(i: Option<Invite>) -> Option<InviteView> {
    match i {
        Some(i) => Some(i@),
        None => None,
    }
}

pub open spec fn looks_like(raw: Seq<char>) -> bool {
    let t = trimmed(raw);
    ||| occurs(t, "invite="@)
    ||| "konstruct://"@.is_prefix_of(t)
    ||| occurs(t, "konstruct.cc/add"@)
    ||| encode_utf8(t).len() > 40 && (base64_decoded(Base64::UrlSafeNoPad, t) matches Some(b)
        && MAGIC@.is_prefix_of(b))
}

fn extract_invite_param(raw: &str) -> (r: Option<&str>)
    ensures
        r is Some <==> invite_param(raw@) is Some,
        r matches Some(s) ==> invite_param(raw@) == Some(s@),
{
    match split_once(raw, "invite=") {
        Some((before, rest)) => {
            proof {
                lemma_first_occurrence(raw@, "invite="@, before@.len() as int);
            }
            match split_once(rest, "&") {
                Some((value, _)) => {
                    proof {
                        lemma_first_occurrence(rest@, "&"@, value@.len() as int);
                    }
                    Some(value)
                },
                None => Some(rest),
            }
        },
        None => None,
    }
}

fn decode_payload(s: &str) -> (r: Option<Vec<u8>>)
    ensures
        r is Some <==> (base64_decoded(Base64::UrlSafeNoPad, trimmed(s@)) is Some
            || base64_decoded(Base64::Standard, trimmed(s@)) is Some),
        r matches Some(b) ==> Some(b@) == match base64_decoded(
            Base64::UrlSafeNoPad,
            trimmed(s@),
        ) {
            Some(b) => Some(b),
            None => base64_decoded(Base64::Standard, trimmed(s@)),
        },
{
    let cleaned = trim(s);
    match decode_base64(Base64::UrlSafeNoPad, cleaned) {
        Ok(b) => Some(b),
        Err(_) => match decode_base64(Base64::Standard, cleaned) {
            Ok(b) => Some(b),
            Err(_) => None,
        },
    }
}

/// Whether `b` begins with the magic of the binary form.
fn has_magic(b: &[u8]) -> (r: bool)
    ensures
        r == MAGIC@.is_prefix_of(b@),
{
    let r = b.len() >= 4 && b[0] == MAGIC[0] && b[1] == MAGIC[1] && b[2] == MAGIC[2] && b[3]
        == MAGIC[3];
    proof {
        if r {
            assert(MAGIC@ =~= b@.subrange(0, 4));
        } else if MAGIC@.is_prefix_of(b@) {
            assert(b@.len() >= 4);
            assert(forall|i: int| 0 <= i < 4 ==> MAGIC@[i] == b@.subrange(0, 4)[i]);
        }
    }
    r
}

/// Whether a text is worth trying to parse as an invite.
pub fn looks_like_invite(raw: &str) -> (r: bool)
    ensures
        r == looks_like(raw@),
{
    let t = trim(raw);
    if contains(t, "invite=") || starts_with(t, "konstruct://") || contains(t, "konstruct.cc/add") {
        return true;
    }
    if t.as_bytes().len() > 40 {
        match decode_base64(Base64::UrlSafeNoPad, t) {
            Ok(b) => has_magic(b.as_slice()),
            Err(_) => false,
        }
    } else {
        false
    }
}

fn payload_of(raw: &str) -> (r: Option<Vec<u8>>)
    ensures
        r is Some <==> payload_bytes(raw@) is Some,
        r matches Some(b) ==> payload_bytes(raw@) == Some(b@),
{
    let t = trim(raw);
    match extract_invite_param(t) {
        Some(p) => decode_payload(p),
        None => decode_payload(t),
    }
}

/// The invite in a pasted text, at the time `now`. `legacy` is what a reader of legacy JSON made
/// of `legacy_payload`.
pub fn parse_invite_at(raw: &str, now: i64, legacy: Option<Invite>) -> (r: Result<
    Invite,
    InviteError,
>)
    ensures
        seen(r) == parsed(raw@, now, viewed_option(legacy)),
{
    match payload_of(raw) {
        Some(b) => if has_magic(b.as_slice()) {
            decode_binary_at(b.as_slice(), now)
        } else {
            match legacy {
                Some(i) => Ok(i),
                None => Err(InviteError::Unrecognized),
            }
        },
        None => Err(InviteError::Unrecognized),
    }
}

/// The invite in a pasted text, now. `legacy` is what a reader of legacy JSON made of
/// `legacy_payload`.
pub fn parse_invite(raw: &str, legacy: Option<Invite>) -> (r: Result<Invite, InviteError>)
    ensures
        exists|now: i64| seen(r) == parsed(raw@, now, viewed_option(legacy)),
{
    parse_invite_at(raw, now_unix(), legacy)
}

/// The bytes of a payload that is not in the binary form, for a reader of legacy JSON.
pub fn legacy_payload(raw: &str) -> (r: Option<Vec<u8>>)
    ensures
        r is Some <==> (payload_bytes(raw@) matches Some(b) && !MAGIC@.is_prefix_of(b)),
        r matches Some(b) ==> payload_bytes(raw@) == Some(b@),
{
    match payload_of(raw) {
        Some(b) => if has_magic(b.as_slice()) {
            None
        } else {
            Some(b)
        },
        None => None,
    }
}

/// A payload in the binary form is read as such, whatever a reader of JSON says of it.
pub proof fn law_binary_form_comes_first(raw: Seq<char>, now: i64, legacy: Option<InviteView>)
    requires
        payload_bytes(raw) matches Some(b) && MAGIC@.is_prefix_of(b),
    ensures
        parsed(raw, now, legacy) == decoded(payload_bytes(raw)->0, now),
{
}

// ── Minting ───────────────────────────────────────────────────────────────────

/// The bare host of a server address: no white space around it, no scheme, no slash at the
/// end, and no `:443`.
pub open spec fn normalized_server(url: Seq<char>) -> Seq<char> {
    let s = without_trailing(
        without_prefixes(without_prefixes(trimmed(url), "https://"@), "http://"@),
        '/',
    );
    if ":443"@.is_suffix_of(s) {
        s.take(s.len() - ":443"@.len())
    } else {
        s
    }
}

/// What `minted` signs: a version 5 invite dated `now`.
pub open spec fn unsigned_invite(
    user_id: Seq<char>,
    device_id: Seq<char>,
    server_url: Seq<char>,
    username: Option<Seq<char>>,
    ttl: u32,
    now: i64,
    jti: Seq<u8>,
) -> InviteView {
    InviteView {
        v: CURRENT_VERSION,
        jti: uuid_text(jti),
        uuid: uuid_text(uuid_parsed(user_id)->0),
        device_id: lowercased(device_id),
        server: normalized_server(server_url),
        eph_key: Seq::empty(),
        ts: now,
        sig: Seq::empty(),
        un: wire_username(username),
        ttl: Some(ttl),
    }
}

/// What a minted invite must meet to have a binary form: a date that is not negative, a server
/// name that is not empty, and names of at most 255 bytes.
pub open spec fn fits_wire(i: InviteView) -> bool {
    &&& i.ts >= 0
    &&& i.server.len() > 0
    &&& encode_utf8(i.server).len() <= 255
    &&& i.un matches Some(un) ==> encode_utf8(un).len() <= 255
}

/// The invite minted at the time `now` with the identifier `jti`.
pub open spec fn minted(
    user_id: Seq<char>,
    device_id: Seq<char>,
    server_url: Seq<char>,
    signing_key_hex: Seq<char>,
    username: Option<Seq<char>>,
    ttl: u32,
    now: i64,
    jti: Seq<u8>,
) -> Result<InviteView, InviteErrorView> {
    let device = lowercased(device_id);
    if ttl < MIN_TTL_SECONDS {
        Err(InviteError::TtlBelowFloor(ttl))
    } else if uuid_parsed(user_id) is None {
        Err(InviteError::UserId(uuid_error_text(user_id)))
    } else if !(device.len() == 32 && all_hex(device)) {
        Err(InviteError::DeviceId)
    } else {
        match hex_decoded(signing_key_hex) {
            None => Err(InviteError::SigningKeyHex(hex_error_text(signing_key_hex))),
            Some(key) => if key.len() != 32 {
                Err(InviteError::SigningKeyLength)
            } else {
                let unsigned = unsigned_invite(
                    user_id,
                    device_id,
                    server_url,
                    username,
                    ttl,
                    now,
                    jti,
                );
                let message = encode_utf8(canonical(unsigned)->Ok_0);
                let sig = ed25519_signature(key, message);
                if ed25519_verifies(ed25519_public_key(key), message, sig) {
                    Ok(InviteView { sig: base64_encoded(Base64::Standard, sig), ..unsigned })
                } else {
                    Err(
                        InviteError::SelfVerify(
                            ed25519_refusal(ed25519_public_key(key), message, sig),
                        ),
                    )
                }
            },
        }
    }
}

/// The bare host of a server address.
pub fn normalize_server(server_url: &str) -> (r: String)
    ensures
        r@ == normalized_server(server_url@),
{
    proof {
        reveal_strlit("https://");
        reveal_strlit("http://");
        reveal_strlit("/");
        assert("/"@ =~= seq!['/']);
    }
    let s = trim_start_matches(trim_start_matches(trim(server_url), "https://"), "http://");
    let s = trim_end_matches(s, "/", Ghost('/'));
    match strip_suffix(s, ":443") {
        Some(stripped) => stripped.to_string(),
        None => s.to_string(),
    }
}

/// Whether every character is a hexadecimal digit.
fn is_hex(s: &str) -> (r: bool)
    ensures
        r == all_hex(s@),
{
    for c in it: s.chars()
        invariant
            it.seq() == s@,
            forall|j: int| 0 <= j < it.index() ==> is_ascii_hex_digit(#[trigger] s@[j]),
    {
        if !(('0' <= c && c <= '9') || ('a' <= c && c <= 'f') || ('A' <= c && c <= 'F')) {
            assert(!is_ascii_hex_digit(s@[it.index()]));
            return false;
        }
    }
    true
}

/// Thirty-two bytes as an array.
pub(crate) fn array32(b: &[u8]) -> (r: [u8; 32])
    requires
        b@.len() == 32,
    ensures
        r@ == b@,
{
    let mut r: [u8; 32] = [0; 32];
    let mut i: usize = 0;
    while i < 32
        invariant
            i <= 32,
            b@.len() == 32,
            forall|j: int| 0 <= j < i ==> r@[j] == b@[j],
        decreases 32 - i,
    {
        r[i] = b[i];
        i = i + 1;
    }
    assert(r@ =~= b@);
    r
}

/// Mints an invite dated `now` with the identifier `jti`.
pub fn mint_at(
    user_id: &str,
    device_id: &str,
    server_url: &str,
    signing_key_hex: &str,
    username: Option<&str>,
    ttl: u32,
    now: i64,
    jti: [u8; 16],
) -> (r: Result<Invite, InviteError>)
    ensures
        seen(r) == minted(
            user_id@,
            device_id@,
            server_url@,
            signing_key_hex@,
            opt_str(username),
            ttl,
            now,
            jti@,
        ),
        r matches Ok(i) ==> normal_form(i@) == i@ && (encode_error(i@) is None <==> fits_wire(
            i@,
        )),
{
    if ttl < MIN_TTL_SECONDS {
        return Err(InviteError::TtlBelowFloor(ttl));
    }
    let uuid = match uuid_parse(user_id) {
        Ok(b) => {
            let text = uuid_to_string(b);
            proof {
                lemma_uuid_round_trip(b@);
            }
            to_lowercase(text.as_str())
        },
        Err(e) => return Err(InviteError::UserId(e)),
    };
    let device = to_lowercase(device_id);
    if !(device.as_str().unicode_len() == 32 && is_hex(device.as_str())) {
        return Err(InviteError::DeviceId);
    }
    let un = match non_blank(username) {
        Some(s) => Some(s.to_string()),
        None => None,
    };
    let mut invite = Invite {
        v: CURRENT_VERSION,
        jti: uuid_to_string(jti),
        uuid,
        device_id: device,
        server: normalize_server(server_url),
        eph_key: String::new(),
        ts: now,
        sig: String::new(),
        un,
        ttl: Some(ttl),
    };
    let ghost unsigned = unsigned_invite(
        user_id@,
        device_id@,
        server_url@,
        opt_str(username),
        ttl,
        now,
        jti@,
    );
    assert(invite@ =~= unsigned);
    let message = match invite.canonical_string() {
        Ok(s) => s,
        Err(e) => return Err(e),
    };
    let key = match hex_decode(signing_key_hex) {
        Ok(b) => b,
        Err(e) => return Err(InviteError::SigningKeyHex(e)),
    };
    if key.len() != 32 {
        return Err(InviteError::SigningKeyLength);
    }
    let key = array32(key.as_slice());
    let sig = sign(&key, message.as_str().as_bytes());
    if let Err(e) = verify(&public_key(&key), message.as_str().as_bytes(), &sig) {
        return Err(InviteError::SelfVerify(e));
    }
    invite.sig = base64_encode(Base64::Standard, &sig);
    proof {
        lemma_minted_is_normal(
            user_id@,
            device_id@,
            server_url@,
            signing_key_hex@,
            opt_str(username),
            ttl,
            now,
            jti@,
        );
        crate::encoding::lemma_base64_round_trip(Base64::Standard, sig@);
        if let Some(un) = opt_str(username) {
            lemma_trimmed_twice(un);
        }
    }
    Ok(invite)
}

/// Mints an invite now, with a fresh random identifier.
pub fn mint(
    user_id: &str,
    device_id: &str,
    server_url: &str,
    signing_key_hex: &str,
    username: Option<&str>,
    ttl: u32,
) -> (r: Result<Invite, InviteError>)
    ensures
        exists|now: i64, jti: Seq<u8>|
            random_uuid(jti) && seen(r) == #[trigger] minted(
                user_id@,
                device_id@,
                server_url@,
                signing_key_hex@,
                opt_str(username),
                ttl,
                now,
                jti,
            ),
        r matches Ok(i) ==> normal_form(i@) == i@ && (encode_error(i@) is None <==> fits_wire(
            i@,
        )),
{
    mint_at(
        user_id,
        device_id,
        server_url,
        signing_key_hex,
        username,
        ttl,
        now_unix(),
        uuid_new_v4(),
    )
}

/// Mints an invite for a QR code, as a link that opens in a browser or in the app. A link comes
/// out of a minted invite exactly where that has a binary form.
pub fn generate_invite_qr(
    user_id: &str,
    device_id: &str,
    server_url: &str,
    signing_key_hex: &str,
) -> (r: Result<String, InviteError>)
    ensures
        exists|now: i64, jti: Seq<u8>|
            random_uuid(jti) && seen(r) == (match #[trigger] minted(
                user_id@,
                device_id@,
                server_url@,
                signing_key_hex@,
                None,
                QR_TTL_SECONDS,
                now,
                jti,
            ) {
                Ok(i) => link(HTTPS_ADD@, i),
                Err(e) => Err(e),
            }) && (minted(
                user_id@,
                device_id@,
                server_url@,
                signing_key_hex@,
                None,
                QR_TTL_SECONDS,
                now,
                jti,
            ) matches Ok(i) ==> (r is Ok <==> fits_wire(i))),
{
    match mint(user_id, device_id, server_url, signing_key_hex, None, QR_TTL_SECONDS) {
        Ok(invite) => invite.https_link(),
        Err(e) => Err(e),
    }
}

// ── Laws ──────────────────────────────────────────────────────────────────────

/// What of an invite survives on the wire: identifiers in their usual notation, the username
/// trimmed, and no field that its version does not carry.
pub open spec fn normal_form(i: InviteView) -> InviteView {
    InviteView {
        jti: uuid_text(uuid_parsed(i.jti)->0),
        uuid: uuid_text(uuid_parsed(i.uuid)->0),
        device_id: hex_encoded(hex_decoded(i.device_id)->0),
        eph_key: if i.v <= 3 {
            i.eph_key
        } else {
            Seq::empty()
        },
        un: wire_username(i.un),
        ttl: if i.v >= 5 {
            i.ttl
        } else {
            None
        },
        ..i
    }
}

/// What a reader at the time `now` asks of the date and the TTL.
pub open spec fn timely(i: InviteView, now: i64) -> bool {
    &&& 0 < i.ts <= now + MAX_FUTURE_SKEW
    &&& i.v >= 5 ==> (i.ttl matches Some(t) && t >= MIN_TTL_SECONDS)
}

/// The bytes that a Base64 text stands for encode to that text.
proof fn lemma_decoded_base64(kind: Base64, s: Seq<char>)
    requires
        base64_decoded(kind, s) is Some,
    ensures
        base64_encoded(kind, base64_decoded(kind, s)->0) == s,
{
}

/// What a reader at the time `now` makes of the binary form of an invite: the invite in its
/// normal form, unless the date or the TTL is refused.
pub open spec fn read_back(i: InviteView, now: i64) -> Result<InviteView, InviteErrorView> {
    if !(0 < i.ts <= now + MAX_FUTURE_SKEW) {
        Err(InviteError::InvalidTimestamp)
    } else if i.v >= 5 && i.ttl->0 < MIN_TTL_SECONDS {
        Err(InviteError::TtlBelowFloor(i.ttl->0))
    } else {
        Ok(normal_form(i))
    }
}

/// Reading the binary form of an invite gives the invite back in its normal form, or refuses it
/// for its date or its TTL.
pub proof fn law_decode_undoes_encode(i: InviteView, now: i64)
    requires
        encode_error(i) is None,
    ensures
        decoded(wire(i), now) == read_back(i, now),
        timely(i, now) ==> read_back(i, now) == Ok::<InviteView, InviteErrorView>(normal_form(i)),
{
    let d = wire(i);
    let jti = uuid_parsed(i.jti)->0;
    let uuid = uuid_parsed(i.uuid)->0;
    let device = hex_decoded(i.device_id)->0;
    let eph = base64_decoded(Base64::Standard, i.eph_key)->0;
    let sig = base64_decoded(Base64::Standard, i.sig)->0;
    let head = wire_head(i);
    let at = ts_offset(i.v);
    crate::encoding::lemma_uuid_parsed_len(i.jti);
    crate::encoding::lemma_uuid_parsed_len(i.uuid);
    crate::encoding::lemma_be_bytes_len(i.ts as nat, 8);
    crate::encoding::lemma_base256();
    crate::encoding::lemma_be_round_trip(i.ts as nat, 8);
    assert(head.len() == at + 72);
    assert(d.take(4) =~= MAGIC@);
    assert(d[4] == head[4] && d[5] == head[5]);
    assert(d[5] == i.v);
    assert(d.subrange(6, 22) =~= jti);
    assert(d.subrange(22, 38) =~= uuid);
    assert(d.subrange(38, 54) =~= device);
    if i.v <= 3 {
        assert(d.subrange(54, 86) =~= eph);
        lemma_decoded_base64(Base64::Standard, i.eph_key);
    }
    assert(d.subrange(at, at + 8) =~= be_bytes(i.ts as nat, 8));
    assert(d.subrange(at + 8, at + 72) =~= sig);
    lemma_decoded_base64(Base64::Standard, i.sig);
    let server = encode_utf8(i.server);
    let from = at + 73;
    let server_end = from + server.len();
    assert(d[at + 72] == server.len() as u8) by {
        assert(d[at + 72] == wire_tail(i)[0]);
        assert(wire_tail(i)[0] == short_text(i.server)[0]);
    }
    assert(d.subrange(from, server_end) =~= server) by {
        assert(d.subrange(from, server_end) =~= wire_tail(i).subrange(1, 1 + server.len() as int));
    }
    vstd::utf8::encode_utf8_valid_utf8(i.server);
    vstd::utf8::encode_utf8_decode_utf8(i.server);
    let end = match wire_username(i.un) {
        Some(un) => {
            let u = encode_utf8(un);
            let tail = wire_tail(i);
            assert(d[server_end] == u.len() as u8) by {
                assert(d[server_end] == tail[1 + server.len() as int]);
            }
            assert(d.subrange(server_end + 1, server_end + 1 + u.len()) =~= u) by {
                assert(d.subrange(server_end + 1, server_end + 1 + u.len()) =~= tail.subrange(
                    2 + server.len() as int,
                    2 + server.len() + u.len() as int,
                ));
            }
            vstd::utf8::encode_utf8_valid_utf8(un);
            vstd::utf8::encode_utf8_decode_utf8(un);
            server_end + 1 + u.len()
        },
        None => server_end,
    };
    if i.v >= 5 {
        let ttl = i.ttl->0 as nat;
        crate::encoding::lemma_be_bytes_len(ttl, 4);
        crate::encoding::lemma_be_round_trip(ttl, 4);
        assert(d.subrange(end, end + 4) =~= be_bytes(ttl, 4));
    }
    assert(decoded(d, now) == decoded_end(d, server_end, wire_username(i.un), end, now));
    if read_back(i, now) is Ok {
        assert(decoded_end(d, server_end, wire_username(i.un), end, now)->Ok_0 =~= normal_form(i));
    }
}

/// A text that carries the bytes `b`: a link of either kind, perhaps with further parameters, or
/// the payload alone. There may be white space around the text and around the payload.
pub open spec fn carries(
    raw: Seq<char>,
    prefix: Seq<char>,
    payload: Seq<char>,
    more: Seq<char>,
    b: Seq<u8>,
) -> bool {
    &&& trimmed(raw) == prefix + payload + more
    &&& trimmed(payload) == base64_encoded(Base64::UrlSafeNoPad, b)
    &&& if prefix.len() == 0 {
        more.len() == 0
    } else {
        &&& prefix == HTTPS_ADD@ || prefix == SCHEME_ADD@
        &&& !occurs(payload, "&"@)
        &&& more.len() == 0 || more[0] == '&'
    }
}

proof fn lemma_parameter(s: Seq<char>, prefix: Seq<char>, payload: Seq<char>, more: Seq<char>)
    requires
        prefix == HTTPS_ADD@ || prefix == SCHEME_ADD@,
        s == prefix + payload + more,
        !occurs(payload, "&"@),
        more.len() == 0 || more[0] == '&',
    ensures
        invite_param(s) == Some(payload),
        occurs(s, "invite="@),
{
    reveal_strlit("https://konstruct.cc/add?invite=");
    reveal_strlit("konstruct://add?invite=");
    reveal_strlit("invite=");
    reveal_strlit("&");
    let key = "invite="@;
    let at = prefix.len() - 7;
    assert(s.subrange(at, at + 7) =~= key);
    assert(crate::text::occurs_at(s, key, at));
    assert forall|j: int| 0 <= j < at implies !crate::text::occurs_at(s, key, j) by {
        if crate::text::occurs_at(s, key, j) {
            assert(s.subrange(j, j + 7)[0] == key[0]);
            assert(s[j] == prefix[j]);
            assert(prefix[j] != 'i');
        }
    }
    lemma_first_occurrence(s, key, at);
    let rest = payload + more;
    assert(s.skip(at + 7) =~= rest);
    let n = payload.len() as int;
    assert forall|j: int| 0 <= j < n implies !crate::text::occurs_at(rest, "&"@, j) by {
        if crate::text::occurs_at(rest, "&"@, j) {
            assert(rest.subrange(j, j + 1) =~= payload.subrange(j, j + 1));
            assert(crate::text::occurs_at(payload, "&"@, j));
        }
    }
    if more.len() > 0 {
        assert(rest.subrange(n, n + 1) =~= "&"@);
        assert(crate::text::occurs_at(rest, "&"@, n));
        lemma_first_occurrence(rest, "&"@, n);
        assert(rest.take(n) =~= payload);
    } else {
        assert(rest =~= payload);
    }
}

/// The bytes behind a text are those that it was made of.
proof fn lemma_payload(
    raw: Seq<char>,
    prefix: Seq<char>,
    payload: Seq<char>,
    more: Seq<char>,
    b: Seq<u8>,
)
    requires
        carries(raw, prefix, payload, more, b),
    ensures
        payload_bytes(raw) == Some(b),
        prefix.len() > 0 ==> occurs(trimmed(raw), "invite="@),
        prefix.len() == 0 ==> trimmed(raw) == base64_encoded(Base64::UrlSafeNoPad, b),
{
    let e = base64_encoded(Base64::UrlSafeNoPad, b);
    let s = trimmed(raw);
    crate::encoding::lemma_base64_chars(Base64::UrlSafeNoPad, b);
    crate::encoding::lemma_base64_round_trip(Base64::UrlSafeNoPad, b);
    if prefix.len() > 0 {
        lemma_parameter(s, prefix, payload, more);
    } else {
        reveal_strlit("invite=");
        assert(s =~= payload);
        lemma_trimmed_twice(raw);
        lemma_trimmed_twice(payload);
        if occurs(s, "invite="@) {
            let j = choose|j: int| crate::text::occurs_at(s, "invite="@, j);
            assert(s.subrange(j, j + 7)[6] == "invite="@[6]);
            assert(e[j + 6] == '=');
        }
    }
}

/// A text has at least as many bytes as characters.
proof fn lemma_utf8_len(s: Seq<char>)
    ensures
        encode_utf8(s).len() >= s.len(),
    decreases s.len(),
{
    if s.len() > 0 {
        lemma_utf8_len(s.drop_first());
    }
}

/// An invite that was made into a link, or into a bare payload, is read back from it in its
/// normal form, or refused for its date or its TTL. What else stands in the link does not matter,
/// nor does white space around it. The text looks like an invite.
pub proof fn law_parse_undoes_link(
    raw: Seq<char>,
    prefix: Seq<char>,
    payload: Seq<char>,
    more: Seq<char>,
    i: InviteView,
    now: i64,
    legacy: Option<InviteView>,
)
    requires
        encode_error(i) is None,
        carries(raw, prefix, payload, more, wire(i)),
    ensures
        parsed(raw, now, legacy) == read_back(i, now),
        looks_like(raw),
{
    let b = wire(i);
    assert(MAGIC@.is_prefix_of(b)) by {
        assert(b.subrange(0, 4) =~= MAGIC@);
    }
    lemma_payload(raw, prefix, payload, more, b);
    law_decode_undoes_encode(i, now);
    if prefix.len() == 0 {
        crate::encoding::lemma_uuid_parsed_len(i.jti);
        crate::encoding::lemma_uuid_parsed_len(i.uuid);
        crate::encoding::lemma_be_bytes_len(i.ts as nat, 8);
        crate::encoding::lemma_base64_chars(Base64::UrlSafeNoPad, b);
        crate::encoding::lemma_base64_round_trip(Base64::UrlSafeNoPad, b);
        lemma_utf8_len(trimmed(raw));
        assert(wire_head(i).len() > 40);
    }
}

/// A link carries the invite that it was made of.
pub proof fn law_links_carry_the_invite(prefix: Seq<char>, i: InviteView)
    requires
        prefix == HTTPS_ADD@ || prefix == SCHEME_ADD@,
        encode_error(i) is None,
    ensures
        link(prefix, i) matches Ok(raw) && carries(
            raw,
            prefix,
            base64_encoded(Base64::UrlSafeNoPad, wire(i)),
            Seq::empty(),
            wire(i),
        ),
{
    reveal_strlit("https://konstruct.cc/add?invite=");
    reveal_strlit("konstruct://add?invite=");
    reveal_strlit("&");
    let e = base64_encoded(Base64::UrlSafeNoPad, wire(i));
    crate::encoding::lemma_base64_chars(Base64::UrlSafeNoPad, wire(i));
    assert(wire(i)[0] == MAGIC@[0]);
    assert(wire(i).len() > 0);
    lemma_trimmed_fixed(e);
    let raw = prefix + e;
    assert(raw =~= prefix + e + Seq::empty());
    assert(raw.last() == e.last());
    lemma_trimmed_fixed(raw);
    if occurs(e, "&"@) {
        let j = choose|j: int| crate::text::occurs_at(e, "&"@, j);
        assert(e.subrange(j, j + 1)[0] == "&"@[0]);
        assert(e[j] == '&');
    }
}

/// A minted invite is signed: its signature is one of the minting key over its own signed
/// text.
pub proof fn law_minted_is_signed(
    user_id: Seq<char>,
    device_id: Seq<char>,
    server_url: Seq<char>,
    signing_key_hex: Seq<char>,
    username: Option<Seq<char>>,
    ttl: u32,
    now: i64,
    jti: Seq<u8>,
)
    requires
        minted(user_id, device_id, server_url, signing_key_hex, username, ttl, now, jti) is Ok,
    ensures
        ({
            let i = minted(
                user_id,
                device_id,
                server_url,
                signing_key_hex,
                username,
                ttl,
                now,
                jti,
            )->Ok_0;
            let key = hex_decoded(signing_key_hex)->0;
            &&& canonical(i) is Ok
            &&& base64_decoded(Base64::Standard, i.sig) matches Some(sig) && ed25519_verifies(
                ed25519_public_key(key),
                encode_utf8(canonical(i)->Ok_0),
                sig,
            )
        }),
{
    let key = hex_decoded(signing_key_hex)->0;
    let unsigned = unsigned_invite(user_id, device_id, server_url, username, ttl, now, jti);
    let sig = ed25519_signature(key, encode_utf8(canonical(unsigned)->Ok_0));
    crate::encoding::lemma_base64_round_trip(Base64::Standard, sig);
}

/// A minted invite is in its normal form.
proof fn lemma_minted_is_normal(
    user_id: Seq<char>,
    device_id: Seq<char>,
    server_url: Seq<char>,
    signing_key_hex: Seq<char>,
    username: Option<Seq<char>>,
    ttl: u32,
    now: i64,
    jti: Seq<u8>,
)
    requires
        jti.len() == 16,
        minted(user_id, device_id, server_url, signing_key_hex, username, ttl, now, jti) is Ok,
        forall|k: int|
            0 <= k < lowercased(device_id).len() ==> !('A' <= #[trigger] lowercased(
                device_id,
            )[k] <= 'Z'),
    ensures
        ({
            let i = minted(
                user_id,
                device_id,
                server_url,
                signing_key_hex,
                username,
                ttl,
                now,
                jti,
            )->Ok_0;
            &&& normal_form(i) == i
            &&& uuid_parsed(i.jti) is Some
            &&& uuid_parsed(i.uuid) is Some
            &&& hex_decoded(i.device_id) matches Some(b) && b.len() == 16
        }),
{
    let i = minted(user_id, device_id, server_url, signing_key_hex, username, ttl, now, jti)->Ok_0;
    lemma_uuid_round_trip(jti);
    lemma_uuid_round_trip(uuid_parsed(user_id)->0);
    crate::encoding::lemma_hex_encode_decoded(lowercased(device_id));
    if let Some(un) = username {
        lemma_trimmed_twice(un);
    }
    assert(normal_form(i) =~= i);
}

/// Once an invite has expired it stays expired. It has not expired while its TTL lasts, it has
/// expired when that is over, and no invite outlasts the lifetime of a link.
pub proof fn law_expiry_is_final(i: InviteView, now: i64, later: i64)
    requires
        now <= later,
    ensures
        expired(i, now) ==> expired(i, later),
        i.ttl matches Some(ttl) ==> {
            &&& ttl <= LINK_TTL_SECONDS && now <= i.ts + ttl ==> !expired(i, now)
            &&& now > i.ts + ttl ==> expired(i, now)
        },
        now > i.ts + LINK_TTL_SECONDS ==> expired(i, now),
{
}

} // verus!
