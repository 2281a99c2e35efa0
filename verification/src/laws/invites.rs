//! What an invite promises: what is signed, what stands on the wire, who reads it and until when.

use crate::encoding::{
    all_hex, base64_decoded, base64_encoded, be_bytes, be_value, hex_decoded, hex_encoded,
    uuid_parsed, uuid_text, Base64,
};
use crate::invite::{
    canonical, decoded, encode_error, error_text, expired, generate_invite_qr, link, looks_like,
    minted, normal_form, normalized_server, parsed, payload_bytes, piped, seen, wire, wire_head,
    wire_tail, wire_username, InviteError, InviteErrorView, InviteView, HTTPS_ADD, MAGIC,
    SCHEME_ADD,
};
use crate::signing::{ed25519_public_key, ed25519_signature, ed25519_verifies};
use crate::text::{
    decimal, lowercased, occurs, occurs_at, signed_decimal, trimmed, without_prefixes,
    without_trailing,
};
use vstd::prelude::*;
use vstd::utf8::{decode_utf8, encode_utf8};

verus! {

// ── What is signed ────────────────────────────────────────────────────────────

/// The user name of an invite, empty where there is none.
pub open spec fn name_or_empty(i: InviteView) -> Seq<char> {
    match i.un {
        Some(un) => un,
        None => Seq::empty(),
    }
}

/// The signed text of a version 5 invite with a TTL, whether it has a user name or not, is its
/// version, its two ids in lower case, device, server, date, user name and TTL, with bars between
/// them. Without a TTL there is none.
pub proof fn law_version_5_signs_the_ttl(i: InviteView)
    requires
        i.v == 5,
    ensures
        i.ttl matches Some(ttl) ==> canonical(i) == Ok::<Seq<char>, InviteErrorView>(
            "5|"@ + lowercased(i.jti) + "|"@ + lowercased(i.uuid) + "|"@ + i.device_id + "|"@
                + i.server + "|"@ + signed_decimal(i.ts as int) + "|"@ + name_or_empty(i) + "|"@
                + decimal(ttl as nat),
        ),
        i.ttl is None ==> canonical(i) == Err::<Seq<char>, InviteErrorView>(
            InviteError::MissingTtl,
        ),
{
    if let Some(ttl) = i.ttl {
        lemma_bars();
        let f = seq![
            decimal(5),
            lowercased(i.jti),
            lowercased(i.uuid),
            i.device_id,
            i.server,
            signed_decimal(i.ts as int),
            name_or_empty(i),
            decimal(ttl as nat),
        ];
        lemma_piped(f);
        assert(canonical(i)->Ok_0 =~= "5|"@ + lowercased(i.jti) + "|"@ + lowercased(i.uuid) + "|"@
            + i.device_id + "|"@ + i.server + "|"@ + signed_decimal(i.ts as int) + "|"@
            + name_or_empty(i) + "|"@ + decimal(ttl as nat));
    }
}

proof fn lemma_bars()
    ensures
        "|"@ == seq!['|'],
        "1|"@ == decimal(1) + seq!['|'],
        "2|"@ == decimal(2) + seq!['|'],
        "3|"@ == decimal(3) + seq!['|'],
        "4|"@ == decimal(4) + seq!['|'],
        "5|"@ == decimal(5) + seq!['|'],
{
    reveal_strlit("|");
    reveal_strlit("1|");
    reveal_strlit("2|");
    reveal_strlit("3|");
    reveal_strlit("4|");
    reveal_strlit("5|");
    assert("|"@ =~= seq!['|']);
    assert("1|"@ =~= decimal(1) + seq!['|']);
    assert("2|"@ =~= decimal(2) + seq!['|']);
    assert("3|"@ =~= decimal(3) + seq!['|']);
    assert("4|"@ =~= decimal(4) + seq!['|']);
    assert("5|"@ =~= decimal(5) + seq!['|']);
}

/// Six to eight fields with bars between them.
proof fn lemma_piped(f: Seq<Seq<char>>)
    requires
        6 <= f.len() <= 8,
    ensures
        ({
            let six = f[0] + seq!['|'] + f[1] + seq!['|'] + f[2] + seq!['|'] + f[3] + seq!['|']
                + f[4] + seq!['|'] + f[5];
            &&& f.len() == 6 ==> piped(f) == six
            &&& f.len() == 7 ==> piped(f) == six + seq!['|'] + f[6]
            &&& f.len() == 8 ==> piped(f) == six + seq!['|'] + f[6] + seq!['|'] + f[7]
        }),
{
    reveal_with_fuel(piped, 9);
    let g = f.take(6);
    let g5 = g.drop_last();
    let g4 = g5.drop_last();
    let g3 = g4.drop_last();
    let g2 = g3.drop_last();
    assert(piped(g2.drop_last()) == f[0]);
    assert(piped(g2) == f[0] + seq!['|'] + f[1]);
    assert(piped(g3) == piped(g2) + seq!['|'] + f[2]);
    assert(piped(g4) == piped(g3) + seq!['|'] + f[3]);
    assert(piped(g5) == piped(g4) + seq!['|'] + f[4]);
    assert(piped(g) == piped(g5) + seq!['|'] + f[5]);
    if f.len() == 6 {
        assert(g =~= f);
    } else if f.len() == 7 {
        assert(f.drop_last() =~= g);
    } else {
        assert(f.drop_last().drop_last() =~= g);
        assert(f.drop_last().last() == f[6]);
    }
}

/// The signed texts of the older versions: each names its version first and the date, the first
/// three cover the ephemeral key, the second and later the device, the third and fourth the user
/// name. Any other version has none.
pub proof fn law_older_versions_sign_their_fields(i: InviteView)
    ensures
        ({
            let ids = lowercased(i.jti) + "|"@ + lowercased(i.uuid) + "|"@;
            let ts = signed_decimal(i.ts as int);
            &&& i.v == 1 ==> canonical(i) == Ok::<Seq<char>, InviteErrorView>(
                "1|"@ + ids + i.server + "|"@ + i.eph_key + "|"@ + ts,
            )
            &&& i.v == 2 ==> canonical(i) == Ok::<Seq<char>, InviteErrorView>(
                "2|"@ + ids + i.device_id + "|"@ + i.server + "|"@ + i.eph_key + "|"@ + ts,
            )
            &&& i.v == 3 ==> canonical(i) == Ok::<Seq<char>, InviteErrorView>(
                "3|"@ + ids + i.device_id + "|"@ + i.server + "|"@ + i.eph_key + "|"@ + ts + "|"@
                    + name_or_empty(i),
            )
            &&& i.v == 4 ==> canonical(i) == Ok::<Seq<char>, InviteErrorView>(
                "4|"@ + ids + i.device_id + "|"@ + i.server + "|"@ + ts + "|"@ + name_or_empty(i),
            )
            &&& i.v == 0 || i.v > 5 ==> canonical(i) == Err::<Seq<char>, InviteErrorView>(
                InviteError::UnsupportedVersion(i.v),
            )
        }),
{
    lemma_bars();
    let jti = lowercased(i.jti);
    let uuid = lowercased(i.uuid);
    let ids = jti + "|"@ + uuid + "|"@;
    let ts = signed_decimal(i.ts as int);
    let un = name_or_empty(i);
    if i.v == 1 {
        lemma_piped(seq![decimal(1), jti, uuid, i.server, i.eph_key, ts]);
        assert(canonical(i)->Ok_0 =~= "1|"@ + ids + i.server + "|"@ + i.eph_key + "|"@ + ts);
    } else if i.v == 2 {
        lemma_piped(seq![decimal(2), jti, uuid, i.device_id, i.server, i.eph_key, ts]);
        assert(canonical(i)->Ok_0 =~= "2|"@ + ids + i.device_id + "|"@ + i.server + "|"@ + i.eph_key
            + "|"@ + ts);
    } else if i.v == 3 {
        lemma_piped(seq![decimal(3), jti, uuid, i.device_id, i.server, i.eph_key, ts, un]);
        assert(canonical(i)->Ok_0 =~= "3|"@ + ids + i.device_id + "|"@ + i.server + "|"@ + i.eph_key
            + "|"@ + ts + "|"@ + un);
    } else if i.v == 4 {
        lemma_piped(seq![decimal(4), jti, uuid, i.device_id, i.server, ts, un]);
        assert(canonical(i)->Ok_0 =~= "4|"@ + ids + i.device_id + "|"@ + i.server + "|"@ + ts + "|"@
            + un);
    }
}

/// The signature binds the lifetime: invites that differ only in their TTL have different signed
/// texts.
pub proof fn law_the_signature_binds_the_lifetime(i: InviteView, other: u32)
    requires
        i.v == 5,
        i.ttl is Some,
        i.ttl != Some(other),
    ensures
        canonical(InviteView { ttl: Some(other), ..i }) != canonical(i),
{
    let j = InviteView { ttl: Some(other), ..i };
    law_version_5_signs_the_ttl(i);
    law_version_5_signs_the_ttl(j);
    let head = "5|"@ + lowercased(i.jti) + "|"@ + lowercased(i.uuid) + "|"@ + i.device_id + "|"@
        + i.server + "|"@ + signed_decimal(i.ts as int) + "|"@ + name_or_empty(i) + "|"@;
    let a = decimal(i.ttl->0 as nat);
    let b = decimal(other as nat);
    crate::laws::numbers::law_decimals_differ(i.ttl->0 as int, other as int);
    if head + a == head + b {
        assert(head + a + Seq::empty() =~= head + b + Seq::empty());
        lemma_same_tail(head, a, b, Seq::empty());
    }
}

/// It binds the date.
pub proof fn law_the_signature_binds_the_date(i: InviteView, other: i64)
    requires
        i.v == 5,
        i.ttl is Some,
        i.ts != other,
    ensures
        canonical(InviteView { ts: other, ..i }) != canonical(i),
{
    let j = InviteView { ts: other, ..i };
    law_version_5_signs_the_ttl(i);
    law_version_5_signs_the_ttl(j);
    let head = "5|"@ + lowercased(i.jti) + "|"@ + lowercased(i.uuid) + "|"@ + i.device_id + "|"@
        + i.server + "|"@;
    let tail = "|"@ + name_or_empty(i) + "|"@ + decimal(i.ttl->0 as nat);
    let a = signed_decimal(i.ts as int);
    let b = signed_decimal(other as int);
    crate::laws::numbers::law_decimals_differ(i.ts as int, other as int);
    assert(canonical(i)->Ok_0 =~= head + a + tail);
    assert(canonical(j)->Ok_0 =~= head + b + tail);
    if head + a + tail == head + b + tail {
        lemma_same_tail(head, a, b, tail);
    }
}

/// It binds the server.
pub proof fn law_the_signature_binds_the_server(i: InviteView, other: Seq<char>)
    requires
        i.v == 5,
        i.ttl is Some,
        i.server != other,
    ensures
        canonical(InviteView { server: other, ..i }) != canonical(i),
{
    let j = InviteView { server: other, ..i };
    law_version_5_signs_the_ttl(i);
    law_version_5_signs_the_ttl(j);
    let head = "5|"@ + lowercased(i.jti) + "|"@ + lowercased(i.uuid) + "|"@ + i.device_id + "|"@;
    let tail = "|"@ + signed_decimal(i.ts as int) + "|"@ + name_or_empty(i) + "|"@ + decimal(
        i.ttl->0 as nat,
    );
    assert(canonical(i)->Ok_0 =~= head + i.server + tail);
    assert(canonical(j)->Ok_0 =~= head + other + tail);
    if head + i.server + tail == head + other + tail {
        lemma_same_tail(head, i.server, other, tail);
    }
}

/// It binds the device.
pub proof fn law_the_signature_binds_the_device(i: InviteView, other: Seq<char>)
    requires
        i.v == 5,
        i.ttl is Some,
        i.device_id != other,
    ensures
        canonical(InviteView { device_id: other, ..i }) != canonical(i),
{
    let j = InviteView { device_id: other, ..i };
    law_version_5_signs_the_ttl(i);
    law_version_5_signs_the_ttl(j);
    let head = "5|"@ + lowercased(i.jti) + "|"@ + lowercased(i.uuid) + "|"@;
    let tail = "|"@ + i.server + "|"@ + signed_decimal(i.ts as int) + "|"@ + name_or_empty(i) + "|"@
        + decimal(i.ttl->0 as nat);
    assert(canonical(i)->Ok_0 =~= head + i.device_id + tail);
    assert(canonical(j)->Ok_0 =~= head + other + tail);
    if head + i.device_id + tail == head + other + tail {
        lemma_same_tail(head, i.device_id, other, tail);
    }
}

/// It binds the user name; none is the same as an empty one.
pub proof fn law_the_signature_binds_the_name(i: InviteView, other: Option<Seq<char>>)
    requires
        i.v == 5,
        i.ttl is Some,
        name_or_empty(i) != name_or_empty(InviteView { un: other, ..i }),
    ensures
        canonical(InviteView { un: other, ..i }) != canonical(i),
{
    let j = InviteView { un: other, ..i };
    law_version_5_signs_the_ttl(i);
    law_version_5_signs_the_ttl(j);
    let head = "5|"@ + lowercased(i.jti) + "|"@ + lowercased(i.uuid) + "|"@ + i.device_id + "|"@
        + i.server + "|"@ + signed_decimal(i.ts as int) + "|"@;
    let tail = "|"@ + decimal(i.ttl->0 as nat);
    assert(canonical(i)->Ok_0 =~= head + name_or_empty(i) + tail);
    assert(canonical(j)->Ok_0 =~= head + name_or_empty(j) + tail);
    if head + name_or_empty(i) + tail == head + name_or_empty(j) + tail {
        lemma_same_tail(head, name_or_empty(i), name_or_empty(j), tail);
    }
}

proof fn lemma_same_tail(head: Seq<char>, a: Seq<char>, b: Seq<char>, tail: Seq<char>)
    requires
        head + a + tail == head + b + tail,
    ensures
        a == b,
{
    let s = head + a + tail;
    let t = head + b + tail;
    assert(s.len() == t.len());
    assert(a =~= s.subrange(head.len() as int, (head.len() + a.len()) as int));
    assert(b =~= t.subrange(head.len() as int, (head.len() + b.len()) as int));
}

/// The signature itself is not signed, and neither is the ephemeral key of an invite that has
/// none.
pub proof fn law_the_signature_is_not_signed(i: InviteView, sig: Seq<char>, eph_key: Seq<char>)
    ensures
        canonical(InviteView { sig, ..i }) == canonical(i),
        i.v >= 4 ==> canonical(InviteView { eph_key, ..i }) == canonical(i),
{
}

// ── Minting ───────────────────────────────────────────────────────────────────

/// What is minted says who minted it, on which device and server, when and for how long: a version
/// 5 invite with the ids and the TTL that were given, dated now, signed with the key that was
/// given over its own signed text.
pub proof fn law_a_minted_invite_says_who_and_when(
    user_id: Seq<char>,
    device_id: Seq<char>,
    server_url: Seq<char>,
    signing_key_hex: Seq<char>,
    username: Option<Seq<char>>,
    ttl: u32,
    now: i64,
    jti: Seq<u8>,
)
    requires
        jti.len() == 16,
        minted(user_id, device_id, server_url, signing_key_hex, username, ttl, now, jti) is Ok,
    ensures
        ({
            let i = minted(
                user_id,
                device_id,
                server_url,
                signing_key_hex,
                username,
                ttl,
                now,
                jti,
            )->Ok_0;
            let key = hex_decoded(signing_key_hex)->0;
            &&& i.v == 5
            &&& uuid_parsed(i.jti) == Some(jti)
            &&& uuid_parsed(i.uuid) == uuid_parsed(user_id)
            &&& i.device_id == lowercased(device_id)
            &&& i.server == normalized_server(server_url)
            &&& i.ts == now
            &&& i.ttl == Some(ttl)
            &&& i.eph_key.len() == 0
            &&& i.un matches Some(un) ==> username is Some && un == trimmed(username->0) && un.len()
                > 0
            &&& i.un is None ==> (username matches Some(un) ==> trimmed(un).len() == 0)
            &&& canonical(i) matches Ok(text) && base64_decoded(Base64::Standard, i.sig) == Some(
                ed25519_signature(key, encode_utf8(text)),
            )
        }),
{
    let i = minted(
        user_id,
        device_id,
        server_url,
        signing_key_hex,
        username,
        ttl,
        now,
        jti,
    )->Ok_0;
    let key = hex_decoded(signing_key_hex)->0;
    crate::encoding::lemma_uuid_round_trip(jti);
    crate::encoding::lemma_uuid_round_trip(uuid_parsed(user_id)->0);
    let unsigned = InviteView { sig: Seq::empty(), ..i };
    law_the_signature_is_not_signed(unsigned, i.sig, Seq::empty());
    assert(unsigned =~= crate::invite::unsigned_invite(
        user_id,
        device_id,
        server_url,
        username,
        ttl,
        now,
        jti,
    ));
    crate::encoding::lemma_base64_round_trip(
        Base64::Standard,
        ed25519_signature(key, encode_utf8(canonical(unsigned)->Ok_0)),
    );
}

/// Minting fails for a TTL below a minute, a user id that is none, a device id that is not 32
/// hexadecimal digits, or a signing key that is not 32 bytes, and each is told; where nothing of
/// this holds, it fails only if the signature does not verify.
pub proof fn law_minting_refuses_what_it_cannot_sign(
    user_id: Seq<char>,
    device_id: Seq<char>,
    server_url: Seq<char>,
    signing_key_hex: Seq<char>,
    username: Option<Seq<char>>,
    ttl: u32,
    now: i64,
    jti: Seq<u8>,
)
    ensures
        ({
            let r = minted(
                user_id,
                device_id,
                server_url,
                signing_key_hex,
                username,
                ttl,
                now,
                jti,
            );
            let device = lowercased(device_id);
            let device_ok = device.len() == 32 && all_hex(device);
            let key = hex_decoded(signing_key_hex);
            &&& r matches Err(InviteError::TtlBelowFloor(t)) ==> t == ttl
            &&& (r is Err && r->Err_0 is TtlBelowFloor) <==> ttl < 60
            &&& (r is Err && r->Err_0 is UserId) <==> ttl >= 60 && uuid_parsed(user_id) is None
            &&& (r is Err && r->Err_0 is DeviceId) <==> ttl >= 60 && uuid_parsed(user_id) is Some
                && !device_ok
            &&& (r is Err && r->Err_0 is SigningKeyHex) <==> ttl >= 60 && uuid_parsed(user_id)
                is Some && device_ok && key is None
            &&& (r is Err && r->Err_0 is SigningKeyLength) <==> ttl >= 60 && uuid_parsed(user_id)
                is Some && device_ok && key is Some && key->0.len() != 32
            &&& ttl >= 60 && uuid_parsed(user_id) is Some && device_ok && key is Some
                && key->0.len() == 32 ==> r is Ok || r->Err_0 is SelfVerify
            &&& (forall|m: Seq<u8>|
                ed25519_verifies(
                    ed25519_public_key(key->0),
                    m,
                    #[trigger] ed25519_signature(key->0, m),
                )) && ttl >= 60 && uuid_parsed(user_id) is Some && device_ok && key is Some
                && key->0.len() == 32 ==> r is Ok
        }),
{
}

/// An invite for a QR code is a link with a version 5 invite that lasts five minutes and names
/// nobody but by their id.
pub proof fn law_a_qr_invite_lasts_five_minutes(
    user_id: &str,
    device_id: &str,
    server_url: &str,
    signing_key_hex: &str,
    r: Result<String, InviteError>,
)
    requires
        call_ensures(generate_invite_qr, (user_id, device_id, server_url, signing_key_hex), r),
        r is Ok,
    ensures
        exists|i: InviteView|
            {
                &&& r->Ok_0@ == "https://konstruct.cc/add?invite="@ + base64_encoded(
                    Base64::UrlSafeNoPad,
                    #[trigger] wire(i),
                )
                &&& encode_error(i) is None
                &&& i.v == 5
                &&& i.ttl == Some(300u32)
                &&& i.un is None
                &&& uuid_parsed(i.uuid) == uuid_parsed(user_id@)
                &&& i.device_id == lowercased(device_id@)
                &&& i.server == normalized_server(server_url@)
            },
{
    let (now, jti) = choose|now: i64, jti: Seq<u8>|
        crate::encoding::random_uuid(jti) && seen(r) == (match #[trigger] minted(
            user_id@,
            device_id@,
            server_url@,
            signing_key_hex@,
            None,
            300,
            now,
            jti,
        ) {
            Ok(i) => link(HTTPS_ADD@, i),
            Err(e) => Err(e),
        });
    let m = minted(user_id@, device_id@, server_url@, signing_key_hex@, None, 300, now, jti);
    let i = m->Ok_0;
    law_a_minted_invite_says_who_and_when(
        user_id@,
        device_id@,
        server_url@,
        signing_key_hex@,
        None,
        300,
        now,
        jti,
    );
    law_a_link_is_an_address_and_a_payload(i);
    assert(wire(i).len() >= 0);
}

// ── On the wire ───────────────────────────────────────────────────────────────

/// The binary form begins with "CIv1", whether there is a user name, and the version; then come
/// the two ids, the device, for versions up to 3 the ephemeral key, the date, the signature, and
/// the server with its length in front.
pub proof fn law_the_wire_has_its_layout(i: InviteView)
    requires
        encode_error(i) is None,
    ensures
        ({
            let d = wire(i);
            let at: int = if i.v <= 3 {
                86
            } else {
                54
            };
            let n = encode_utf8(i.server).len() as int;
            &&& d.len() >= at + 73 + n
            &&& d.take(4) == seq![0x43u8, 0x49, 0x76, 0x31]
            &&& d[4] == 0 || d[4] == 1
            &&& d[4] == 1 <==> (i.un matches Some(un) && trimmed(un).len() > 0)
            &&& d[5] == i.v
            &&& Some(d.subrange(6, 22)) == uuid_parsed(i.jti)
            &&& Some(d.subrange(22, 38)) == uuid_parsed(i.uuid)
            &&& Some(d.subrange(38, 54)) == hex_decoded(i.device_id)
            &&& i.v <= 3 ==> Some(d.subrange(54, 86)) == base64_decoded(
                Base64::Standard,
                i.eph_key,
            )
            &&& be_value(d.subrange(at, at + 8)) == i.ts
            &&& Some(d.subrange(at + 8, at + 72)) == base64_decoded(Base64::Standard, i.sig)
            &&& d[at + 72] == n
            &&& d.subrange(at + 73, at + 73 + n) == encode_utf8(i.server)
        }),
{
    let d = wire(i);
    let at: int = if i.v <= 3 {
        86
    } else {
        54
    };
    let server = encode_utf8(i.server);
    crate::encoding::lemma_uuid_parsed_len(i.jti);
    crate::encoding::lemma_uuid_parsed_len(i.uuid);
    crate::encoding::lemma_be_bytes_len(i.ts as nat, 8);
    crate::encoding::lemma_base256();
    crate::encoding::lemma_be_round_trip(i.ts as nat, 8);
    let head = wire_head(i);
    assert(head.len() == at + 72);
    assert(d.take(4) =~= seq![0x43u8, 0x49, 0x76, 0x31]);
    assert(d[4] == head[4] && d[5] == head[5]);
    assert(d.subrange(6, 22) =~= uuid_parsed(i.jti)->0);
    assert(d.subrange(22, 38) =~= uuid_parsed(i.uuid)->0);
    assert(d.subrange(38, 54) =~= hex_decoded(i.device_id)->0);
    if i.v <= 3 {
        assert(d.subrange(54, 86) =~= base64_decoded(Base64::Standard, i.eph_key)->0);
    }
    assert(d.subrange(at, at + 8) =~= be_bytes(i.ts as nat, 8));
    assert(d.subrange(at + 8, at + 72) =~= base64_decoded(Base64::Standard, i.sig)->0);
    assert(d[at + 72] == wire_tail(i)[0]);
    assert(wire_tail(i)[0] == crate::invite::short_text(i.server)[0]);
    assert(d.subrange(at + 73, at + 73 + server.len()) =~= wire_tail(i).subrange(
        1,
        1 + server.len() as int,
    ));
    assert(wire_tail(i).subrange(1, 1 + server.len() as int) =~= server);
}

/// After the server comes the user name, trimmed and with its length in front, if there is one,
/// and at the very end, from version 5 on, the TTL.
pub proof fn law_the_wire_ends_with_the_ttl(i: InviteView)
    requires
        encode_error(i) is None,
    ensures
        ({
            let d = wire(i);
            let at: int = if i.v <= 3 {
                86
            } else {
                54
            };
            let from = at + 73 + encode_utf8(i.server).len();
            let end = d.len() - (if i.v >= 5 {
                4int
            } else {
                0
            });
            &&& i.v >= 5 ==> (i.ttl matches Some(ttl) && be_value(d.skip(end)) == ttl)
            &&& d[4] == 0 ==> end == from
            &&& d[4] == 1 ==> {
                let un = encode_utf8(trimmed(i.un->0));
                &&& end == from + 1 + un.len()
                &&& d[from] == un.len()
                &&& d.subrange(from + 1, end) == un
            }
        }),
{
    let d = wire(i);
    law_the_wire_has_its_layout(i);
    let at: int = if i.v <= 3 {
        86
    } else {
        54
    };
    crate::encoding::lemma_uuid_parsed_len(i.jti);
    crate::encoding::lemma_uuid_parsed_len(i.uuid);
    crate::encoding::lemma_be_bytes_len(i.ts as nat, 8);
    assert(wire_head(i).len() == at + 72);
    let server = encode_utf8(i.server);
    let tail = wire_tail(i);
    if i.v >= 5 {
        let ttl = i.ttl->0 as nat;
        crate::encoding::lemma_be_bytes_len(ttl, 4);
        crate::encoding::lemma_base256();
        crate::encoding::lemma_be_round_trip(ttl, 4);
        assert(d.skip(d.len() - 4) =~= be_bytes(ttl, 4));
    }
    if let Some(un) = wire_username(i.un) {
        let u = encode_utf8(un);
        let from = at + 73 + server.len();
        assert(d[from] == tail[1 + server.len() as int]);
        assert(tail[1 + server.len() as int] == u.len());
        assert(d.subrange(from + 1, from + 1 + u.len()) =~= tail.subrange(
            2 + server.len() as int,
            2 + server.len() + u.len() as int,
        ));
        assert(tail.subrange(2 + server.len() as int, 2 + server.len() + u.len() as int) =~= u);
    }
}

/// What is read from the binary form stands where the layout says, and is dated: not before the
/// epoch, at most five minutes ahead, with a TTL of at least a minute.
pub proof fn law_reading_follows_the_layout(d: Seq<u8>, now: i64)
    requires
        decoded(d, now) is Ok,
    ensures
        ({
            let i = decoded(d, now)->Ok_0;
            let at: int = if i.v <= 3 {
                86
            } else {
                54
            };
            let from = at + 73;
            let end = d.len() - (if i.v >= 5 {
                4int
            } else {
                0
            });
            let server = d.subrange(from, from + d[from - 1]);
            &&& d.take(4) == seq![0x43u8, 0x49, 0x76, 0x31]
            &&& i.v == d[5]
            &&& i.jti == uuid_text(d.subrange(6, 22))
            &&& i.uuid == uuid_text(d.subrange(22, 38))
            &&& i.device_id == hex_encoded(d.subrange(38, 54))
            &&& i.v <= 3 ==> i.eph_key == base64_encoded(Base64::Standard, d.subrange(54, 86))
            &&& i.v > 3 ==> i.eph_key.len() == 0
            &&& i.ts == be_value(d.subrange(at, at + 8))
            &&& i.sig == base64_encoded(Base64::Standard, d.subrange(at + 8, at + 72))
            &&& i.server == decode_utf8(server)
            &&& i.v >= 5 ==> i.ttl == Some(be_value(d.skip(end)) as u32)
            &&& i.v < 5 ==> i.ttl is None
            &&& i.un is Some <==> d[4] % 2 == 1
            &&& i.un matches Some(un) ==> un == decode_utf8(
                d.subrange(from + d[from - 1] + 1, end),
            )
            &&& 0 < i.ts <= now + 300
            &&& i.ttl matches Some(ttl) ==> ttl >= 60
        }),
{
    let i = decoded(d, now)->Ok_0;
    let at: int = if d[5] <= 3 {
        86
    } else {
        54
    };
    assert(d.take(4) =~= seq![0x43u8, 0x49, 0x76, 0x31]);
    crate::encoding::lemma_be_bytes_of_value(d.subrange(at, at + 8));
    crate::encoding::lemma_base256();
    if d[5] >= 5 {
        let end = d.len() - 4;
        assert(d.skip(end) =~= d.subrange(end, end + 4));
    }
}

/// The binary form of an invite is read to its end: with anything behind it, it is refused.
pub proof fn law_nothing_may_follow_an_invite(i: InviteView, now: i64, more: Seq<u8>)
    requires
        encode_error(i) is None,
        more.len() > 0,
    ensures
        decoded(wire(i) + more, now) == Err::<InviteView, InviteErrorView>(
            InviteError::TrailingBytes,
        ),
{
    let d = wire(i);
    law_the_wire_has_its_layout(i);
    law_the_wire_ends_with_the_ttl(i);
    let at: int = if i.v <= 3 {
        86
    } else {
        54
    };
    let n = encode_utf8(i.server).len() as int;
    let from = at + 73;
    vstd::utf8::encode_utf8_valid_utf8(i.server);
    let e = d + more;
    assert(e.take(4) =~= d.take(4));
    assert(MAGIC@ =~= d.take(4));
    assert(e[4] == d[4] && e[5] == d[5] && e[at + 72] == d[at + 72]);
    assert(e.subrange(from, from + n) =~= d.subrange(from, from + n));
    if d[4] == 1 {
        let u = encode_utf8(trimmed(i.un->0));
        vstd::utf8::encode_utf8_valid_utf8(trimmed(i.un->0));
        assert(e[from + n] == d[from + n]);
        assert(e.subrange(from + n + 1, from + n + 1 + u.len()) =~= d.subrange(
            from + n + 1,
            from + n + 1 + u.len(),
        ));
    }
}

/// It is read whole: with any of its end missing, it is refused.
pub proof fn law_a_cut_invite_is_refused(i: InviteView, now: i64, k: int)
    requires
        encode_error(i) is None,
        0 <= k < wire(i).len(),
    ensures
        decoded(wire(i).take(k), now) == Err::<InviteView, InviteErrorView>(
            InviteError::Truncated,
        ),
{
    let d = wire(i);
    law_the_wire_has_its_layout(i);
    law_the_wire_ends_with_the_ttl(i);
    let at: int = if i.v <= 3 {
        86
    } else {
        54
    };
    let n = encode_utf8(i.server).len() as int;
    let from = at + 73;
    vstd::utf8::encode_utf8_valid_utf8(i.server);
    let e = d.take(k);
    if k >= 4 {
        assert(e.take(4) =~= d.take(4));
        assert(MAGIC@ =~= d.take(4));
    }
    if k >= 6 {
        assert(e[4] == d[4] && e[5] == d[5]);
    }
    if k >= from {
        assert(e[at + 72] == d[at + 72]);
    }
    if k >= from + n {
        assert(e.subrange(from, from + n) =~= d.subrange(from, from + n));
        if d[4] == 1 && k > from + n {
            let u = encode_utf8(trimmed(i.un->0));
            vstd::utf8::encode_utf8_valid_utf8(trimmed(i.un->0));
            assert(e[from + n] == d[from + n]);
            if k >= from + n + 1 + u.len() {
                assert(e.subrange(from + n + 1, from + n + 1 + u.len()) =~= d.subrange(
                    from + n + 1,
                    from + n + 1 + u.len(),
                ));
            }
        }
    }
}

/// Anything that does not begin with "CIv1" is no invite in the binary form.
pub proof fn law_other_bytes_are_no_invite(d: Seq<u8>, now: i64)
    ensures
        d.len() >= 4 && d.take(4) != seq![0x43u8, 0x49, 0x76, 0x31] ==> decoded(d, now) == Err::<
            InviteView,
            InviteErrorView,
        >(InviteError::BadMagic),
        d.len() < 4 ==> decoded(d, now) == Err::<InviteView, InviteErrorView>(
            InviteError::Truncated,
        ),
{
    assert(MAGIC@ =~= seq![0x43u8, 0x49, 0x76, 0x31]);
}

// ── Links ─────────────────────────────────────────────────────────────────────

/// A link is the address to add somebody at, followed by the binary form in URL-safe Base64.
pub proof fn law_a_link_is_an_address_and_a_payload(i: InviteView)
    ensures
        ({
            let payload = base64_encoded(Base64::UrlSafeNoPad, wire(i));
            &&& encode_error(i) is None ==> link(HTTPS_ADD@, i) == Ok::<Seq<char>, InviteErrorView>(
                "https://konstruct.cc/add?invite="@ + payload,
            ) && link(SCHEME_ADD@, i) == Ok::<Seq<char>, InviteErrorView>(
                "konstruct://add?invite="@ + payload,
            )
            &&& encode_error(i) matches Some(e) ==> link(HTTPS_ADD@, i) == Err::<
                Seq<char>,
                InviteErrorView,
            >(e) && link(SCHEME_ADD@, i) == Err::<Seq<char>, InviteErrorView>(e)
        }),
{
}

/// A minted invite that has a binary form reaches its reader whole: from either link, at any time
/// from its minting until its TTL is over, the reader gets exactly what was minted, and it has not
/// expired.
pub proof fn law_a_minted_invite_is_read_while_it_lasts(
    user_id: Seq<char>,
    device_id: Seq<char>,
    server_url: Seq<char>,
    signing_key_hex: Seq<char>,
    username: Option<Seq<char>>,
    ttl: u32,
    now: i64,
    jti: Seq<u8>,
    later: i64,
    prefix: Seq<char>,
    legacy: Option<InviteView>,
)
    requires
        ttl <= 43_200,
        0 < now <= later,
        later <= now + ttl,
        prefix == HTTPS_ADD@ || prefix == SCHEME_ADD@,
        minted(user_id, device_id, server_url, signing_key_hex, username, ttl, now, jti) matches Ok(i)
            && normal_form(i) == i && encode_error(i) is None,
    ensures
        ({
            let m = minted(
                user_id,
                device_id,
                server_url,
                signing_key_hex,
                username,
                ttl,
                now,
                jti,
            );
            &&& parsed(link(prefix, m->Ok_0)->Ok_0, later, legacy) == m
            &&& !expired(m->Ok_0, later)
        }),
{
    let i = minted(user_id, device_id, server_url, signing_key_hex, username, ttl, now, jti)->Ok_0;
    crate::invite::law_links_carry_the_invite(prefix, i);
    crate::invite::law_parse_undoes_link(
        link(prefix, i)->Ok_0,
        prefix,
        base64_encoded(Base64::UrlSafeNoPad, wire(i)),
        Seq::empty(),
        i,
        later,
        legacy,
    );
}

/// An invite has expired exactly when its TTL is over, or half a day where it says more or
/// nothing.
pub proof fn law_an_invite_lasts_its_ttl(i: InviteView, now: i64)
    ensures
        i.ttl matches Some(ttl) ==> (ttl <= 43_200 ==> (expired(i, now) <==> now - i.ts > ttl)),
        i.ttl matches Some(ttl) ==> (ttl > 43_200 ==> (expired(i, now) <==> now - i.ts > 43_200)),
        i.ttl is None ==> (expired(i, now) <==> now - i.ts > 43_200),
{
}

/// A payload that is no invite in the binary form is what a reader of JSON makes of it; a text
/// without a payload is no invite at all.
pub proof fn law_legacy_invites_are_left_to_json(raw: Seq<char>, now: i64, i: InviteView)
    ensures
        payload_bytes(raw) matches Some(b) ==> (!MAGIC@.is_prefix_of(b) ==> parsed(
            raw,
            now,
            Some(i),
        ) == Ok::<InviteView, InviteErrorView>(i) && parsed(raw, now, None) == Err::<
            InviteView,
            InviteErrorView,
        >(InviteError::Unrecognized)),
        payload_bytes(raw) is None ==> parsed(raw, now, Some(i)) == Err::<
            InviteView,
            InviteErrorView,
        >(InviteError::Unrecognized),
{
}

/// A link to add somebody looks like an invite, whatever stands in it.
pub proof fn law_links_look_like_invites(raw: Seq<char>)
    ensures
        occurs(trimmed(raw), "invite="@) ==> looks_like(raw),
        "konstruct://"@.is_prefix_of(trimmed(raw)) ==> looks_like(raw),
        occurs(trimmed(raw), "konstruct.cc/add"@) ==> looks_like(raw),
        looks_like(raw) == looks_like(trimmed(raw)),
{
    crate::text::lemma_trimmed_twice(raw);
}

/// A payload in the other Base64, with padding, is read as well.
pub proof fn law_padded_payloads_are_read(b: Seq<u8>)
    requires
        ({
            let t = base64_encoded(Base64::Standard, b);
            &&& trimmed(t) == t
            &&& !occurs(t, "invite="@)
            &&& base64_decoded(Base64::UrlSafeNoPad, t) is None
        }),
    ensures
        payload_bytes(base64_encoded(Base64::Standard, b)) == Some(b),
{
    crate::encoding::lemma_base64_round_trip(Base64::Standard, b);
}

/// An invite has a binary form exactly if its ids can be read, its device id and signature have
/// their lengths, its names fit in a byte count, its server is named, its date is not negative,
/// and its version has what it asks for: a key up to the third, a TTL from the fifth on.
pub proof fn law_what_has_a_binary_form(i: InviteView)
    ensures
        encode_error(i) is None <==> {
            &&& uuid_parsed(i.jti) is Some
            &&& uuid_parsed(i.uuid) is Some
            &&& hex_decoded(i.device_id) matches Some(d) && d.len() == 16
            &&& base64_decoded(Base64::Standard, i.sig) matches Some(sig) && sig.len() == 64
            &&& i.un matches Some(un) ==> encode_utf8(trimmed(un)).len() <= 255
            &&& i.server.len() > 0
            &&& encode_utf8(i.server).len() <= 255
            &&& i.v <= 3 ==> (base64_decoded(Base64::Standard, i.eph_key) matches Some(key)
                && key.len() == 32)
            &&& i.ts >= 0
            &&& i.v >= 5 ==> i.ttl is Some
        },
        encode_error(i) matches Some(e) ==> {
            &&& e is DeviceIdHex ==> hex_decoded(i.device_id) is None
            &&& e is DeviceIdLength ==> hex_decoded(i.device_id)->0.len() != 16
            &&& e is SignatureBase64 ==> base64_decoded(Base64::Standard, i.sig) is None
            &&& e is SignatureLength ==> base64_decoded(Base64::Standard, i.sig)->0.len() != 64
            &&& e is UsernameTooLong ==> i.un is Some && encode_utf8(trimmed(i.un->0)).len() > 255
            &&& e is InvalidServer ==> i.server.len() == 0 || encode_utf8(i.server).len() > 255
            &&& e is EphKeyBase64 ==> base64_decoded(Base64::Standard, i.eph_key) is None
            &&& e is EphKeyLength ==> base64_decoded(Base64::Standard, i.eph_key)->0.len() != 32
            &&& e is NegativeTimestamp ==> i.ts < 0
            &&& e is MissingTtl ==> i.v >= 5 && i.ttl is None
            &&& e is Uuid ==> uuid_parsed(i.jti) is None || uuid_parsed(i.uuid) is None
        },
{
    if let Some(un) = i.un {
        if trimmed(un).len() == 0 {
            assert(encode_utf8(trimmed(un)).len() == 0);
        }
    }
}

/// A user name that can be looked up is never taken for an invite.
pub proof fn law_a_user_name_is_no_invite(name: Seq<char>)
    requires
        crate::grpc::users::searchable(name),
        trimmed(name) == name,
    ensures
        !looks_like(name),
{
    reveal_strlit("invite=");
    reveal_strlit("konstruct://");
    reveal_strlit("konstruct.cc/add");
    lemma_ascii_bytes(name);
    if occurs(name, "invite="@) {
        let j = choose|j: int| occurs_at(name, "invite="@, j);
        assert(name.subrange(j, j + 7)[6] == '=');
        assert(name[j + 6] == '=');
    }
    if occurs(name, "konstruct.cc/add"@) {
        let j = choose|j: int| occurs_at(name, "konstruct.cc/add"@, j);
        assert(name.subrange(j, j + 16)[9] == '.');
        assert(name[j + 9] == '.');
    }
    if "konstruct://"@.is_prefix_of(name) {
        assert(name.subrange(0, 12)[9] == ':');
        assert(name[9] == ':');
    }
}

proof fn lemma_ascii_bytes(s: Seq<char>)
    requires
        forall|i: int| 0 <= i < s.len() ==> (#[trigger] s[i] as u32) < 0x80,
    ensures
        encode_utf8(s).len() == s.len(),
    decreases s.len(),
{
    if s.len() > 0 {
        assert forall|i: int| 0 <= i < s.drop_first().len() implies (#[trigger] s.drop_first()[i]
            as u32) < 0x80 by {
            assert(s.drop_first()[i] == s[i + 1]);
        }
        lemma_ascii_bytes(s.drop_first());
        assert((s[0] as u32) < 0x80);
    }
}

/// An error is told with the error behind it, or with the number that it is about.
pub proof fn law_invite_errors_say_why(e: InviteErrorView)
    ensures
        match e {
            InviteError::Uuid(b) => error_text(e) == "uuid: "@ + b,
            InviteError::DeviceIdHex(b) => error_text(e) == "device id hex: "@ + b,
            InviteError::SignatureBase64(b) => error_text(e) == "sig base64: "@ + b,
            InviteError::EphKeyBase64(b) => error_text(e) == "ephKey: "@ + b,
            InviteError::ServerUtf8(b) => error_text(e) == "server utf8: "@ + b,
            InviteError::UsernameUtf8(b) => error_text(e) == "un utf8: "@ + b,
            InviteError::UserId(b) => error_text(e) == "user id: "@ + b,
            InviteError::SigningKeyHex(b) => error_text(e) == "signing key hex: "@ + b,
            InviteError::SelfVerify(b) => error_text(e) == "invite self-verify: "@ + b,
            InviteError::UnsupportedVersion(v) => error_text(e) == "unsupported invite version "@
                + decimal(v as nat),
            InviteError::TtlBelowFloor(ttl) => error_text(e) == "ttl "@ + decimal(ttl as nat)
                + "s below floor"@,
            _ => true,
        },
{
}

// ── Server names ──────────────────────────────────────────────────────────────

/// A bare host: nothing that normalizing would take off.
pub open spec fn bare_host(host: Seq<char>) -> bool {
    &&& host.len() > 0
    &&& trimmed(host) == host
    &&& !"https://"@.is_prefix_of(host)
    &&& !"http://"@.is_prefix_of(host)
    &&& host.last() != '/'
    &&& !":443"@.is_suffix_of(host)
}

proof fn lemma_trimmed_ends_kept(a: Seq<char>, b: Seq<char>)
    requires
        a.len() > 0,
        b.len() > 0,
        !crate::text::is_white_space(a[0]),
        !crate::text::is_white_space(b.last()),
    ensures
        trimmed(a + b) == a + b,
{
    assert((a + b)[0] == a[0]);
    assert((a + b).last() == b.last());
    crate::text::lemma_trimmed_fixed(a + b);
}

/// A scheme does not come about by what is put behind a host.
proof fn lemma_prefix_inside(host: Seq<char>, end: Seq<char>, scheme: Seq<char>)
    requires
        bare_host(host),
        end == "/"@ || end == ":443"@,
        scheme == "https://"@ || scheme == "http://"@,
    ensures
        !scheme.is_prefix_of(host + end),
{
    reveal_strlit("https://");
    reveal_strlit("http://");
    reveal_strlit("/");
    reveal_strlit(":443");
    let s = host + end;
    let n = scheme.len() as int;
    if scheme.is_prefix_of(s) {
        assert(forall|k: int| 0 <= k < n ==> s.subrange(0, n)[k] == scheme[k]);
        assert(forall|k: int| 0 <= k < n ==> s[k] == #[trigger] scheme[k]);
        if host.len() >= n {
            assert(host.subrange(0, n) =~= scheme);
        } else {
            assert(host.len() + end.len() >= n);
            assert(s[host.len() as int] == end[0]);
            assert(s[host.len() - 1] == host.last());
            assert(scheme[n - 1] == '/' && scheme[n - 2] == '/' && scheme[n - 3] == ':');
            assert(s[n - 1] == '/' && s[n - 2] == '/');
            assert(s[host.len() as int] == scheme[host.len() as int]);
        }
    }
}

/// The scheme, a slash at the end and the usual port say nothing about which server it is: with
/// or without them, it is the same host.
pub proof fn law_a_server_is_its_host(host: Seq<char>)
    requires
        bare_host(host),
    ensures
        normalized_server(host) == host,
        normalized_server("https://"@ + host) == host,
        normalized_server("http://"@ + host) == host,
        normalized_server(host + "/"@) == host,
        normalized_server("https://"@ + host + ":443"@) == host,
{
    reveal_strlit("https://");
    reveal_strlit("http://");
    reveal_strlit("/");
    reveal_strlit(":443");
    let https = "https://"@;
    let http = "http://"@;
    crate::text::lemma_trimmed_ends(host);
    reveal_with_fuel(without_prefixes, 2);
    reveal_with_fuel(without_trailing, 2);
    assert(normalized_server(host) == host);
    lemma_trimmed_ends_kept(https, host);
    assert((https + host).skip(8) =~= host);
    assert(https.is_prefix_of(https + host)) by {
        assert((https + host).subrange(0, 8) =~= https);
    }
    assert(without_prefixes(https + host, https) == host);
    lemma_trimmed_ends_kept(http, host);
    assert((http + host).skip(7) =~= host);
    assert(http.is_prefix_of(http + host)) by {
        assert((http + host).subrange(0, 7) =~= http);
    }
    assert(!https.is_prefix_of(http + host)) by {
        if https.is_prefix_of(http + host) {
            assert((http + host).subrange(0, 8)[4] == https[4]);
        }
    }
    assert(without_prefixes(http + host, http) == host);
    lemma_trimmed_ends_kept(host, "/"@);
    assert((host + "/"@).drop_last() =~= host);
    lemma_prefix_inside(host, "/"@, https);
    lemma_prefix_inside(host, "/"@, http);
    assert(normalized_server(host + "/"@) == host);
    let ported = host + ":443"@;
    lemma_trimmed_ends_kept(https, ported);
    assert(https + host + ":443"@ =~= https + ported);
    assert((https + ported).skip(8) =~= ported);
    assert(https.is_prefix_of(https + ported)) by {
        assert((https + ported).subrange(0, 8) =~= https);
    }
    lemma_prefix_inside(host, ":443"@, https);
    lemma_prefix_inside(host, ":443"@, http);
    assert(":443"@.is_suffix_of(ported)) by {
        assert(ported.subrange(ported.len() - 4, ported.len() as int) =~= ":443"@);
    }
    assert(ported.take(ported.len() - 4) =~= host);
}

} // verus!
