//! Calls to the server: where they go, what they carry, and what the replies mean.

use crate::grpc::auth::{
    device_public_keys, get_pow_challenge, refresh_token, tokens_from, AuthTokens, DevicePublicKeys,
};
use crate::grpc::client::{
    apply_auth_headers, header_text, header_views, host_and_port, response_outcome, retried,
    status_outcome, stream_outcome, unary_outcome,
};
use crate::grpc::error::{
    error_text, permission_denied, retryable, unauthenticated, GrpcError, GrpcErrorView,
};
use crate::grpc::framing::{code_of, frame, status_of, GrpcStatus};
use crate::grpc::invite::{accept_invite, invite_token, AcceptedInvite, InviteToken};
use crate::grpc::keys::{bundle_to_x3dh, CryptoSuite, PreKeyBundle, SuiteId, X3DHPublicKeyBundle};
use crate::grpc::stream::{subscribe_request, MessageStreamRequest, StreamRequest};
use crate::grpc::users::{find_user, find_user_query, normalized_username, searchable};
use crate::invite::Invite;
use crate::text::{
    ascii_lowered, decimal, first_occurrence, is_ascii_digit, occurs, occurs_at, opt_text,
    parsed_number, trimmed, without_prefixes,
};
use vstd::prelude::*;

verus! {

// ── Where a call goes ─────────────────────────────────────────────────────────

/// A host: text without a colon or a slash.
pub open spec fn is_host(h: Seq<char>) -> bool {
    h.len() > 0 && !h.contains(':') && !h.contains('/')
}

/// A port behind a colon, or nothing.
pub open spec fn port_part(port: Option<nat>) -> Seq<char> {
    match port {
        Some(p) => ":"@ + decimal(p as nat),
        None => Seq::empty(),
    }
}

/// A path behind a slash, or nothing.
pub open spec fn path_part(path: Option<Seq<char>>) -> Seq<char> {
    match path {
        Some(p) => "/"@ + p,
        None => Seq::empty(),
    }
}

proof fn lemma_no_scheme(h: Seq<char>, port: Option<nat>, path: Option<Seq<char>>, p: Seq<char>)
    requires
        is_host(h),
        p == "https://"@ || p == "http://"@,
    ensures
        !p.is_prefix_of(h + port_part(port) + path_part(path)),
{
    reveal_strlit("https://");
    reveal_strlit("http://");
    reveal_strlit("/");
    reveal_strlit(":");
    let rest = h + port_part(port) + path_part(path);
    let n = h.len() as int;
    if p.is_prefix_of(rest) {
        let m = p.len() as int;
        assert(forall|k: int| 0 <= k < m ==> rest.subrange(0, m)[k] == p[k]);
        assert(forall|k: int| 0 <= k < m ==> rest[k] == #[trigger] p[k]);
        assert(p[m - 3] == ':' && p[m - 2] == '/');
        assert(rest[m - 3] == ':' && rest[m - 2] == '/');
        if n > m - 3 {
            assert(h[m - 3] == ':');
        }
        if let Some(q) = port {
            crate::laws::numbers::lemma_decimal(q);
            assert(rest[n] == ':');
            assert(rest[n + 1] == decimal(q)[0]);
            assert(is_ascii_digit(decimal(q)[0]));
            if n < m - 3 {
                assert(p[n] != ':');
            }
        } else if path is Some {
            assert(rest[n] == '/');
            if n < m - 3 {
                assert(p[n] != '/');
            }
        }
    }
}

proof fn lemma_split(s: Seq<char>, a: Seq<char>, c: char, p: Seq<char>, b: Seq<char>)
    requires
        p == seq![c],
        !a.contains(c),
        s == a + p + b,
    ensures
        crate::text::split_at_first(s, p) == Some((a, b)),
{
    let n = a.len() as int;
    assert(s.subrange(n, n + 1) =~= p);
    assert forall|j: int| 0 <= j < n implies !occurs_at(s, p, j) by {
        if occurs_at(s, p, j) {
            assert(s.subrange(j, j + 1)[0] == c);
            assert(a[j] == c);
        }
    }
    assert(first_occurrence(s, p, n));
    crate::text::lemma_first_occurrence(s, p, n);
    assert(s.take(n) =~= a);
    assert(s.skip(n + 1) =~= b);
}

proof fn lemma_no_split(s: Seq<char>, c: char, p: Seq<char>)
    requires
        p == seq![c],
        !s.contains(c),
    ensures
        crate::text::split_at_first(s, p) is None,
{
    if occurs(s, p) {
        let j = choose|j: int| occurs_at(s, p, j);
        assert(s.subrange(j, j + 1)[0] == c);
        assert(s[j] == c);
    }
}

proof fn lemma_scheme_goes(url: Seq<char>, scheme: Seq<char>, rest: Seq<char>)
    requires
        scheme.len() == 0 || scheme == "https://"@ || scheme == "http://"@,
        url == scheme + rest,
        !"https://"@.is_prefix_of(rest),
        !"http://"@.is_prefix_of(rest),
    ensures
        without_prefixes(without_prefixes(url, "https://"@), "http://"@) == rest,
{
    reveal_strlit("https://");
    reveal_strlit("http://");
    let https = "https://"@;
    let http = "http://"@;
    reveal_with_fuel(without_prefixes, 3);
    assert(url.skip(scheme.len() as int) =~= rest);
    if scheme == https {
        assert(url.subrange(0, 8) =~= https);
        assert(https.is_prefix_of(url));
    } else if scheme == http {
        assert(url.subrange(0, 7) =~= http);
        assert(http.is_prefix_of(url));
        if https.is_prefix_of(url) {
            assert(url.subrange(0, 8)[4] == https[4]);
            assert(url[4] == http[4]);
        }
    } else {
        assert(url =~= rest);
    }
}

proof fn lemma_no_slash(host: Seq<char>, port: Option<nat>)
    requires
        is_host(host),
    ensures
        !(host + port_part(port)).contains('/'),
{
    reveal_strlit(":");
    let s = host + port_part(port);
    if let Some(q) = port {
        crate::laws::numbers::lemma_decimal(q);
    }
    if s.contains('/') {
        let j = choose|j: int| 0 <= j < s.len() && s[j] == '/';
        if j < host.len() {
            assert(host[j] == '/');
        } else if let Some(q) = port {
            if j > host.len() {
                assert(is_ascii_digit(decimal(q)[j - host.len() - 1]));
            }
        }
    }
}

/// A server address is a host, perhaps with a scheme in front, a port behind it and a path after
/// that; a call goes to that host, and to port 443 where no port is given, or none that there can
/// be. The scheme and the path do not matter.
pub proof fn law_an_address_is_host_and_port(
    url: Seq<char>,
    scheme: Seq<char>,
    host: Seq<char>,
    port: Option<nat>,
    path: Option<Seq<char>>,
)
    requires
        is_host(host),
        scheme.len() == 0 || scheme == "https://"@ || scheme == "http://"@,
        url == scheme + host + port_part(port) + path_part(path),
        trimmed(url) == url,
    ensures
        host_and_port(url).0 == host,
        host_and_port(url).1 == (match port {
            Some(p) => if p <= 65_535 {
                p
            } else {
                443
            },
            None => 443,
        }),
{
    assert("/"@ == seq!['/'] && ":"@ == seq![':']) by {
        reveal_strlit("/");
        reveal_strlit(":");
        assert("/"@ =~= seq!['/']);
        assert(":"@ =~= seq![':']);
    }
    let hostport = host + port_part(port);
    let rest = hostport + path_part(path);
    lemma_no_scheme(host, port, path, "https://"@);
    lemma_no_scheme(host, port, path, "http://"@);
    assert(url =~= scheme + rest);
    lemma_scheme_goes(url, scheme, rest);
    lemma_no_slash(host, port);
    if let Some(p) = path {
        assert(rest =~= hostport + "/"@ + p);
        lemma_split(rest, hostport, '/', "/"@, p);
    } else {
        assert(rest =~= hostport);
        lemma_no_split(rest, '/', "/"@);
    }
    if let Some(q) = port {
        crate::laws::numbers::law_decimal_is_read_back(q);
        assert(hostport =~= host + ":"@ + decimal(q));
        lemma_split(hostport, host, ':', ":"@, decimal(q));
    } else {
        assert(hostport =~= host);
        lemma_no_split(hostport, ':', ":"@);
    }
}

/// Every call says what it is; it carries the token as a bearer token exactly if there is one, and
/// the device id exactly if there is one.
pub proof fn law_a_call_carries_the_credentials(
    version: &str,
    token: Option<&str>,
    device_id: Option<&str>,
    r: Vec<(String, String)>,
)
    requires
        call_ensures(apply_auth_headers, (version, token, device_id), r),
    ensures
        ({
            let h = header_views(r@);
            let n: int = if token is Some {
                1
            } else {
                0
            };
            let m: int = if device_id is Some {
                1
            } else {
                0
            };
            &&& h.len() == 4 + n + m
            &&& h[0] == ("content-type"@, "application/grpc"@)
            &&& h[1] == ("te"@, "trailers"@)
            &&& h[2] == ("grpc-encoding"@, "identity"@)
            &&& h[3] == ("user-agent"@, "konstruct-tui/"@ + version@)
            &&& token matches Some(t) ==> h[4] == ("authorization"@, "Bearer "@ + t@)
            &&& device_id matches Some(id) ==> h.last() == ("x-device-id"@, id@)
        }),
{
}

// ── What a reply means ────────────────────────────────────────────────────────

/// A status is success exactly if it is zero, absent, or no number of 32 bits; sixteen is a token
/// that was not accepted, seven a thing that is not allowed, and any other number is told as it
/// is. The message is the server's.
pub proof fn law_a_status_means_its_number(n: nat, m: Seq<char>, other: Seq<char>)
    requires
        parsed_number(other) is None,
    ensures
        ({
            let r = status_outcome(Some(decimal(n)), Some(m));
            &&& n == 0 || n > 0xffff_ffff ==> r is Ok
            &&& n == 16 ==> r == Err::<(), GrpcErrorView>(GrpcErrorView::Unauthenticated(m))
            &&& n == 7 ==> r == Err::<(), GrpcErrorView>(GrpcErrorView::PermissionDenied(m))
            &&& n != 0 && n != 16 && n != 7 && n <= 0xffff_ffff ==> r == Err::<(), GrpcErrorView>(
                GrpcErrorView::Status { code: n as u32, message: m },
            )
        }),
        status_outcome(None, Some(m)) is Ok,
        status_outcome(Some(other), Some(m)) is Ok,
        n != 0 ==> status_outcome(Some(decimal(n)), None) == status_outcome(
            Some(decimal(n)),
            Some(Seq::empty()),
        ),
{
    crate::laws::numbers::law_decimal_is_read_back(n);
}

/// A reply that HTTP does not call OK is a failure of the transport, whatever its headers say;
/// else the headers decide.
pub proof fn law_http_comes_before_grpc(
    path: Seq<char>,
    code: u16,
    status: Seq<char>,
    h: http::HeaderMap<http::HeaderValue>,
)
    ensures
        code != 200 ==> {
            &&& response_outcome(path, code, status, h) == Err::<(), GrpcErrorView>(
                GrpcErrorView::Transport("HTTP "@ + status + " from '"@ + path + "'"@),
            )
            &&& stream_outcome(code, status, h) == Err::<(), GrpcErrorView>(
                GrpcErrorView::Transport("MessageStream HTTP "@ + status),
            )
        },
        header_text(h, "grpc-status"@) is None ==> {
            &&& response_outcome(path, 200, status, h) is Ok
            &&& stream_outcome(200, status, h) is Ok
        },
        header_text(h, "grpc-status"@) == Some("16"@) ==> {
            &&& response_outcome(path, 200, status, h) matches Err(e) && unauthenticated(e)
            &&& stream_outcome(200, status, h) matches Err(e) && unauthenticated(e)
        },
{
    reveal_strlit("16");
    reveal_with_fuel(decimal, 3);
    assert(decimal(16) =~= "16"@);
    crate::laws::numbers::law_decimal_is_read_back(16);
}

/// The message in a reply is what the server framed; an empty body is an empty message; an error
/// in the trailers counts for more than the body.
pub proof fn law_a_reply_is_unframed(
    message: Seq<u8>,
    rest: Seq<u8>,
    t: http::HeaderMap<http::HeaderValue>,
)
    requires
        message.len() < 0x1_0000_0000,
    ensures
        unary_outcome(None, frame(message) + rest) == Ok::<Seq<u8>, GrpcErrorView>(message),
        unary_outcome(None, Seq::empty()) == Ok::<Seq<u8>, GrpcErrorView>(Seq::empty()),
        header_text(t, "grpc-status"@) is None ==> unary_outcome(Some(t), frame(message) + rest)
            == Ok::<Seq<u8>, GrpcErrorView>(message),
        header_text(t, "grpc-status"@) == Some("16"@) ==> (unary_outcome(
            Some(t),
            frame(message) + rest,
        ) matches Err(e) && unauthenticated(e)),
{
    crate::grpc::framing::law_frame_round_trip(message, rest);
    reveal_strlit("16");
    reveal_with_fuel(decimal, 3);
    assert(decimal(16) =~= "16"@);
    crate::laws::numbers::law_decimal_is_read_back(16);
    assert((frame(message) + rest).len() > 0);
}

/// What is tried again is a call that failed below gRPC, once; nothing that the server said is.
pub proof fn law_only_the_transport_is_retried(m: Seq<char>, code: u32, attempt: nat)
    ensures
        retried(1, GrpcErrorView::Transport(m)),
        retried(1, GrpcErrorView::Tls(m)),
        !retried(attempt, GrpcErrorView::Status { code, message: m }),
        !retried(attempt, GrpcErrorView::Unauthenticated(m)),
        !retried(attempt, GrpcErrorView::PermissionDenied(m)),
        attempt != 1 ==> !retried(attempt, GrpcErrorView::Transport(m)),
        unauthenticated(GrpcErrorView::Status { code, message: m }) <==> code == 16,
        permission_denied(GrpcErrorView::Status { code, message: m }) <==> code == 7,
        unauthenticated(GrpcErrorView::Unauthenticated(m)),
        permission_denied(GrpcErrorView::PermissionDenied(m)),
        !unauthenticated(GrpcErrorView::Transport(m)),
{
}

/// The text of an error says of which kind it is, and what the server or the transport said.
pub proof fn law_grpc_errors_say_why(m: Seq<char>, code: u32)
    ensures
        error_text(GrpcErrorView::Transport(m)) == "transport: "@ + m,
        error_text(GrpcErrorView::Tls(m)) == "tls: "@ + m,
        error_text(GrpcErrorView::Status { code, message: m }) == "grpc "@ + decimal(code as nat)
            + ": "@ + m,
        error_text(GrpcErrorView::Unauthenticated(m)) == "unauthenticated: "@ + m,
        error_text(GrpcErrorView::PermissionDenied(m)) == "permission denied: "@ + m,
{
}

/// Zero is success and sixteen a refused token; every other number is unknown.
pub proof fn law_status_numbers(code: u32)
    ensures
        status_of(code) == GrpcStatus::Success <==> code == 0,
        status_of(code) == GrpcStatus::Unauthenticated <==> code == 16,
        status_of(code) == GrpcStatus::Unknown <==> code != 0 && code != 16,
        code_of(GrpcStatus::Unknown) == 2,
{
}

// ── Users ─────────────────────────────────────────────────────────────────────

/// A name is the same with white space around it, with an `@` in front, and in whatever case it
/// is written.
pub proof fn law_a_name_is_the_same_however_written(name: Seq<char>)
    requires
        name.len() > 0,
        trimmed(name) == name,
        name[0] != '@',
    ensures
        normalized_username(name) == ascii_lowered(name),
        normalized_username("@"@ + name) == ascii_lowered(name),
        normalized_username(" "@ + name + " "@) == ascii_lowered(name),
        normalized_username(ascii_lowered(name)) == ascii_lowered(name),
{
    reveal_strlit("@");
    reveal_strlit(" ");
    reveal_with_fuel(without_prefixes, 3);
    crate::text::lemma_trimmed_ends(name);
    assert("@"@ =~= seq!['@']);
    assert(!"@"@.is_prefix_of(name)) by {
        if "@"@.is_prefix_of(name) {
            assert(name.subrange(0, 1)[0] == '@');
        }
    }
    let at = "@"@ + name;
    assert(at[0] == '@' && at.last() == name.last());
    crate::text::lemma_trimmed_fixed(at);
    assert(at.subrange(0, 1) =~= "@"@);
    assert("@"@.is_prefix_of(at));
    assert(at.skip(1) =~= name);
    let spaced = " "@ + name + " "@;
    reveal_with_fuel(crate::text::trimmed_start, 3);
    reveal_with_fuel(crate::text::trimmed_end, 3);
    assert(spaced[0] == ' ' && spaced.last() == ' ');
    assert(spaced.drop_first() =~= name + " "@);
    assert((name + " "@)[0] == name[0]);
    assert((name + " "@).last() == ' ');
    assert((name + " "@).drop_last() =~= name);
    assert(trimmed(spaced) == name);
    let low = ascii_lowered(name);
    assert(low[0] == crate::text::ascii_lower(name[0]));
    assert(low.last() == crate::text::ascii_lower(name.last()));
    crate::text::lemma_trimmed_fixed(low);
    assert(!"@"@.is_prefix_of(low)) by {
        if "@"@.is_prefix_of(low) {
            assert(low.subrange(0, 1)[0] == '@');
        }
    }
    assert(ascii_lowered(low) =~= low);
}

/// The server is asked for a name of three to thirty letters, digits and underscores, and for no
/// other.
pub proof fn law_only_possible_names_are_asked_for(username: &str, r: Option<String>, i: int)
    requires
        call_ensures(find_user_query, (username,), r),
    ensures
        r matches Some(name) ==> {
            &&& name@ == normalized_username(username@)
            &&& 3 <= name@.len() <= 30
            &&& 0 <= i < name@.len() ==> ('a' <= name@[i] <= 'z') || ('A' <= name@[i] <= 'Z') || (
            '0' <= name@[i] <= '9') || name@[i] == '_'
        },
        normalized_username(username@).len() < 3 || normalized_username(username@).len() > 30 ==> r
            is None,
{
}

/// A name of letters, digits and underscores, not too short and not too long, can be asked for.
pub proof fn law_a_plain_name_can_be_asked_for(name: Seq<char>)
    requires
        3 <= name.len() <= 30,
        forall|i: int|
            0 <= i < name.len() ==> ('a' <= #[trigger] name[i] <= 'z') || ('0' <= name[i] <= '9')
                || name[i] == '_',
    ensures
        searchable(name),
{
}

/// Nobody is found where the server gives no id, or says that there is none; any other failure is
/// handed on as it is, and any id as it is.
pub proof fn law_nobody_is_no_error(
    reply: Result<String, GrpcError>,
    r: Result<Option<String>, GrpcError>,
)
    requires
        call_ensures(find_user, (reply,), r),
    ensures
        reply matches Ok(id) ==> (id@.len() > 0 ==> r == Ok::<Option<String>, GrpcError>(Some(id))),
        reply matches Ok(id) ==> (id@.len() == 0 ==> r == Ok::<Option<String>, GrpcError>(None)),
        reply matches Err(e) ==> {
            &&& (e@ matches GrpcErrorView::Status { code, .. } && code == 5) ==> r == Ok::<
                Option<String>,
                GrpcError,
            >(None)
            &&& !(e@ matches GrpcErrorView::Status { code, .. } && code == 5) ==> r == Err::<
                Option<String>,
                GrpcError,
            >(e)
        },
{
}

// ── Replies with something in them ────────────────────────────────────────────

/// A reply that lacks what was asked for is a failure of the transport; what is in it is taken as
/// it is.
pub proof fn law_empty_replies_are_failures(
    challenge: String,
    difficulty: u32,
    c: Result<(String, u32), GrpcError>,
    tokens: Option<AuthTokens>,
    t: Result<AuthTokens, GrpcError>,
    user_id: String,
    a: Result<AcceptedInvite, GrpcError>,
)
    requires
        call_ensures(get_pow_challenge, (challenge, difficulty), c),
        call_ensures(tokens_from, (tokens,), t),
        call_ensures(accept_invite, (user_id,), a),
    ensures
        challenge@.len() > 0 ==> c == Ok::<(String, u32), GrpcError>((challenge, difficulty)),
        challenge@.len() == 0 ==> c is Err && retryable(c->Err_0@),
        tokens matches Some(k) ==> t == Ok::<AuthTokens, GrpcError>(k),
        tokens is None ==> t is Err && retryable(t->Err_0@),
        user_id@.len() > 0 ==> (a matches Ok(i) && i.user_id == user_id),
        user_id@.len() == 0 ==> a is Err && retryable(a->Err_0@),
{
}

/// Refreshed tokens are those of the reply; a missing refresh token is an empty one.
pub proof fn law_refreshed_tokens_are_those_of_the_reply(
    access: String,
    refreshed: Option<String>,
    expires_at: i64,
    r: (String, String, i64),
)
    requires
        call_ensures(refresh_token, (access, refreshed, expires_at), r),
    ensures
        r.0@ == access@,
        refreshed matches Some(t) ==> r.1@ == t@,
        refreshed is None ==> r.1@.len() == 0,
        r.2 == expires_at,
{
}

/// The public keys go to the server each in its own place.
pub proof fn law_public_keys_keep_their_places(
    verifying: &[u8],
    identity: &[u8],
    prekey: &[u8],
    signature: &[u8],
    r: DevicePublicKeys,
)
    requires
        call_ensures(device_public_keys, (verifying, identity, prekey, signature), r),
    ensures
        r.verifying_key@ == verifying@,
        r.identity_public@ == identity@,
        r.signed_prekey_public@ == prekey@,
        r.signed_prekey_signature@ == signature@,
        r.crypto_suite@ == "Curve25519+Ed25519"@,
{
}

/// An invite goes to the server as it was signed: every field that its signature covers, and the
/// signature.
pub proof fn law_an_invite_is_redeemed_as_signed(invite: Invite, r: InviteToken)
    requires
        call_ensures(invite_token, (&invite,), r),
    ensures
        r.v == invite.v,
        r.jti@ == invite@.jti,
        r.uuid@ == invite@.uuid,
        opt_text(r.device_id) == Some(invite@.device_id),
        r.server@ == invite@.server,
        r.ts == invite@.ts,
        r.eph_pub@ == invite@.eph_key,
        r.sig@ == invite@.sig,
        opt_text(r.un) == invite@.un,
        r.ttl == invite@.ttl,
{
}

/// A bundle is handed to the key agreement with every key in its place and the verifying key of
/// its user; a hybrid suite makes a hybrid session. A reply without a bundle is a failure.
pub proof fn law_a_bundle_keeps_its_keys(
    bundle: Option<PreKeyBundle>,
    verifying_key: Vec<u8>,
    r: Result<X3DHPublicKeyBundle, GrpcError>,
)
    requires
        call_ensures(bundle_to_x3dh, (bundle, verifying_key), r),
    ensures
        bundle is None ==> r is Err && retryable(r->Err_0@),
        bundle matches Some(b) ==> (r matches Ok(x) && {
            &&& x.identity_public == b.identity_key
            &&& x.signed_prekey_public == b.signed_pre_key
            &&& x.signature == b.signed_pre_key_signature
            &&& x.verifying_key == verifying_key
            &&& x.one_time_prekey_public == b.one_time_pre_key
            &&& x.one_time_prekey_id == b.one_time_pre_key_id
            &&& b.spk_uploaded_at >= 0 ==> x.spk_uploaded_at == b.spk_uploaded_at
            &&& b.spk_uploaded_at < 0 ==> x.spk_uploaded_at == b.spk_uploaded_at
                + 0x1_0000_0000_0000_0000
            &&& x.spk_rotation_epoch == b.spk_rotation_epoch
            &&& b.kyber_spk_uploaded_at matches Some(at) ==> (at >= 0 ==> x.kyber_spk_uploaded_at
                == at)
            &&& b.kyber_spk_uploaded_at is None ==> x.kyber_spk_uploaded_at == 0
            &&& b.kyber_spk_rotation_epoch matches Some(n) ==> x.kyber_spk_rotation_epoch == n
            &&& b.kyber_spk_rotation_epoch is None ==> x.kyber_spk_rotation_epoch == 0
            &&& x.suite_id == SuiteId::PqHybrid <==> b.crypto_suite != CryptoSuite::Other
            &&& !x.supports_pq_ratchet
        }),
{
}

/// A subscription asks for the conversations and the cursor that were given, and never for
/// presence.
pub proof fn law_a_subscription_asks_for_what_was_given(
    ids: Vec<String>,
    since: Option<String>,
    id: String,
    r: MessageStreamRequest,
)
    requires
        call_ensures(subscribe_request, (ids, since, id), r),
    ensures
        r.request_id == id,
        r.request matches StreamRequest::Subscribe {
            conversation_ids,
            since_cursor,
            include_presence,
        } && conversation_ids == ids && since_cursor == since && !include_presence,
{
}

} // verus!
