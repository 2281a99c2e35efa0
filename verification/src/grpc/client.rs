//! One client per process: where the server is, who we are, and whether there is a live
//! connection; what goes into the headers of a request and what comes out of a reply.

use crate::grpc::error::{retryable, GrpcError, GrpcErrorView};
use crate::grpc::framing::{bytes_to_vec, decode_frame, held, unframed};
use crate::text::{
    as_deref, decimal, format_u64, join, opt_str, opt_text, parse_u64, parsed_number,
    split_at_first, split_once, trim, trim_start_matches, trimmed, without_prefixes,
};
use bytes::Bytes;
use vstd::prelude::*;

verus! {

// ── Server address ────────────────────────────────────────────────────────────

pub const DEFAULT_PORT: u16 = 443;

/// The host and port in a server address: the scheme and the path are dropped, and a port that
/// is absent or no port number is 443.
pub open spec fn host_and_port(url: Seq<char>) -> (Seq<char>, u16) {
    let rest = without_prefixes(without_prefixes(trimmed(url), "https://"@), "http://"@);
    let hostport = match split_at_first(rest, "/"@) {
        Some((before, _)) => before,
        None => rest,
    };
    match split_at_first(hostport, ":"@) {
        Some((host, port)) => (
            host,
            match parsed_number(port) {
                Some(n) => if n <= u16::MAX {
                    n as u16
                } else {
                    DEFAULT_PORT
                },
                None => DEFAULT_PORT,
            },
        ),
        None => (hostport, DEFAULT_PORT),
    }
}

/// The host and port in a server address.
pub fn parse_server_url(url: &str) -> (r: (String, u16))
    ensures
        (r.0@, r.1) == host_and_port(url@),
{
    proof {
        reveal_strlit("https://");
        reveal_strlit("http://");
    }
    let rest = trim_start_matches(trim_start_matches(trim(url), "https://"), "http://");
    let hostport = match split_once(rest, "/") {
        Some((before, _)) => {
            proof {
                crate::text::lemma_first_occurrence(rest@, "/"@, before@.len() as int);
            }
            before
        },
        None => rest,
    };
    match split_once(hostport, ":") {
        Some((host, port)) => {
            proof {
                crate::text::lemma_first_occurrence(hostport@, ":"@, host@.len() as int);
            }
            let port: u16 = match parse_u64(port) {
                Some(n) => if n <= u16::MAX as u64 {
                    n as u16
                } else {
                    DEFAULT_PORT
                },
                None => DEFAULT_PORT,
            };
            (host.to_string(), port)
        },
        None => (hostport.to_string(), DEFAULT_PORT),
    }
}

// ── Headers ───────────────────────────────────────────────────────────────────

/// The headers of every request, with the credentials that there are.
pub open spec fn request_headers(
    version: Seq<char>,
    token: Option<Seq<char>>,
    device_id: Option<Seq<char>>,
) -> Seq<(Seq<char>, Seq<char>)> {
    seq![
        ("content-type"@, "application/grpc"@),
        ("te"@, "trailers"@),
        ("grpc-encoding"@, "identity"@),
        ("user-agent"@, "konstruct-tui/"@ + version),
    ] + (match token {
        Some(t) => seq![("authorization"@, "Bearer "@ + t)],
        None => Seq::empty(),
    }) + (match device_id {
        Some(id) => seq![("x-device-id"@, id)],
        None => Seq::empty(),
    })
}

/// The names and values in a list of headers.
pub open spec fn header_views(h: Seq<(String, String)>) -> Seq<(Seq<char>, Seq<char>)> {
    Seq::new(h.len(), |i: int| (h[i].0@, h[i].1@))
}

fn push_header(h: &mut Vec<(String, String)>, name: &str, value: String)
    ensures
        header_views(final(h)@) == header_views(old(h)@).push((name@, value@)),
{
    h.push((name.to_string(), value));
    assert(header_views(h@) =~= header_views(old(h)@).push((name@, value@)));
}

/// The headers of a request. `version` is that of the program.
pub fn apply_auth_headers(version: &str, token: Option<&str>, device_id: Option<&str>) -> (r: Vec<
    (String, String),
>)
    ensures
        header_views(r@) == request_headers(version@, opt_str(token), opt_str(device_id)),
{
    let mut h: Vec<(String, String)> = Vec::new();
    push_header(&mut h, "content-type", "application/grpc".to_string());
    push_header(&mut h, "te", "trailers".to_string());
    push_header(&mut h, "grpc-encoding", "identity".to_string());
    push_header(&mut h, "user-agent", join("konstruct-tui/", version));
    if let Some(t) = token {
        push_header(&mut h, "authorization", join("Bearer ", t));
    }
    if let Some(id) = device_id {
        push_header(&mut h, "x-device-id", id.to_string());
    }
    assert(header_views(h@) =~= request_headers(version@, opt_str(token), opt_str(device_id)));
    h
}

// ── Status of a reply ─────────────────────────────────────────────────────────

#[verifier::external_type_specification]
#[verifier::external_body]
#[verifier::reject_recursive_types(T)]
pub struct ExHeaderMap<T>(http::HeaderMap<T>);

#[verifier::external_type_specification]
#[verifier::external_body]
pub struct ExHeaderValue(http::HeaderValue);

/// The first value under each header name, for the names whose first value is visible ASCII.
pub uninterp spec fn header_texts(h: http::HeaderMap<http::HeaderValue>) -> Map<
    Seq<char>,
    Seq<char>,
>;

pub open spec fn header_text(h: http::HeaderMap<http::HeaderValue>, name: Seq<char>) -> Option<
    Seq<char>,
> {
    if header_texts(h).contains_key(name) {
        Some(header_texts(h)[name])
    } else {
        None
    }
}

/// `http::HeaderMap::get` and `HeaderValue::to_str`: the first value under a name, when it is
/// visible ASCII.
#[verifier::external_body]
fn get_header<'a>(h: &'a http::HeaderMap<http::HeaderValue>, name: &str) -> (r: Option<&'a str>)
    ensures
        opt_str(r) == (if header_texts(*h).contains_key(name@) {
            Some(header_texts(*h)[name@])
        } else {
            None
        }),
{
    match h.get(name) {
        Some(v) => v.to_str().ok(),
        None => None,
    }
}

/// The outcome that a `grpc-status` and a `grpc-message` announce. No status, or one that is
/// no number, is no error.
pub open spec fn status_outcome(status: Option<Seq<char>>, message: Option<Seq<char>>) -> Result<
    (),
    GrpcErrorView,
> {
    let code = match status {
        Some(s) => match parsed_number(s) {
            Some(n) => if n <= u32::MAX {
                n
            } else {
                0
            },
            None => 0,
        },
        None => 0,
    };
    let msg = match message {
        Some(m) => m,
        None => Seq::empty(),
    };
    if code == 0 {
        Ok(())
    } else if code == 16 {
        Err(GrpcErrorView::Unauthenticated(msg))
    } else if code == 7 {
        Err(GrpcErrorView::PermissionDenied(msg))
    } else {
        Err(GrpcErrorView::Status { code: code as u32, message: msg })
    }
}

/// A result with the view of its error.
pub open spec fn error_viewed<T>(r: Result<T, GrpcError>) -> Result<T, GrpcErrorView> {
    match r {
        Ok(v) => Ok(v),
        Err(e) => Err(e@),
    }
}

/// The outcome that a status and a message announce.
pub fn status_result(status: Option<&str>, message: Option<&str>) -> (r: Result<(), GrpcError>)
    ensures
        error_viewed(r) == status_outcome(opt_str(status), opt_str(message)),
{
    let code: u64 = match status {
        Some(s) => match parse_u64(s) {
            Some(n) => if n <= u32::MAX as u64 {
                n
            } else {
                0
            },
            None => 0,
        },
        None => 0,
    };
    if code == 0 {
        return Ok(());
    }
    let msg = match message {
        Some(m) => m.to_string(),
        None => String::new(),
    };
    if code == 16 {
        Err(GrpcError::Unauthenticated(msg))
    } else if code == 7 {
        Err(GrpcError::PermissionDenied(msg))
    } else {
        Err(GrpcError::Status { code: code as u32, message: msg })
    }
}

/// The outcome that the headers or the trailers of a reply announce.
pub fn check_grpc_status(headers: &http::HeaderMap<http::HeaderValue>) -> (r: Result<
    (),
    GrpcError,
>)
    ensures
        error_viewed(r) == status_outcome(
            header_text(*headers, "grpc-status"@),
            header_text(*headers, "grpc-message"@),
        ),
{
    status_result(get_header(headers, "grpc-status"), get_header(headers, "grpc-message"))
}

// ── One call ──────────────────────────────────────────────────────────────────

pub open spec fn response_outcome(
    path: Seq<char>,
    http_code: u16,
    http_status: Seq<char>,
    headers: http::HeaderMap<http::HeaderValue>,
) -> Result<(), GrpcErrorView> {
    if http_code != 200 {
        Err(GrpcErrorView::Transport("HTTP "@ + http_status + " from '"@ + path + "'"@))
    } else {
        status_outcome(header_text(headers, "grpc-status"@), header_text(headers, "grpc-message"@))
    }
}

/// Whether the body of a reply is worth reading: HTTP says OK and the headers announce no
/// error. `http_status` is the HTTP status line that `http_code` belongs to.
pub fn check_response(
    path: &str,
    http_code: u16,
    http_status: &str,
    headers: &http::HeaderMap<http::HeaderValue>,
) -> (r: Result<(), GrpcError>)
    ensures
        error_viewed(r) == response_outcome(path@, http_code, http_status@, *headers),
{
    if http_code != 200 {
        let mut m = join("HTTP ", http_status);
        m.append(" from '");
        m.append(path);
        m.append("'");
        return Err(GrpcError::Transport(m));
    }
    check_grpc_status(headers)
}

pub open spec fn stream_outcome(
    http_code: u16,
    http_status: Seq<char>,
    headers: http::HeaderMap<http::HeaderValue>,
) -> Result<(), GrpcErrorView> {
    if http_code != 200 {
        Err(GrpcErrorView::Transport("MessageStream HTTP "@ + http_status))
    } else {
        status_outcome(header_text(headers, "grpc-status"@), header_text(headers, "grpc-message"@))
    }
}

/// Whether the message stream is open: HTTP says OK and the headers announce no error.
pub fn check_stream_response(
    http_code: u16,
    http_status: &str,
    headers: &http::HeaderMap<http::HeaderValue>,
) -> (r: Result<(), GrpcError>)
    ensures
        error_viewed(r) == stream_outcome(http_code, http_status@, *headers),
{
    if http_code != 200 {
        return Err(GrpcError::Transport(join("MessageStream HTTP ", http_status)));
    }
    check_grpc_status(headers)
}

pub open spec fn unary_outcome(
    trailers: Option<http::HeaderMap<http::HeaderValue>>,
    body: Seq<u8>,
) -> Result<Seq<u8>, GrpcErrorView> {
    let announced = match trailers {
        Some(t) => status_outcome(
            header_text(t, "grpc-status"@),
            header_text(t, "grpc-message"@),
        ),
        None => Ok(()),
    };
    match announced {
        Err(e) => Err(e),
        Ok(()) => if body.len() == 0 {
            Ok(Seq::empty())
        } else {
            match unframed(body) {
                Ok((message, _)) => Ok(message),
                Err(e) => Err(e),
            }
        },
    }
}

/// `Bytes::is_empty`: whether nothing is held.
#[verifier::external_body]
fn bytes_is_empty(b: &Bytes) -> (r: bool)
    ensures
        r == (held(*b).len() == 0),
{
    b.is_empty()
}

/// The message in the whole body of a reply, unless the trailers announce an error. An empty
/// body is an empty message; what follows the first frame is dropped.
pub fn finish_unary(trailers: Option<http::HeaderMap<http::HeaderValue>>, body: Bytes) -> (r: Result<
    Vec<u8>,
    GrpcError,
>)
    ensures
        match r {
            Ok(m) => unary_outcome(trailers, held(body)) == Ok::<Seq<u8>, GrpcErrorView>(m@),
            Err(e) => unary_outcome(trailers, held(body)) == Err::<Seq<u8>, GrpcErrorView>(e@),
        },
{
    if let Some(t) = trailers {
        if let Err(e) = check_grpc_status(&t) {
            return Err(e);
        }
    }
    if bytes_is_empty(&body) {
        return Ok(Vec::new());
    }
    match decode_frame(body) {
        Ok((message, _)) => Ok(bytes_to_vec(&message)),
        Err(e) => Err(e),
    }
}

// ── The client ────────────────────────────────────────────────────────────────

/// Where the server is, who we are, and whether there is a live connection.
pub struct GrpcClient {
    host: String,
    port: u16,
    token: Option<String>,
    device_id: Option<String>,
    connected: bool,
}

#[verifier::ext_equal]
pub struct ClientView {
    pub host: Seq<char>,
    pub port: u16,
    pub token: Option<Seq<char>>,
    pub device_id: Option<Seq<char>>,
    pub connected: bool,
}

impl View for GrpcClient {
    type V = ClientView;

    closed spec fn view(&self) -> ClientView {
        ClientView {
            host: self.host@,
            port: self.port,
            token: opt_text(self.token),
            device_id: opt_text(self.device_id),
            connected: self.connected,
        }
    }
}

/// What to do after one attempt at a call.
pub enum UnaryNext {
    /// Connect anew and try once more.
    Retry,
    /// Hand this to the caller.
    Done(Result<Vec<u8>, GrpcError>),
}

impl GrpcClient {
    /// A client for the server at `server_url`; nothing is opened yet.
    pub fn new(server_url: &str) -> (r: Self)
        ensures
            r@ == (ClientView {
                host: host_and_port(server_url@).0,
                port: host_and_port(server_url@).1,
                token: None,
                device_id: None,
                connected: false,
            }),
    {
        let (host, port) = parse_server_url(server_url);
        GrpcClient { host, port, token: None, device_id: None, connected: false }
    }

    pub fn set_token(&mut self, token: Option<String>)
        ensures
            final(self)@ == (ClientView { token: opt_text(token), ..old(self)@ }),
    {
        self.token = token;
    }

    pub fn set_device_id(&mut self, device_id: Option<String>)
        ensures
            final(self)@ == (ClientView { device_id: opt_text(device_id), ..old(self)@ }),
    {
        self.device_id = device_id;
    }

    /// Host and port, as the `host` header wants them.
    pub fn authority(&self) -> (r: String)
        ensures
            r@ == self@.host + ":"@ + decimal(self@.port as nat),
    {
        let mut s = join(self.host.as_str(), ":");
        s.append(format_u64(self.port as u64).as_str());
        s
    }

    pub fn host(&self) -> (r: &str)
        ensures
            r@ == self@.host,
    {
        self.host.as_str()
    }

    pub fn port(&self) -> (r: u16)
        ensures
            r == self@.port,
    {
        self.port
    }

    /// The token and the device id.
    pub fn auth_headers(&self) -> (r: (Option<String>, Option<String>))
        ensures
            opt_text(r.0) == self@.token,
            opt_text(r.1) == self@.device_id,
    {
        let token = match as_deref(&self.token) {
            Some(t) => Some(t.to_string()),
            None => None,
        };
        let device_id = match as_deref(&self.device_id) {
            Some(t) => Some(t.to_string()),
            None => None,
        };
        (token, device_id)
    }

    /// Whether a call has to connect first.
    pub fn needs_connection(&self) -> (r: bool)
        ensures
            r == !self@.connected,
    {
        !self.connected
    }

    /// A connection was made.
    pub fn connection_made(&mut self)
        ensures
            final(self)@ == (ClientView { connected: true, ..old(self)@ }),
    {
        self.connected = true;
    }

    /// Forgets the live connection, so that the next call opens a new one.
    pub fn invalidate(&mut self)
        ensures
            final(self)@ == (ClientView { connected: false, ..old(self)@ }),
    {
        self.connected = false;
    }

    /// The same, under the name that the stream worker uses.
    pub fn invalidate_h3(&mut self)
        ensures
            final(self)@ == (ClientView { connected: false, ..old(self)@ }),
    {
        self.invalidate();
    }

    /// What follows the result of an attempt, counted from one. A transport failure drops the
    /// connection, and the first one is tried again; any other result stands.
    pub fn unary(&mut self, attempt: u32, result: Result<Vec<u8>, GrpcError>) -> (r: UnaryNext)
        ensures
            r is Retry <==> (result matches Err(e) && retried(attempt as nat, e@)),
            r is Done ==> r->Done_0 == result,
            final(self)@ == (ClientView {
                connected: old(self)@.connected && !(result matches Err(e) && retryable(e@)),
                ..old(self)@
            }),
    {
        let failed = match &result {
            Ok(_) => false,
            Err(e) => e.is_retryable_transport(),
        };
        if failed {
            self.invalidate();
            if attempt == 1 {
                return UnaryNext::Retry;
            }
        }
        UnaryNext::Done(result)
    }
}

/// Whether a failed attempt, counted from one, is followed by another: a transport failure is,
/// the first time.
pub open spec fn retried(attempt: nat, e: GrpcErrorView) -> bool {
    attempt == 1 && retryable(e)
}

/// A call is never tried a third time, and a refusal never a second time.
pub proof fn law_retries_are_bounded(attempt: nat, e: GrpcErrorView)
    ensures
        attempt >= 2 ==> !retried(attempt, e),
        crate::grpc::error::unauthenticated(e) || crate::grpc::error::permission_denied(e)
            ==> !retried(attempt, e),
{
}

} // verus!
