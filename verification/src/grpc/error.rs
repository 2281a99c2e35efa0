//! Errors of the gRPC client.

use crate::text::{decimal, format_u64, join};
use vstd::prelude::*;

verus! {

#[derive(Debug)]
pub enum GrpcError {
    Transport(String),
    Tls(String),
    Status { code: u32, message: String },
    Unauthenticated(String),
    PermissionDenied(String),
}

/// What an error says.
#[verifier::ext_equal]
pub enum GrpcErrorView {
    Transport(Seq<char>),
    Tls(Seq<char>),
    Status { code: u32, message: Seq<char> },
    Unauthenticated(Seq<char>),
    PermissionDenied(Seq<char>),
}

impl View for GrpcError {
    type V = GrpcErrorView;

    open spec fn view(&self) -> GrpcErrorView {
        match self {
            GrpcError::Transport(m) => GrpcErrorView::Transport(m@),
            GrpcError::Tls(m) => GrpcErrorView::Tls(m@),
            GrpcError::Status { code, message } => GrpcErrorView::Status {
                code: *code,
                message: message@,
            },
            GrpcError::Unauthenticated(m) => GrpcErrorView::Unauthenticated(m@),
            GrpcError::PermissionDenied(m) => GrpcErrorView::PermissionDenied(m@),
        }
    }
}

/// A failure below gRPC, which a fresh connection may cure.
pub open spec fn retryable(e: GrpcErrorView) -> bool {
    e is Transport || e is Tls
}

pub open spec fn unauthenticated(e: GrpcErrorView) -> bool {
    e is Unauthenticated || (e matches GrpcErrorView::Status { code, .. } && code == 16)
}

pub open spec fn permission_denied(e: GrpcErrorView) -> bool {
    e is PermissionDenied || (e matches GrpcErrorView::Status { code, .. } && code == 7)
}

/// The text of an error.
pub open spec fn error_text(e: GrpcErrorView) -> Seq<char> {
    match e {
        GrpcErrorView::Transport(m) => "transport: "@ + m,
        GrpcErrorView::Tls(m) => "tls: "@ + m,
        GrpcErrorView::Status { code, message } => "grpc "@ + decimal(code as nat) + ": "@ + message,
        GrpcErrorView::Unauthenticated(m) => "unauthenticated: "@ + m,
        GrpcErrorView::PermissionDenied(m) => "permission denied: "@ + m,
    }
}

impl GrpcError {
    pub fn transport(msg: &str) -> (r: Self)
        ensures
            r@ == GrpcErrorView::Transport(msg@),
    {
        GrpcError::Transport(msg.to_string())
    }

    pub fn tls(msg: &str) -> (r: Self)
        ensures
            r@ == GrpcErrorView::Tls(msg@),
    {
        GrpcError::Tls(msg.to_string())
    }

    pub fn status(code: u32, message: &str) -> (r: Self)
        ensures
            r@ == (GrpcErrorView::Status { code, message: message@ }),
    {
        GrpcError::Status { code, message: message.to_string() }
    }

    pub fn unauthenticated(msg: &str) -> (r: Self)
        ensures
            r@ == GrpcErrorView::Unauthenticated(msg@),
    {
        GrpcError::Unauthenticated(msg.to_string())
    }

    pub fn permission_denied(msg: &str) -> (r: Self)
        ensures
            r@ == GrpcErrorView::PermissionDenied(msg@),
    {
        GrpcError::PermissionDenied(msg.to_string())
    }

    /// The server did not accept the bearer token.
    pub fn is_unauthenticated(&self) -> (r: bool)
        ensures
            r == unauthenticated(self@),
    {
        match self {
            GrpcError::Unauthenticated(_) => true,
            GrpcError::Status { code, .. } => *code == 16,
            _ => false,
        }
    }

    pub fn is_permission_denied(&self) -> (r: bool)
        ensures
            r == permission_denied(self@),
    {
        match self {
            GrpcError::PermissionDenied(_) => true,
            GrpcError::Status { code, .. } => *code == 7,
            _ => false,
        }
    }

    /// A transport failure: worth a retry on a fresh connection, and no word on who we are.
    pub fn is_retryable_transport(&self) -> (r: bool)
        ensures
            r == retryable(self@),
    {
        match self {
            GrpcError::Transport(_) => true,
            GrpcError::Tls(_) => true,
            _ => false,
        }
    }

    /// The text of the error.
    pub fn message(&self) -> (r: String)
        ensures
            r@ == error_text(self@),
    {
        match self {
            GrpcError::Transport(m) => join("transport: ", m.as_str()),
            GrpcError::Tls(m) => join("tls: ", m.as_str()),
            GrpcError::Status { code, message } => {
                let mut s = join("grpc ", format_u64(*code as u64).as_str());
                s.append(": ");
                s.append(message.as_str());
                s
            },
            GrpcError::Unauthenticated(m) => join("unauthenticated: ", m.as_str()),
            GrpcError::PermissionDenied(m) => join("permission denied: ", m.as_str()),
        }
    }
}

/// A transport failure says nothing about credentials: no error is both worth a retry and a
/// refusal.
pub proof fn law_transport_is_no_refusal(e: GrpcErrorView)
    ensures
        retryable(e) ==> !unauthenticated(e) && !permission_denied(e),
        !(unauthenticated(e) && permission_denied(e)),
{
}

} // verus!
