//! gRPC over HTTP/2: framing, status, headers, and what each call asks and makes of its reply.
//! Sockets, TLS and HTTP/2 itself are the caller's.

pub mod auth;
pub mod client;
pub mod error;
pub mod framing;
pub mod invite;
pub mod keys;
pub mod paths;
pub mod stream;
pub mod users;
