//! Core of the Konstruct terminal messenger: wire formats, invites, the message
//! stream, the session actor and the screen logic, with their contracts proved.
//!
//! Nothing here performs I/O. The surrounding program owns the sockets, the disk and
//! the terminal; it hands plain values in and carries out the requests it gets back.

pub mod app;
pub mod auth;
pub mod bridge;
pub mod clock;
pub mod config;
pub mod encoding;
pub mod envelope;
pub mod event;
pub mod grpc;
pub mod invite;
pub mod knst;
pub mod laws;
pub mod orchestration;
pub mod orchestrator_task;
pub mod proto;
pub mod screens;
pub mod signing;
pub mod startup;
pub mod storage;
pub mod streaming;
pub mod text;
