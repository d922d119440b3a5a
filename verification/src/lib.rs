//! A mail-capture server's protocol engine: the SMTP command parser, the
//! `AUTH PLAIN` authenticator, the per-connection session state machine and
//! the in-memory message store, with what a viewer of the messages is shown.

pub mod auth;
pub mod command;
pub mod constants;
pub mod email;
pub mod http;
pub mod http_server;
pub mod mail_io;
pub mod mime;
pub mod session;
pub mod store;
pub mod text;
pub mod util;
