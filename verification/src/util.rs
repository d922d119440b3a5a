//! Helpers that the protocol engine shares.

pub mod base64;
