//! What the HTTP handlers decide, apart from the I/O they do.

pub mod admin;
pub mod auth;
pub mod stocks;
