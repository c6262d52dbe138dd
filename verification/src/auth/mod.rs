//! Issuing and checking session tokens, and resolving who makes a request.

pub mod extractor;
pub mod jwt;
