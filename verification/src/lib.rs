//! Verified core of the stocks backend: the per-session stock registers,
//! the authentication decisions, the error-to-response mapping and the
//! data layout used by the price regression.

pub mod auth;
pub mod errors;
pub mod handlers;
pub mod models;
pub mod regression_model;
pub mod state;
pub mod stocks_register;
pub mod table;
pub mod text;
