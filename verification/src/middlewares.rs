//! What stands between a request and a handler.

pub mod auth;
