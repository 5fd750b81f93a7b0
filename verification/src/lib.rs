//! Authentication and authorization core of a small content service:
//! accounts and posts, bearer tokens, capability policies and
//! owner-or-admin access control, with every decision stated and proved.

pub mod digest;
pub mod errors;
pub mod jwt;
pub mod middlewares;
pub mod models;
pub mod oid;
pub mod routes;
pub mod store;
mod text;
