//! The data shapes of accounts and posts.

pub mod post;
pub mod user;
