//! A small user service over a flat key-value store: users are created under a
//! freshly generated identifier and listed by enumerating keys and then
//! fetching each value.
//!
//! The store and the HTTP transport are collaborators outside this library:
//! the library decides what to send to the store and what a reply means, and
//! the caller performs the calls and hands the replies back.

pub mod user;
pub mod ident;
pub mod create;
pub mod list;
pub mod http;
pub mod laws;
