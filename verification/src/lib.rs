//! A client-side model of the mod.io REST API: credentials, request
//! construction, query and form encoding, and the rules that decide how a
//! request is authorised and how a response is classified.

pub mod auth;
pub mod client;
pub mod encoding;
pub mod error;
pub mod filter;
pub mod form;
pub mod mods;
pub mod request;
pub mod stream;
