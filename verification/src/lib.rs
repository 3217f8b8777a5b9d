//! Request signing, canonical request construction and response
//! classification for the OKX REST API.
//!
//! The crate holds the pure part of an authenticated request: it builds the
//! query string and body, signs the canonical string, assembles the headers,
//! and turns a status code and a body text into a typed result. Sending the
//! request is left to the caller.

pub mod base64_text;
pub mod clock;
pub mod error;
pub mod exchanges;
pub mod json;
pub mod query;
pub mod response;
pub mod signature;
pub mod string_map;
pub mod text;
