//! A verified core for a one-route HTTP service that fetches a random cat
//! photo and answers with the picture rendered as HTML ASCII art.
//!
//! The crate holds the request pipeline's logic: decoding the upstream
//! search response, selecting the image URL, validating HTTP statuses,
//! rendering fetched bytes to art, and mapping the outcome to an HTTP
//! reply.  The surrounding server (sockets, outbound requests) lives
//! outside and hands plain statuses and bytes in.

pub mod errors;
pub mod json;
pub mod outside;
pub mod pipeline;
