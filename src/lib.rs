//! Answers for the text a user has selected: the provider is picked from a token, the
//! request for it is built, and what comes back is read into a short plain-text answer.
//!
//! The library decides and the caller performs: [`session::begin`] and
//! [`session::advance`] say which HTTP request to send next, or what the answer is, and
//! the caller hands back how each request came out.

pub mod config;
pub mod error;
pub mod html;
pub mod json;
pub mod provider;
pub mod search;
pub mod selection;
pub mod session;
pub mod text;
