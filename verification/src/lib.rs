//! Gmail authorization and draft creation for a desktop application.
//!
//! The crate covers the OAuth2 authorization-code flow with PKCE: building the
//! authorization URL, capturing the redirect on a local listener, turning the
//! token endpoint's answers into token records, keeping the one record the
//! process holds, and composing the draft that is posted with it. Network and
//! socket work is left to the caller; every decision around it is made here.

pub mod callback;
pub mod commands;
pub mod error;
pub mod gmail;
pub mod json;
pub mod listener;
pub mod state;
pub mod time;
pub mod token;
