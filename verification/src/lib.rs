//! A framework core for Discord HTTP-interaction bots.
//!
//! The crate models chat-input commands, the two-level tree of command
//! groups, the Ed25519 request-authentication gate, the interaction
//! dispatcher, and the coercion of raw interaction option values into
//! typed handler arguments. Network transport and handler execution are
//! left to the embedding application.

use vstd::prelude::*;

pub mod builder;
pub mod coercion;
pub mod context;
pub mod crypto;
pub mod error;
pub mod handler;
pub mod http;
pub mod i18n;
pub mod interaction;
pub mod json;
pub mod model;
pub mod response;
pub mod serialize;
pub mod text;
