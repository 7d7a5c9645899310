//! A reverse proxy between WebSocket clients and HTTP backends.
//!
//! Frames that a client sends are posted to the client's backend; each post
//! carries a callback URL, and whatever is posted to that URL goes back to the
//! client as a frame. This crate decides everything that the server does. It
//! performs no input or output of its own: a handler or a session says what is
//! to be done next and is told how that went.
pub mod allowlist;
pub mod body;
pub mod config;
pub mod connections;
pub mod fields;
pub mod ids;
pub mod laws;
pub mod message;
pub mod reply;
pub mod router;
pub mod send;
pub mod serve;
pub mod state;
pub mod text;
pub mod urls;
