//! A client library for building and sending structured messages to a
//! Discord-style webhook endpoint.
//!
//! The heart of the crate is the message validation engine: before a message
//! is serialized and transmitted, a validation pass walks the message tree
//! (content, embeds, action rows, buttons) and enforces the platform's
//! documented limits — length intervals, per-row and per-message counts, and
//! message-wide uniqueness of button custom ids. Every rule of that engine is
//! stated as a specification and proved.

pub mod builder;
pub mod checker;
pub mod components;
pub mod context;
pub mod error;
pub mod interval;
pub mod laws;
pub mod models;
