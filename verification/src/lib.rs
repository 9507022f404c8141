//! Request payloads for an OpenAI-compatible inference service.
//!
//! A payload is started from its required fields, given its optional
//! settings one by one, and built: [`chat`] holds chat completion requests,
//! [`completions`] text completion requests and [`embeddings`] embeddings
//! requests, and [`presets`] a few requests ready to send. [`codec`] gives
//! each payload its shape on the wire as a [`wire::WireValue`] and reads it
//! back, and [`json`] writes such a value as JSON text. [`dialogue`] keeps
//! the running prompt of a conversation that is held line by line.
//!
//! Sampling values and penalties are exact decimals, see [`number`]; what
//! can be wrong with an input is listed in [`error`].

pub mod chat;
pub mod codec;
pub mod completions;
pub mod dialogue;
pub mod embeddings;
pub mod error;
pub mod json;
pub mod number;
pub mod presets;
pub mod wire;
