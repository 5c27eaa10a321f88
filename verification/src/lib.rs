//! A typed schema and marshaling layer for a generative-AI HTTP API.
//!
//! Requests are assembled through validating builders, serialized by
//! hand-written encoders into the exact JSON shapes the remote API
//! expects, and response bodies are decoded back into typed values.
//! All of it is specified and verified: every encoder states the JSON
//! tree and text it produces, every decoder states exactly which
//! bodies it accepts and what it returns for them.

pub mod chat;
pub mod image;
pub mod error;
pub mod json;
