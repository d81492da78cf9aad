//! Client-side building blocks for hosted chat-completion APIs: a verified
//! incremental decoder for streamed event frames, typed response records,
//! and a provider-agnostic response normalizer.
//!
//! The modules split along the wire: `frame` finds event boundaries in
//! chunked text, `json` models and trusts the JSON parser, `qianfan` and
//! `openai` give the providers' records their schemas, `stream` drives the
//! carry-over state machine, and `chat` normalizes everything into one
//! response type.

pub mod chat;
pub mod frame;
pub mod json;
pub mod openai;
pub mod qianfan;
pub mod stream;
