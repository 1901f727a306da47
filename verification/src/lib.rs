//! Relay between a chat platform's event stream and a conversational
//! completion backend: frame decoding, the relevance filter, the per-user
//! session store and the request/response pipeline, as verified logic.

pub mod conversation;
pub mod frame;
pub mod json;
pub mod laws;
pub mod most;
pub mod relay;
pub mod session;
pub mod text;
