//! Core of an AG-UI client/server pair: the event model, the protocol
//! verifier, the event-to-conversation fold, the tool-call filter, the
//! state manager and the SSE encoder, with machine-checked contracts.

pub mod error;
pub mod text;
pub mod json;
pub mod uuid_text;
pub mod text_set;
pub mod text_map;
pub mod ids;
pub mod message;
pub mod event;
pub mod verify;
pub mod transcript;
pub mod engine;
pub mod agent;
pub mod conversation;
pub mod filter;
pub mod middleware;
pub mod sse;
pub mod server;
