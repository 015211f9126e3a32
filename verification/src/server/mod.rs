//! The server side: errors, the encoder, the state manager and what the
//! HTTP glue decides.

pub mod error;
pub mod encoder;
pub mod state;
pub mod agent;
pub mod http;
