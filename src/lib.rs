//! Client-side engine for an agent interaction protocol: frame decoding of a
//! Server-Sent Events byte stream, the closed event model, and the run reducer
//! that reconstructs messages and state and merges subscriber mutations.

pub mod agent;
pub mod error;
pub mod event;
pub mod handler;
pub mod http;
pub mod json;
pub mod sse;
pub mod text;
pub mod types;
