//! The Cohere chat provider: how a gateway's inference request becomes a Cohere
//! v2 chat request, and how Cohere's answers, whole or streamed, become the
//! gateway's own responses.
//!
//! Everything here computes on values. Sending a request, reading an answer and
//! turning JSON text into the wire types is done by the caller.

pub mod credentials;
pub mod error;
pub mod inference;
pub mod openai;
pub mod outside;
pub mod provider;
pub mod request;
pub mod response;
pub mod stream;
pub mod text;
pub mod tool;
