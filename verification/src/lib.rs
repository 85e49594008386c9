//! A gateway library that translates between two LLM wire formats: an
//! inbound "messages" request shape and an outbound OpenAI-style chat
//! completion shape.  The translation logic, the streaming-chunk state
//! machine, and the local token estimator are verified; the HTTP plumbing
//! around them lives outside this crate.

pub mod adapters;
pub mod config;
pub mod models;
pub mod services;
pub mod text;
