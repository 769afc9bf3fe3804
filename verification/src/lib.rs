//! Probing OpenAI-compatible model endpoints: the verified core.
//!
//! This crate holds the decisions of the `tellme` prober: which URLs are
//! called, what request bodies are sent, how the server's JSON answers are
//! judged, which checks run in which order, and what the terminal dashboard
//! shows. Network, clock and process handling stay in the binary around it.
pub mod json;
pub mod endpoint;
pub mod probe;
pub mod plan;
pub mod decimal;
pub mod dashboard;
pub mod terminal;
pub mod request;
pub mod image;
