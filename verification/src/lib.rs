//! Conversation orchestration engine for automated two-agent code review.
//!
//! The library drives a bounded conversation between a "senior" and a
//! "junior" agent, each bound to a language-model backend. It
//! contains the pure, verified core: the data model, the provider registry
//! and retry policy, stream aggregation, prompt assembly, and the
//! conversation state machine with its termination rules. Network transport,
//! configuration file parsing and asynchronous plumbing live outside the
//! library and feed it plain values.

pub mod config;
pub mod errors;
pub mod orchestrator;
pub mod prompt;
pub mod provider;
pub mod registry;
pub mod retry;
pub mod sentinel;
pub mod stream;
