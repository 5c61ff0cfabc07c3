//! A message-routing and conversation-orchestration engine.
//!
//! The library owns the logic of a small chat agent: an ordered
//! conversation history with a trimming policy that protects the leading
//! system directive, a retry policy with capped exponential backoff, a
//! turn state machine that drives one user message through completion and
//! an optional tool round, a tool dispatcher with a demo calculator, and
//! the decision rules of the source and sink adapters (fan-in, fan-out,
//! resilience and shutdown). Transport and scheduling live outside, in an
//! unverified shell that feeds events in and carries actions out.

pub mod adapters;
pub mod calc;
pub mod config;
pub mod engine;
pub mod history;
pub mod messages;
pub mod resilience;
pub mod retry;
pub mod tools;
pub mod turn;
pub mod util;
pub mod wire;
