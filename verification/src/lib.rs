//! Follow-up goal engine: a contact record with its state machine, the
//! follow-up action's decision logic and backoff policy, a goal scheduler,
//! and the registry of submitted goal names.

pub mod classify;
pub mod email_agent;
pub mod engine;
pub mod gmail;
pub mod memory;
pub mod registry;
pub mod routes;
