//! The session reducer: a pure function from a session's state and one
//! event to the next state and the effects its caller performs.

pub mod approvals;
pub mod common;
pub mod connector;
pub mod copies;
pub mod effects;
pub mod events;
pub mod finalize;
pub mod laws;
pub mod lifecycle;
pub mod metadata;
pub mod model;
pub mod reducer;
pub mod rows;
pub mod state;
pub mod subagents;
