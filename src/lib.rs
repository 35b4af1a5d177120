//! Event-sourced pomodoro sessions: the session model, an append-only event
//! store, the start/stop transition table, and the replay that derives the
//! status of the latest session.

mod clock;
pub mod model;
pub mod store;
pub mod config;
pub mod machine;
pub mod replay;
pub mod hook;
pub mod laws;
