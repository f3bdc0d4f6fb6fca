//! Service lifecycle bridge: the decisions and records behind registering a
//! process with its host's service supervisor, reporting its state, and
//! carrying the outcome of blocking supervisor calls back to their caller.

pub mod bridge;
pub mod config;
pub mod dispatch;
pub mod error;
pub mod lifecycle;
pub mod status;
pub mod text;
