//! Game-neutral telemetry state, partial updates and the session-aware reducer.

pub mod model;
pub mod state;
pub mod frames;
pub mod groups;
pub mod defaults;
pub mod extensions;
pub mod reducer;
pub mod laws;
pub mod repeat;
pub mod order;
pub mod written;
