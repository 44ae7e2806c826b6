//! Phase timers and counters for a compiler pipeline.

pub mod corpus;
pub mod cost;
pub mod digest;
pub mod duration;
pub mod measure_ast_state;
pub mod profile;
