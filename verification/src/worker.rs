//! The worker's settings and state, and the decisions of its job loop.
pub mod config;
pub mod engine;
