//! Lifecycle orchestration for one named container instance.
//!
//! The library decides which engine request follows which engine response for
//! each operation on the instance, and synthesizes the container
//! configuration that a deploy or an update asks the engine to create. It
//! performs no engine call itself: a driver performs each request and hands
//! the response back.

pub mod command;
pub mod config;
pub mod engine;
pub mod image;
pub mod laws;
pub mod model;
pub mod secret;
pub mod text;
