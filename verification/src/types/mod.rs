//! Core data models.

pub mod message;
pub mod permission;
pub mod session;
pub mod task;
pub mod tool;
