//! The interactive terminal interface: its state, how keys change it, and
//! what it shows.

pub mod app;
pub mod input;
pub mod output;
pub mod components;
pub mod event_loop;
