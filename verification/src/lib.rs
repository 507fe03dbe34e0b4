//! Verified core of an agentic coding assistant: conversation types, the
//! built-in tools and the decisions their calls make, a tool registry, an
//! agent mailbox, a task store, and the state and views of the terminal
//! interface.

pub mod error;
pub mod ext;
pub mod keyed;
pub mod text;
pub mod tools;
pub mod tui;
pub mod types;
