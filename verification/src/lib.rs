//! An interactive line picker: a source list of text lines is narrowed by a
//! regular-expression query, browsed through a sliding viewport, and one line
//! is finally chosen (or the selection is cancelled).
//!
//! The crate verifies the core of the picker: the filter engine, the
//! viewport/cursor state machine, and the event-driven selection protocol.
//! Terminal drawing and input acquisition are left to the host.

pub mod client;
pub mod filter;
pub mod pattern;
pub mod render;
pub mod text;

pub use client::Client;
pub use client::Event;
pub use client::Status;
