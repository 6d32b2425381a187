//! In-memory data model of a small text-editing environment: named text
//! buffers, position markers inside them, and windows that look at a buffer
//! through a marker.
//!
//! Every type has a mathematical view, and every function states over those
//! views what it builds or changes.

pub mod buffer;
pub mod environment;
pub mod marker;
pub mod window;

pub use buffer::{Buffer, BufferView};
pub use environment::{EnvironmentView, MacroDSLEnvironment};
pub use marker::Marker;
pub use window::{Window, WindowView};
