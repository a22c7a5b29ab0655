//! A small interactive terminal counter: a bounded counter driven by key
//! presses, rendered as a bordered text panel.
//!
//! The state machine and the rendering are verified; terminal I/O lives
//! outside this crate.

pub mod app;
pub mod render;
