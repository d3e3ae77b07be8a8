//! Verified core of a pipe-progress utility.
//!
//! The library moves bytes from a source to a sink unchanged while keeping an
//! exact count of the transferred units (bytes, or occurrences of a delimiter
//! byte), and derives the progress-display template that a terminal renderer
//! is handed.  Argument parsing and the renderer itself are collaborators
//! outside this crate; the copy loop, its error policy and the template
//! derivation are specified and proved here.

pub mod decimal;
pub mod engine;
pub mod scripted;
pub mod stream;
pub mod template;
