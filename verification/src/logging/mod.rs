//! In-memory log capture.

pub mod buffer;
