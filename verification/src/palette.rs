//! The paletted block container and its parts.

pub mod container;
pub mod content;
pub mod palette;
