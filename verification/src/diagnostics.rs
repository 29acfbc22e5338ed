//! Where in a source text something stands, and what the compiler has to say about it.

pub mod error;
pub mod preview;
pub mod span;
