//! The syntax tree that the code generators read.

pub mod ast;
