//! The back half of a compiler for the Yidika language: a syntax tree becomes LLVM or C text, with
//! diagnostics, the description of the machine, and the command line.

pub mod cli;
pub mod codegen;
pub mod diagnostics;
pub mod hardware;
pub mod interpret;
pub mod scan;
pub mod socket;
pub mod syntax;
pub mod table;
pub mod text;
