//! Code generation.

pub mod backend;
pub mod c;
pub mod emit;
pub mod literals;
pub mod llvm;
pub mod toolchain;

pub use c::{compile_to_c, Codegen};
