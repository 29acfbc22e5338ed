//! The LLVM back end: modules become the text of an LLVM module.

pub mod block;
pub mod builtins;
pub mod call;
pub mod choosing;
pub mod classes;
pub mod complex;
pub mod counting;
pub mod dispatch;
pub mod expr;
pub mod expressions;
pub mod fields;
pub mod flow;
pub mod growth;
pub mod handler;
pub mod identity;
pub mod laws;
pub mod library;
pub mod matching;
pub mod meaning;
pub mod methods;
pub mod module;
pub mod names;
pub mod operators;
pub mod ops;
pub mod pattern;
pub mod reply;
pub mod show;
pub mod state;
pub mod stmt;
pub mod storing;
pub mod structs;
pub mod types;
pub mod values;

pub use handler::{generate_fn_handler_ir, generate_static_handler_ir};
pub use module::{compile_to_llvm, compile_to_llvm_modules};
pub use state::LlvmCodegen;
