//! Core of a compiler for a small curried functional language that targets LLVM IR.
//!
//! The pipeline is `lexer::lex` → `parser::parse` → `semantizer::semantize` →
//! `codegen::compile`.  Every stage is a verified function whose contract is stated
//! over the mathematical views of the data it consumes and produces.

pub mod text;
pub mod str_info;
pub mod token;
pub mod lexer;
pub mod sem;
pub mod qual_sem;
pub mod ty_sem;
pub mod fn_sem;
pub mod ast;
pub mod parser;
pub mod store;
pub mod context;
pub mod interning;
pub mod families;
pub mod scopes;
pub mod semantizer;
pub mod llvm;
pub mod codegen;
pub mod spans;
pub mod diagnostics;
