//! A source-to-source compiler for a small typed scripting language.
//!
//! The compiler parses source text into an abstract syntax tree, tracks
//! lexical scopes and function declarations (whose bodies are parsed lazily,
//! once per distinct call-site signature), and emits an equivalent program
//! in a line-oriented shell dialect. A small evaluator for that dialect
//! executes the emitted text and captures its standard output, which is how
//! the acceptance tests observe the compiler end to end.

pub mod text;
pub mod error;
pub mod types;
pub mod token;
pub mod scope;
pub mod ast;
pub mod registry;
pub mod parser;
pub mod translate;
pub mod interpreter;
pub mod compiler;
