//! Shared state store of a compiler front-end: source text, spans, syntax
//! nodes, structural blocks and diagnostics, with checkpoint/rollback for
//! speculative parsing and a merge step for analysis-pass results.
pub mod compiler;
pub mod errors;
pub mod laws;
pub mod render;
pub mod resolver;
pub mod span;
pub mod syntax;
pub mod text;
pub mod typechecker;
