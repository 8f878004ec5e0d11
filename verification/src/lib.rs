//! Front end of a small programming-language toolchain: a tokenizer with
//! position tracking and error recovery, and a precedence-climbing expression
//! parser, both producing structured diagnostics instead of crashing on
//! malformed input.

pub mod lexer;
pub mod parser;
pub mod span;
