//! The front end: token sources and the parser.

pub mod grammar;
pub mod lexer;
pub mod parser;
pub mod precedence;
pub mod progress;
pub mod refusal;
pub mod shape;
