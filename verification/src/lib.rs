//! Syntactic front end of the `first-step` language: the token and syntax tree
//! definitions, and the recursive-descent parser that turns a token stream
//! into syntax trees.

pub mod define;
pub mod front;
