//! Definitions shared by the front end and by the consumers of its trees.

pub mod ast;
pub mod token;
