//! Reading what a user typed.

pub mod parser;
