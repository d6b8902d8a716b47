//! A syntactic front end for a Kotlin-like language: source text in,
//! abstract syntax tree out.

pub mod chars;
pub mod token;
pub mod ast;
pub mod model;
pub mod ty;
pub mod literal;
pub mod annotation;
pub mod expression;
pub mod declaration;
pub mod parser;
