//! Front end of a small statically typed, class-based language: source
//! positions, diagnostics, tokens, a lexer, a backtracking parser, the syntax
//! tree, and the binding of generic parameters to concrete types.

pub mod sources;
pub mod span;
pub mod chars;
pub mod text;
pub mod keyword;
pub mod symbol;
pub mod token;
pub mod lexer;
pub mod expected;
pub mod error;
pub mod ident;
pub mod integer;
pub mod float;
pub mod generics;
pub mod data;
pub mod path;
pub mod specialization;
pub mod function;
pub mod ty;
pub mod type_text;
pub mod type_eq;
pub mod hashing;
pub mod expr;
pub mod stmt;
pub mod block;
pub mod decl;
pub mod field;
pub mod method;
pub mod class;
pub mod module;
pub mod program;
pub mod parser;
pub mod grammar;
pub mod formatter;
