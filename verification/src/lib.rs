//! Syntactic front end of a small expression-oriented language.
//!
//! The library turns a sequence of source-positioned tokens, as a lexer
//! produces them, into a span-annotated syntax tree, or into a precise
//! diagnostic explaining why it could not. Parsing is recursive descent
//! with an operator-precedence ladder for expressions; the first grammar
//! failure aborts the parse. The whole observable behaviour of the parser
//! is pinned down by the definitional grammar in [`grammar`], against
//! which the executable parser in [`parser`] is verified.

pub mod ast;
pub mod diag;
pub mod grammar;
pub mod laws;
pub mod parser;
pub mod span;
pub mod token;
