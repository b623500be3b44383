//! Source positions and the token stream.

pub mod lexer;
pub mod span;
pub mod token;
