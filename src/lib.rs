//! Text-oriented lexing primitives over byte and codepoint input.

pub mod character;
pub mod parser;
pub mod stream;
pub mod text;
pub mod laws;
