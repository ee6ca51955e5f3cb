//! reStructuredText tokeniser.
//!
//! A source of characters is turned into a stream of classified tokens, each
//! carrying the span of the source that it covers.
pub mod ast;
pub mod error;
pub mod lex;
pub mod location;
pub mod numerals;
pub mod source;
pub mod stream;
pub mod tokens;

pub use self::tokens::{Token, TokenStream};
