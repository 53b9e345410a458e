//! A configurable lexical scanner over an in-memory character buffer.
//!
//! The scanner is driven by a small dictionary (delimiters, special
//! characters, keywords and a comment mode). Every call of
//! [`StringTokenizer::has_token`] skips delimiters and comments and then
//! classifies the next lexeme as a word, a keyword, a number or a special
//! character.

pub mod cursor;
pub mod dictionary;
pub mod laws;
pub mod scan;
pub mod text;
pub mod token;
pub mod tokenizer;

pub use crate::text::{str_to_vec, string_from_chars};
pub use crate::token::{CommentsTypes, Token};
pub use crate::tokenizer::StringTokenizer;
