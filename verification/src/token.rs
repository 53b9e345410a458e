//! The values a scan step hands out, and the comment styles it can skip.

use vstd::prelude::*;

verus! {

/// The comment styles that a scanner can be told to skip.
#[derive(Clone, Copy, Debug, PartialEq, Eq, Structural)]
pub enum CommentsTypes {
    /// Line comments: from `//` through the end of the line.
    CplusplusComments,
    /// Block comments: from `/*` through the next `*/`.
    CComments,
    /// Both line and block comments.
    AllComments,
    /// No comment is recognised; `/` and `*` are scanned like any other
    /// character.
    NoComments,
}

/// The outcome of the last successful scan step, together with its text.
#[derive(Debug, PartialEq, Eq)]
pub enum Token {
    /// A run of characters that is neither a number nor a keyword, or a
    /// quoted literal with its quotes.
    Word(String),
    /// A word found in the keyword dictionary.
    KeyWord(String),
    /// A word made of digits and at most one dot.
    Number(String),
    /// One character of the special-character dictionary.
    SpecialChar(char),
    /// Nothing has been scanned yet.
    NoToken,
}

/// The mathematical value of a [`Token`]: the same variants, over sequences
/// of characters.
pub enum Lexeme {
    Word(Seq<char>),
    KeyWord(Seq<char>),
    Number(Seq<char>),
    SpecialChar(char),
    NoToken,
}

impl View for Token {
    type V = Lexeme;

    open spec fn view(&self) -> Lexeme {
        match self {
            Token::Word(text) => Lexeme::Word(text@),
            Token::KeyWord(text) => Lexeme::KeyWord(text@),
            Token::Number(text) => Lexeme::Number(text@),
            Token::SpecialChar(c) => Lexeme::SpecialChar(*c),
            Token::NoToken => Lexeme::NoToken,
        }
    }
}

impl Clone for Token {
    fn clone(&self) -> (copy: Token)
        ensures
            copy@ == self@,
    {
        match self {
            Token::Word(text) => Token::Word(text.clone()),
            Token::KeyWord(text) => Token::KeyWord(text.clone()),
            Token::Number(text) => Token::Number(text.clone()),
            Token::SpecialChar(c) => Token::SpecialChar(*c),
            Token::NoToken => Token::NoToken,
        }
    }
}

impl CommentsTypes {
    /// Whether block comments (`/* ... */`) are skipped in this mode.
    pub open spec fn skips_block(self) -> bool {
        self is CComments || self is AllComments
    }

    /// Whether line comments (`// ...`) are skipped in this mode.
    pub open spec fn skips_line(self) -> bool {
        self is CplusplusComments || self is AllComments
    }
}

} // verus!
