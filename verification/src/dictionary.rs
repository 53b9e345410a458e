//! What a caller can configure on a scanner, as mathematical values.

use vstd::prelude::*;
use crate::token::CommentsTypes;

verus! {

/// The dictionary that drives a scan.
///
/// The three collections are kept as sequences in the order in which their
/// entries were added: an entry is never removed nor merged with an equal
/// one, and only membership matters to a scan.
pub struct Dictionary {
    /// Characters that separate tokens and are discarded.
    pub delimiters: Seq<char>,
    /// Characters that are tokens by themselves.
    pub special_chars: Seq<char>,
    /// Words that are reported as keywords.
    pub keywords: Seq<Seq<char>>,
    /// The comment styles that are skipped.
    pub comments: CommentsTypes,
}

/// Choices that a scanner records for its caller and that no scan step
/// consults: a scan is a function of the dictionary, the buffer and the
/// cursor alone.
pub struct Options {
    /// The last choice made with `set_new_line_as_token`, `true` at first.
    /// What a scan does with a newline follows from the two character
    /// dictionaries, where that call registers it.
    pub newline_is_token: bool,
    /// The last choice made with `ignore_escape_char`, `false` at first.
    pub ignore_escape_char: bool,
    /// The opening mark given to `set_multi_line_custom_comment`.
    pub multi_comment_begin: Seq<char>,
    /// The closing mark given to `set_multi_line_custom_comment`.
    pub multi_comment_end: Seq<char>,
    /// The mark given to `set_single_line_custom_comment`.
    pub single_comment: Seq<char>,
}

/// The delimiters of a fresh scanner: tab and space.
pub open spec fn default_delimiters() -> Seq<char> {
    seq!['\t', ' ']
}

/// The special characters of a fresh scanner.
pub open spec fn default_special_chars() -> Seq<char> {
    seq![
        '{', '}', '[', ']', '(', ')', '=', '!', '<', '>', '&', '^', '|', '+', '-', '/', '%', '*',
        ';', '?', ':', ',',
    ]
}

impl Dictionary {
    /// The dictionary of a fresh scanner: the default delimiters and special
    /// characters, no keyword, no comment style.
    pub open spec fn fresh() -> Dictionary {
        Dictionary {
            delimiters: default_delimiters(),
            special_chars: default_special_chars(),
            keywords: Seq::empty(),
            comments: CommentsTypes::NoComments,
        }
    }

    /// `c` separates tokens.
    pub open spec fn is_delimiter(self, c: char) -> bool {
        self.delimiters.contains(c)
    }

    /// `c` is a token by itself.
    pub open spec fn is_special_char(self, c: char) -> bool {
        self.special_chars.contains(c)
    }

    /// `c` can stand inside an unquoted word.
    pub open spec fn is_word_char(self, c: char) -> bool {
        !self.is_delimiter(c) && !self.is_special_char(c)
    }

    /// `word` is in the keyword dictionary, letter for letter.
    pub open spec fn is_keyword(self, word: Seq<char>) -> bool {
        self.keywords.contains(word)
    }
}

impl Options {
    /// The options of a fresh scanner.
    pub open spec fn fresh() -> Options {
        Options {
            newline_is_token: true,
            ignore_escape_char: false,
            multi_comment_begin: Seq::empty(),
            multi_comment_end: Seq::empty(),
            single_comment: Seq::empty(),
        }
    }
}

} // verus!
