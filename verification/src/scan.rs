//! The scan as mathematics: where each kind of lexeme ends, and what a scan
//! step yields, as functions of a dictionary, a buffer and a position.

use vstd::prelude::*;
use crate::dictionary::{Dictionary, Options};
use crate::token::Lexeme;

verus! {

/// The characters at `pos` and `pos + 1` exist and are `first` and `second`.
pub open spec fn pair_at(buf: Seq<char>, pos: int, first: char, second: char) -> bool {
    0 <= pos && pos + 1 < buf.len() && buf[pos] == first && buf[pos + 1] == second
}

/// The first position at or after `pos` that holds no delimiter, or the end
/// of the buffer.
pub open spec fn skip_delimiters(dict: Dictionary, buf: Seq<char>, pos: int) -> int
    decreases buf.len() - pos,
{
    if 0 <= pos < buf.len() && dict.is_delimiter(buf[pos]) {
        skip_delimiters(dict, buf, pos + 1)
    } else {
        pos
    }
}

/// The position just behind the first `*/` that begins at or after `pos`, or
/// the end of the buffer where there is none.
pub open spec fn block_comment_end(buf: Seq<char>, pos: int) -> int
    decreases buf.len() - pos,
{
    if pos < 0 || pos >= buf.len() {
        buf.len() as int
    } else if pair_at(buf, pos, '*', '/') {
        pos + 2
    } else {
        block_comment_end(buf, pos + 1)
    }
}

/// The position just behind the first newline at or after `pos`, or the end
/// of the buffer where there is none.
pub open spec fn line_comment_end(buf: Seq<char>, pos: int) -> int
    decreases buf.len() - pos,
{
    if pos < 0 || pos >= buf.len() {
        buf.len() as int
    } else if buf[pos] == '\n' {
        pos + 1
    } else {
        line_comment_end(buf, pos + 1)
    }
}

/// Where the comment that begins at `pos` ends, if the dictionary's comment
/// mode recognises a comment there. A block comment is looked for first.
pub open spec fn comment_end(dict: Dictionary, buf: Seq<char>, pos: int) -> Option<int> {
    if dict.comments.skips_block() && pair_at(buf, pos, '/', '*') {
        Some(block_comment_end(buf, pos + 2))
    } else if dict.comments.skips_line() && pair_at(buf, pos, '/', '/') {
        Some(line_comment_end(buf, pos + 2))
    } else {
        None
    }
}

/// The first position at or after `pos` where a token begins: delimiters are
/// skipped, then comments, each followed by delimiters, as long as there are
/// any. The end of the buffer where no token is left.
pub open spec fn skip_noise(dict: Dictionary, buf: Seq<char>, pos: int) -> int
    decreases buf.len() - pos,
    via skip_noise_decreases
{
    let at = skip_delimiters(dict, buf, pos);
    match comment_end(dict, buf, at) {
        Some(behind) => skip_noise(dict, buf, behind),
        None => at,
    }
}

/// The end of the run of word characters that begins at `pos`.
pub open spec fn plain_word_end(dict: Dictionary, buf: Seq<char>, pos: int) -> int
    decreases buf.len() - pos,
{
    if 0 <= pos < buf.len() && dict.is_word_char(buf[pos]) {
        plain_word_end(dict, buf, pos + 1)
    } else {
        pos
    }
}

/// `c` opens a quoted literal.
pub open spec fn is_quote(c: char) -> bool {
    c == '"' || c == '\''
}

/// The escape counter of a quoted literal whose content begins at `start`,
/// as it stands when the character at `pos` is examined.
///
/// It follows the run of backslashes that ends just before `pos`: each
/// backslash adds one and a count of three is folded back to one, so the
/// counter is 0 behind any other character, and alternates between 1 and 2
/// along a run.
pub open spec fn backslash_run(buf: Seq<char>, start: int, pos: int) -> nat
    decreases pos - start,
{
    if pos <= start || pos > buf.len() || buf[pos - 1] != '\\' {
        0
    } else if backslash_run(buf, start, pos - 1) == 2 {
        1
    } else {
        backslash_run(buf, start, pos - 1) + 1
    }
}

/// The character at `pos` ends the literal that was opened by `quote` and
/// whose content begins at `start`: it is that quote, and the escape counter
/// there is 0 or 2.
pub open spec fn closes_literal(buf: Seq<char>, start: int, pos: int, quote: char) -> bool {
    buf[pos] == quote && backslash_run(buf, start, pos) != 1
}

/// The position just behind the first character at or after `pos` that
/// closes the literal, or the end of the buffer where none does.
pub open spec fn literal_end(buf: Seq<char>, start: int, pos: int, quote: char) -> int
    decreases buf.len() - pos,
{
    if pos < 0 || pos >= buf.len() {
        buf.len() as int
    } else if closes_literal(buf, start, pos, quote) {
        pos + 1
    } else {
        literal_end(buf, start, pos + 1, quote)
    }
}

/// The end of the word that begins at `pos`: of the quoted literal where a
/// quote stands there, its closing quote included, else of the run of word
/// characters.
pub open spec fn word_end(dict: Dictionary, buf: Seq<char>, pos: int) -> int {
    if 0 <= pos < buf.len() && is_quote(buf[pos]) {
        literal_end(buf, pos + 1, pos + 1, buf[pos])
    } else {
        plain_word_end(dict, buf, pos)
    }
}

/// `c` is one of the ten ASCII digits.
pub open spec fn is_digit(c: char) -> bool {
    '0' <= c <= '9'
}

/// `word` is made of ASCII digits and at most one dot. The empty word
/// qualifies.
pub open spec fn is_number(word: Seq<char>) -> bool {
    &&& forall|i: int| 0 <= i < word.len() ==> is_digit(#[trigger] word[i]) || word[i] == '.'
    &&& forall|i: int, j: int|
        0 <= i < j < word.len() ==> !(#[trigger] word[i] == '.' && #[trigger] word[j] == '.')
}

/// The lexeme that a scanned word stands for: a number before a keyword, a
/// keyword before a plain word.
pub open spec fn classify(dict: Dictionary, word: Seq<char>) -> Lexeme {
    if is_number(word) {
        Lexeme::Number(word)
    } else if dict.is_keyword(word) {
        Lexeme::KeyWord(word)
    } else {
        Lexeme::Word(word)
    }
}

/// The next token at or after `pos` and the position behind it, or `None`
/// where only delimiters and comments are left.
pub open spec fn next_token(dict: Dictionary, buf: Seq<char>, pos: int) -> Option<(Lexeme, int)> {
    let at = skip_noise(dict, buf, pos);
    if pos < 0 || at >= buf.len() {
        None
    } else if dict.is_special_char(buf[at]) {
        Some((Lexeme::SpecialChar(buf[at]), at + 1))
    } else {
        Some((classify(dict, buf.subrange(at, word_end(dict, buf, at))), word_end(dict, buf, at)))
    }
}

/// All the tokens from `pos` to the end of the buffer, in the order in which
/// successive scan steps yield them.
pub open spec fn tokens_from(dict: Dictionary, buf: Seq<char>, pos: int) -> Seq<Lexeme>
    decreases buf.len() - pos,
    via tokens_from_decreases
{
    match next_token(dict, buf, pos) {
        Some((token, behind)) => seq![token] + tokens_from(dict, buf, behind),
        None => Seq::empty(),
    }
}

/// The state of a scanner.
pub struct ScanState {
    /// The dictionary that the scan consults.
    pub dictionary: Dictionary,
    /// What the scanner records without consulting it.
    pub options: Options,
    /// The characters being scanned.
    pub buffer: Seq<char>,
    /// The position of the next character to examine.
    pub cursor: int,
    /// The token of the last successful scan step.
    pub token: Lexeme,
}

impl ScanState {
    /// The cursor lies within the buffer or at its end.
    pub open spec fn wf(self) -> bool {
        0 <= self.cursor <= self.buffer.len()
    }

    /// The state of a fresh scanner on `buffer`: the cursor stands behind the
    /// leading default delimiters.
    pub open spec fn fresh(buffer: Seq<char>) -> ScanState {
        ScanState {
            dictionary: Dictionary::fresh(),
            options: Options::fresh(),
            buffer,
            cursor: skip_delimiters(Dictionary::fresh(), buffer, 0),
            token: Lexeme::NoToken,
        }
    }

    /// What the next scan step finds.
    pub open spec fn next(self) -> Option<(Lexeme, int)> {
        next_token(self.dictionary, self.buffer, self.cursor)
    }

    /// The state after one scan step. Where a token is found it becomes the
    /// current one and the cursor moves behind it; else the cursor moves to
    /// the end of the buffer and the current token stays.
    pub open spec fn step(self) -> ScanState {
        match self.next() {
            Some((token, behind)) => ScanState { cursor: behind, token, ..self },
            None => ScanState { cursor: self.buffer.len() as int, ..self },
        }
    }

    /// The state after `n` scan steps.
    pub open spec fn after(self, n: nat) -> ScanState
        decreases n,
    {
        if n == 0 {
            self
        } else {
            self.step().after((n - 1) as nat)
        }
    }

    /// The tokens that are still to come.
    pub open spec fn remaining(self) -> Seq<Lexeme> {
        tokens_from(self.dictionary, self.buffer, self.cursor)
    }
}

/// Skipping delimiters moves forward, stays in the buffer, passes over
/// delimiters only and stops at the first character that is none.
pub proof fn lemma_skip_delimiters(dict: Dictionary, buf: Seq<char>, pos: int)
    requires
        0 <= pos <= buf.len(),
    ensures
        pos <= skip_delimiters(dict, buf, pos) <= buf.len(),
        forall|i: int|
            pos <= i < skip_delimiters(dict, buf, pos) ==> dict.is_delimiter(#[trigger] buf[i]),
        skip_delimiters(dict, buf, pos) < buf.len() ==> !dict.is_delimiter(
            buf[skip_delimiters(dict, buf, pos)],
        ),
    decreases buf.len() - pos,
{
    if pos < buf.len() && dict.is_delimiter(buf[pos]) {
        lemma_skip_delimiters(dict, buf, pos + 1);
    }
}

/// A block comment ends within the buffer, just behind the first closing
/// mark that begins at or after the position where it is looked for, or at
/// the end of the buffer where there is no such mark.
pub proof fn lemma_block_comment_end(buf: Seq<char>, pos: int)
    requires
        0 <= pos <= buf.len(),
    ensures
        pos <= block_comment_end(buf, pos) <= buf.len(),
        forall|i: int|
            pos <= i < block_comment_end(buf, pos) - 2 ==> !pair_at(buf, i, '*', '/'),
        ({
            ||| pos + 2 <= block_comment_end(buf, pos) && pair_at(
                buf,
                block_comment_end(buf, pos) - 2,
                '*',
                '/',
            )
            ||| block_comment_end(buf, pos) == buf.len() && forall|i: int|
                pos <= i ==> !pair_at(buf, i, '*', '/')
        }),
    decreases buf.len() - pos,
{
    if pos < buf.len() && !pair_at(buf, pos, '*', '/') {
        lemma_block_comment_end(buf, pos + 1);
    }
}

/// A line comment ends within the buffer, just behind the first newline at or
/// after the position where it is looked for, or at the end of the buffer
/// where there is no newline.
pub proof fn lemma_line_comment_end(buf: Seq<char>, pos: int)
    requires
        0 <= pos <= buf.len(),
    ensures
        pos <= line_comment_end(buf, pos) <= buf.len(),
        forall|i: int| pos <= i < line_comment_end(buf, pos) - 1 ==> buf[i] != '\n',
        ({
            ||| pos < line_comment_end(buf, pos) && buf[line_comment_end(buf, pos) - 1] == '\n'
            ||| line_comment_end(buf, pos) == buf.len() && forall|i: int|
                pos <= i < buf.len() ==> buf[i] != '\n'
        }),
    decreases buf.len() - pos,
{
    if pos < buf.len() && buf[pos] != '\n' {
        lemma_line_comment_end(buf, pos + 1);
    }
}

/// A comment is at least two characters long and ends within the buffer.
pub proof fn lemma_comment_end(dict: Dictionary, buf: Seq<char>, pos: int)
    requires
        0 <= pos <= buf.len(),
    ensures
        comment_end(dict, buf, pos) matches Some(behind) ==> pos + 2 <= behind <= buf.len(),
{
    if pair_at(buf, pos, '/', '*') {
        lemma_block_comment_end(buf, pos + 2);
    }
    if pair_at(buf, pos, '/', '/') {
        lemma_line_comment_end(buf, pos + 2);
    }
}

#[via_fn]
proof fn skip_noise_decreases(dict: Dictionary, buf: Seq<char>, pos: int) {
    let at = skip_delimiters(dict, buf, pos);
    // A comment begins inside the buffer, and then `pos` lies there too.
    if comment_end(dict, buf, at) is Some && 0 <= pos <= buf.len() {
        lemma_skip_delimiters(dict, buf, pos);
        lemma_comment_end(dict, buf, at);
    }
}

/// Skipping noise moves forward, stays in the buffer and stops where a token
/// begins: at a character that is no delimiter and opens no comment.
pub proof fn lemma_skip_noise(dict: Dictionary, buf: Seq<char>, pos: int)
    requires
        0 <= pos <= buf.len(),
    ensures
        pos <= skip_noise(dict, buf, pos) <= buf.len(),
        skip_noise(dict, buf, pos) < buf.len() ==> {
            &&& !dict.is_delimiter(buf[skip_noise(dict, buf, pos)])
            &&& comment_end(dict, buf, skip_noise(dict, buf, pos)) is None
        },
    decreases buf.len() - pos,
{
    let at = skip_delimiters(dict, buf, pos);
    lemma_skip_delimiters(dict, buf, pos);
    lemma_comment_end(dict, buf, at);
    if let Some(behind) = comment_end(dict, buf, at) {
        lemma_skip_noise(dict, buf, behind);
    }
}

/// An unquoted word ends within the buffer, holds word characters only and
/// stops at the first character that is none.
pub proof fn lemma_plain_word_end(dict: Dictionary, buf: Seq<char>, pos: int)
    requires
        0 <= pos <= buf.len(),
    ensures
        pos <= plain_word_end(dict, buf, pos) <= buf.len(),
        forall|i: int|
            pos <= i < plain_word_end(dict, buf, pos) ==> dict.is_word_char(#[trigger] buf[i]),
        plain_word_end(dict, buf, pos) < buf.len() ==> !dict.is_word_char(
            buf[plain_word_end(dict, buf, pos)],
        ),
    decreases buf.len() - pos,
{
    if pos < buf.len() && dict.is_word_char(buf[pos]) {
        lemma_plain_word_end(dict, buf, pos + 1);
    }
}

/// A quoted literal ends within the buffer, just behind the first character
/// that closes it, or at the end of the buffer where no character does.
pub proof fn lemma_literal_end(buf: Seq<char>, start: int, pos: int, quote: char)
    requires
        0 <= pos <= buf.len(),
    ensures
        pos <= literal_end(buf, start, pos, quote) <= buf.len(),
        pos < buf.len() ==> pos < literal_end(buf, start, pos, quote),
        forall|i: int|
            pos <= i < literal_end(buf, start, pos, quote) - 1 ==> !closes_literal(
                buf,
                start,
                i,
                quote,
            ),
        literal_end(buf, start, pos, quote) < buf.len() ==> closes_literal(
            buf,
            start,
            literal_end(buf, start, pos, quote) - 1,
            quote,
        ),
    decreases buf.len() - pos,
{
    if pos < buf.len() && !closes_literal(buf, start, pos, quote) {
        lemma_literal_end(buf, start, pos + 1, quote);
    }
}

/// A word that begins with a quote or with a word character is not empty
/// and ends within the buffer.
pub proof fn lemma_word_end(dict: Dictionary, buf: Seq<char>, pos: int)
    requires
        0 <= pos < buf.len(),
        is_quote(buf[pos]) || dict.is_word_char(buf[pos]),
    ensures
        pos < word_end(dict, buf, pos) <= buf.len(),
{
    if is_quote(buf[pos]) {
        lemma_literal_end(buf, pos + 1, pos + 1, buf[pos]);
    } else {
        lemma_plain_word_end(dict, buf, pos + 1);
    }
}

/// A token that is found ends behind the position at which it was looked
/// for and within the buffer. It is never `NoToken` nor an empty word, and a
/// special character that is reported is none of the delimiters: a character
/// that is in both dictionaries is skipped.
pub proof fn lemma_next_token(dict: Dictionary, buf: Seq<char>, pos: int)
    ensures
        next_token(dict, buf, pos) matches Some((token, behind)) ==> {
            &&& 0 <= pos < behind <= buf.len()
            &&& match token {
                Lexeme::Word(text) | Lexeme::KeyWord(text) | Lexeme::Number(text) => text.len() > 0,
                Lexeme::SpecialChar(c) => dict.is_special_char(c) && !dict.is_delimiter(c),
                Lexeme::NoToken => false,
            }
        },
{
    if 0 <= pos <= buf.len() {
        let at = skip_noise(dict, buf, pos);
        lemma_skip_noise(dict, buf, pos);
        if at < buf.len() && !dict.is_special_char(buf[at]) {
            lemma_word_end(dict, buf, at);
        }
    }
}

#[via_fn]
proof fn tokens_from_decreases(dict: Dictionary, buf: Seq<char>, pos: int) {
    lemma_next_token(dict, buf, pos);
}

} // verus!
