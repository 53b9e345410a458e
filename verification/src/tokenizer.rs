//! The scanner: a buffer of characters with a cursor, and the dictionary
//! that decides how the characters fall into tokens.

use vstd::prelude::*;
use crate::cursor::Cursor;
use crate::dictionary::{default_delimiters, default_special_chars, Dictionary, Options};
use crate::scan::{
    backslash_run, block_comment_end, comment_end, is_digit, is_number, lemma_comment_end,
    lemma_next_token, lemma_skip_delimiters, line_comment_end, literal_end, pair_at,
    plain_word_end, skip_delimiters, skip_noise, word_end, ScanState,
};
use crate::text::{str_to_vec, string_from_chars};
use crate::token::{CommentsTypes, Token};

verus! {

/// A lexical scanner over a buffer of characters that it owns.
///
/// Its mathematical value is a [`ScanState`]. The cursor of that state never
/// leaves the buffer.
pub struct StringTokenizer {
    input: Cursor,
    key_words: Vec<String>,
    delimiters: Vec<char>,
    special_chars: Vec<char>,
    comments: CommentsTypes,
    return_is_token: bool,
    ignore_escape_char: bool,
    multi_comment_begin: String,
    multi_comment_end: String,
    single_comment: String,
    token: Token,
}

/// The keyword dictionary as sequences of characters.
spec fn keyword_texts(words: Seq<String>) -> Seq<Seq<char>> {
    Seq::new(words.len(), |i: int| words[i]@)
}

impl View for StringTokenizer {
    type V = ScanState;

    closed spec fn view(&self) -> ScanState {
        ScanState {
            dictionary: Dictionary {
                delimiters: self.delimiters@,
                special_chars: self.special_chars@,
                keywords: keyword_texts(self.key_words@),
                comments: self.comments,
            },
            options: Options {
                newline_is_token: self.return_is_token,
                ignore_escape_char: self.ignore_escape_char,
                multi_comment_begin: self.multi_comment_begin@,
                multi_comment_end: self.multi_comment_end@,
                single_comment: self.single_comment@,
            },
            buffer: self.input.buffer(),
            cursor: self.input.cursor() as int,
            token: self.token@,
        }
    }
}

/// Whether `c` occurs in `set`.
fn holds(set: &Vec<char>, c: char) -> (found: bool)
    ensures
        found == set@.contains(c),
{
    let mut i: usize = 0;
    while i < set.len()
        invariant
            i <= set.len(),
            forall|j: int| 0 <= j < i ==> set@[j] != c,
        decreases set.len() - i,
    {
        if set[i] == c {
            return true;
        }
        i += 1;
    }
    false
}

impl StringTokenizer {
    /// A scanner on `datas` with the default dictionary. The cursor stands
    /// behind the delimiters that `datas` begins with.
    pub fn new(datas: Vec<char>) -> (scanner: StringTokenizer)
        ensures
            scanner@ == ScanState::fresh(datas@),
            scanner@.wf(),
    {
        let mut scanner = StringTokenizer {
            input: Cursor::new(datas),
            key_words: Vec::new(),
            delimiters: Vec::new(),
            special_chars: Vec::new(),
            comments: CommentsTypes::NoComments,
            return_is_token: true,
            ignore_escape_char: false,
            multi_comment_begin: String::new(),
            multi_comment_end: String::new(),
            single_comment: String::new(),
            token: Token::NoToken,
        };
        scanner.initialize();
        assert(scanner@.dictionary.keywords =~= Seq::empty());
        scanner
    }

    /// A scanner on the characters of `datas` with the default dictionary.
    pub fn new_with_str(datas: String) -> (scanner: StringTokenizer)
        ensures
            scanner@ == ScanState::fresh(datas@),
            scanner@.wf(),
    {
        StringTokenizer::new(str_to_vec(datas))
    }

    /// Adds the default delimiters and special characters to the dictionary,
    /// then moves the cursor behind the delimiters it stands on.
    fn initialize(&mut self)
        ensures
            final(self)@.dictionary == (Dictionary {
                delimiters: old(self)@.dictionary.delimiters + default_delimiters(),
                special_chars: old(self)@.dictionary.special_chars + default_special_chars(),
                ..old(self)@.dictionary
            }),
            final(self)@ == (ScanState {
                dictionary: final(self)@.dictionary,
                cursor: skip_delimiters(
                    final(self)@.dictionary,
                    old(self)@.buffer,
                    old(self)@.cursor,
                ),
                ..old(self)@
            }),
            final(self)@.wf(),
    {
        self.delimiters.push('\t');
        self.delimiters.push(' ');
        self.special_chars.push('{');
        self.special_chars.push('}');
        self.special_chars.push('[');
        self.special_chars.push(']');
        self.special_chars.push('(');
        self.special_chars.push(')');
        self.special_chars.push('=');
        self.special_chars.push('!');
        self.special_chars.push('<');
        self.special_chars.push('>');
        self.special_chars.push('&');
        self.special_chars.push('^');
        self.special_chars.push('|');
        self.special_chars.push('+');
        self.special_chars.push('-');
        self.special_chars.push('/');
        self.special_chars.push('%');
        self.special_chars.push('*');
        self.special_chars.push(';');
        self.special_chars.push('?');
        self.special_chars.push(':');
        self.special_chars.push(',');
        assert(self.delimiters@ =~= old(self).delimiters@ + default_delimiters());
        assert(self.special_chars@ =~= old(self).special_chars@ + default_special_chars());
        self.consume_delimiters();
    }

    /// Moves the cursor to the first character at or after it that is no
    /// delimiter, or to the end of the buffer.
    fn consume_delimiters(&mut self)
        ensures
            final(self)@ == (ScanState {
                cursor: skip_delimiters(
                    old(self)@.dictionary,
                    old(self)@.buffer,
                    old(self)@.cursor,
                ),
                ..old(self)@
            }),
            0 <= old(self)@.cursor <= final(self)@.cursor <= final(self)@.buffer.len(),
    {
        while !self.input.at_end() && self.is_delimiter(self.input.current())
            invariant
                self@ == (ScanState { cursor: self@.cursor, ..old(self)@ }),
                old(self)@.cursor <= self@.cursor,
                skip_delimiters(self@.dictionary, self@.buffer, self@.cursor) == skip_delimiters(
                    old(self)@.dictionary,
                    old(self)@.buffer,
                    old(self)@.cursor,
                ),
            decreases self@.buffer.len() - self@.cursor,
        {
            self.input.advance();
        }
    }

    /// Whether `test_char` is in the delimiter dictionary.
    pub fn is_delimiter(&self, test_char: char) -> (found: bool)
        ensures
            found == self@.dictionary.is_delimiter(test_char),
    {
        holds(&self.delimiters, test_char)
    }

    /// Whether `test_char` is in the special-character dictionary.
    pub fn is_special_char(&self, test_char: char) -> (found: bool)
        ensures
            found == self@.dictionary.is_special_char(test_char),
    {
        holds(&self.special_chars, test_char)
    }

    /// Replaces the buffer by `datas` and moves the cursor to its start. The
    /// dictionary, the options and the current token stay.
    pub fn set_datas(&mut self, datas: Vec<char>)
        ensures
            final(self)@ == (ScanState { buffer: datas@, cursor: 0, ..old(self)@ }),
    {
        self.input = Cursor::new(datas);
    }

    /// Replaces the buffer by the characters of `datas` and moves the cursor
    /// to its start. The dictionary, the options and the current token stay.
    pub fn set_datas_with_str(&mut self, datas: String)
        ensures
            final(self)@ == (ScanState { buffer: datas@, cursor: 0, ..old(self)@ }),
    {
        self.input = Cursor::new(str_to_vec(datas));
    }

    /// Adds `keyword` to the keyword dictionary, behind the entries that are
    /// there.
    pub fn add_keyword(&mut self, keyword: String)
        ensures
            final(self)@ == (ScanState {
                dictionary: Dictionary {
                    keywords: old(self)@.dictionary.keywords.push(keyword@),
                    ..old(self)@.dictionary
                },
                ..old(self)@
            }),
    {
        self.key_words.push(keyword);
        assert(keyword_texts(self.key_words@) =~= keyword_texts(old(self).key_words@).push(
            keyword@,
        ));
    }

    /// Adds `delimiter` to the delimiter dictionary, behind the entries that
    /// are there.
    pub fn add_delimiter(&mut self, delimiter: char)
        ensures
            final(self)@ == (ScanState {
                dictionary: Dictionary {
                    delimiters: old(self)@.dictionary.delimiters.push(delimiter),
                    ..old(self)@.dictionary
                },
                ..old(self)@
            }),
    {
        self.delimiters.push(delimiter);
    }

    /// Adds `specialchar` to the special-character dictionary, behind the
    /// entries that are there.
    pub fn add_specialchar(&mut self, specialchar: char)
        ensures
            final(self)@ == (ScanState {
                dictionary: Dictionary {
                    special_chars: old(self)@.dictionary.special_chars.push(specialchar),
                    ..old(self)@.dictionary
                },
                ..old(self)@
            }),
    {
        self.special_chars.push(specialchar);
    }

    /// Chooses the comment styles that are skipped from now on.
    pub fn set_comments(&mut self, comments: CommentsTypes)
        ensures
            final(self)@ == (ScanState {
                dictionary: Dictionary { comments, ..old(self)@.dictionary },
                ..old(self)@
            }),
    {
        self.comments = comments;
    }

    /// Records the choice and registers the newline: as a special character
    /// where `is_token` holds, else as a delimiter. Nothing is taken out of
    /// either dictionary, so after calls with both values the newline is in
    /// both, and a scan then treats it as a delimiter.
    pub fn set_new_line_as_token(&mut self, is_token: bool)
        ensures
            final(self)@ == (ScanState {
                dictionary: if is_token {
                    Dictionary {
                        special_chars: old(self)@.dictionary.special_chars.push('\n'),
                        ..old(self)@.dictionary
                    }
                } else {
                    Dictionary {
                        delimiters: old(self)@.dictionary.delimiters.push('\n'),
                        ..old(self)@.dictionary
                    }
                },
                options: Options { newline_is_token: is_token, ..old(self)@.options },
                ..old(self)@
            }),
    {
        self.return_is_token = is_token;
        if is_token {
            self.add_specialchar('\n');
        } else {
            self.add_delimiter('\n');
        }
    }

    /// Records the choice. No scan step consults it: a backslash escapes a
    /// quote inside a literal whatever was chosen here.
    pub fn ignore_escape_char(&mut self, ignore: bool)
        ensures
            final(self)@ == (ScanState {
                options: Options { ignore_escape_char: ignore, ..old(self)@.options },
                ..old(self)@
            }),
    {
        self.ignore_escape_char = ignore;
    }

    /// Brings the scanner back to the state of a fresh one on an empty
    /// buffer: default dictionary and options, no current token.
    pub fn reset_settings(&mut self)
        ensures
            final(self)@ == ScanState::fresh(Seq::empty()),
    {
        self.delimiters.clear();
        self.key_words.clear();
        self.input = Cursor::new(Vec::new());
        self.special_chars.clear();
        self.comments = CommentsTypes::NoComments;
        self.return_is_token = true;
        self.ignore_escape_char = false;
        self.token = Token::NoToken;
        self.multi_comment_begin = String::new();
        self.multi_comment_end = String::new();
        self.single_comment = String::new();
        self.initialize();
        assert(self@.dictionary.keywords =~= Seq::empty());
    }

    /// Records the two marks of a custom block comment. No scan step
    /// consults them: only the styles of [`CommentsTypes`] are skipped.
    pub fn set_multi_line_custom_comment(&mut self, comment_begin: String, comment_end: String)
        ensures
            final(self)@ == (ScanState {
                options: Options {
                    multi_comment_begin: comment_begin@,
                    multi_comment_end: comment_end@,
                    ..old(self)@.options
                },
                ..old(self)@
            }),
    {
        self.multi_comment_begin = comment_begin;
        self.multi_comment_end = comment_end;
    }

    /// Records the mark of a custom line comment. No scan step consults it:
    /// only the styles of [`CommentsTypes`] are skipped.
    pub fn set_single_line_custom_comment(&mut self, comment_begin: String)
        ensures
            final(self)@ == (ScanState {
                options: Options { single_comment: comment_begin@, ..old(self)@.options },
                ..old(self)@
            }),
    {
        self.single_comment = comment_begin;
    }

    /// Reads the literal that begins under the cursor and that `quote`
    /// closes: the character under the cursor, then everything through the
    /// first `quote` that no backslash escapes, or through the end of the
    /// buffer where the literal is not closed.
    fn get_quoted_string(&mut self, quote: char) -> (text: Vec<char>)
        requires
            old(self)@.cursor < old(self)@.buffer.len(),
        ensures
            final(self)@ == (ScanState {
                cursor: literal_end(
                    old(self)@.buffer,
                    old(self)@.cursor + 1,
                    old(self)@.cursor + 1,
                    quote,
                ),
                ..old(self)@
            }),
            text@ == old(self)@.buffer.subrange(old(self)@.cursor, final(self)@.cursor),
    {
        let ghost buf = self@.buffer;
        let ghost begin = self@.cursor;
        let ghost start = self@.cursor + 1;
        let mut text: Vec<char> = Vec::new();
        let mut run: u8 = 0;
        let mut end = false;

        text.push(self.input.current());
        self.input.advance();
        while !self.input.at_end() && !end
            invariant
                self@ == (ScanState { cursor: self@.cursor, ..old(self)@ }),
                buf == old(self)@.buffer,
                begin == old(self)@.cursor,
                start == begin + 1,
                start <= self@.cursor <= buf.len(),
                text@ == buf.subrange(begin, self@.cursor),
                run <= 2,
                !end ==> run == backslash_run(buf, start, self@.cursor),
                !end ==> literal_end(buf, start, self@.cursor, quote) == literal_end(
                    buf,
                    start,
                    start,
                    quote,
                ),
                end ==> self@.cursor == literal_end(buf, start, start, quote),
            decreases buf.len() - self@.cursor,
        {
            let c = self.input.current();
            text.push(c);
            if c == quote && run != 1 {
                end = true;
            } else if c == '\\' {
                run = if run == 2 {
                    1
                } else {
                    run + 1
                };
            } else {
                run = 0;
            }
            self.input.advance();
        }
        text
    }

    /// Reads the literal in double quotes that begins under the cursor.
    fn get_double_cote_string(&mut self) -> (text: Vec<char>)
        requires
            old(self)@.cursor < old(self)@.buffer.len(),
        ensures
            final(self)@ == (ScanState {
                cursor: literal_end(
                    old(self)@.buffer,
                    old(self)@.cursor + 1,
                    old(self)@.cursor + 1,
                    '"',
                ),
                ..old(self)@
            }),
            text@ == old(self)@.buffer.subrange(old(self)@.cursor, final(self)@.cursor),
    {
        self.get_quoted_string('"')
    }

    /// Reads the literal in single quotes that begins under the cursor.
    fn get_simple_cote_string(&mut self) -> (text: Vec<char>)
        requires
            old(self)@.cursor < old(self)@.buffer.len(),
        ensures
            final(self)@ == (ScanState {
                cursor: literal_end(
                    old(self)@.buffer,
                    old(self)@.cursor + 1,
                    old(self)@.cursor + 1,
                    '\'',
                ),
                ..old(self)@
            }),
            text@ == old(self)@.buffer.subrange(old(self)@.cursor, final(self)@.cursor),
    {
        self.get_quoted_string('\'')
    }

    /// Reads the word that begins under the cursor: a quoted literal where a
    /// quote stands there, else the characters up to the next delimiter or
    /// special character.
    fn get_word(&mut self) -> (text: Vec<char>)
        requires
            old(self)@.cursor < old(self)@.buffer.len(),
        ensures
            final(self)@ == (ScanState {
                cursor: word_end(old(self)@.dictionary, old(self)@.buffer, old(self)@.cursor),
                ..old(self)@
            }),
            text@ == old(self)@.buffer.subrange(old(self)@.cursor, final(self)@.cursor),
    {
        let ghost buf = self@.buffer;
        let ghost begin = self@.cursor;
        let mut text: Vec<char> = Vec::new();

        if self.input.current() == '"' {
            return self.get_double_cote_string();
        } else if self.input.current() == '\'' {
            return self.get_simple_cote_string();
        }
        while !self.input.at_end() && !self.is_delimiter(self.input.current())
            && !self.is_special_char(self.input.current())
            invariant
                self@ == (ScanState { cursor: self@.cursor, ..old(self)@ }),
                buf == old(self)@.buffer,
                begin == old(self)@.cursor,
                begin <= self@.cursor <= buf.len(),
                text@ == buf.subrange(begin, self@.cursor),
                plain_word_end(self@.dictionary, buf, self@.cursor) == plain_word_end(
                    self@.dictionary,
                    buf,
                    begin,
                ),
            decreases buf.len() - self@.cursor,
        {
            text.push(self.input.current());
            self.input.advance();
        }
        text
    }

    /// Skips the line comment that begins under the cursor, its newline
    /// included, and says whether there was one.
    fn c_plus_plus_comments(&mut self) -> (found: bool)
        ensures
            found == pair_at(old(self)@.buffer, old(self)@.cursor, '/', '/'),
            final(self)@ == (ScanState {
                cursor: if found {
                    line_comment_end(old(self)@.buffer, old(self)@.cursor + 2)
                } else {
                    old(self)@.cursor
                },
                ..old(self)@
            }),
    {
        let ghost buf = self@.buffer;
        let ghost begin = self@.cursor;
        let mut end = false;

        if self.input.looks_at('/', '/') {
            self.input.advance();
            self.input.advance();
            while !self.input.at_end() && !end
                invariant
                    self@ == (ScanState { cursor: self@.cursor, ..old(self)@ }),
                    buf == old(self)@.buffer,
                    begin == old(self)@.cursor,
                    begin + 2 <= self@.cursor <= buf.len(),
                    !end ==> line_comment_end(buf, self@.cursor) == line_comment_end(
                        buf,
                        begin + 2,
                    ),
                    end ==> self@.cursor == line_comment_end(buf, begin + 2),
                decreases buf.len() - self@.cursor,
            {
                if self.input.current() == '\n' {
                    end = true;
                }
                self.input.advance();
            }
            true
        } else {
            false
        }
    }

    /// Skips the block comment that begins under the cursor, through its
    /// closing mark or through the end of the buffer, and says whether there
    /// was one.
    fn c_comments(&mut self) -> (found: bool)
        ensures
            found == pair_at(old(self)@.buffer, old(self)@.cursor, '/', '*'),
            final(self)@ == (ScanState {
                cursor: if found {
                    block_comment_end(old(self)@.buffer, old(self)@.cursor + 2)
                } else {
                    old(self)@.cursor
                },
                ..old(self)@
            }),
    {
        let ghost buf = self@.buffer;
        let ghost begin = self@.cursor;
        let mut end = false;

        if self.input.looks_at('/', '*') {
            self.input.advance();
            self.input.advance();
            while !self.input.at_end() && !end
                invariant
                    self@ == (ScanState { cursor: self@.cursor, ..old(self)@ }),
                    buf == old(self)@.buffer,
                    begin == old(self)@.cursor,
                    begin + 2 <= self@.cursor <= buf.len(),
                    !end ==> block_comment_end(buf, self@.cursor) == block_comment_end(
                        buf,
                        begin + 2,
                    ),
                    end ==> self@.cursor == block_comment_end(buf, begin + 2),
                decreases buf.len() - self@.cursor,
            {
                if self.input.looks_at('*', '/') {
                    end = true;
                    self.input.advance();
                }
                self.input.advance();
            }
            true
        } else {
            false
        }
    }

    /// Skips the comment that begins under the cursor, if the comment mode
    /// recognises one there, and says whether it did.
    fn has_comments(&mut self) -> (found: bool)
        ensures
            found == (comment_end(old(self)@.dictionary, old(self)@.buffer, old(self)@.cursor)
                is Some),
            final(self)@ == (ScanState {
                cursor: match comment_end(
                    old(self)@.dictionary,
                    old(self)@.buffer,
                    old(self)@.cursor,
                ) {
                    Some(behind) => behind,
                    None => old(self)@.cursor,
                },
                ..old(self)@
            }),
    {
        let block = match self.comments {
            CommentsTypes::CComments | CommentsTypes::AllComments => true,
            _ => false,
        };
        let line = match self.comments {
            CommentsTypes::CplusplusComments | CommentsTypes::AllComments => true,
            _ => false,
        };
        if self.input.at_end() {
            false
        } else if block && self.c_comments() {
            true
        } else if line && self.c_plus_plus_comments() {
            true
        } else {
            false
        }
    }

    /// Moves the cursor to where the next token begins, over delimiters and
    /// comments, and says whether a token is left.
    fn clean_for_next_token(&mut self) -> (left: bool)
        ensures
            final(self)@ == (ScanState {
                cursor: skip_noise(old(self)@.dictionary, old(self)@.buffer, old(self)@.cursor),
                ..old(self)@
            }),
            left == (final(self)@.cursor < final(self)@.buffer.len()),
            0 <= final(self)@.cursor <= final(self)@.buffer.len(),
    {
        let ghost dict = self@.dictionary;
        let ghost buf = self@.buffer;
        let ghost begin = self@.cursor;
        self.consume_delimiters();
        proof {
            lemma_skip_delimiters(dict, buf, begin);
        }
        loop
            invariant
                self@ == (ScanState { cursor: self@.cursor, ..old(self)@ }),
                dict == old(self)@.dictionary,
                buf == old(self)@.buffer,
                begin == old(self)@.cursor,
                0 <= self@.cursor <= buf.len(),
                skip_delimiters(dict, buf, self@.cursor) == self@.cursor,
                skip_noise(dict, buf, self@.cursor) == skip_noise(dict, buf, begin),
            ensures
                self@ == (ScanState { cursor: skip_noise(dict, buf, begin), ..old(self)@ }),
                0 <= self@.cursor <= buf.len(),
            decreases buf.len() - self@.cursor,
        {
            let ghost at = self@.cursor;
            proof {
                lemma_comment_end(dict, buf, at);
            }
            if !self.has_comments() {
                break;
            }
            let ghost behind = self@.cursor;
            self.consume_delimiters();
            proof {
                lemma_skip_delimiters(dict, buf, behind);
                assert(skip_noise(dict, buf, at) == skip_noise(dict, buf, behind));
            }
        }
        !self.input.at_end()
    }

    /// Whether `word` is made of ASCII digits and at most one dot.
    pub fn is_number(word: &Vec<char>) -> (numeric: bool)
        ensures
            numeric == is_number(word@),
    {
        let mut dot: usize = 0;
        let ghost mut first: int = 0;
        let ghost mut second: int = 0;
        let mut i: usize = 0;
        while i < word.len()
            invariant
                i <= word.len(),
                dot <= i,
                forall|j: int| 0 <= j < i ==> is_digit(#[trigger] word@[j]) || word@[j] == '.',
                dot == 0 ==> forall|j: int| 0 <= j < i ==> #[trigger] word@[j] != '.',
                dot >= 1 ==> 0 <= first < i && word@[first as int] == '.',
                dot == 1 ==> forall|j: int| 0 <= j < i && #[trigger] word@[j] == '.' ==> j == first,
                dot >= 2 ==> first < second < i && word@[second as int] == '.',
            decreases word.len() - i,
        {
            let c = word[i];
            if c == '.' {
                proof {
                    if dot == 0 {
                        first = i as int;
                    } else {
                        second = i as int;
                    }
                }
                dot += 1;
            } else if !(c >= '0' && c <= '9') {
                return false;
            }
            i += 1;
        }
        if dot > 1 {
            return false;
        }
        true
    }

    /// Whether `word` is in the keyword dictionary, letter for letter.
    pub fn is_keyword(&self, word: &String) -> (known: bool)
        ensures
            known == self@.dictionary.is_keyword(word@),
    {
        let mut i: usize = 0;
        while i < self.key_words.len()
            invariant
                i <= self.key_words.len(),
                forall|j: int| 0 <= j < i ==> keyword_texts(self.key_words@)[j] != word@,
            decreases self.key_words.len() - i,
        {
            if self.key_words[i] == *word {
                assert(keyword_texts(self.key_words@)[i as int] == word@);
                return true;
            }
            i += 1;
        }
        false
    }

    /// Looks for the next token. Where there is one, it becomes the current
    /// token, the cursor moves behind it and the answer is `true`. Where only
    /// delimiters and comments are left, the cursor moves to the end of the
    /// buffer, the current token stays and the answer is `false`.
    pub fn has_token(&mut self) -> (found: bool)
        ensures
            found == (old(self)@.next() is Some),
            final(self)@ == old(self)@.step(),
            0 <= old(self)@.cursor <= final(self)@.cursor <= final(self)@.buffer.len(),
            found ==> old(self)@.cursor < final(self)@.cursor,
            !found ==> final(self)@.cursor == final(self)@.buffer.len(),
    {
        let ghost dict = self@.dictionary;
        let ghost buf = self@.buffer;
        let ghost begin = self@.cursor;
        if self.input.at_end() {
            return false;
        }
        proof {
            lemma_next_token(dict, buf, begin);
        }
        if !self.clean_for_next_token() {
            return false;
        }
        if self.is_special_char(self.input.current()) {
            self.token = Token::SpecialChar(self.input.current());
            self.input.advance();
            true
        } else {
            let word = self.get_word();
            let text = string_from_chars(&word);
            if StringTokenizer::is_number(&word) {
                self.token = Token::Number(text);
            } else if self.is_keyword(&text) {
                self.token = Token::KeyWord(text);
            } else {
                self.token = Token::Word(text);
            }
            true
        }
    }

    /// The token of the last successful scan step.
    pub fn token(&self) -> (current: &Token)
        ensures
            current@ == self@.token,
    {
        &self.token
    }

    /// The position of the next character to examine.
    pub fn cursor(&self) -> (pos: usize)
        ensures
            pos == self@.cursor,
            pos <= self@.buffer.len(),
    {
        self.input.position()
    }

    /// The comment styles that are skipped.
    pub fn comments(&self) -> (mode: CommentsTypes)
        ensures
            mode == self@.dictionary.comments,
    {
        self.comments
    }

    /// The last choice made with `set_new_line_as_token`, `true` at first.
    pub fn new_line_is_token(&self) -> (is_token: bool)
        ensures
            is_token == self@.options.newline_is_token,
    {
        self.return_is_token
    }

    /// The last choice made with `ignore_escape_char`, `false` at first.
    pub fn escape_char_ignored(&self) -> (ignore: bool)
        ensures
            ignore == self@.options.ignore_escape_char,
    {
        self.ignore_escape_char
    }

    /// The two marks given to `set_multi_line_custom_comment`, both empty
    /// at first.
    pub fn multi_line_custom_comment(&self) -> (marks: (&String, &String))
        ensures
            marks.0@ == self@.options.multi_comment_begin,
            marks.1@ == self@.options.multi_comment_end,
    {
        (&self.multi_comment_begin, &self.multi_comment_end)
    }

    /// The mark given to `set_single_line_custom_comment`, empty at first.
    pub fn single_line_custom_comment(&self) -> (mark: &String)
        ensures
            mark@ == self@.options.single_comment,
    {
        &self.single_comment
    }
}

impl Clone for StringTokenizer {
    /// A scanner of its own with the same buffer, cursor, dictionary,
    /// options and current token.
    fn clone(&self) -> (copy: StringTokenizer)
        ensures
            copy@ == self@,
    {
        let copy = StringTokenizer {
            input: self.input.clone(),
            key_words: self.key_words.clone(),
            delimiters: self.delimiters.clone(),
            special_chars: self.special_chars.clone(),
            comments: self.comments,
            return_is_token: self.return_is_token,
            ignore_escape_char: self.ignore_escape_char,
            multi_comment_begin: self.multi_comment_begin.clone(),
            multi_comment_end: self.multi_comment_end.clone(),
            single_comment: self.single_comment.clone(),
            token: self.token.clone(),
        };
        copy
    }
}

} // verus!
