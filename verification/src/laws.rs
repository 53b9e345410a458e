//! What holds of every scan, whatever the dictionary and the buffer.

use vstd::prelude::*;
use crate::scan::{
    backslash_run, closes_literal, is_number, lemma_next_token, literal_end, ScanState,
};
use crate::token::Lexeme;

verus! {

/// The number of backslashes that stand in a row just before `pos`, counted
/// back no further than `start`.
pub open spec fn backslashes_before(buf: Seq<char>, start: int, pos: int) -> nat
    decreases pos - start,
{
    if pos <= start || pos > buf.len() || buf[pos - 1] != '\\' {
        0
    } else {
        backslashes_before(buf, start, pos - 1) + 1
    }
}

/// A scan step never moves the cursor back nor out of the buffer. Where it
/// finds a token it moves the cursor forward; where it finds none it moves
/// the cursor to the end of the buffer and changes nothing else.
pub proof fn lemma_step_advances(state: ScanState)
    requires
        state.wf(),
    ensures
        state.step().wf(),
        state.cursor <= state.step().cursor,
        state.next() is Some ==> state.cursor < state.step().cursor,
        state.next() is None ==> state.step() == (ScanState {
            cursor: state.buffer.len() as int,
            ..state
        }),
        state.step().buffer == state.buffer,
        state.step().dictionary == state.dictionary,
        state.step().options == state.options,
{
    lemma_next_token(state.dictionary, state.buffer, state.cursor);
}

/// Over any number of successive scan steps the cursor never moves back and
/// never leaves the buffer, and the buffer and the dictionary stay.
pub proof fn lemma_cursor_is_monotonic(state: ScanState, n: nat, m: nat)
    requires
        state.wf(),
        n <= m,
    ensures
        state.cursor <= state.after(n).cursor <= state.after(m).cursor <= state.buffer.len(),
        state.after(m).buffer == state.buffer,
        state.after(m).dictionary == state.dictionary,
    decreases m,
{
    lemma_step_advances(state);
    if n > 0 {
        lemma_cursor_is_monotonic(state.step(), (n - 1) as nat, (m - 1) as nat);
    } else if m > 0 {
        lemma_cursor_is_monotonic(state.step(), 0, (m - 1) as nat);
    }
}

/// Once the cursor stands at the end of the buffer no token is found any
/// more, and further scan steps change nothing.
pub proof fn lemma_exhausted_stays_exhausted(state: ScanState, n: nat)
    requires
        state.cursor == state.buffer.len(),
    ensures
        state.next() is None,
        state.remaining() == Seq::<Lexeme>::empty(),
        state.after(n) == state,
    decreases n,
{
    if n > 0 {
        lemma_exhausted_stays_exhausted(state, (n - 1) as nat);
    }
}

/// A scan step that finds a token takes the first of the tokens that were
/// still to come and leaves the others; one that finds none had none to
/// come.
pub proof fn lemma_step_takes_first_token(state: ScanState)
    ensures
        state.next() is Some <==> state.remaining().len() > 0,
        state.next() is Some ==> {
            &&& state.step().token == state.remaining()[0]
            &&& state.step().remaining() == state.remaining().drop_first()
        },
        state.next() is None ==> state.step().token == state.token,
{
}

/// Two scanners with the same dictionary and the same buffer that stand at
/// the same position find the same tokens from there on, whatever their
/// options and their current tokens are. So a scanner and its clone yield
/// the same tokens, and no option changes what a scan finds.
pub proof fn lemma_same_position_same_tokens(one: ScanState, other: ScanState, n: nat)
    requires
        one.dictionary == other.dictionary,
        one.buffer == other.buffer,
        one.cursor == other.cursor,
    ensures
        one.next() == other.next(),
        one.remaining() == other.remaining(),
        one.after(n).cursor == other.after(n).cursor,
        one.after(n).remaining() == other.after(n).remaining(),
        n > 0 && one.next() is Some ==> one.after(n).token == other.after(n).token,
    decreases n,
{
    if n > 0 {
        lemma_same_position_same_tokens(one.step(), other.step(), (n - 1) as nat);
        if one.next() is Some && n > 1 && one.step().next() is None {
            lemma_keeps_token_when_nothing_found(one.step(), (n - 1) as nat);
            lemma_keeps_token_when_nothing_found(other.step(), (n - 1) as nat);
        }
    }
}

/// Scan steps that find nothing leave the current token as it is.
pub proof fn lemma_keeps_token_when_nothing_found(state: ScanState, n: nat)
    requires
        state.next() is None,
    ensures
        state.after(n).token == state.token,
    decreases n,
{
    if n > 0 {
        lemma_keeps_token_when_nothing_found(state.step(), (n - 1) as nat);
    }
}

/// The empty word counts as a number.
pub proof fn lemma_empty_word_is_number()
    ensures
        is_number(Seq::<char>::empty()),
{
}

/// The escape counter is 0 exactly behind a character that is no backslash
/// (or at the start of the literal), and else 1 behind an odd number of
/// backslashes in a row and 2 behind an even number. So folding a count of
/// three back to one keeps the parity of the run, however long it is.
pub proof fn lemma_escape_counter_is_parity(buf: Seq<char>, start: int, pos: int)
    ensures
        backslash_run(buf, start, pos) == if backslashes_before(buf, start, pos) == 0 {
            0nat
        } else if backslashes_before(buf, start, pos) % 2 == 1 {
            1nat
        } else {
            2nat
        },
    decreases pos - start,
{
    if !(pos <= start || pos > buf.len() || buf[pos - 1] != '\\') {
        lemma_escape_counter_is_parity(buf, start, pos - 1);
    }
}

/// A quote of the literal's own kind closes it if and only if an even number
/// of backslashes, none included, stands just before it.
pub proof fn lemma_even_backslashes_close(buf: Seq<char>, start: int, pos: int, quote: char)
    ensures
        closes_literal(buf, start, pos, quote) <==> buf[pos] == quote && backslashes_before(
            buf,
            start,
            pos,
        ) % 2 == 0,
{
    lemma_escape_counter_is_parity(buf, start, pos);
}

/// A quote of the literal's own kind that no backslash precedes always ends
/// the literal: the literal ends at that quote or before it.
pub proof fn lemma_unescaped_quote_closes(
    buf: Seq<char>,
    start: int,
    pos: int,
    at: int,
    quote: char,
)
    requires
        0 <= pos <= at < buf.len(),
        buf[at] == quote,
        at <= start || buf[at - 1] != '\\',
    ensures
        literal_end(buf, start, pos, quote) <= at + 1,
        closes_literal(buf, start, at, quote),
    decreases at - pos,
{
    if pos < at && !closes_literal(buf, start, pos, quote) {
        lemma_unescaped_quote_closes(buf, start, pos + 1, at, quote);
    }
}

} // verus!
