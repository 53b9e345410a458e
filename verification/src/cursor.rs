//! A buffer of characters and a position in it that never leaves the
//! buffer.

use vstd::prelude::*;
use crate::scan::pair_at;

verus! {

/// The characters to scan and the position of the next one to examine.
///
/// The position is at most the length of the buffer, whatever is done with
/// the cursor: reading requires a character to be there, and moving
/// requires room to move.
pub struct Cursor {
    datas: Vec<char>,
    pos: usize,
}

impl Cursor {
    #[verifier::type_invariant]
    spec fn in_buffer(self) -> bool {
        self.pos <= self.datas.len()
    }

    /// The characters of the buffer.
    pub closed spec fn buffer(&self) -> Seq<char> {
        self.datas@
    }

    /// The position of the next character to examine.
    pub closed spec fn cursor(&self) -> nat {
        self.pos as nat
    }

    /// A cursor at the start of `datas`.
    pub fn new(datas: Vec<char>) -> (fresh: Cursor)
        ensures
            fresh.buffer() == datas@,
            fresh.cursor() == 0,
    {
        Cursor { datas, pos: 0 }
    }

    /// The position of the next character to examine.
    pub fn position(&self) -> (pos: usize)
        ensures
            pos == self.cursor(),
            pos <= self.buffer().len(),
    {
        proof {
            use_type_invariant(self);
        }
        self.pos
    }

    /// Whether every character has been passed.
    pub fn at_end(&self) -> (done: bool)
        ensures
            done == (self.cursor() >= self.buffer().len()),
            self.cursor() <= self.buffer().len(),
    {
        proof {
            use_type_invariant(self);
        }
        self.pos == self.datas.len()
    }

    /// The character under the cursor.
    pub fn current(&self) -> (c: char)
        requires
            self.cursor() < self.buffer().len(),
        ensures
            c == self.buffer()[self.cursor() as int],
    {
        self.datas[self.pos]
    }

    /// Whether the character under the cursor and the one behind it exist
    /// and are `first` and `second`.
    pub fn looks_at(&self, first: char, second: char) -> (found: bool)
        ensures
            found == pair_at(self.buffer(), self.cursor() as int, first, second),
    {
        proof {
            use_type_invariant(self);
        }
        self.datas.len() - self.pos >= 2 && self.datas[self.pos] == first && self.datas[self.pos
            + 1] == second
    }

    /// Moves the cursor one character forward.
    pub fn advance(&mut self)
        requires
            old(self).cursor() < old(self).buffer().len(),
        ensures
            final(self).buffer() == old(self).buffer(),
            final(self).cursor() == old(self).cursor() + 1,
    {
        proof {
            vstd::std_specs::vec::axiom_spec_len(&self.datas);
        }
        self.pos += 1;
    }
}

impl Clone for Cursor {
    fn clone(&self) -> (copy: Cursor)
        ensures
            copy.buffer() == self.buffer(),
            copy.cursor() == self.cursor(),
    {
        proof {
            use_type_invariant(self);
        }
        Cursor { datas: self.datas.clone(), pos: self.pos }
    }
}

} // verus!
