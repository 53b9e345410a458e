//! Conversions between strings and character sequences.

use vstd::prelude::*;

verus! {

/// `String::push` appends the given character to the end of the string and
/// leaves the characters already in it untouched. Nothing of this is
/// proved here: it is taken from the documentation of the standard library.
pub assume_specification[ String::push ](s: &mut String, ch: char)
    ensures
        final(s)@ == old(s)@.push(ch),
;

/// Collects the characters of `string`, in order.
pub fn str_to_vec(string: String) -> (chars: Vec<char>)
    ensures
        chars@ == string@,
{
    let mut chars: Vec<char> = Vec::new();
    for c in it: string.as_str().chars()
        invariant
            chars@ == it.seq().take(it.index()),
    {
        chars.push(c);
    }
    chars
}

/// Builds the string that holds exactly the characters of `chars`, in order.
pub fn string_from_chars(chars: &Vec<char>) -> (text: String)
    ensures
        text@ == chars@,
{
    let mut text = String::new();
    let mut i: usize = 0;
    while i < chars.len()
        invariant
            i <= chars.len(),
            text@ == chars@.take(i as int),
        decreases chars.len() - i,
    {
        text.push(chars[i]);
        i += 1;
    }
    text
}

} // verus!
