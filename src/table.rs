//! The fixed table from characters to Morse codes.

use vstd::prelude::*;

use Symbol::{Dash, Dot};

verus! {

/// One element of a Morse code.
#[derive(Clone, Copy, Debug, PartialEq, Eq, Structural)]
pub enum Symbol {
    Dot,
    Dash,
}

/// The character that shows a symbol as text.
pub open spec fn glyph_of(s: Symbol) -> char {
    match s {
        Symbol::Dot => '.',
        Symbol::Dash => '-',
    }
}

impl Symbol {
    pub fn glyph(&self) -> (r: char)
        ensures
            r == glyph_of(*self),
    {
        match self {
            Symbol::Dot => '.',
            Symbol::Dash => '-',
        }
    }
}

/// The ASCII upper case of a character: `a` to `z` become `A` to `Z`,
/// every other character stays as it is.
pub open spec fn ascii_upper(c: char) -> char {
    if 'a' <= c <= 'z' {
        ((c as u32) - 32) as char
    } else {
        c
    }
}

/// The ASCII lower case of a character: `A` to `Z` become `a` to `z`,
/// every other character stays as it is.
pub open spec fn ascii_lower(c: char) -> char {
    if 'A' <= c <= 'Z' {
        ((c as u32) + 32) as char
    } else {
        c
    }
}

/// The characters of the Unicode upper case of a character, one or more.
pub uninterp spec fn upper_of(c: char) -> Seq<char>;

/// Relies on `char::to_uppercase`: it yields the upper case mapping of the
/// character as one or more characters, and on an ASCII character it agrees
/// with `char::to_ascii_uppercase`.
#[verifier::external_body]
pub(crate) fn uppercase(c: char) -> (r: Vec<char>)
    ensures
        r@ == upper_of(c),
        r@.len() >= 1,
        (c as u32) < 128 ==> r@ == seq![ascii_upper(c)],
{
    c.to_uppercase().collect()
}

/// The Morse code of a character of the table. The table holds the upper
/// case letters, the digits and the marks `, . ? / - ( )`; it has no entry
/// for any other character.
pub open spec fn morse_code(c: char) -> Option<Seq<Symbol>> {
    match c {
        'A' => Some(seq![Dot, Dash]),
        'B' => Some(seq![Dash, Dot, Dot, Dot]),
        'C' => Some(seq![Dash, Dot, Dash, Dot]),
        'D' => Some(seq![Dash, Dot, Dot]),
        'E' => Some(seq![Dot]),
        'F' => Some(seq![Dot, Dot, Dash, Dot]),
        'G' => Some(seq![Dash, Dash, Dot]),
        'H' => Some(seq![Dot, Dot, Dot, Dot]),
        'I' => Some(seq![Dot, Dot]),
        'J' => Some(seq![Dot, Dash, Dash, Dash]),
        'K' => Some(seq![Dash, Dot, Dash]),
        'L' => Some(seq![Dot, Dash, Dot, Dot]),
        'M' => Some(seq![Dash, Dash]),
        'N' => Some(seq![Dash, Dot]),
        'O' => Some(seq![Dash, Dash, Dash]),
        'P' => Some(seq![Dot, Dash, Dash, Dot]),
        'Q' => Some(seq![Dash, Dash, Dot, Dash]),
        'R' => Some(seq![Dot, Dash, Dot]),
        'S' => Some(seq![Dot, Dot, Dot]),
        'T' => Some(seq![Dash]),
        'U' => Some(seq![Dot, Dot, Dash]),
        'V' => Some(seq![Dot, Dot, Dot, Dash]),
        'W' => Some(seq![Dot, Dash, Dash]),
        'X' => Some(seq![Dash, Dot, Dot, Dash]),
        'Y' => Some(seq![Dash, Dot, Dash, Dash]),
        'Z' => Some(seq![Dash, Dash, Dot, Dot]),
        '1' => Some(seq![Dot, Dash, Dash, Dash, Dash]),
        '2' => Some(seq![Dot, Dot, Dash, Dash, Dash]),
        '3' => Some(seq![Dot, Dot, Dot, Dash, Dash]),
        '4' => Some(seq![Dot, Dot, Dot, Dot, Dash]),
        '5' => Some(seq![Dot, Dot, Dot, Dot, Dot]),
        '6' => Some(seq![Dash, Dot, Dot, Dot, Dot]),
        '7' => Some(seq![Dash, Dash, Dot, Dot, Dot]),
        '8' => Some(seq![Dash, Dash, Dash, Dot, Dot]),
        '9' => Some(seq![Dash, Dash, Dash, Dash, Dot]),
        '0' => Some(seq![Dash, Dash, Dash, Dash, Dash]),
        ',' => Some(seq![Dash, Dash, Dot, Dot, Dash, Dash]),
        '.' => Some(seq![Dot, Dash, Dot, Dash, Dot, Dash]),
        '?' => Some(seq![Dot, Dot, Dash, Dash, Dot, Dot]),
        '/' => Some(seq![Dash, Dot, Dot, Dash, Dot]),
        '-' => Some(seq![Dash, Dot, Dot, Dot, Dot, Dash]),
        '(' => Some(seq![Dash, Dot, Dash, Dash, Dot]),
        ')' => Some(seq![Dash, Dot, Dash, Dash, Dot, Dash]),
        _ => None,
    }
}

/// The code that an upper case mapping stands for: the code of its one
/// character when it is a single key of the table, and none otherwise.
pub open spec fn upper_code(u: Seq<char>) -> Option<Seq<Symbol>> {
    if u.len() == 1 {
        morse_code(u[0])
    } else {
        None
    }
}

/// The code of a character in either case: the code of its upper case when
/// that is one character of the table.
pub open spec fn code_for(c: char) -> Option<Seq<Symbol>> {
    upper_code(upper_of(c))
}

/// Whether a character may stand in a message: a space, or a character with
/// a code in either case.
pub open spec fn allowed(c: char) -> bool {
    c == ' ' || code_for(c) is Some
}

/// The code of an upper case mapping, as `char::to_uppercase` yields it.
pub fn code_of_upper(u: &Vec<char>) -> (r: Option<Vec<Symbol>>)
    ensures
        r is None <==> upper_code(u@) is None,
        r is Some ==> upper_code(u@) == Some(r->0@),
{
    if u.len() == 1 {
        key_code(u[0])
    } else {
        None
    }
}

/// Looks a character up in the table after taking its upper case. An ASCII
/// character has the code of its ASCII upper case, so both cases of a letter
/// have the same code.
pub fn lookup(c: char) -> (r: Option<Vec<Symbol>>)
    ensures
        r is None <==> code_for(c) is None,
        r is Some ==> code_for(c) == Some(r->0@),
        (c as u32) < 128 ==> (r is None <==> morse_code(ascii_upper(c)) is None),
        (c as u32) < 128 && r is Some ==> morse_code(ascii_upper(c)) == Some(r->0@),
{
    let u = uppercase(c);
    code_of_upper(&u)
}

/// The code of a key of the table; the key is matched as it is.
pub fn key_code(u: char) -> (r: Option<Vec<Symbol>>)
    ensures
        r is None <==> morse_code(u) is None,
        r is Some ==> morse_code(u) == Some(r->0@),
{
    match u {
        'A' => Some(vec![Dot, Dash]),
        'B' => Some(vec![Dash, Dot, Dot, Dot]),
        'C' => Some(vec![Dash, Dot, Dash, Dot]),
        'D' => Some(vec![Dash, Dot, Dot]),
        'E' => Some(vec![Dot]),
        'F' => Some(vec![Dot, Dot, Dash, Dot]),
        'G' => Some(vec![Dash, Dash, Dot]),
        'H' => Some(vec![Dot, Dot, Dot, Dot]),
        'I' => Some(vec![Dot, Dot]),
        'J' => Some(vec![Dot, Dash, Dash, Dash]),
        'K' => Some(vec![Dash, Dot, Dash]),
        'L' => Some(vec![Dot, Dash, Dot, Dot]),
        'M' => Some(vec![Dash, Dash]),
        'N' => Some(vec![Dash, Dot]),
        'O' => Some(vec![Dash, Dash, Dash]),
        'P' => Some(vec![Dot, Dash, Dash, Dot]),
        'Q' => Some(vec![Dash, Dash, Dot, Dash]),
        'R' => Some(vec![Dot, Dash, Dot]),
        'S' => Some(vec![Dot, Dot, Dot]),
        'T' => Some(vec![Dash]),
        'U' => Some(vec![Dot, Dot, Dash]),
        'V' => Some(vec![Dot, Dot, Dot, Dash]),
        'W' => Some(vec![Dot, Dash, Dash]),
        'X' => Some(vec![Dash, Dot, Dot, Dash]),
        'Y' => Some(vec![Dash, Dot, Dash, Dash]),
        'Z' => Some(vec![Dash, Dash, Dot, Dot]),
        '1' => Some(vec![Dot, Dash, Dash, Dash, Dash]),
        '2' => Some(vec![Dot, Dot, Dash, Dash, Dash]),
        '3' => Some(vec![Dot, Dot, Dot, Dash, Dash]),
        '4' => Some(vec![Dot, Dot, Dot, Dot, Dash]),
        '5' => Some(vec![Dot, Dot, Dot, Dot, Dot]),
        '6' => Some(vec![Dash, Dot, Dot, Dot, Dot]),
        '7' => Some(vec![Dash, Dash, Dot, Dot, Dot]),
        '8' => Some(vec![Dash, Dash, Dash, Dot, Dot]),
        '9' => Some(vec![Dash, Dash, Dash, Dash, Dot]),
        '0' => Some(vec![Dash, Dash, Dash, Dash, Dash]),
        ',' => Some(vec![Dash, Dash, Dot, Dot, Dash, Dash]),
        '.' => Some(vec![Dot, Dash, Dot, Dash, Dot, Dash]),
        '?' => Some(vec![Dot, Dot, Dash, Dash, Dot, Dot]),
        '/' => Some(vec![Dash, Dot, Dot, Dash, Dot]),
        '-' => Some(vec![Dash, Dot, Dot, Dot, Dot, Dash]),
        '(' => Some(vec![Dash, Dot, Dash, Dash, Dot]),
        ')' => Some(vec![Dash, Dot, Dash, Dash, Dot, Dash]),
        _ => None,
    }
}

/// Whether a character may stand in a message. On an ASCII character this
/// is decided by its ASCII upper case.
pub fn is_allowed(c: char) -> (r: bool)
    ensures
        r == allowed(c),
        (c as u32) < 128 ==> (r <==> (c == ' ' || morse_code(ascii_upper(c)) is Some)),
{
    c == ' ' || lookup(c).is_some()
}

/// Case does not matter to ASCII folding: a character, its upper case and
/// its lower case all fold to the same upper case, so with the ASCII clauses
/// of `lookup` each has the same code, or none.
pub proof fn lemma_ascii_case_folds(c: char)
    ensures
        ascii_upper(ascii_upper(c)) == ascii_upper(c),
        ascii_upper(ascii_lower(c)) == ascii_upper(c),
        (c as u32) < 128 ==> (ascii_upper(c) as u32) < 128 && (ascii_lower(c) as u32) < 128,
{
}

} // verus!
