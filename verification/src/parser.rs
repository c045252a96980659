//! Character-level scanning over source text: the primitive matchers that a
//! CASL II front-end builds on.
//!
//! A `ParserState` is a cursor over a string; each matcher looks at the
//! character under the cursor and either consumes it or leaves the state
//! untouched.  Positions count characters, not bytes, so any text can be
//! scanned.

use vstd::prelude::*;
use vstd::string::StrSliceExecFns;

verus! {

/// What `char::is_numeric` returns: a Unicode character-class test, a
/// function of the character alone.
pub uninterp spec fn spec_char_is_numeric(c: char) -> bool;

/// What `char::is_uppercase` returns: a Unicode character-class test, a
/// function of the character alone.
pub uninterp spec fn spec_char_is_uppercase(c: char) -> bool;

/// What `char::is_lowercase` returns: a Unicode character-class test, a
/// function of the character alone.
pub uninterp spec fn spec_char_is_lowercase(c: char) -> bool;

/// Relies on `char::is_numeric`: whether the character is numeric by the
/// Unicode tables; the result depends on the character alone.
pub assume_specification[ std::primitive::char::is_numeric ](c: char) -> (r: bool)
    ensures
        r == spec_char_is_numeric(c),
;

/// Relies on `char::is_uppercase`: whether the character is uppercase by the
/// Unicode tables; the result depends on the character alone.
pub assume_specification[ std::primitive::char::is_uppercase ](c: char) -> (r: bool)
    ensures
        r == spec_char_is_uppercase(c),
;

/// Relies on `char::is_lowercase`: whether the character is lowercase by the
/// Unicode tables; the result depends on the character alone.
pub assume_specification[ std::primitive::char::is_lowercase ](c: char) -> (r: bool)
    ensures
        r == spec_char_is_lowercase(c),
;

/// An ASCII letter: code point in A..Z or a..z.
pub open spec fn spec_is_ascii_alphabetic(c: char) -> bool {
    0x41 <= c as u32 <= 0x5A || 0x61 <= c as u32 <= 0x7A
}

/// An ASCII letter or digit: `spec_is_ascii_alphabetic` or 0..9.
pub open spec fn spec_is_ascii_alphanumeric(c: char) -> bool {
    spec_is_ascii_alphabetic(c) || 0x30 <= c as u32 <= 0x39
}

/// A cursor over source text: the text and the number of characters already
/// consumed.
#[derive(Debug)]
pub struct ParserState {
    /// Characters consumed so far.
    pub position: usize,
    /// The text being scanned.
    pub string: String,
}

impl ParserState {
    /// A fresh cursor at the start of `s`.
    pub fn new(s: &str) -> (r: ParserState)
        ensures
            r.position == 0,
            r.string@ == s@,
    {
        ParserState { position: 0, string: s.to_owned() }
    }

    /// The character under the cursor, if any; the cursor does not move.
    pub fn peek(&self) -> (r: Option<char>)
        ensures
            r == (if self.position < self.string@.len() {
                Some(self.string@[self.position as int])
            } else {
                None::<char>
            }),
            r is Some ==> self.position < usize::MAX,
    {
        if self.position < self.string.as_str().unicode_len() {
            Some(self.string.as_str().get_char(self.position))
        } else {
            None
        }
    }

    /// Move the cursor one character forward.
    pub fn next(&mut self)
        requires
            old(self).position < usize::MAX,
        ensures
            final(self).position == old(self).position + 1,
            final(self).string@ == old(self).string@,
    {
        self.position = self.position + 1;
    }

    /// Match any one character.
    pub fn any_char(&mut self) -> (r: Option<char>)
        ensures
            final(self).string@ == old(self).string@,
            old(self).position < old(self).string@.len() ==> r == Some(
                old(self).string@[old(self).position as int],
            ) && final(self).position == old(self).position + 1,
            old(self).position >= old(self).string@.len() ==> r is None && final(self).position
                == old(self).position,
    {
        let f = |_c: char| -> (b: bool)
            ensures
                b,
            { true };
        self.satisfy(f)
    }

    /// Match one character when the predicate accepts it.  On `Some(c)` the
    /// cursor advanced past `c` and the predicate returned true for it; on
    /// `None` the cursor is unchanged, because the input was exhausted or
    /// the predicate returned false for the character under the cursor.
    pub fn satisfy<F: FnOnce(char) -> bool>(&mut self, f: F) -> (r: Option<char>)
        requires
            forall|c: char| #[trigger] call_requires(f, (c,)),
        ensures
            final(self).string@ == old(self).string@,
            (match r {
                Some(c) => {
                    &&& old(self).position < old(self).string@.len()
                    &&& c == old(self).string@[old(self).position as int]
                    &&& call_ensures(f, (c,), true)
                    &&& final(self).position == old(self).position + 1
                },
                None => {
                    &&& final(self).position == old(self).position
                    &&& (old(self).position >= old(self).string@.len() || call_ensures(
                        f,
                        (old(self).string@[old(self).position as int],),
                        false,
                    ))
                },
            }),
    {
        let chara = match self.peek() {
            Some(c) => c,
            None => {
                return None;
            },
        };
        if !f(chara) {
            None
        } else {
            self.next();
            Some(chara)
        }
    }

    /// Match exactly the character `ch`.
    pub fn char(&mut self, ch: char) -> (r: Option<char>)
        ensures
            final(self).string@ == old(self).string@,
            (match r {
                Some(c) => {
                    &&& c == ch
                    &&& old(self).position < old(self).string@.len()
                    &&& old(self).string@[old(self).position as int] == ch
                    &&& final(self).position == old(self).position + 1
                },
                None => {
                    &&& final(self).position == old(self).position
                    &&& (old(self).position >= old(self).string@.len() || old(
                        self,
                    ).string@[old(self).position as int] != ch)
                },
            }),
    {
        let f = |c: char| -> (b: bool)
            ensures
                b == (c == ch),
            { c == ch };
        self.satisfy(f)
    }

    /// Match no character at all: always `None`, cursor unchanged.
    pub fn never(&mut self) -> (r: Option<char>)
        ensures
            final(self).string@ == old(self).string@,
            r is None,
            final(self).position == old(self).position,
    {
        let f = |_c: char| -> (b: bool)
            ensures
                !b,
            { false };
        self.satisfy(f)
    }

    /// Match one numeric character, by the Unicode tables.
    pub fn digit(&mut self) -> (r: Option<char>)
        ensures
            final(self).string@ == old(self).string@,
            (match r {
                Some(c) => {
                    &&& old(self).position < old(self).string@.len()
                    &&& c == old(self).string@[old(self).position as int]
                    &&& spec_char_is_numeric(c)
                    &&& final(self).position == old(self).position + 1
                },
                None => {
                    &&& final(self).position == old(self).position
                    &&& (old(self).position >= old(self).string@.len() || !spec_char_is_numeric(
                        old(self).string@[old(self).position as int],
                    ))
                },
            }),
    {
        let f = |c: char| -> (b: bool)
            ensures
                b == spec_char_is_numeric(c),
            { c.is_numeric() };
        self.satisfy(f)
    }

    /// Match one uppercase character, by the Unicode tables.
    pub fn upper(&mut self) -> (r: Option<char>)
        ensures
            final(self).string@ == old(self).string@,
            (match r {
                Some(c) => {
                    &&& old(self).position < old(self).string@.len()
                    &&& c == old(self).string@[old(self).position as int]
                    &&& spec_char_is_uppercase(c)
                    &&& final(self).position == old(self).position + 1
                },
                None => {
                    &&& final(self).position == old(self).position
                    &&& (old(self).position >= old(self).string@.len() || !spec_char_is_uppercase(
                        old(self).string@[old(self).position as int],
                    ))
                },
            }),
    {
        let f = |c: char| -> (b: bool)
            ensures
                b == spec_char_is_uppercase(c),
            { c.is_uppercase() };
        self.satisfy(f)
    }

    /// Match one lowercase character, by the Unicode tables.
    pub fn lower(&mut self) -> (r: Option<char>)
        ensures
            final(self).string@ == old(self).string@,
            (match r {
                Some(c) => {
                    &&& old(self).position < old(self).string@.len()
                    &&& c == old(self).string@[old(self).position as int]
                    &&& spec_char_is_lowercase(c)
                    &&& final(self).position == old(self).position + 1
                },
                None => {
                    &&& final(self).position == old(self).position
                    &&& (old(self).position >= old(self).string@.len() || !spec_char_is_lowercase(
                        old(self).string@[old(self).position as int],
                    ))
                },
            }),
    {
        let f = |c: char| -> (b: bool)
            ensures
                b == spec_char_is_lowercase(c),
            { c.is_lowercase() };
        self.satisfy(f)
    }

    /// Match one ASCII letter.
    pub fn ascii_alphabet(&mut self) -> (r: Option<char>)
        ensures
            final(self).string@ == old(self).string@,
            (match r {
                Some(c) => {
                    &&& old(self).position < old(self).string@.len()
                    &&& c == old(self).string@[old(self).position as int]
                    &&& spec_is_ascii_alphabetic(c)
                    &&& final(self).position == old(self).position + 1
                },
                None => {
                    &&& final(self).position == old(self).position
                    &&& (old(self).position >= old(self).string@.len()
                        || !spec_is_ascii_alphabetic(
                        old(self).string@[old(self).position as int],
                    ))
                },
            }),
    {
        let f = |c: char| -> (b: bool)
            ensures
                b == spec_is_ascii_alphabetic(c),
            {
                let u = c as u32;
                (0x41 <= u && u <= 0x5A) || (0x61 <= u && u <= 0x7A)
            };
        self.satisfy(f)
    }

    /// Match one ASCII letter or digit.
    pub fn ascii_alphanumeric(&mut self) -> (r: Option<char>)
        ensures
            final(self).string@ == old(self).string@,
            (match r {
                Some(c) => {
                    &&& old(self).position < old(self).string@.len()
                    &&& c == old(self).string@[old(self).position as int]
                    &&& spec_is_ascii_alphanumeric(c)
                    &&& final(self).position == old(self).position + 1
                },
                None => {
                    &&& final(self).position == old(self).position
                    &&& (old(self).position >= old(self).string@.len()
                        || !spec_is_ascii_alphanumeric(
                        old(self).string@[old(self).position as int],
                    ))
                },
            }),
    {
        let f = |c: char| -> (b: bool)
            ensures
                b == spec_is_ascii_alphanumeric(c),
            {
                let u = c as u32;
                (0x41 <= u && u <= 0x5A) || (0x61 <= u && u <= 0x7A) || (0x30 <= u && u <= 0x39)
            };
        self.satisfy(f)
    }
}

} // verus!
