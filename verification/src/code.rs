//! The Morse code table: a fixed mapping from supported characters
//! (uppercase letters, digits, '.', ',' and '?') to their dot/dash patterns.

use vstd::prelude::*;

verus! {

/// One Morse signalling element: a short pulse or a long pulse.
#[derive(Clone, Copy, PartialEq, Eq, Structural, Debug)]
pub enum Symbol {
    Dot,
    Dash,
}

/// The code table as a mathematical map: the pattern of each supported
/// character, `None` for every other character. The table is indexed by
/// uppercase ASCII; callers hand it input that is already uppercase.
pub open spec fn pattern_of(c: char) -> Option<Seq<Symbol>> {
    if c == 'A' {
        Some(seq![Symbol::Dot, Symbol::Dash])
    } else if c == 'B' {
        Some(seq![Symbol::Dash, Symbol::Dot, Symbol::Dot, Symbol::Dot])
    } else if c == 'C' {
        Some(seq![Symbol::Dash, Symbol::Dot, Symbol::Dash, Symbol::Dot])
    } else if c == 'D' {
        Some(seq![Symbol::Dash, Symbol::Dot, Symbol::Dot])
    } else if c == 'E' {
        Some(seq![Symbol::Dot])
    } else if c == 'F' {
        Some(seq![Symbol::Dot, Symbol::Dot, Symbol::Dash, Symbol::Dot])
    } else if c == 'G' {
        Some(seq![Symbol::Dash, Symbol::Dash, Symbol::Dot])
    } else if c == 'H' {
        Some(seq![Symbol::Dot, Symbol::Dot, Symbol::Dot, Symbol::Dot])
    } else if c == 'I' {
        Some(seq![Symbol::Dot, Symbol::Dot])
    } else if c == 'J' {
        Some(seq![Symbol::Dot, Symbol::Dash, Symbol::Dash, Symbol::Dash])
    } else if c == 'K' {
        Some(seq![Symbol::Dash, Symbol::Dot, Symbol::Dash])
    } else if c == 'L' {
        Some(seq![Symbol::Dot, Symbol::Dash, Symbol::Dot, Symbol::Dot])
    } else if c == 'M' {
        Some(seq![Symbol::Dash, Symbol::Dash])
    } else if c == 'N' {
        Some(seq![Symbol::Dash, Symbol::Dot])
    } else if c == 'O' {
        Some(seq![Symbol::Dash, Symbol::Dash, Symbol::Dash])
    } else if c == 'P' {
        Some(seq![Symbol::Dot, Symbol::Dash, Symbol::Dash, Symbol::Dot])
    } else if c == 'Q' {
        Some(seq![Symbol::Dash, Symbol::Dash, Symbol::Dot, Symbol::Dash])
    } else if c == 'R' {
        Some(seq![Symbol::Dot, Symbol::Dash, Symbol::Dot])
    } else if c == 'S' {
        Some(seq![Symbol::Dot, Symbol::Dot, Symbol::Dot])
    } else if c == 'T' {
        Some(seq![Symbol::Dash])
    } else if c == 'U' {
        Some(seq![Symbol::Dot, Symbol::Dot, Symbol::Dash])
    } else if c == 'V' {
        Some(seq![Symbol::Dot, Symbol::Dot, Symbol::Dot, Symbol::Dash])
    } else if c == 'W' {
        Some(seq![Symbol::Dot, Symbol::Dash, Symbol::Dash])
    } else if c == 'X' {
        Some(seq![Symbol::Dash, Symbol::Dot, Symbol::Dot, Symbol::Dash])
    } else if c == 'Y' {
        Some(seq![Symbol::Dash, Symbol::Dot, Symbol::Dash, Symbol::Dash])
    } else if c == 'Z' {
        Some(seq![Symbol::Dash, Symbol::Dash, Symbol::Dot, Symbol::Dot])
    } else if c == '0' {
        Some(seq![Symbol::Dash, Symbol::Dash, Symbol::Dash, Symbol::Dash, Symbol::Dash])
    } else if c == '1' {
        Some(seq![Symbol::Dot, Symbol::Dash, Symbol::Dash, Symbol::Dash, Symbol::Dash])
    } else if c == '2' {
        Some(seq![Symbol::Dot, Symbol::Dot, Symbol::Dash, Symbol::Dash, Symbol::Dash])
    } else if c == '3' {
        Some(seq![Symbol::Dot, Symbol::Dot, Symbol::Dot, Symbol::Dash, Symbol::Dash])
    } else if c == '4' {
        Some(seq![Symbol::Dot, Symbol::Dot, Symbol::Dot, Symbol::Dot, Symbol::Dash])
    } else if c == '5' {
        Some(seq![Symbol::Dot, Symbol::Dot, Symbol::Dot, Symbol::Dot, Symbol::Dot])
    } else if c == '6' {
        Some(seq![Symbol::Dash, Symbol::Dot, Symbol::Dot, Symbol::Dot, Symbol::Dot])
    } else if c == '7' {
        Some(seq![Symbol::Dash, Symbol::Dash, Symbol::Dot, Symbol::Dot, Symbol::Dot])
    } else if c == '8' {
        Some(seq![Symbol::Dash, Symbol::Dash, Symbol::Dash, Symbol::Dot, Symbol::Dot])
    } else if c == '9' {
        Some(seq![Symbol::Dash, Symbol::Dash, Symbol::Dash, Symbol::Dash, Symbol::Dot])
    } else if c == '.' {
        Some(
            seq![Symbol::Dot, Symbol::Dash, Symbol::Dot, Symbol::Dash, Symbol::Dot, Symbol::Dash],
        )
    } else if c == ',' {
        Some(
            seq![Symbol::Dash, Symbol::Dash, Symbol::Dot, Symbol::Dot, Symbol::Dash, Symbol::Dash],
        )
    } else if c == '?' {
        Some(
            seq![Symbol::Dot, Symbol::Dot, Symbol::Dash, Symbol::Dash, Symbol::Dot, Symbol::Dot],
        )
    } else {
        None
    }
}

/// Whether the code table defines a pattern for `c`.
pub open spec fn is_supported(c: char) -> bool {
    pattern_of(c) is Some
}

/// Every supported character's pattern is non-empty and, being a sequence
/// of `Symbol`, consists of dots and dashes alone.
pub proof fn lemma_supported_pattern_nonempty(c: char)
    ensures
        pattern_of(c) matches Some(p) ==> p.len() > 0,
{
}

/// Look a character up in the code table: its pattern if it is supported,
/// `None` otherwise (callers skip such characters silently).
pub fn lookup(c: char) -> (r: Option<Vec<Symbol>>)
    ensures
        match r {
            Some(p) => pattern_of(c) == Some(p@),
            None => !is_supported(c),
        },
{
    if c == 'A' {
        Some(vec![Symbol::Dot, Symbol::Dash])
    } else if c == 'B' {
        Some(vec![Symbol::Dash, Symbol::Dot, Symbol::Dot, Symbol::Dot])
    } else if c == 'C' {
        Some(vec![Symbol::Dash, Symbol::Dot, Symbol::Dash, Symbol::Dot])
    } else if c == 'D' {
        Some(vec![Symbol::Dash, Symbol::Dot, Symbol::Dot])
    } else if c == 'E' {
        Some(vec![Symbol::Dot])
    } else if c == 'F' {
        Some(vec![Symbol::Dot, Symbol::Dot, Symbol::Dash, Symbol::Dot])
    } else if c == 'G' {
        Some(vec![Symbol::Dash, Symbol::Dash, Symbol::Dot])
    } else if c == 'H' {
        Some(vec![Symbol::Dot, Symbol::Dot, Symbol::Dot, Symbol::Dot])
    } else if c == 'I' {
        Some(vec![Symbol::Dot, Symbol::Dot])
    } else if c == 'J' {
        Some(vec![Symbol::Dot, Symbol::Dash, Symbol::Dash, Symbol::Dash])
    } else if c == 'K' {
        Some(vec![Symbol::Dash, Symbol::Dot, Symbol::Dash])
    } else if c == 'L' {
        Some(vec![Symbol::Dot, Symbol::Dash, Symbol::Dot, Symbol::Dot])
    } else if c == 'M' {
        Some(vec![Symbol::Dash, Symbol::Dash])
    } else if c == 'N' {
        Some(vec![Symbol::Dash, Symbol::Dot])
    } else if c == 'O' {
        Some(vec![Symbol::Dash, Symbol::Dash, Symbol::Dash])
    } else if c == 'P' {
        Some(vec![Symbol::Dot, Symbol::Dash, Symbol::Dash, Symbol::Dot])
    } else if c == 'Q' {
        Some(vec![Symbol::Dash, Symbol::Dash, Symbol::Dot, Symbol::Dash])
    } else if c == 'R' {
        Some(vec![Symbol::Dot, Symbol::Dash, Symbol::Dot])
    } else if c == 'S' {
        Some(vec![Symbol::Dot, Symbol::Dot, Symbol::Dot])
    } else if c == 'T' {
        Some(vec![Symbol::Dash])
    } else if c == 'U' {
        Some(vec![Symbol::Dot, Symbol::Dot, Symbol::Dash])
    } else if c == 'V' {
        Some(vec![Symbol::Dot, Symbol::Dot, Symbol::Dot, Symbol::Dash])
    } else if c == 'W' {
        Some(vec![Symbol::Dot, Symbol::Dash, Symbol::Dash])
    } else if c == 'X' {
        Some(vec![Symbol::Dash, Symbol::Dot, Symbol::Dot, Symbol::Dash])
    } else if c == 'Y' {
        Some(vec![Symbol::Dash, Symbol::Dot, Symbol::Dash, Symbol::Dash])
    } else if c == 'Z' {
        Some(vec![Symbol::Dash, Symbol::Dash, Symbol::Dot, Symbol::Dot])
    } else if c == '0' {
        Some(vec![Symbol::Dash, Symbol::Dash, Symbol::Dash, Symbol::Dash, Symbol::Dash])
    } else if c == '1' {
        Some(vec![Symbol::Dot, Symbol::Dash, Symbol::Dash, Symbol::Dash, Symbol::Dash])
    } else if c == '2' {
        Some(vec![Symbol::Dot, Symbol::Dot, Symbol::Dash, Symbol::Dash, Symbol::Dash])
    } else if c == '3' {
        Some(vec![Symbol::Dot, Symbol::Dot, Symbol::Dot, Symbol::Dash, Symbol::Dash])
    } else if c == '4' {
        Some(vec![Symbol::Dot, Symbol::Dot, Symbol::Dot, Symbol::Dot, Symbol::Dash])
    } else if c == '5' {
        Some(vec![Symbol::Dot, Symbol::Dot, Symbol::Dot, Symbol::Dot, Symbol::Dot])
    } else if c == '6' {
        Some(vec![Symbol::Dash, Symbol::Dot, Symbol::Dot, Symbol::Dot, Symbol::Dot])
    } else if c == '7' {
        Some(vec![Symbol::Dash, Symbol::Dash, Symbol::Dot, Symbol::Dot, Symbol::Dot])
    } else if c == '8' {
        Some(vec![Symbol::Dash, Symbol::Dash, Symbol::Dash, Symbol::Dot, Symbol::Dot])
    } else if c == '9' {
        Some(vec![Symbol::Dash, Symbol::Dash, Symbol::Dash, Symbol::Dash, Symbol::Dot])
    } else if c == '.' {
        Some(vec![Symbol::Dot, Symbol::Dash, Symbol::Dot, Symbol::Dash, Symbol::Dot, Symbol::Dash])
    } else if c == ',' {
        Some(vec![Symbol::Dash, Symbol::Dash, Symbol::Dot, Symbol::Dot, Symbol::Dash, Symbol::Dash])
    } else if c == '?' {
        Some(vec![Symbol::Dot, Symbol::Dot, Symbol::Dash, Symbol::Dash, Symbol::Dot, Symbol::Dot])
    } else {
        None
    }
}

} // verus!
