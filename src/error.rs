use vstd::prelude::*;

verus! {

/// What sort of failure stopped a recognizer.
#[derive(Clone, Copy, Debug, PartialEq, Eq, Structural)]
pub enum ErrorKind {
    /// The input ended before a required token.
    Incomplete,
    /// The next characters do not form the required token.
    Mismatch,
}

/// The construct that a failing recognizer was looking for.
#[derive(Clone, Copy, Debug, PartialEq, Eq, Structural)]
pub enum Expected {
    /// A fixed keyword or punctuation sequence.
    Keyword,
    /// One given ASCII character.
    Char(u8),
    /// A letter that starts an identifier.
    Letter,
    /// A decimal digit.
    Digit,
    /// At least one space or tab.
    Whitespace,
    /// A decimal integer whose value fits in 128 signed bits.
    IntegerInRange,
    /// A floating-point literal (none is recognized yet).
    FloatLiteral,
}

/// A parse failure: what was expected, and where.
///
/// `remaining` is the number of input bytes left at the failure point, so the
/// byte offset of the fault in a document of `n` bytes is `n - remaining`.
#[derive(Clone, Copy, Debug, PartialEq, Eq, Structural)]
pub struct ParseError {
    pub kind: ErrorKind,
    pub expected: Expected,
    pub remaining: usize,
}

/// The error raised at input `s` when `expected` is not found there.
pub open spec fn fail_at(s: Seq<u8>, kind: ErrorKind, expected: Expected) -> ParseError {
    ParseError { kind, expected, remaining: s.len() as usize }
}

/// Of the failures of two alternatives tried at one place, the one that got
/// further into the input; the later one where both stopped at one place.
pub open spec fn furthest(a: ParseError, b: ParseError) -> ParseError {
    if b.remaining <= a.remaining { b } else { a }
}

/// Picks the failure that got further into the input.
pub fn furthest_error(a: ParseError, b: ParseError) -> (r: ParseError)
    ensures
        r == furthest(a, b),
{
    if b.remaining <= a.remaining { b } else { a }
}

/// The outcome of a recognizer in the specification: a value and the
/// unconsumed rest of the input, or an error.
pub type SpecResult<T> = Result<(T, Seq<u8>), ParseError>;

/// An ordered choice: `a` where it succeeds, else `b`; where both fail, the
/// failure that got further into the input.
pub open spec fn or_else<T>(a: SpecResult<T>, b: SpecResult<T>) -> SpecResult<T> {
    match a {
        Ok(q) => Ok(q),
        Err(e1) => match b {
            Ok(q) => Ok(q),
            Err(e2) => Err(furthest(e1, e2)),
        },
    }
}

} // verus!
