use vstd::prelude::*;

verus! {

/// Why visiting a token failed.
#[derive(Debug)]
pub enum VisitError<'a, E> {
    /// A binary token was not valid UTF-8. It carries the token's bytes and
    /// the visitor's description of what it expected.
    InvalidValue { unexpected: &'a [u8], expected: &'static str },
    /// The parser rejected the token; its message is the display text of
    /// the parser's error.
    Custom(E),
}

} // verus!
