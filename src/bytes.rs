use vstd::prelude::*;

use crate::error::VisitError;

verus! {

/// Turns a binary token into a value through a parsing function that the
/// visitor owns. It takes no textual tokens.
pub struct BytesVisitor<F> {
    expectation: &'static str,
    parse_fn: F,
}

impl<F> BytesVisitor<F> {
    /// The description of what the visitor expects, used in error messages.
    pub closed spec fn expectation(&self) -> &'static str {
        self.expectation
    }

    /// The parsing function that a visit runs.
    pub closed spec fn parse_fn(&self) -> F {
        self.parse_fn
    }

    /// A visitor that describes what it expects with `expectation` and parses
    /// with `parse_fn`.
    pub fn new(expectation: &'static str, parse_fn: F) -> (r: Self)
        ensures
            r.expectation() == expectation,
            r.parse_fn() == parse_fn,
    {
        BytesVisitor { expectation, parse_fn }
    }

    /// The description of what the visitor expects, the same on every call.
    pub fn expecting(&self) -> (r: &'static str)
        ensures
            r == self.expectation(),
    {
        self.expectation
    }

    /// Runs the parsing function once on `v`: its value is passed on, its
    /// error becomes a custom error.
    pub fn visit_bytes<'a, T, E>(self, v: &'a [u8]) -> (r: Result<T, VisitError<'a, E>>) where
        F: Fn(&[u8]) -> Result<T, E>,

        requires
            self.parse_fn().requires((v,)),
        ensures
            match r {
                Ok(x) => self.parse_fn().ensures((v,), Ok(x)),
                Err(VisitError::Custom(e)) => self.parse_fn().ensures((v,), Err(e)),
                Err(VisitError::InvalidValue { .. }) => false,
            },
    {
        match (self.parse_fn)(v) {
            Ok(value) => Ok(value),
            Err(e) => Err(VisitError::Custom(e)),
        }
    }
}

/// Asking a visitor what it expects gives the same text every time.
pub proof fn lemma_bytes_expecting_stable<F>(
    visitor: &BytesVisitor<F>,
    first: &'static str,
    second: &'static str,
)
    requires
        first == visitor.expectation(),
        second == visitor.expectation(),
    ensures
        first@ == second@,
{
}

} // verus!
