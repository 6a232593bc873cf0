use core::marker::PhantomData;
use vstd::prelude::*;
use vstd::utf8::{decode_utf8, encode_utf8_decode_utf8, valid_utf8};

use crate::error::VisitError;
use crate::text::utf8_text;

verus! {

/// Turns a textual token into a `T` through a string parser, normally `T`'s
/// `FromStr::from_str`, handed to each visit. A binary token is
/// taken as text when it is valid UTF-8 and refused otherwise.
///
/// The visitor holds only the description of what it expects; `T` is carried
/// by the type alone.
pub struct HexVisitor<T> {
    expectation: &'static str,
    _pd: PhantomData<T>,
}

/// `r` is what visiting the text `s` gives when `parse` is run on it once: the
/// value that `parse` returned, or its error as a custom error.
pub open spec fn parsed_outcome<'a, T, E, P: Fn(&str) -> Result<T, E>>(
    parse: P,
    s: &str,
    r: Result<T, VisitError<'a, E>>,
) -> bool {
    match r {
        Ok(v) => parse.ensures((s,), Ok(v)),
        Err(VisitError::Custom(e)) => parse.ensures((s,), Err(e)),
        Err(VisitError::InvalidValue { .. }) => false,
    }
}

/// `parse` gives the same result on any two texts of the same characters.
pub open spec fn depends_on_text_only<T, E, P: Fn(&str) -> Result<T, E>>(parse: P) -> bool {
    forall|s1: &str, s2: &str, x: Result<T, E>, y: Result<T, E>|
        s1@ == s2@ && #[trigger] parse.ensures((s1,), x) && #[trigger] parse.ensures((s2,), y)
            ==> x == y
}

impl<T> HexVisitor<T> {
    /// The description of what the visitor expects, used in error messages.
    pub closed spec fn expectation(&self) -> &'static str {
        self.expectation
    }

    /// What visiting the binary token `b` gives, with `r` as the result:
    /// an invalid-value error naming `b` when `b` is not UTF-8, and otherwise
    /// the outcome of parsing a text whose characters `b` encodes.
    pub open spec fn bytes_outcome<'a, E, P: Fn(&str) -> Result<T, E>>(
        &self,
        parse: P,
        b: &'a [u8],
        r: Result<T, VisitError<'a, E>>,
    ) -> bool {
        if valid_utf8(b@) {
            exists|s: &str| s@ == decode_utf8(b@) && #[trigger] parsed_outcome(parse, s, r)
        } else {
            r == Err::<T, VisitError<'a, E>>(
                VisitError::InvalidValue { unexpected: b, expected: self.expectation() },
            )
        }
    }

    /// A visitor that describes what it expects with `expectation`.
    pub fn new(expectation: &'static str) -> (r: Self)
        ensures
            r.expectation() == expectation,
    {
        HexVisitor { expectation, _pd: PhantomData }
    }

    /// The description of what the visitor expects, the same on every call.
    pub fn expecting(&self) -> (r: &'static str)
        ensures
            r == self.expectation(),
    {
        self.expectation
    }

    /// Parses a textual token with `parse`, called once on `v`.
    pub fn visit_str<'a, E, P: Fn(&str) -> Result<T, E>>(self, v: &str, parse: P) -> (r: Result<
        T,
        VisitError<'a, E>,
    >)
        requires
            parse.requires((v,)),
        ensures
            parsed_outcome(parse, v, r),
    {
        match parse(v) {
            Ok(value) => Ok(value),
            Err(e) => Err(VisitError::Custom(e)),
        }
    }

    /// Decodes a binary token as UTF-8 and parses the text with `parse`; bytes
    /// that are not UTF-8 are refused without calling `parse`.
    pub fn visit_bytes<'a, E, P: Fn(&str) -> Result<T, E>>(self, v: &'a [u8], parse: P) -> (r:
        Result<T, VisitError<'a, E>>)
        requires
            forall|s: &str| s@ == decode_utf8(v@) ==> #[trigger] parse.requires((s,)),
        ensures
            self.bytes_outcome(parse, v, r),
    {
        match utf8_text(v) {
            Some(text) => {
                proof {
                    encode_utf8_decode_utf8(text@);
                }
                let r = self.visit_str(text, parse);
                assert(parsed_outcome(parse, text, r));
                r
            },
            None => Err(VisitError::InvalidValue { unexpected: v, expected: self.expectation }),
        }
    }
}

/// Binary and textual tokens agree. When `b` is valid UTF-8 and `parse` gives
/// the same result on any two texts of the same characters, visiting `b` as a
/// binary token and visiting a text of the characters that `b` encodes give
/// the same result: the same value, or the same custom error.
pub proof fn lemma_bytes_agree_with_text<'a, T, E, P: Fn(&str) -> Result<T, E>>(
    visitor: HexVisitor<T>,
    parse: P,
    b: &'a [u8],
    s: &str,
    from_bytes: Result<T, VisitError<'a, E>>,
    from_text: Result<T, VisitError<'a, E>>,
)
    requires
        valid_utf8(b@),
        s@ == decode_utf8(b@),
        depends_on_text_only(parse),
        visitor.bytes_outcome(parse, b, from_bytes),
        parsed_outcome(parse, s, from_text),
    ensures
        from_bytes == from_text,
{
    let t = choose|t: &str| t@ == decode_utf8(b@) && #[trigger] parsed_outcome(parse, t, from_bytes);
    match from_bytes {
        Ok(x) => match from_text {
            Ok(y) => assert(parse.ensures((t,), Ok::<T, E>(x)) && parse.ensures((s,), Ok::<T, E>(y))),
            Err(VisitError::Custom(e)) => assert(parse.ensures((s,), Err::<T, E>(e))),
            Err(VisitError::InvalidValue { .. }) => {},
        },
        Err(VisitError::Custom(e1)) => match from_text {
            Ok(y) => assert(parse.ensures((s,), Ok::<T, E>(y))),
            Err(VisitError::Custom(e2)) => assert(parse.ensures((t,), Err::<T, E>(e1)) && parse.ensures((s,), Err::<T, E>(e2))),
            Err(VisitError::InvalidValue { .. }) => {},
        },
        Err(VisitError::InvalidValue { .. }) => {},
    }
}

/// Asking a visitor what it expects gives the same text every time.
pub proof fn lemma_hex_expecting_stable<T>(
    visitor: &HexVisitor<T>,
    first: &'static str,
    second: &'static str,
)
    requires
        first == visitor.expectation(),
        second == visitor.expectation(),
    ensures
        first@ == second@,
{
}

} // verus!
