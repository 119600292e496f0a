//! The parsing bridge: from one scalar token to a wrapped value.

use vstd::prelude::*;

use crate::wrapped::StringWrapped;

verus! {

/// One scalar token, as a text-based host format hands it over.
///
/// The bridge accepts exactly the string scalars; every other token shape
/// is rejected without any attempt at coercion.
pub enum Token {
    /// A string scalar, with its text content.
    Str(String),
    /// Any non-string token: a number, a boolean, a null, or a
    /// structural opening.
    Other,
}

/// A deserialization failure, surfaced to the caller unchanged.
#[derive(Debug, PartialEq, Eq)]
pub enum DeError {
    /// The token's text could not be parsed as the inner type; carries
    /// the inner parser's human-readable description.
    ParseFailure(String),
    /// The token was not a string scalar.
    TypeMismatch,
}

/// The text of the fixed message that a type mismatch carries: it states
/// the one token shape the bridge accepts.
pub open spec fn expected_shape() -> Seq<char> {
    "a string that can be parsed as the given type"@
}

impl DeError {
    /// The human-readable message of this error: the inner parser's own
    /// description for a parse failure, and a fixed statement of the
    /// expected token shape for a type mismatch.
    pub fn message(&self) -> (r: String)
        ensures
            self matches DeError::ParseFailure(m) ==> r@ == m@,
            self is TypeMismatch ==> r@ == expected_shape(),
    {
        match self {
            DeError::ParseFailure(m) => m.clone(),
            DeError::TypeMismatch => expecting_message(),
        }
    }
}

/// The fixed description of the one token shape the bridge accepts.
pub fn expecting_message() -> (r: String)
    ensures
        r@ == expected_shape(),
{
    let text: &str = "a string that can be parsed as the given type";
    text.to_owned()
}

/// The string-parsing capability of an inner type: what `StringWrapped`
/// asks of `T` in order to be deserialized from a string scalar.
///
/// `parse_ok` and `parse_value` are the implementing type's own statement
/// of which texts its parser accepts and of the value each accepted text
/// denotes; `parse_text` is the parser itself, bound to that statement.
pub trait ParseText: Sized {
    /// Whether this type's parser accepts the given text.
    spec fn parse_ok(text: Seq<char>) -> bool;

    /// The value the parser produces for an accepted text.
    spec fn parse_value(text: Seq<char>) -> Self;

    /// Parses the text content of one string scalar; a failure carries
    /// the parser's human-readable description of what went wrong.
    fn parse_text(text: &str) -> (r: Result<Self, String>)
        ensures
            r is Ok <==> Self::parse_ok(text@),
            r matches Ok(v) ==> v == Self::parse_value(text@),
    ;
}

/// Wraps the outcome of the inner type's parser: a parsed value is
/// wrapped as it is, a failure description becomes a parse failure.
pub fn wrap_outcome<T>(outcome: Result<T, String>) -> (r: Result<StringWrapped<T>, DeError>)
    ensures
        outcome matches Ok(v) ==> r matches Ok(w) && w.0 == v,
        outcome matches Err(m) ==> r matches Err(e) && e == DeError::ParseFailure(m),
{
    match outcome {
        Ok(v) => Ok(StringWrapped(v)),
        Err(m) => Err(DeError::ParseFailure(m)),
    }
}

/// Parses the text of one string scalar with the inner type's parser and
/// wraps exactly what it produced; the parser alone decides between the
/// two outcomes, and a failure is always a parse failure, never a
/// type mismatch.
pub fn parse_str_token<T: ParseText>(text: &str) -> (r: Result<StringWrapped<T>, DeError>)
    ensures
        T::parse_ok(text@) ==> (r matches Ok(w) && w.0 == T::parse_value(text@)),
        !T::parse_ok(text@) ==> (r matches Err(e) && e is ParseFailure),
{
    wrap_outcome(T::parse_text(text))
}

/// Deserializes exactly one token: the text of a string scalar goes to
/// the inner type's parser, and every other token shape is a type
/// mismatch, with no attempt at coercion.
pub fn deserialize_token<T: ParseText>(tok: &Token) -> (r: Result<StringWrapped<T>, DeError>)
    ensures
        tok is Other ==> r == Err::<StringWrapped<T>, DeError>(DeError::TypeMismatch),
        tok matches Token::Str(text) ==> (T::parse_ok(text@) ==> (r matches Ok(w) && w.0
            == T::parse_value(text@))),
        tok matches Token::Str(text) ==> (!T::parse_ok(text@) ==> (r matches Err(e)
            && e is ParseFailure)),
{
    match tok {
        Token::Str(text) => parse_str_token::<T>(text.as_str()),
        Token::Other => Err(DeError::TypeMismatch),
    }
}

/// Round trip via parse: when the inner type's parser accepts a text and
/// yields the value `v`, deserializing a string scalar holding that text
/// always yields exactly the wrapped `v`.
pub proof fn lemma_round_trip<T: ParseText>(
    tok: Token,
    v: T,
    r: Result<StringWrapped<T>, DeError>,
)
    requires
        tok matches Token::Str(s) && T::parse_ok(s@) && T::parse_value(s@) == v,
        call_ensures(deserialize_token::<T>, (&tok,), r),
    ensures
        r matches Ok(w) && w.0 == v,
{
}

} // verus!

