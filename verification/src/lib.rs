//! A transparent wrapper that deserializes a value from a string scalar.
//!
//! Text-based data formats sometimes carry logically non-string values
//! (integers, identifiers) as quoted string tokens.  `StringWrapped<T>`
//! accepts exactly one such token, parses it with the inner type's own
//! string parser, and from then on behaves like the inner value for
//! reading, comparing and formatting.

mod bridge;
mod numbers;
mod wrapped;

pub use bridge::DeError;
pub use bridge::ParseText;
pub use bridge::Token;
pub use bridge::deserialize_token;
pub use bridge::expected_shape;
pub use bridge::expecting_message;
pub use bridge::lemma_round_trip;
pub use bridge::parse_str_token;
pub use bridge::wrap_outcome;
pub use numbers::dec_digit_value;
pub use numbers::digits_value;
pub use numbers::int_of_text;
pub use numbers::is_dec_digit;
pub use numbers::is_signed_int_text;
pub use numbers::is_unsigned_int_text;
pub use numbers::sign_stripped;
pub use wrapped::StringWrapped;
pub use wrapped::lemma_eq_consistency;
pub use wrapped::lemma_ord_consistency;
