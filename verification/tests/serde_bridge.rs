//! The bridge under a real serde format: a local adapter registers the
//! library's parsing bridge as the deserialization strategy and feeds it
//! JSON tokens.

use std::marker::PhantomData;

use string_wrapped::ParseText;
use string_wrapped::StringWrapped;
use string_wrapped::expecting_message;
use string_wrapped::parse_str_token;

struct DeWrapped<T>(StringWrapped<T>);

struct BridgeVisitor<T> {
    marker: PhantomData<T>,
}

impl<'de, T: ParseText> serde::de::Visitor<'de> for BridgeVisitor<T> {
    type Value = StringWrapped<T>;

    fn expecting(&self, formatter: &mut std::fmt::Formatter) -> std::fmt::Result {
        formatter.write_str(&expecting_message())
    }

    fn visit_str<E>(self, value: &str) -> Result<Self::Value, E>
    where
        E: serde::de::Error,
    {
        parse_str_token::<T>(value).map_err(|e| E::custom(e.message()))
    }
}

impl<'de, T: ParseText> serde::Deserialize<'de> for DeWrapped<T> {
    fn deserialize<D>(deserializer: D) -> Result<Self, D::Error>
    where
        D: serde::de::Deserializer<'de>,
    {
        deserializer
            .deserialize_str(BridgeVisitor {
                marker: PhantomData,
            })
            .map(DeWrapped)
    }
}

#[test]
fn deserialize_number() {
    assert_eq!(
        StringWrapped(23),
        serde_json::from_str::<DeWrapped<i32>>(r#""23""#)
            .expect("Deserializing")
            .0
    );
}

#[test]
fn quoted_garbage_fails_with_the_parser_text() {
    let r = serde_json::from_str::<DeWrapped<i32>>(r#""abc""#);
    let text = r.err().expect("a parse failure").to_string();
    assert!(text.contains("invalid digit"));
}

#[test]
fn bare_number_is_a_type_mismatch() {
    let r = serde_json::from_str::<DeWrapped<i32>>("23");
    let text = r.err().expect("a type mismatch").to_string();
    assert!(text.contains("expected a string that can be parsed as the given type"));
}
