//! The wire format towards the adapter: one JSON object on each line.
//!
//! Parsing and rendering JSON is the work of `serde_json`. Its values pass
//! through this library unopened; what the library reads of one, it reads
//! through the functions below, each of which stands for one function of
//! `serde_json` and has a name for what that function returns.

use vstd::prelude::*;

verus! {

/// `serde_json::Value`, a JSON value of any kind. Nothing is known of
/// what one holds but through the functions below.
#[verifier::external_type_specification]
#[verifier::external_body]
pub struct ExValue(serde_json::Value);

/// The value that `serde_json::from_str` reads from a text, or `None` where
/// it reports an error.
pub uninterp spec fn json_parse(text: Seq<char>) -> Option<serde_json::Value>;

/// The member that `Value::get` finds under a key.
pub uninterp spec fn json_member(value: serde_json::Value, key: Seq<char>) -> Option<
    serde_json::Value,
>;

/// The text that `Value::as_str` finds in a value.
pub uninterp spec fn json_text(value: serde_json::Value) -> Option<Seq<char>>;

/// The number that `Value::as_u64` finds in a value.
pub uninterp spec fn json_u64(value: serde_json::Value) -> Option<u64>;

/// The value that `Value::from` makes of an optional text.
pub uninterp spec fn json_of_text(text: Option<Seq<char>>) -> serde_json::Value;

/// The value that `Value::from` makes of an unsigned number.
pub uninterp spec fn json_of_u64(number: u64) -> serde_json::Value;

/// The value that `Value::from` makes of a list of texts.
pub uninterp spec fn json_of_texts(texts: Seq<Seq<char>>) -> serde_json::Value;

/// The value that `Value::from_iter` makes of keys with their values.
pub uninterp spec fn json_object(fields: Seq<(Seq<char>, serde_json::Value)>) -> serde_json::Value;

/// The text that `serde_json::to_string` renders a value to, or `None`
/// where it reports an error.
pub uninterp spec fn json_rendering(value: serde_json::Value) -> Option<Seq<char>>;

/// The keys with their values, the keys as texts.
pub open spec fn field_views(fields: Seq<(String, serde_json::Value)>) -> Seq<
    (Seq<char>, serde_json::Value),
> {
    fields.map_values(|f: (String, serde_json::Value)| (f.0@, f.1))
}

/// The texts that the strings hold.
pub open spec fn text_views(texts: Seq<String>) -> Seq<Seq<char>> {
    texts.map_values(|t: String| t@)
}

/// Reads a text as JSON, by `serde_json::from_str`. The result is what that
/// function returns for this text, an error taken as `None`.
#[verifier::external_body]
pub(crate) fn parse_value(text: &str) -> (value: Option<serde_json::Value>)
    ensures
        value == json_parse(text@),
{
    serde_json::from_str::<serde_json::Value>(text).ok()
}

/// Looks up a member of a value, by `Value::get` with a string key. The
/// result is what that method returns for this value and key.
#[verifier::external_body]
pub(crate) fn member<'a>(value: &'a serde_json::Value, key: &str) -> (found: Option<
    &'a serde_json::Value,
>)
    ensures
        match found {
            Some(m) => json_member(*value, key@) == Some(*m),
            None => json_member(*value, key@) is None,
        },
{
    value.get(key)
}

/// Reads a value as a text, by `Value::as_str`. The result is what that
/// method returns for this value.
#[verifier::external_body]
pub(crate) fn as_text<'a>(value: &'a serde_json::Value) -> (text: Option<&'a str>)
    ensures
        match text {
            Some(t) => json_text(*value) == Some(t@),
            None => json_text(*value) is None,
        },
{
    value.as_str()
}

/// Reads a value as an unsigned number, by `Value::as_u64`. The result is
/// what that method returns for this value.
#[verifier::external_body]
pub(crate) fn as_number(value: &serde_json::Value) -> (number: Option<u64>)
    ensures
        number == json_u64(*value),
{
    value.as_u64()
}

/// Makes a value of an optional text, by `Value::from`. The result is what
/// that function returns for this text.
#[verifier::external_body]
pub(crate) fn text_value(text: Option<&str>) -> (value: serde_json::Value)
    ensures
        value == json_of_text(
            match text {
                Some(t) => Some(t@),
                None => None,
            },
        ),
{
    serde_json::Value::from(text)
}

/// Makes a value of an unsigned number, by `Value::from`. The result is
/// what that function returns for this number.
#[verifier::external_body]
pub(crate) fn number_value(number: u64) -> (value: serde_json::Value)
    ensures
        value == json_of_u64(number),
{
    serde_json::Value::from(number)
}

/// Makes a value of a list of texts, by `Value::from`. The result is what
/// that function returns for these texts.
#[verifier::external_body]
pub(crate) fn texts_value(texts: &Vec<String>) -> (value: serde_json::Value)
    ensures
        value == json_of_texts(text_views(texts@)),
{
    serde_json::Value::from(texts.clone())
}

/// Makes an object of keys with their values, by `Value::from_iter`. The
/// result is what that function returns for these keys and values, in this
/// order.
#[verifier::external_body]
pub(crate) fn object_value(fields: Vec<(String, serde_json::Value)>) -> (value: serde_json::Value)
    ensures
        value == json_object(field_views(fields@)),
{
    fields.into_iter().collect()
}

/// Renders a value as JSON on one line, by `serde_json::to_string`. The
/// result is what that function returns for this value, an error taken as
/// `None`.
#[verifier::external_body]
pub(crate) fn render(value: &serde_json::Value) -> (text: Option<String>)
    ensures
        match text {
            Some(t) => json_rendering(*value) == Some(t@),
            None => json_rendering(*value) is None,
        },
{
    serde_json::to_string(value).ok()
}

} // verus!
