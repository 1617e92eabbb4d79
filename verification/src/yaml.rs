//! Trusted declarations over the YAML library: the parsed document value and
//! the parse error as opaque types, thin wrappers around the calls the
//! loader makes, and names for what those calls return. Each named result is
//! a function of the call's arguments alone: parsing, member lookup, the
//! scalar readings and the error's display text are all deterministic in
//! serde_yaml. Nothing else is assumed of the outside code; every decision
//! on the lookups is made in verified code.

use vstd::prelude::*;

verus! {

#[verifier::external_type_specification]
#[verifier::external_body]
pub struct ExYamlValue(serde_yaml::Value);

#[verifier::external_type_specification]
#[verifier::external_body]
pub struct ExYamlError(serde_yaml::Error);

/// Whether serde_yaml::from_str accepts `text` as a YAML document.
pub uninterp spec fn yaml_parse_ok(text: Seq<char>) -> bool;

/// The document that serde_yaml::from_str yields for `text`, when it
/// accepts it.
pub uninterp spec fn yaml_parse_doc(text: Seq<char>) -> serde_yaml::Value;

/// The display text of the error that serde_yaml::from_str reports for
/// `text`, when it rejects it.
pub uninterp spec fn yaml_parse_err_text(text: Seq<char>) -> Seq<char>;

/// What serde_yaml::Value::get returns on `doc` for a string `key`: the
/// member under the key when `doc` is a mapping that holds it, and None
/// otherwise.
pub uninterp spec fn yaml_member(doc: serde_yaml::Value, key: Seq<char>) -> Option<
    serde_yaml::Value,
>;

/// What serde_yaml::Value::as_str returns on `value`: the contained text
/// when the value is a string, and None otherwise.
pub uninterp spec fn yaml_string_of(value: serde_yaml::Value) -> Option<Seq<char>>;

/// What serde_yaml::Value::as_u64 returns on `value`: the contained integer
/// when the value is a non-negative integer that fits, and None otherwise.
pub uninterp spec fn yaml_u64_of(value: serde_yaml::Value) -> Option<u64>;

/// What serde_yaml::Value::as_bool returns on `value`: the contained
/// boolean when the value is a boolean, and None otherwise.
pub uninterp spec fn yaml_bool_of(value: serde_yaml::Value) -> Option<bool>;

/// The display text of a serde_yaml::Error.
pub uninterp spec fn yaml_error_text(error: serde_yaml::Error) -> Seq<char>;

/// Relies on serde_yaml::from_str with serde_yaml::Value as the target
/// type: the outcome, the document and the failure's display text are
/// functions of the text alone, named above.
#[verifier::external_body]
pub(crate) fn yaml_parse(text: &str) -> (r: Result<serde_yaml::Value, serde_yaml::Error>)
    ensures
        r is Ok <==> yaml_parse_ok(text@),
        r matches Ok(doc) ==> doc == yaml_parse_doc(text@),
        r matches Err(e) ==> yaml_error_text(e) == yaml_parse_err_text(text@),
{
    serde_yaml::from_str(text)
}

/// Relies on serde_yaml::Value::get with a string key, named by
/// [`yaml_member`].
#[verifier::external_body]
pub(crate) fn yaml_get<'a>(value: &'a serde_yaml::Value, key: &str) -> (r: Option<
    &'a serde_yaml::Value,
>)
    ensures
        r matches Some(v) ==> yaml_member(*value, key@) == Some(*v),
        r is None ==> yaml_member(*value, key@) is None,
{
    value.get(key)
}

/// Relies on serde_yaml::Value::as_str, named by [`yaml_string_of`]; the
/// body only copies the borrowed text into an owned string.
#[verifier::external_body]
pub(crate) fn yaml_as_string(value: &serde_yaml::Value) -> (r: Option<String>)
    ensures
        r matches Some(s) ==> yaml_string_of(*value) == Some(s@),
        r is None ==> yaml_string_of(*value) is None,
{
    match value.as_str() {
        Some(s) => Some(s.to_string()),
        None => None,
    }
}

/// Relies on serde_yaml::Value::as_u64, named by [`yaml_u64_of`].
#[verifier::external_body]
pub(crate) fn yaml_as_u64(value: &serde_yaml::Value) -> (r: Option<u64>)
    ensures
        r == yaml_u64_of(*value),
{
    value.as_u64()
}

/// Relies on serde_yaml::Value::as_bool, named by [`yaml_bool_of`].
#[verifier::external_body]
pub(crate) fn yaml_as_bool(value: &serde_yaml::Value) -> (r: Option<bool>)
    ensures
        r == yaml_bool_of(*value),
{
    value.as_bool()
}

/// Relies on the Display impl of serde_yaml::Error, named by
/// [`yaml_error_text`].
#[verifier::external_body]
pub(crate) fn yaml_error_string(error: &serde_yaml::Error) -> (r: String)
    ensures
        r@ == yaml_error_text(*error),
{
    error.to_string()
}

} // verus!
