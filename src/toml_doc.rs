//! Reading string fields out of a TOML document.
use vstd::prelude::*;

verus! {

#[verifier::external_type_specification]
#[verifier::external_body]
pub struct ExTomlValue(toml::Value);

/// The document that a TOML text parses to, or `None` where it does not parse.
pub uninterp spec fn toml_parse(text: Seq<char>) -> Option<toml::Value>;

/// The value stored under `key` in a TOML table; `None` where the key is
/// absent or `v` is no table.
pub uninterp spec fn toml_lookup(v: toml::Value, key: Seq<char>) -> Option<toml::Value>;

/// The text of a TOML string value; `None` where `v` is no string.
pub uninterp spec fn toml_string(v: toml::Value) -> Option<Seq<char>>;

/// Relies on toml's `FromStr for Value` (toml::from_str): whether and to what
/// a document parses depends on its text alone.
#[verifier::external_body]
pub(crate) fn parse_document(text: &str) -> (r: Option<toml::Value>)
    ensures
        r == toml_parse(text@),
{
    text.parse::<toml::Value>().ok()
}

/// Relies on toml::Value::get with a string key: the entry of a table.
#[verifier::external_body]
pub(crate) fn lookup(v: &toml::Value, key: &str) -> (r: Option<toml::Value>)
    ensures
        r == toml_lookup(*v, key@),
{
    v.get(key).cloned()
}

/// Relies on toml::Value::as_str: the text of a string value.
#[verifier::external_body]
pub(crate) fn string_of(v: &toml::Value) -> (r: Option<String>)
    ensures
        match r {
            Some(s) => toml_string(*v) == Some(s@),
            None => toml_string(*v) is None,
        },
{
    v.as_str().map(|s| s.to_string())
}

/// The string stored under `key` in the table stored under `table` of `doc`.
pub open spec fn table_string(doc: toml::Value, table: Seq<char>, key: Seq<char>) -> Option<Seq<char>> {
    match toml_lookup(doc, table) {
        Some(t) => match toml_lookup(t, key) {
            Some(v) => toml_string(v),
            None => None,
        },
        None => None,
    }
}

/// Reads the string under `key` in `table`, as `table_string` states.
pub(crate) fn read_table_string(doc: &toml::Value, table: &str, key: &str) -> (r: Option<String>)
    ensures
        match r {
            Some(s) => table_string(*doc, table@, key@) == Some(s@),
            None => table_string(*doc, table@, key@) is None,
        },
{
    match lookup(doc, table) {
        Some(t) => match lookup(&t, key) {
            Some(v) => string_of(&v),
            None => None,
        },
        None => None,
    }
}

} // verus!
