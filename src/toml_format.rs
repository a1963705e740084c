//! The TOML calls the configuration logic makes, each behind a contract.
use vstd::prelude::*;

verus! {

#[verifier::external_type_specification]
#[verifier::external_body]
pub struct ExTomlDeError(toml::de::Error);

#[verifier::external_type_specification]
#[verifier::external_body]
pub struct ExTomlSerError(toml::ser::Error);

#[verifier::external_type_specification]
#[verifier::external_body]
pub struct ExTomlValue(toml::Value);

#[verifier::external_type_specification]
#[verifier::external_body]
#[verifier::reject_recursive_types(K)]
#[verifier::reject_recursive_types(V)]
pub struct ExTomlMap<K, V>(toml::map::Map<K, V>);

/// The table that a TOML document parses to, or none where it is malformed.
pub uninterp spec fn parsed_table(text: Seq<char>) -> Option<toml::Table>;

/// The entries of a table whose values are strings, with those strings.
pub uninterp spec fn string_entries(t: toml::Table) -> Map<Seq<char>, Seq<char>>;

/// The pretty TOML text of a table holding one string entry.
pub uninterp spec fn rendered_entry(key: Seq<char>, value: Seq<char>) -> Seq<char>;

/// Relies on `toml::Table`'s `FromStr` (that is, `toml::from_str`): parses a
/// whole document; whether it succeeds, and the table, depend on the text alone.
#[verifier::external_body]
pub(crate) fn parse_table(text: &str) -> (r: Result<toml::Table, toml::de::Error>)
    ensures
        r is Ok == parsed_table(text@) is Some,
        r matches Ok(t) ==> parsed_table(text@) == Some(t),
{
    text.parse::<toml::Table>()
}

/// Relies on `toml::map::Map::get` and `toml::Value::as_str`: the string
/// stored under `key`, where the key is present and its value is a string.
#[verifier::external_body]
pub(crate) fn string_entry(t: &toml::Table, key: &str) -> (r: Option<String>)
    ensures
        r is Some == string_entries(*t).contains_key(key@),
        r matches Some(s) ==> string_entries(*t)[key@] == s@,
{
    t.get(key).and_then(toml::Value::as_str).map(String::from)
}

/// Relies on `toml::to_string_pretty`: renders the one-entry table
/// `key = value`; the text depends on the key and value alone. A string key
/// with a string value has no failing path in its serializer, and the string
/// encodings it picks (basic, literal, multi-line, with escapes) parse back,
/// through `toml::from_str`, to the same key and value.
#[verifier::external_body]
pub(crate) fn render_entry(key: &str, value: &str) -> (r: Result<String, toml::ser::Error>)
    ensures
        r is Ok,
        r matches Ok(s) ==> s@ == rendered_entry(key@, value@),
        r matches Ok(s) ==> (parsed_table(s@) matches Some(t) && string_entries(t) == map![key@ => value@]),
{
    toml::to_string_pretty(&std::collections::BTreeMap::from([(key, value)]))
}

} // verus!
