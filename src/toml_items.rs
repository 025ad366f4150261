use vstd::prelude::*;

verus! {

#[verifier::external_type_specification]
#[verifier::external_body]
pub struct ExTomlValue(toml::Value);

#[verifier::external_type_specification]
#[verifier::external_body]
#[verifier::reject_recursive_types(K)]
#[verifier::reject_recursive_types(V)]
pub struct ExTomlMap<K, V>(toml::map::Map<K, V>);

#[verifier::external_type_specification]
#[verifier::external_body]
pub struct ExTomlError(toml::de::Error);

/// What a text holds as a TOML document, `None` where it does not parse:
/// each top-level key whose value is a table, with what that table holds in
/// the shape of `table_strings`.
pub uninterp spec fn toml_sections_of(s: Seq<char>) -> Option<
    Map<Seq<char>, Map<Seq<char>, Option<Seq<char>>>>,
>;

/// What a TOML table holds: each key, with the value's text where the value
/// is a string and `None` where it is of another type.
pub uninterp spec fn table_strings(t: toml::Table) -> Map<Seq<char>, Option<Seq<char>>>;

/// The tables that a TOML table holds: each key whose value is a table, with
/// what that inner table holds in the shape of `table_strings`.
pub uninterp spec fn table_sections(t: toml::Table) -> Map<
    Seq<char>,
    Map<Seq<char>, Option<Seq<char>>>,
>;

/// One entry of a TOML table, as the goal logic sees it.
pub enum TomlEntry {
    Text(String),
    Section(toml::Table),
    Other,
}

/// Relies on `toml::from_str`: parses a document into its top-level table.
/// What it returns depends on the text alone.
#[verifier::external_body]
pub(crate) fn parse_table(s: &str) -> (r: Result<toml::Table, toml::de::Error>)
    ensures
        r is Ok <==> toml_sections_of(s@) is Some,
        r matches Ok(t) ==> table_sections(t) == toml_sections_of(s@)->0,
{
    toml::from_str(s)
}

/// Relies on `toml::map::Map::get`: the value stored under `key`, if any.
#[verifier::external_body]
pub(crate) fn table_get(t: &toml::Table, key: &str) -> (r: Option<TomlEntry>)
    ensures
        r is Some <==> table_strings(*t).contains_key(key@),
        r matches Some(e) ==> (e is Text <==> table_strings(*t)[key@] is Some),
        r matches Some(TomlEntry::Text(s)) ==> table_strings(*t)[key@] == Some(s@),
        r matches Some(TomlEntry::Section(sec)) ==> table_sections(*t).contains_key(key@)
            && table_strings(sec) == table_sections(*t)[key@],
        !(r matches Some(TomlEntry::Section(_))) ==> !table_sections(*t).contains_key(key@),
{
    match t.get(key) {
        None => None,
        Some(toml::Value::String(s)) => Some(TomlEntry::Text(s.clone())),
        Some(toml::Value::Table(section)) => Some(TomlEntry::Section(section.clone())),
        Some(toml::Value::Integer(_)) => Some(TomlEntry::Other),
        Some(toml::Value::Float(_)) => Some(TomlEntry::Other),
        Some(toml::Value::Boolean(_)) => Some(TomlEntry::Other),
        Some(toml::Value::Datetime(_)) => Some(TomlEntry::Other),
        Some(toml::Value::Array(_)) => Some(TomlEntry::Other),
    }
}

} // verus!
