//! The TOML documents that manifests are written in, as far as the resolver reads them.

use vstd::prelude::*;

verus! {

/// The shape of a TOML value: a string, a list of values, a table of values
/// by key, or another scalar. Scalars other than strings are not told apart.
pub enum Shape {
    Text(Seq<char>),
    List(Seq<Shape>),
    Table(Map<Seq<char>, Shape>),
    Scalar,
}

/// `toml::Value`: a value of a TOML document. Its contents are known by
/// `value_shape` alone.
#[verifier::external_type_specification]
#[verifier::external_body]
pub struct ExValue(toml::Value);

/// `toml::map::Map`: the table of a TOML document, where the keys are strings
/// and the values are `toml::Value`s. Its contents are known by `table_shape`
/// alone.
#[verifier::external_type_specification]
#[verifier::external_body]
#[verifier::reject_recursive_types(K)]
#[verifier::reject_recursive_types(V)]
pub struct ExMap<K, V>(toml::map::Map<K, V>);

/// `toml::de::Error`: why a text is no TOML document.
#[verifier::external_type_specification]
#[verifier::external_body]
pub struct ExError(toml::de::Error);

/// What a TOML value holds.
pub uninterp spec fn value_shape(value: toml::Value) -> Shape;

/// What a TOML table holds: the shape of the value under each key.
pub uninterp spec fn table_shape(table: toml::Table) -> Map<Seq<char>, Shape>;

/// The message that a parse error displays.
pub uninterp spec fn error_text(error: toml::de::Error) -> Seq<char>;

/// The table that a text parses to as a TOML document, or the message of the parse error.
pub uninterp spec fn parsed(text: Seq<char>) -> Result<Map<Seq<char>, Shape>, Seq<char>>;

/// `toml::Table`'s `from_str`, called through `str::parse`: parses a whole
/// document. The outcome depends on the text alone, and `parsed` is its name:
/// the shape of the table that comes back, or the message of the error.
#[verifier::external_body]
pub(crate) fn parse_table(text: &str) -> (r: Result<toml::Table, toml::de::Error>)
    ensures
        match r {
            Ok(table) => parsed(text@) == Ok::<Map<Seq<char>, Shape>, Seq<char>>(table_shape(table)),
            Err(error) => parsed(text@) == Err::<Map<Seq<char>, Shape>, Seq<char>>(error_text(error)),
        },
{
    text.parse::<toml::Table>()
}

/// `toml::de::Error`'s `Display`, called through `to_string`: the message of a
/// parse error, which `error_text` names.
#[verifier::external_body]
pub(crate) fn error_message(error: &toml::de::Error) -> (r: String)
    ensures
        r@ == error_text(*error),
{
    error.to_string()
}

/// `toml::map::Map::get`: the value under a key, exactly where the table has
/// the key.
#[verifier::external_body]
pub(crate) fn table_get<'a>(table: &'a toml::Table, key: &str) -> (r: Option<&'a toml::Value>)
    ensures
        r.is_some() == table_shape(*table).contains_key(key@),
        r matches Some(value) ==> value_shape(*value) == table_shape(*table)[key@],
{
    table.get(key)
}

/// `toml::Value::as_table`: the table inside a value, exactly where the value
/// is a table.
#[verifier::external_body]
pub(crate) fn value_as_table<'a>(value: &'a toml::Value) -> (r: Option<&'a toml::Table>)
    ensures
        r.is_some() == (value_shape(*value) is Table),
        r matches Some(table) ==> value_shape(*value) == Shape::Table(table_shape(*table)),
{
    value.as_table()
}

/// `toml::Value::as_array`: the items of a value, in order, exactly where the
/// value is an array.
#[verifier::external_body]
pub(crate) fn value_as_array<'a>(value: &'a toml::Value) -> (r: Option<&'a Vec<toml::Value>>)
    ensures
        r.is_some() == (value_shape(*value) is List),
        r matches Some(items) ==> value_shape(*value) == Shape::List(
            items@.map_values(|item: toml::Value| value_shape(item)),
        ),
{
    value.as_array()
}

/// `toml::Value::as_str`: the text of a value, exactly where the value is a
/// string.
#[verifier::external_body]
pub(crate) fn value_as_str<'a>(value: &'a toml::Value) -> (r: Option<&'a str>)
    ensures
        r.is_some() == (value_shape(*value) is Text),
        r matches Some(text) ==> value_shape(*value) == Shape::Text(text@),
{
    value.as_str()
}

} // verus!
