//! A TOML document as plain data, and the parser that produces it.

use vstd::prelude::*;
use vstd::string::*;

verus! {

/// The parser's own value type, which passes through here without being
/// looked into.
#[verifier::external_type_specification]
#[verifier::external_body]
pub struct ExTomlValue(toml::Value);

/// A value of a TOML document.
#[derive(Debug, PartialEq, Eq)]
pub enum TomlValue {
    String(String),
    Integer(i64),
    /// A float, kept as the bits of its 64-bit representation.
    Float(u64),
    Boolean(bool),
    /// A datetime, kept as its text.
    Datetime(String),
    Array(Vec<TomlValue>),
    /// A table: its entries, in the order in which the parser hands them
    /// out. Where a key stands twice, the first entry is the one found.
    Table(Vec<(String, TomlValue)>),
}

/// Why a text is not a TOML document.
#[derive(Debug, PartialEq, Eq)]
pub struct ParseFailure {
    /// The parser's message.
    pub message: String,
    /// The line and column of the error, both counted from 0, where known.
    pub position: Option<(usize, usize)>,
}

/// What the parser of the `toml` crate makes of the text `src`: the
/// document as a [`TomlValue`], or why the text is no document.
pub uninterp spec fn toml_document(src: Seq<char>) -> Result<TomlValue, ParseFailure>;

/// Copies a value of the `toml` crate into a [`TomlValue`], variant by
/// variant: a float as its bits (`f64::to_bits`), a datetime as its text
/// (`Datetime::to_string`), and the entries of a table in the order in
/// which the table hands them out.
#[verifier::external_body]
fn from_toml(value: &toml::Value) -> TomlValue {
    match value {
        toml::Value::String(s) => TomlValue::String(s.clone()),
        toml::Value::Integer(i) => TomlValue::Integer(*i),
        toml::Value::Float(f) => TomlValue::Float(f.to_bits()),
        toml::Value::Boolean(b) => TomlValue::Boolean(*b),
        toml::Value::Datetime(d) => TomlValue::Datetime(d.to_string()),
        toml::Value::Array(a) => TomlValue::Array(a.iter().map(from_toml).collect()),
        toml::Value::Table(t) => TomlValue::Table(
            t.iter().map(|(k, v)| (k.clone(), from_toml(v))).collect(),
        ),
    }
}

/// `str::parse::<toml::Value>`, the parser of the `toml` crate, with its
/// value copied into a [`TomlValue`] and its error into a [`ParseFailure`]
/// (`Error::to_string` and `Error::line_col`). What it makes of a text
/// depends on nothing but the text.
#[verifier::external_body]
pub(crate) fn parse_document(src: &str) -> (doc: Result<TomlValue, ParseFailure>)
    ensures
        doc == toml_document(src@),
{
    match src.parse::<toml::Value>() {
        Ok(value) => Ok(from_toml(&value)),
        Err(e) => Err(ParseFailure { message: e.to_string(), position: e.line_col() }),
    }
}

/// The value stored under `key` in `entries`: that of the first entry with
/// that key.
pub open spec fn lookup(entries: Seq<(String, TomlValue)>, key: Seq<char>) -> Option<TomlValue>
    decreases entries.len(),
{
    if entries.len() == 0 {
        None
    } else if entries[0].0@ == key {
        Some(entries[0].1)
    } else {
        lookup(entries.skip(1), key)
    }
}

/// The value stored under `key` in `entries`.
pub fn table_get<'a>(entries: &'a Vec<(String, TomlValue)>, key: &str) -> (r: Option<&'a TomlValue>)
    ensures
        match lookup(entries@, key@) {
            Some(v) => r == Some(&v),
            None => r is None,
        },
{
    let wanted = String::from_str(key);
    let mut i: usize = 0;
    assert(entries@.skip(0) =~= entries@);
    while i < entries.len()
        invariant
            i <= entries.len(),
            wanted@ == key@,
            lookup(entries@, key@) == lookup(entries@.skip(i as int), key@),
        decreases entries.len() - i,
    {
        if entries[i].0 == wanted {
            return Some(&entries[i].1);
        }
        assert(entries@.skip(i as int).skip(1) =~= entries@.skip(i + 1));
        i = i + 1;
    }
    None
}

impl TomlValue {
    /// The name of the value's type.
    pub open spec fn kind_name(&self) -> Seq<char> {
        match self {
            TomlValue::String(..) => "string"@,
            TomlValue::Integer(..) => "integer"@,
            TomlValue::Float(..) => "float"@,
            TomlValue::Boolean(..) => "boolean"@,
            TomlValue::Datetime(..) => "datetime"@,
            TomlValue::Array(..) => "array"@,
            TomlValue::Table(..) => "table"@,
        }
    }

    /// The value stored under `key`, if this is a table that has the key.
    pub open spec fn field(&self, key: Seq<char>) -> Option<TomlValue> {
        match self {
            TomlValue::Table(entries) => lookup(entries@, key),
            _ => None,
        }
    }

    /// The text of the value stored under `key`, if that value is a string.
    pub open spec fn text_field(&self, key: Seq<char>) -> Option<Seq<char>> {
        match self.field(key) {
            Some(TomlValue::String(s)) => Some(s@),
            _ => None,
        }
    }

    /// The number stored under `key`, if that value is an integer.
    pub open spec fn integer_field(&self, key: Seq<char>) -> Option<i64> {
        match self.field(key) {
            Some(TomlValue::Integer(i)) => Some(i),
            _ => None,
        }
    }

    /// The name of the value's type.
    pub fn type_str(&self) -> (name: &'static str)
        ensures
            name@ == self.kind_name(),
    {
        match self {
            TomlValue::String(..) => "string",
            TomlValue::Integer(..) => "integer",
            TomlValue::Float(..) => "float",
            TomlValue::Boolean(..) => "boolean",
            TomlValue::Datetime(..) => "datetime",
            TomlValue::Array(..) => "array",
            TomlValue::Table(..) => "table",
        }
    }

    /// The entries of the value, if it is a table.
    pub fn as_table(&self) -> (r: Option<&Vec<(String, TomlValue)>>)
        ensures
            match self {
                TomlValue::Table(entries) => r == Some(entries),
                _ => r is None,
            },
    {
        match self {
            TomlValue::Table(entries) => Some(entries),
            _ => None,
        }
    }

    /// The text of the value, if it is a string.
    pub fn as_str(&self) -> (r: Option<&str>)
        ensures
            match self {
                TomlValue::String(s) => r matches Some(t) && t@ == s@,
                _ => r is None,
            },
    {
        match self {
            TomlValue::String(s) => Some(s.as_str()),
            _ => None,
        }
    }

    /// The number of the value, if it is an integer.
    pub fn as_integer(&self) -> (r: Option<i64>)
        ensures
            match self {
                TomlValue::Integer(i) => r == Some(*i),
                _ => r is None,
            },
    {
        match self {
            TomlValue::Integer(i) => Some(*i),
            _ => None,
        }
    }

    /// The value stored under `key`, if this is a table that has the key.
    pub fn get(&self, key: &str) -> (r: Option<&TomlValue>)
        ensures
            match self.field(key@) {
                Some(v) => r == Some(&v),
                None => r is None,
            },
    {
        match self {
            TomlValue::Table(entries) => table_get(entries, key),
            _ => None,
        }
    }

    /// The text of the value stored under `key`, if that value is a string.
    pub fn get_str(&self, key: &str) -> (r: Option<&str>)
        ensures
            match self.text_field(key@) {
                Some(s) => r matches Some(t) && t@ == s,
                None => r is None,
            },
    {
        match self.get(key) {
            Some(v) => v.as_str(),
            None => None,
        }
    }

    /// The number stored under `key`, if that value is an integer.
    pub fn get_integer(&self, key: &str) -> (r: Option<i64>)
        ensures
            r == self.integer_field(key@),
    {
        match self.get(key) {
            Some(v) => v.as_integer(),
            None => None,
        }
    }
}

} // verus!
