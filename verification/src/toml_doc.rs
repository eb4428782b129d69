//! A TOML document as plain values, and the parse that produces it.
//!
//! The configuration rules read only strings, integers, booleans, arrays and
//! tables; every other TOML value (floats, date-times) is `Other`. Each table
//! entry also carries the TOML rendering of its value, which some warnings
//! quote back to the user.

use vstd::prelude::*;

verus! {

/// One TOML value.
pub enum TomlValue {
    String(String),
    Integer(i64),
    Boolean(bool),
    Array(Vec<TomlValue>),
    Table(Vec<TomlEntry>),
    /// A float or a date-time.
    Other,
}

/// One `key = value` pair of a table, with the value's TOML rendering.
pub struct TomlEntry {
    pub key: String,
    pub value: TomlValue,
    pub rendered: String,
}

/// The first entry of `t` whose key is `key`.
pub open spec fn lookup(t: Seq<TomlEntry>, key: Seq<char>) -> Option<TomlEntry>
    decreases t.len(),
{
    if t.len() == 0 {
        None
    } else if t[0].key@ == key {
        Some(t[0])
    } else {
        lookup(t.drop_first(), key)
    }
}

/// The boolean written under `key` in `t`, if the value there is a boolean.
pub open spec fn written_bool(t: Seq<TomlEntry>, key: Seq<char>) -> Option<bool> {
    match lookup(t, key) {
        Some(e) => match e.value {
            TomlValue::Boolean(b) => Some(b),
            _ => None,
        },
        None => None,
    }
}

/// The string written under `key` in `t`, if the value there is a string.
pub open spec fn written_string(t: Seq<TomlEntry>, key: Seq<char>) -> Option<Seq<char>> {
    match lookup(t, key) {
        Some(e) => match e.value {
            TomlValue::String(s) => Some(s@),
            _ => None,
        },
        None => None,
    }
}

/// The integer written under `key` in `t`, if the value there is an integer.
pub open spec fn written_integer(t: Seq<TomlEntry>, key: Seq<char>) -> Option<i64> {
    match lookup(t, key) {
        Some(e) => match e.value {
            TomlValue::Integer(n) => Some(n),
            _ => None,
        },
        None => None,
    }
}

/// Whether `t` has an entry with key `key`.
pub open spec fn has_key(t: Seq<TomlEntry>, key: Seq<char>) -> bool {
    lookup(t, key) is Some
}

/// The string held by `v`, if it is a string.
pub open spec fn as_str(v: TomlValue) -> Option<Seq<char>> {
    match v {
        TomlValue::String(s) => Some(s@),
        _ => None,
    }
}

proof fn lemma_lookup_skip(t: Seq<TomlEntry>, i: int, key: Seq<char>)
    requires
        0 <= i < t.len(),
        t[i].key@ != key,
    ensures
        lookup(t.subrange(i, t.len() as int), key) == lookup(t.subrange(i + 1, t.len() as int), key),
{
    assert(t.subrange(i, t.len() as int).drop_first() =~= t.subrange(i + 1, t.len() as int));
}

/// Finds the entry of `t` with key `key` (`toml::Table::get`).
pub fn find_entry<'a>(t: &'a Vec<TomlEntry>, key: &str) -> (r: Option<&'a TomlEntry>)
    ensures
        match r {
            Some(e) => lookup(t@, key@) == Some(*e),
            None => lookup(t@, key@) is None,
        },
{
    let n = t.len();
    let mut i: usize = 0;
    assert(t@.subrange(0, n as int) =~= t@);
    while i < n
        invariant
            n == t@.len(),
            i <= n,
            lookup(t@, key@) == lookup(t@.subrange(i as int, n as int), key@),
        decreases n - i,
    {
        if crate::text::str_eq(t[i].key.as_str(), key) {
            assert(t@.subrange(i as int, n as int)[0] == t@[i as int]);
            return Some(&t[i]);
        }
        proof {
            lemma_lookup_skip(t@, i as int, key@);
        }
        i = i + 1;
    }
    None
}

/// Whether `t` has an entry with key `key` (`toml::Table::contains_key`).
pub fn contains_key(t: &Vec<TomlEntry>, key: &str) -> (r: bool)
    ensures
        r == has_key(t@, key@),
{
    find_entry(t, key).is_some()
}

/// The string value stored under `key`, if there is one and it is a string
/// (`table.get(key).and_then(Value::as_str)`).
pub fn get_str<'a>(t: &'a Vec<TomlEntry>, key: &str) -> (r: Option<&'a String>)
    ensures
        match lookup(t@, key@) {
            Some(e) => match r {
                Some(s) => as_str(e.value) == Some(s@),
                None => as_str(e.value) is None,
            },
            None => r is None,
        },
{
    match find_entry(t, key) {
        Some(e) => match &e.value {
            TomlValue::String(s) => Some(s),
            _ => None,
        },
        None => None,
    }
}


#[verifier::external_type_specification]
#[verifier::external_body]
pub struct ExTomlValue(toml::Value);

#[verifier::external_type_specification]
#[verifier::external_body]
pub struct ExTomlError(toml::de::Error);

/// The document that the `toml` crate parses from `text`
/// (`toml::from_str::<toml::Value>`), in this crate's plain form, or `None`
/// where `text` is not valid TOML. The `rendered` text of each table entry is
/// what `Display for toml::Value` writes for its value.
pub uninterp spec fn toml_document(text: Seq<char>) -> Option<TomlValue>;

impl TomlValue {
    /// Moves a `toml::Value` into the plain form, variant by variant; the
    /// rendering kept beside each table entry is the value's `Display`.
    #[verifier::external_body]
    fn from_toml(v: &toml::Value) -> TomlValue {
        match v {
            toml::Value::String(s) => TomlValue::String(s.clone()),
            toml::Value::Integer(i) => TomlValue::Integer(*i),
            toml::Value::Boolean(b) => TomlValue::Boolean(*b),
            toml::Value::Array(a) => TomlValue::Array(a.iter().map(TomlValue::from_toml).collect()),
            toml::Value::Table(t) => TomlValue::Table(
                t.iter().map(|(k, x)| TomlEntry { key: k.clone(), value: TomlValue::from_toml(x), rendered: x.to_string() }).collect(),
            ),
            toml::Value::Float(_) => TomlValue::Other,
            toml::Value::Datetime(_) => TomlValue::Other,
        }
    }
}

/// Parses `text` as a TOML document (`toml::from_str::<toml::Value>`).
///
/// Trusted: the result is the parse that the `toml` crate computes, with
/// each entry's rendering from `Display for toml::Value`, named
/// `toml_document`; it depends on `text` alone. Nothing is claimed of the
/// error beyond its presence, nor that the root is a table: a document keyed
/// by the crate's private date-time marker parses to a date-time.
#[verifier::external_body]
pub(crate) fn parse_toml(text: &str) -> (r: Result<TomlValue, toml::de::Error>)
    ensures
        match r {
            Ok(v) => toml_document(text@) == Some(v),
            Err(_) => toml_document(text@) is None,
        },
{
    match toml::from_str::<toml::Value>(text) {
        Ok(v) => Ok(TomlValue::from_toml(&v)),
        Err(e) => Err(e),
    }
}

} // verus!
