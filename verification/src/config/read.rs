//! Reading single settings out of a TOML table.
//!
//! Each reader yields the setting's value, or nothing where the key is absent
//! or its value is unusable; an unusable value adds exactly one warning.

use vstd::prelude::*;
use vstd::string::*;
use crate::text::{chars_of, owned, push_text, str_eq, views};
use crate::toml_doc::{find_entry, lookup, TomlEntry, TomlValue};

verus! {

/// `Warning: Config key '<label><tail>`.
pub open spec fn key_warning(label: Seq<char>, tail: Seq<char>) -> Seq<char> {
    "Warning: Config key '"@ + label + tail
}

/// The warning for a value that is no string.
pub open spec fn string_warning(label: Seq<char>) -> Seq<char> {
    key_warning(label, "' must be a string; ignoring value"@)
}

/// The warning for a value that is no boolean.
pub open spec fn bool_warning(label: Seq<char>) -> Seq<char> {
    key_warning(label, "' must be a boolean; ignoring value"@)
}

/// The warning for a negative integer.
pub open spec fn negative_warning(label: Seq<char>) -> Seq<char> {
    key_warning(label, "' must be a non-negative integer; ignoring value"@)
}

/// `<section>.<key>`.
pub open spec fn qualified(section: Seq<char>, key: Seq<char>) -> Seq<char> {
    section + "."@ + key
}

/// A string setting: its value and the warnings it adds.
pub open spec fn string_setting(t: Seq<TomlEntry>, key: Seq<char>, label: Seq<char>) -> (
    Option<Seq<char>>,
    Seq<Seq<char>>,
) {
    match lookup(t, key) {
        None => (None, seq![]),
        Some(e) => match e.value {
            TomlValue::String(s) => (Some(s@), seq![]),
            _ => (None, seq![string_warning(label)]),
        },
    }
}

/// A boolean setting: its value and the warnings it adds.
pub open spec fn bool_setting(t: Seq<TomlEntry>, key: Seq<char>, label: Seq<char>) -> (
    Option<bool>,
    Seq<Seq<char>>,
) {
    match lookup(t, key) {
        None => (None, seq![]),
        Some(e) => match e.value {
            TomlValue::Boolean(b) => (Some(b), seq![]),
            _ => (None, seq![bool_warning(label)]),
        },
    }
}

/// A non-negative integer setting: its value and the warnings it adds. The
/// warning for a value that is no integer quotes the value's TOML rendering.
pub open spec fn usize_setting(t: Seq<TomlEntry>, key: Seq<char>) -> (Option<usize>, Seq<Seq<char>>) {
    match lookup(t, key) {
        None => (None, seq![]),
        Some(e) => match e.value {
            TomlValue::Integer(n) => if n >= 0 {
                (Some(n as usize), seq![])
            } else {
                (None, seq![negative_warning(key)])
            },
            _ => (
                None,
                seq![key_warning(key, "' must be an integer; got '"@ + e.rendered@ + "', ignoring"@)],
            ),
        },
    }
}

/// `"a" or "b" or ...`: the allowed values, quoted, joined by ` or `.
pub open spec fn quoted_choices(a: Seq<Seq<char>>) -> Seq<char>
    decreases a.len(),
{
    if a.len() == 0 {
        seq![]
    } else if a.len() == 1 {
        "\""@ + a[0] + "\""@
    } else {
        quoted_choices(a.drop_last()) + " or \""@ + a.last() + "\""@
    }
}

/// The views of a slice of string slices.
pub open spec fn str_views(a: Seq<&str>) -> Seq<Seq<char>> {
    a.map_values(|s: &str| s@)
}

/// A string setting restricted to the values in `allowed`.
pub open spec fn enum_setting(t: Seq<TomlEntry>, key: Seq<char>, allowed: Seq<Seq<char>>) -> (
    Option<Seq<char>>,
    Seq<Seq<char>>,
) {
    let (raw, w) = string_setting(t, key, key);
    match raw {
        None => (None, w),
        Some(s) => if allowed.contains(s) {
            (Some(s), w)
        } else {
            (
                None,
                w.push(
                    key_warning(
                        key,
                        "' must be "@ + quoted_choices(allowed) + "; got \""@ + s + "\", ignoring"@,
                    ),
                ),
            )
        },
    }
}

/// The leader key: a string of exactly one character.
pub open spec fn leader_setting(t: Seq<TomlEntry>) -> (Option<char>, Seq<Seq<char>>) {
    let (raw, w) = string_setting(t, "leader"@, "leader"@);
    match raw {
        None => (None, w),
        Some(s) => if s.len() == 1 {
            (Some(s[0]), w)
        } else {
            (None, w.push(key_warning("leader"@, "' must be a single character; ignoring value"@)))
        },
    }
}

/// `a + b` where `a` is a string and `b` a slice.
pub fn cat(a: String, b: &str) -> (r: String)
    ensures
        r@ == a@ + b@,
{
    let mut a = a;
    a.append(b);
    a
}

/// `Warning: Config key '<label><tail>`.
pub fn key_warning_text(label: &str, tail: &str) -> (r: String)
    ensures
        r@ == key_warning(label@, tail@),
{
    let m = cat(owned("Warning: Config key '"), label);
    cat(m, tail)
}

/// `<section>.<key>`.
pub fn qualified_text(section: &str, key: &str) -> (r: String)
    ensures
        r@ == qualified(section@, key@),
{
    cat(cat(owned(section), "."), key)
}

/// Reads a string setting, warning under `label` if it has another type.
pub fn read_string_labeled(table: &Vec<TomlEntry>, key: &str, label: &str, warnings: &mut Vec<String>) -> (r: Option<String>)
    ensures
        opt_view_of(r) == string_setting(table@, key@, label@).0,
        views(final(warnings)@) == views(old(warnings)@) + string_setting(table@, key@, label@).1,
{
    match find_entry(table, key) {
        None => {
            assert(views(warnings@) =~= views(old(warnings)@) + seq![]);
            None
        },
        Some(e) => match &e.value {
            TomlValue::String(s) => {
                assert(views(warnings@) =~= views(old(warnings)@) + seq![]);
                Some(s.clone())
            },
            _ => {
                push_text(warnings, key_warning_text(label, "' must be a string; ignoring value"));
                assert(views(warnings@) =~= views(old(warnings)@) + seq![string_warning(label@)]);
                None
            },
        },
    }
}

/// The view of an optional string.
pub open spec fn opt_view_of(o: Option<String>) -> Option<Seq<char>> {
    crate::config::opt_view(o)
}

/// Reads a boolean setting, warning under `label` if it has another type.
pub fn read_bool_labeled(table: &Vec<TomlEntry>, key: &str, label: &str, warnings: &mut Vec<String>) -> (r: Option<bool>)
    ensures
        r == bool_setting(table@, key@, label@).0,
        views(final(warnings)@) == views(old(warnings)@) + bool_setting(table@, key@, label@).1,
{
    match find_entry(table, key) {
        None => {
            assert(views(warnings@) =~= views(old(warnings)@) + seq![]);
            None
        },
        Some(e) => match &e.value {
            TomlValue::Boolean(b) => {
                assert(views(warnings@) =~= views(old(warnings)@) + seq![]);
                Some(*b)
            },
            _ => {
                push_text(warnings, key_warning_text(label, "' must be a boolean; ignoring value"));
                assert(views(warnings@) =~= views(old(warnings)@) + seq![bool_warning(label@)]);
                None
            },
        },
    }
}

/// Reads a string value from the table, pushing a warning if the type is wrong.
pub fn read_string(table: &Vec<TomlEntry>, key: &str, warnings: &mut Vec<String>) -> (r: Option<String>)
    ensures
        opt_view_of(r) == string_setting(table@, key@, key@).0,
        views(final(warnings)@) == views(old(warnings)@) + string_setting(table@, key@, key@).1,
{
    read_string_labeled(table, key, key, warnings)
}

/// Read a boolean value from the table, pushing a warning if the type is wrong.
pub fn read_bool(table: &Vec<TomlEntry>, key: &str, warnings: &mut Vec<String>) -> (r: Option<bool>)
    ensures
        r == bool_setting(table@, key@, key@).0,
        views(final(warnings)@) == views(old(warnings)@) + bool_setting(table@, key@, key@).1,
{
    read_bool_labeled(table, key, key, warnings)
}

/// Like `read_bool`, but the warning names the key as `<section>.<key>`.
pub fn read_section_bool(table: &Vec<TomlEntry>, section: &str, key: &str, warnings: &mut Vec<String>) -> (r: Option<bool>)
    ensures
        r == bool_setting(table@, key@, qualified(section@, key@)).0,
        views(final(warnings)@) == views(old(warnings)@) + bool_setting(table@, key@, qualified(section@, key@)).1,
{
    let label = qualified_text(section, key);
    read_bool_labeled(table, key, label.as_str(), warnings)
}

/// Like `read_string`, but the warning names the key as `<section>.<key>`.
pub fn read_section_string(table: &Vec<TomlEntry>, section: &str, key: &str, warnings: &mut Vec<String>) -> (r: Option<String>)
    ensures
        opt_view_of(r) == string_setting(table@, key@, qualified(section@, key@)).0,
        views(final(warnings)@) == views(old(warnings)@) + string_setting(table@, key@, qualified(section@, key@)).1,
{
    let label = qualified_text(section, key);
    read_string_labeled(table, key, label.as_str(), warnings)
}

/// Read a non-negative integer value from the table, pushing a warning if
/// the value is negative or no integer.
pub fn read_usize(table: &Vec<TomlEntry>, key: &str, warnings: &mut Vec<String>) -> (r: Option<usize>)
    ensures
        r == usize_setting(table@, key@).0,
        views(final(warnings)@) == views(old(warnings)@) + usize_setting(table@, key@).1,
{
    match find_entry(table, key) {
        None => {
            assert(views(warnings@) =~= views(old(warnings)@) + seq![]);
            None
        },
        Some(e) => match &e.value {
            TomlValue::Integer(n) => {
                if *n >= 0 {
                    assert(views(warnings@) =~= views(old(warnings)@) + seq![]);
                    Some(#[verifier::truncate] (*n as usize))
                } else {
                    push_text(warnings, key_warning_text(key, "' must be a non-negative integer; ignoring value"));
                    assert(views(warnings@) =~= views(old(warnings)@) + seq![negative_warning(key@)]);
                    None
                }
            },
            _ => {
                let tail = cat(cat(owned("' must be an integer; got '"), e.rendered.as_str()), "', ignoring");
                push_text(warnings, key_warning_text(key, tail.as_str()));
                assert(views(warnings@) =~= views(old(warnings)@) + usize_setting(table@, key@).1);
                None
            },
        },
    }
}

/// `"a" or "b" or ...` for the allowed values.
fn quoted_choices_text(allowed: &[&str]) -> (r: String)
    ensures
        r@ == quoted_choices(str_views(allowed@)),
{
    let mut r = String::new();
    let mut k: usize = 0;
    while k < allowed.len()
        invariant
            k <= allowed@.len(),
            r@ == quoted_choices(str_views(allowed@).subrange(0, k as int)),
        decreases allowed@.len() - k,
    {
        let ghost prev = str_views(allowed@).subrange(0, k as int);
        if k == 0 {
            r = cat(cat(owned("\""), allowed[k]), "\"");
        } else {
            r = cat(cat(cat(r, " or \""), allowed[k]), "\"");
        }
        k = k + 1;
        proof {
            let cur = str_views(allowed@).subrange(0, k as int);
            assert(cur.drop_last() =~= prev);
            assert(cur.last() == allowed@[k - 1]@);
            if k == 1 {
                assert(cur[0] == allowed@[0]@);
                assert(r@ =~= quoted_choices(cur));
            } else {
                assert(r@ =~= quoted_choices(cur));
            }
        }
    }
    assert(str_views(allowed@).subrange(0, k as int) =~= str_views(allowed@));
    r
}

/// Whether `s` is one of `allowed`.
pub fn is_allowed(allowed: &[&str], s: &str) -> (r: bool)
    ensures
        r == str_views(allowed@).contains(s@),
{
    let mut k: usize = 0;
    while k < allowed.len()
        invariant
            k <= allowed@.len(),
            forall|i: int| 0 <= i < k ==> allowed@[i]@ != s@,
        decreases allowed@.len() - k,
    {
        if str_eq(allowed[k], s) {
            assert(str_views(allowed@)[k as int] == s@);
            return true;
        }
        k = k + 1;
    }
    assert forall|i: int| 0 <= i < str_views(allowed@).len() implies str_views(allowed@)[i] != s@ by {
        assert(str_views(allowed@)[i] == allowed@[i]@);
    }
    false
}

/// Read a string value constrained to a set of allowed values.
pub fn read_enum(table: &Vec<TomlEntry>, key: &str, allowed: &[&str], warnings: &mut Vec<String>) -> (r: Option<String>)
    ensures
        opt_view_of(r) == enum_setting(table@, key@, str_views(allowed@)).0,
        views(final(warnings)@) == views(old(warnings)@) + enum_setting(table@, key@, str_views(allowed@)).1,
{
    let ghost w0 = views(warnings@);
    let raw = read_string(table, key, warnings);
    match raw {
        None => None,
        Some(s) => {
            if is_allowed(allowed, s.as_str()) {
                Some(s)
            } else {
                let tail = cat(cat(cat(cat(owned("' must be "), quoted_choices_text(allowed).as_str()), "; got \""), s.as_str()), "\", ignoring");
                push_text(warnings, key_warning_text(key, tail.as_str()));
                assert(views(warnings@) =~= w0 + enum_setting(table@, key@, str_views(allowed@)).1);
                None
            }
        },
    }
}

/// Read a single-character leader key, pushing a warning if the value is unusable.
pub fn read_leader(table: &Vec<TomlEntry>, warnings: &mut Vec<String>) -> (r: Option<char>)
    ensures
        r == leader_setting(table@).0,
        views(final(warnings)@) == views(old(warnings)@) + leader_setting(table@).1,
{
    let ghost w0 = views(warnings@);
    let raw = read_string(table, "leader", warnings);
    match raw {
        None => None,
        Some(s) => {
            let chars = chars_of(s.as_str());
            if chars.len() == 1 {
                Some(chars[0])
            } else {
                push_text(warnings, key_warning_text("leader", "' must be a single character; ignoring value"));
                assert(views(warnings@) =~= w0 + leader_setting(table@).1);
                None
            }
        },
    }
}


/// `<head><key>', ignoring`: the warning for an unknown key.
pub open spec fn unknown_key_warning(head: Seq<char>, key: Seq<char>) -> Seq<char> {
    head + key + "', ignoring"@
}

/// One warning for each entry of `t`, in order, whose key is not in `known`.
pub open spec fn unknown_key_warnings(t: Seq<TomlEntry>, known: Seq<Seq<char>>, head: Seq<char>) -> Seq<Seq<char>>
    decreases t.len(),
{
    if t.len() == 0 {
        seq![]
    } else {
        let rest = unknown_key_warnings(t.drop_last(), known, head);
        if known.contains(t.last().key@) {
            rest
        } else {
            rest.push(unknown_key_warning(head, t.last().key@))
        }
    }
}

/// Warns, under `head`, about each key of `table` that is not in `known`.
pub fn warn_unknown_keys(table: &Vec<TomlEntry>, known: &[&str], head: &str, warnings: &mut Vec<String>)
    ensures
        views(final(warnings)@) == views(old(warnings)@) + unknown_key_warnings(table@, str_views(known@), head@),
{
    let ghost w0 = views(warnings@);
    let mut k: usize = 0;
    assert(table@.subrange(0, 0) =~= Seq::<TomlEntry>::empty());
    assert(views(warnings@) =~= w0 + seq![]);
    while k < table.len()
        invariant
            k <= table@.len(),
            views(warnings@) == w0 + unknown_key_warnings(table@.subrange(0, k as int), str_views(known@), head@),
        decreases table@.len() - k,
    {
        let ghost prev = table@.subrange(0, k as int);
        let key = table[k].key.as_str();
        if !is_allowed(known, key) {
            let m = cat(cat(owned(head), key), "', ignoring");
            push_text(warnings, m);
        }
        k = k + 1;
        proof {
            let cur = table@.subrange(0, k as int);
            assert(cur.drop_last() =~= prev);
            assert(cur.last() == table@[k - 1]);
            assert(views(warnings@) =~= w0 + unknown_key_warnings(cur, str_views(known@), head@));
        }
    }
    assert(table@.subrange(0, k as int) =~= table@);
}

} // verus!
