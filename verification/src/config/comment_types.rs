//! The `comment_types` list: user-defined comment classifications.

use vstd::prelude::*;
use crate::config::read::{cat, key_warning, key_warning_text, str_views, unknown_key_warnings, warn_unknown_keys};
use crate::config::{comment_type_views, CommentTypeConfig, CommentTypeView};
use crate::text::{
    ascii_lower, chars_of, decimal, decimal_text, owned, push_text, str_eq, string_of,
    to_ascii_lowercase, trim, trim_chars, trim_vec, views,
};
use crate::toml_doc::{as_str, get_str, find_entry, lookup, written_string, TomlEntry, TomlValue};

verus! {

/// Whether `c` is an ASCII hexadecimal digit.
pub open spec fn is_hex_digit(c: char) -> bool {
    ('0' <= c <= '9') || ('a' <= c <= 'f') || ('A' <= c <= 'F')
}

/// The color names a comment type may use.
pub open spec fn color_names() -> Seq<Seq<char>> {
    seq![
        "black"@, "red"@, "green"@, "yellow"@, "blue"@, "magenta"@, "cyan"@, "gray"@, "grey"@,
        "darkgray"@, "dark_gray"@, "darkgrey"@, "dark_grey"@, "lightred"@, "light_red"@,
        "lightgreen"@, "light_green"@, "lightyellow"@, "light_yellow"@, "lightblue"@,
        "light_blue"@, "lightmagenta"@, "light_magenta"@, "lightcyan"@, "light_cyan"@, "white"@,
    ]
}

/// Whether `value` names a supported color: after trimming and ASCII
/// lower-casing, either one of `color_names()` or `#` followed by exactly six
/// hexadecimal digits.
pub open spec fn supported_color(value: Seq<char>) -> bool {
    let n = ascii_lower(trim(value));
    if n.len() == 0 {
        false
    } else if n[0] == '#' {
        n.len() == 7 && forall|i: int| 1 <= i < 7 ==> is_hex_digit(#[trigger] n[i])
    } else {
        color_names().contains(n)
    }
}

/// A color is supported exactly when, trimmed and lower-cased, it is one of
/// the terminal's named colors (with or without an underscore between
/// "dark" or "light" and the hue) or `#` followed by six hexadecimal digits.
pub proof fn lemma_supported_colors(value: Seq<char>)
    ensures
        supported_color(value) <==> {
            let n = ascii_lower(trim(value));
            ||| n == "black"@
            ||| n == "red"@
            ||| n == "green"@
            ||| n == "yellow"@
            ||| n == "blue"@
            ||| n == "magenta"@
            ||| n == "cyan"@
            ||| n == "gray"@
            ||| n == "grey"@
            ||| n == "darkgray"@
            ||| n == "dark_gray"@
            ||| n == "darkgrey"@
            ||| n == "dark_grey"@
            ||| n == "lightred"@
            ||| n == "light_red"@
            ||| n == "lightgreen"@
            ||| n == "light_green"@
            ||| n == "lightyellow"@
            ||| n == "light_yellow"@
            ||| n == "lightblue"@
            ||| n == "light_blue"@
            ||| n == "lightmagenta"@
            ||| n == "light_magenta"@
            ||| n == "lightcyan"@
            ||| n == "light_cyan"@
            ||| n == "white"@
            ||| n.len() == 7 && n[0] == '#' && forall|i: int| 1 <= i < 7 ==> is_hex_digit(#[trigger] n[i])
        },
{
    broadcast use vstd::seq_lib::group_seq_properties;
    reveal_strlit("black");
    reveal_strlit("red");
    reveal_strlit("green");
    reveal_strlit("yellow");
    reveal_strlit("blue");
    reveal_strlit("magenta");
    reveal_strlit("cyan");
    reveal_strlit("gray");
    reveal_strlit("grey");
    reveal_strlit("darkgray");
    reveal_strlit("dark_gray");
    reveal_strlit("darkgrey");
    reveal_strlit("dark_grey");
    reveal_strlit("lightred");
    reveal_strlit("light_red");
    reveal_strlit("lightgreen");
    reveal_strlit("light_green");
    reveal_strlit("lightyellow");
    reveal_strlit("light_yellow");
    reveal_strlit("lightblue");
    reveal_strlit("light_blue");
    reveal_strlit("lightmagenta");
    reveal_strlit("light_magenta");
    reveal_strlit("lightcyan");
    reveal_strlit("light_cyan");
    reveal_strlit("white");
}

/// Whether `value` is a supported comment type color.
pub fn is_supported_color_value(value: &str) -> (r: bool)
    ensures
        r == supported_color(value@),
{
    let normalized = to_ascii_lowercase(&trim_chars(value));
    let n = normalized.len();
    if n == 0 {
        return false;
    }
    if normalized[0] == '#' {
        if n != 7 {
            return false;
        }
        let mut k: usize = 1;
        while k < 7
            invariant
                normalized@ == ascii_lower(trim(value@)),
                normalized@.len() == 7,
                normalized@[0] == '#',
                1 <= k <= 7,
                forall|i: int| 1 <= i < k ==> is_hex_digit(#[trigger] normalized@[i]),
            decreases 7 - k,
        {
            let c = normalized[k];
            if !(('0' <= c && c <= '9') || ('a' <= c && c <= 'f') || ('A' <= c && c <= 'F')) {
                proof {
                    let nn = ascii_lower(trim(value@));
                    assert(nn == normalized@);
                    assert(!is_hex_digit(nn[k as int]));
                }
                return false;
            }
            k = k + 1;
        }
        return true;
    }
    let names: [&str; 26] = [
        "black", "red", "green", "yellow", "blue", "magenta", "cyan", "gray", "grey", "darkgray",
        "dark_gray", "darkgrey", "dark_grey", "lightred", "light_red", "lightgreen", "light_green",
        "lightyellow", "light_yellow", "lightblue", "light_blue", "lightmagenta", "light_magenta",
        "lightcyan", "light_cyan", "white",
    ];
    assert(str_views(names@) =~= color_names());
    let text = string_of(&normalized);
    crate::config::read::is_allowed(&names, text.as_str())
}

/// `comment_types[<index>]`.
pub open spec fn entry_label(index: nat) -> Seq<char> {
    "comment_types["@ + decimal(index) + "]"@
}

/// `comment_types[<index>].<field>`.
pub open spec fn field_label(index: nat, field: Seq<char>) -> Seq<char> {
    entry_label(index) + "."@ + field
}

fn entry_label_text(index: usize) -> (r: String)
    ensures
        r@ == entry_label(index as nat),
{
    cat(cat(owned("comment_types["), decimal_text(index).as_str()), "]")
}

fn field_label_text(index: usize, field: &str) -> (r: String)
    ensures
        r@ == field_label(index as nat, field@),
{
    cat(cat(entry_label_text(index), "."), field)
}

/// An optional, non-empty, trimmed text field of a comment type entry.
pub open spec fn optional_text(t: Seq<TomlEntry>, field: Seq<char>, index: nat) -> (
    Option<Seq<char>>,
    Seq<Seq<char>>,
) {
    match lookup(t, field) {
        None => (None, seq![]),
        Some(e) => match as_str(e.value) {
            Some(text) => if trim(text).len() == 0 {
                (
                    None,
                    seq![key_warning(field_label(index, field), "' cannot be empty; ignoring value"@)],
                )
            } else {
                (Some(trim(text)), seq![])
            },
            None => (
                None,
                seq![key_warning(field_label(index, field), "' must be a string; ignoring value"@)],
            ),
        },
    }
}

/// Parse an optional non-empty string field from a comment_types entry.
pub fn parse_optional_nonempty_string(
    entry: &Vec<TomlEntry>,
    field: &str,
    index: usize,
    warnings: &mut Vec<String>,
) -> (r: Option<String>)
    ensures
        crate::config::opt_view(r) == optional_text(entry@, field@, index as nat).0,
        views(final(warnings)@) == views(old(warnings)@) + optional_text(entry@, field@, index as nat).1,
{
    let ghost w0 = views(warnings@);
    match find_entry(entry, field) {
        None => {
            assert(views(warnings@) =~= w0 + seq![]);
            None
        },
        Some(e) => match &e.value {
            TomlValue::String(text) => {
                let trimmed = trim_chars(text.as_str());
                if trimmed.len() == 0 {
                    let label = field_label_text(index, field);
                    push_text(warnings, key_warning_text(label.as_str(), "' cannot be empty; ignoring value"));
                    assert(views(warnings@) =~= w0 + optional_text(entry@, field@, index as nat).1);
                    None
                } else {
                    assert(views(warnings@) =~= w0 + seq![]);
                    Some(string_of(&trimmed))
                }
            },
            _ => {
                let label = field_label_text(index, field);
                push_text(warnings, key_warning_text(label.as_str(), "' must be a string; ignoring value"));
                assert(views(warnings@) =~= w0 + optional_text(entry@, field@, index as nat).1);
                None
            },
        },
    }
}

/// The optional color of a comment type entry: trimmed, non-empty and supported.
pub open spec fn color_field(t: Seq<TomlEntry>, index: nat) -> (Option<Seq<char>>, Seq<Seq<char>>) {
    match lookup(t, "color"@) {
        None => (None, seq![]),
        Some(e) => match as_str(e.value) {
            Some(text) => if trim(text).len() == 0 {
                (
                    None,
                    seq![key_warning(field_label(index, "color"@), "' cannot be empty; ignoring value"@)],
                )
            } else if !supported_color(trim(text)) {
                (
                    None,
                    seq![
                        key_warning(
                            field_label(index, "color"@),
                            "' must be a named color or #RRGGBB; ignoring value"@,
                        ),
                    ],
                )
            } else {
                (Some(trim(text)), seq![])
            },
            None => (
                None,
                seq![key_warning(field_label(index, "color"@), "' must be a string; ignoring value"@)],
            ),
        },
    }
}

fn parse_color(entry: &Vec<TomlEntry>, index: usize, warnings: &mut Vec<String>) -> (r: Option<String>)
    ensures
        crate::config::opt_view(r) == color_field(entry@, index as nat).0,
        views(final(warnings)@) == views(old(warnings)@) + color_field(entry@, index as nat).1,
{
    let ghost w0 = views(warnings@);
    match find_entry(entry, "color") {
        None => {
            assert(views(warnings@) =~= w0 + seq![]);
            None
        },
        Some(raw) => match &raw.value {
            TomlValue::String(text) => {
                let trimmed = string_of(&trim_chars(text.as_str()));
                if trimmed.as_str().unicode_len() == 0 {
                    let label = field_label_text(index, "color");
                    push_text(warnings, key_warning_text(label.as_str(), "' cannot be empty; ignoring value"));
                    assert(views(warnings@) =~= w0 + color_field(entry@, index as nat).1);
                    None
                } else if !is_supported_color_value(trimmed.as_str()) {
                    let label = field_label_text(index, "color");
                    push_text(warnings, key_warning_text(label.as_str(), "' must be a named color or #RRGGBB; ignoring value"));
                    assert(views(warnings@) =~= w0 + color_field(entry@, index as nat).1);
                    None
                } else {
                    assert(views(warnings@) =~= w0 + seq![]);
                    Some(trimmed)
                }
            },
            _ => {
                let label = field_label_text(index, "color");
                push_text(warnings, key_warning_text(label.as_str(), "' must be a string; ignoring value"));
                assert(views(warnings@) =~= w0 + color_field(entry@, index as nat).1);
                None
            },
        },
    }
}

/// The keys a comment type entry knows.
pub open spec fn comment_type_keys() -> Seq<Seq<char>> {
    seq!["id"@, "label"@, "definition"@, "color"@]
}

/// `Warning: Unknown key 'comment_types[<index>].`.
pub open spec fn entry_unknown_head(index: nat) -> Seq<char> {
    "Warning: Unknown key '"@ + entry_label(index) + "."@
}

/// The ids of the comment types parsed so far.
pub open spec fn ids(parsed: Seq<CommentTypeView>) -> Seq<Seq<char>> {
    parsed.map_values(|c: CommentTypeView| c.id)
}

/// The warning for a duplicate id.
pub open spec fn duplicate_id_warning(id: Seq<char>) -> Seq<char> {
    "Warning: Duplicate comment type id '"@ + id + "' in config; ignoring duplicate entry"@
}

/// One entry of `comment_types` at position `index`, given the ids taken by
/// the entries before it: the comment type it defines (if valid) and its
/// warnings.
pub open spec fn comment_type_entry(item: TomlValue, index: nat, seen: Seq<Seq<char>>) -> (
    Option<CommentTypeView>,
    Seq<Seq<char>>,
) {
    match item {
        TomlValue::Table(t) => {
            let w1 = unknown_key_warnings(t@, comment_type_keys(), entry_unknown_head(index));
            match lookup(t@, "id"@) {
                Some(e) if as_str(e.value) is Some => {
                    let id = ascii_lower(trim(as_str(e.value).unwrap()));
                    if id.len() == 0 {
                        (
                            None,
                            w1.push(
                                key_warning(
                                    field_label(index, "id"@),
                                    "' cannot be empty; ignoring entry"@,
                                ),
                            ),
                        )
                    } else if seen.contains(id) {
                        (None, w1.push(duplicate_id_warning(id)))
                    } else {
                        let (label, w2) = optional_text(t@, "label"@, index);
                        let (definition, w3) = optional_text(t@, "definition"@, index);
                        let (color, w4) = color_field(t@, index);
                        (
                            Some(CommentTypeView { id, label, definition, color }),
                            w1 + w2 + w3 + w4,
                        )
                    }
                },
                _ => (
                    None,
                    w1.push(
                        key_warning(field_label(index, "id"@), "' must be a string; ignoring entry"@),
                    ),
                ),
            }
        },
        _ => (
            None,
            seq![key_warning(entry_label(index), "' must be an object; ignoring entry"@)],
        ),
    }
}

/// A comment type entry is kept exactly when it is a table whose `id` is a
/// string that, trimmed and lower-cased, is neither empty nor taken by an
/// earlier entry. A kept entry has that id; its label and definition are the
/// written strings trimmed (none where blank or not strings), and its color
/// the written string trimmed where that is a supported color.
pub proof fn lemma_comment_type_entry_holds_written_values(item: TomlValue, index: nat, seen: Seq<Seq<char>>)
    ensures
        comment_type_entry(item, index, seen).0 is Some <==> ({
            &&& item is Table
            &&& written_string(item->Table_0@, "id"@) is Some
            &&& ascii_lower(trim(written_string(item->Table_0@, "id"@).unwrap())).len() > 0
            &&& !seen.contains(ascii_lower(trim(written_string(item->Table_0@, "id"@).unwrap())))
        }),
        comment_type_entry(item, index, seen).0 is Some ==> ({
            let t = item->Table_0;
            let c = comment_type_entry(item, index, seen).0.unwrap();
            &&& c.id == ascii_lower(trim(written_string(t@, "id"@).unwrap()))
            &&& c.label == if written_string(t@, "label"@) is Some && trim(written_string(t@, "label"@).unwrap()).len() > 0 {
                Some(trim(written_string(t@, "label"@).unwrap()))
            } else {
                None
            }
            &&& c.definition == if written_string(t@, "definition"@) is Some && trim(written_string(t@, "definition"@).unwrap()).len() > 0 {
                Some(trim(written_string(t@, "definition"@).unwrap()))
            } else {
                None
            }
            &&& c.color == if written_string(t@, "color"@) is Some && trim(written_string(t@, "color"@).unwrap()).len() > 0
                && supported_color(trim(written_string(t@, "color"@).unwrap())) {
                Some(trim(written_string(t@, "color"@).unwrap()))
            } else {
                None
            }
        }),
{
}

/// The comment types defined by `items`, in order, and the warnings.
pub open spec fn comment_types_fold(items: Seq<TomlValue>) -> (Seq<CommentTypeView>, Seq<Seq<char>>)
    decreases items.len(),
{
    if items.len() == 0 {
        (seq![], seq![])
    } else {
        let (parsed, w) = comment_types_fold(items.drop_last());
        let (e, we) = comment_type_entry(items.last(), (items.len() - 1) as nat, ids(parsed));
        (
            match e {
                Some(c) => parsed.push(c),
                None => parsed,
            },
            w + we,
        )
    }
}

/// The `comment_types` setting: the list (none where it is not an array or
/// holds no valid entry) and its warnings.
pub open spec fn comment_types_setting(v: TomlValue) -> (Option<Seq<CommentTypeView>>, Seq<Seq<char>>) {
    match v {
        TomlValue::Array(items) => {
            let (parsed, w) = comment_types_fold(items@);
            if parsed.len() == 0 {
                (
                    None,
                    w.push(
                        "Warning: Config key 'comment_types' contains no valid entries; using defaults"@,
                    ),
                )
            } else {
                (Some(parsed), w)
            }
        },
        _ => (
            None,
            seq![
                "Warning: Config key 'comment_types' must be an array of objects; ignoring value"@,
            ],
        ),
    }
}

/// Every comment type kept has a non-empty, lower-case id with no
/// surrounding whitespace, and no id is kept twice.
pub proof fn lemma_comment_type_ids_unique(items: Seq<TomlValue>)
    ensures
        forall|i: int, j: int|
            0 <= i < j < comment_types_fold(items).0.len() ==> #[trigger] comment_types_fold(items).0[i].id
                != #[trigger] comment_types_fold(items).0[j].id,
        forall|i: int|
            0 <= i < comment_types_fold(items).0.len() ==> {
                let id = #[trigger] comment_types_fold(items).0[i].id;
                id.len() > 0 && exists|raw: Seq<char>| id == ascii_lower(trim(raw))
            },
    decreases items.len(),
{
    if items.len() > 0 {
        lemma_comment_type_ids_unique(items.drop_last());
        let (parsed, w) = comment_types_fold(items.drop_last());
        let (e, we) = comment_type_entry(items.last(), (items.len() - 1) as nat, ids(parsed));
        if let Some(c) = e {
            let u = parsed.push(c);
            assert(!ids(parsed).contains(c.id));
            assert forall|i: int, j: int| 0 <= i < j < u.len() implies #[trigger] u[i].id != #[trigger] u[j].id by {
                if j == parsed.len() {
                    assert(ids(parsed)[i] == parsed[i].id);
                }
            }
            if let TomlValue::Table(t) = items.last() {
                let raw = as_str(lookup(t@, "id"@).unwrap().value).unwrap();
                assert(c.id == ascii_lower(trim(raw)));
            }
            assert forall|i: int| 0 <= i < u.len() implies {
                let id = #[trigger] u[i].id;
                id.len() > 0 && exists|raw: Seq<char>| id == ascii_lower(trim(raw))
            } by {
                if i < parsed.len() {
                    assert(u[i] == parsed[i]);
                }
            }
        }
    }
}

/// Whether some comment type in `parsed` has id `id`.
fn has_id(parsed: &Vec<CommentTypeConfig>, id: &str) -> (r: bool)
    ensures
        r == ids(comment_type_views(parsed@)).contains(id@),
{
    let mut k: usize = 0;
    while k < parsed.len()
        invariant
            k <= parsed@.len(),
            forall|i: int| 0 <= i < k ==> parsed@[i].id@ != id@,
        decreases parsed@.len() - k,
    {
        if str_eq(parsed[k].id.as_str(), id) {
            assert(ids(comment_type_views(parsed@))[k as int] == id@);
            return true;
        }
        k = k + 1;
    }
    assert forall|i: int| 0 <= i < ids(comment_type_views(parsed@)).len() implies ids(
        comment_type_views(parsed@),
    )[i] != id@ by {
        assert(ids(comment_type_views(parsed@))[i] == parsed@[i].id@);
    }
    false
}

/// Parses one entry of `comment_types`, appending it to `parsed` if valid.
fn parse_comment_type_entry(
    item: &TomlValue,
    index: usize,
    parsed: &mut Vec<CommentTypeConfig>,
    warnings: &mut Vec<String>,
)
    ensures
        ({
            let (e, we) = comment_type_entry(*item, index as nat, ids(comment_type_views(old(parsed)@)));
            &&& comment_type_views(final(parsed)@) == match e {
                Some(c) => comment_type_views(old(parsed)@).push(c),
                None => comment_type_views(old(parsed)@),
            }
            &&& views(final(warnings)@) == views(old(warnings)@) + we
        }),
{
    let ghost w0 = views(warnings@);
    let ghost p0 = comment_type_views(parsed@);
    let entry = match item {
        TomlValue::Table(entry) => entry,
        _ => {
            let label = entry_label_text(index);
            push_text(warnings, key_warning_text(label.as_str(), "' must be an object; ignoring entry"));
            assert(views(warnings@) =~= w0 + comment_type_entry(*item, index as nat, ids(p0)).1);
            return;
        },
    };
    let known: [&str; 4] = ["id", "label", "definition", "color"];
    assert(str_views(known@) =~= comment_type_keys());
    let head = cat(cat(owned("Warning: Unknown key '"), entry_label_text(index).as_str()), ".");
    warn_unknown_keys(entry, &known, head.as_str(), warnings);
    let ghost w1 = views(warnings@);
    let id_raw = match get_str(entry, "id") {
        Some(s) => s,
        None => {
            let label = field_label_text(index, "id");
            push_text(warnings, key_warning_text(label.as_str(), "' must be a string; ignoring entry"));
            assert(views(warnings@) =~= w0 + comment_type_entry(*item, index as nat, ids(p0)).1);
            return;
        },
    };
    let id = string_of(&to_ascii_lowercase(&trim_chars(id_raw.as_str())));
    if id.as_str().unicode_len() == 0 {
        let label = field_label_text(index, "id");
        push_text(warnings, key_warning_text(label.as_str(), "' cannot be empty; ignoring entry"));
        assert(views(warnings@) =~= w0 + comment_type_entry(*item, index as nat, ids(p0)).1);
        return;
    }
    if has_id(parsed, id.as_str()) {
        let m = cat(cat(owned("Warning: Duplicate comment type id '"), id.as_str()), "' in config; ignoring duplicate entry");
        push_text(warnings, m);
        assert(views(warnings@) =~= w0 + comment_type_entry(*item, index as nat, ids(p0)).1);
        return;
    }
    let label = parse_optional_nonempty_string(entry, "label", index, warnings);
    let definition = parse_optional_nonempty_string(entry, "definition", index, warnings);
    let color = parse_color(entry, index, warnings);
    let c = CommentTypeConfig { id, label, definition, color };
    parsed.push(c);
    assert(comment_type_views(parsed@) =~= p0.push(c@));
    assert(views(warnings@) =~= w0 + comment_type_entry(*item, index as nat, ids(p0)).1);
}

/// Parses the `comment_types` setting. Invalid entries are warned and
/// skipped; a list with no valid entry falls back to the defaults (`None`).
pub fn parse_comment_types(value: &TomlValue, warnings: &mut Vec<String>) -> (r: Option<Vec<CommentTypeConfig>>)
    ensures
        match r {
            Some(v) => comment_types_setting(*value).0 == Some(comment_type_views(v@)),
            None => comment_types_setting(*value).0 is None,
        },
        views(final(warnings)@) == views(old(warnings)@) + comment_types_setting(*value).1,
{
    let ghost w0 = views(warnings@);
    let items = match value {
        TomlValue::Array(items) => items,
        _ => {
            push_text(warnings, owned("Warning: Config key 'comment_types' must be an array of objects; ignoring value"));
            assert(views(warnings@) =~= w0 + comment_types_setting(*value).1);
            return None;
        },
    };
    let mut parsed: Vec<CommentTypeConfig> = Vec::new();
    let mut k: usize = 0;
    assert(items@.subrange(0, 0) =~= Seq::<TomlValue>::empty());
    assert(comment_type_views(parsed@) =~= Seq::<CommentTypeView>::empty());
    assert(views(warnings@) =~= w0 + seq![]);
    while k < items.len()
        invariant
            k <= items@.len(),
            comment_type_views(parsed@) == comment_types_fold(items@.subrange(0, k as int)).0,
            views(warnings@) == w0 + comment_types_fold(items@.subrange(0, k as int)).1,
        decreases items@.len() - k,
    {
        let ghost prev = items@.subrange(0, k as int);
        let ghost wprev = views(warnings@);
        parse_comment_type_entry(&items[k], k, &mut parsed, warnings);
        k = k + 1;
        proof {
            let cur = items@.subrange(0, k as int);
            assert(cur.drop_last() =~= prev);
            assert(cur.last() == items@[k - 1]);
            assert(views(warnings@) =~= w0 + comment_types_fold(cur).1);
        }
    }
    assert(items@.subrange(0, k as int) =~= items@);
    if parsed.len() == 0 {
        push_text(warnings, owned("Warning: Config key 'comment_types' contains no valid entries; using defaults"));
        assert(views(warnings@) =~= w0 + comment_types_setting(*value).1);
        None
    } else {
        Some(parsed)
    }
}

} // verus!
