//! The `macros` list: `@` macros defined in the config file.
//!
//! Invalid entries and steps are warned about and skipped. Where several
//! valid entries bind the same key, the last one wins, with a warning, and the
//! macro keeps the place where its key was first seen.

use vstd::prelude::*;
use crate::app::{last_binding, lemma_load_macros_last_wins, loaded, macro_lookup};
use crate::config::read::{cat, key_warning, key_warning_text, str_views, unknown_key_warnings, warn_unknown_keys};
use crate::config::{macro_view, macro_views, step_views, MacroActionKind, MacroConfig, MacroStep};
use crate::text::{
    char_text, chars_of, decimal, decimal_text, owned, push_text, str_eq, strip_leading,
    strip_leading_chars, string_of, trim, trim_chars, trim_start, trim_vec, views,
};
use crate::toml_doc::{
    as_str, contains_key, find_entry, get_str, has_key, lookup, written_string, TomlEntry, TomlValue,
};

verus! {

/// The action kind that the `action` text `s` names (`MacroActionKind::from_str`).
pub open spec fn action_kind(s: Seq<char>) -> Option<MacroActionKind> {
    if trim(s) == "command"@ {
        Some(MacroActionKind::Command)
    } else {
        None
    }
}

impl MacroActionKind {
    /// The action kind named by `s`, ignoring surrounding whitespace.
    pub fn parse_kind(s: &str) -> (r: Option<MacroActionKind>)
        ensures
            r == action_kind(s@),
    {
        let t = string_of(&trim_chars(s));
        if str_eq(t.as_str(), "command") {
            Some(MacroActionKind::Command)
        } else {
            None
        }
    }
}

impl std::str::FromStr for MacroActionKind {
    type Err = ();

    fn from_str(s: &str) -> (r: Result<Self, Self::Err>)
        ensures
            match action_kind(s@) {
                Some(k) => r == Ok::<MacroActionKind, ()>(k),
                None => r == Err::<MacroActionKind, ()>(()),
            },
    {
        match MacroActionKind::parse_kind(s) {
            Some(k) => Ok(k),
            None => Err(()),
        }
    }
}

/// `macros[<index>]`.
pub open spec fn macro_label(index: nat) -> Seq<char> {
    "macros["@ + decimal(index) + "]"@
}

/// `macros[<index>].steps[<step>]`.
pub open spec fn step_label(index: nat, step: nat) -> Seq<char> {
    macro_label(index) + ".steps["@ + decimal(step) + "]"@
}

/// `<label>.<key>`.
pub open spec fn dotted(label: Seq<char>, key: Seq<char>) -> Seq<char> {
    label + "."@ + key
}

/// `Warning: Unknown key '<label>.`.
pub open spec fn unknown_head(label: Seq<char>) -> Seq<char> {
    "Warning: Unknown key '"@ + label + "."@
}

fn macro_label_text(index: usize) -> (r: String)
    ensures
        r@ == macro_label(index as nat),
{
    cat(cat(owned("macros["), decimal_text(index).as_str()), "]")
}

fn step_label_text(index: usize, step: usize) -> (r: String)
    ensures
        r@ == step_label(index as nat, step as nat),
{
    cat(cat(cat(macro_label_text(index), ".steps["), decimal_text(step).as_str()), "]")
}

fn dotted_text(label: &str, key: &str) -> (r: String)
    ensures
        r@ == dotted(label@, key@),
{
    cat(cat(owned(label), "."), key)
}

fn unknown_head_text(label: &str) -> (r: String)
    ensures
        r@ == unknown_head(label@),
{
    cat(cat(owned("Warning: Unknown key '"), label), ".")
}

/// A required, non-empty, trimmed string of a macro step.
pub open spec fn step_text(t: Seq<TomlEntry>, key: Seq<char>, label: Seq<char>) -> (
    Option<Seq<char>>,
    Seq<Seq<char>>,
) {
    match lookup(t, key) {
        Some(e) if as_str(e.value) is Some => if trim(as_str(e.value).unwrap()).len() == 0 {
            (None, seq![key_warning(dotted(label, key), "' cannot be empty; ignoring step"@)])
        } else {
            (Some(trim(as_str(e.value).unwrap())), seq![])
        },
        _ => (None, seq![key_warning(dotted(label, key), "' must be a string; ignoring step"@)]),
    }
}

/// Reads a required, non-empty step string, warning (under the step's
/// `label`) where it is missing, not a string, or blank.
pub fn require_nonempty_step_string(
    step_table: &Vec<TomlEntry>,
    key: &str,
    label: &str,
    warnings: &mut Vec<String>,
) -> (r: Option<String>)
    ensures
        crate::config::opt_view(r) == step_text(step_table@, key@, label@).0,
        views(final(warnings)@) == views(old(warnings)@) + step_text(step_table@, key@, label@).1,
{
    let ghost w0 = views(warnings@);
    match get_str(step_table, key) {
        Some(text) => {
            let trimmed = trim_chars(text.as_str());
            if trimmed.len() == 0 {
                let l = dotted_text(label, key);
                push_text(warnings, key_warning_text(l.as_str(), "' cannot be empty; ignoring step"));
                assert(views(warnings@) =~= w0 + step_text(step_table@, key@, label@).1);
                None
            } else {
                assert(views(warnings@) =~= w0 + seq![]);
                Some(string_of(&trimmed))
            }
        },
        None => {
            let l = dotted_text(label, key);
            push_text(warnings, key_warning_text(l.as_str(), "' must be a string; ignoring step"));
            assert(views(warnings@) =~= w0 + step_text(step_table@, key@, label@).1);
            None
        },
    }
}

/// A command as a step runs it: leading `:`s stripped, then trimmed.
pub open spec fn command_of(raw: Seq<char>) -> Seq<char> {
    trim(strip_leading(raw, ':'))
}

fn command_text_of(raw: &str) -> (r: Vec<char>)
    ensures
        r@ == command_of(raw@),
{
    trim_vec(&strip_leading_chars(&chars_of(raw), ':'))
}

/// The command of a step given in the `command = ...` shorthand.
pub open spec fn shorthand_step(t: Seq<TomlEntry>, label: Seq<char>) -> (Option<Seq<char>>, Seq<Seq<char>>) {
    let w1 = unknown_key_warnings(t, seq!["command"@], unknown_head(label));
    let (raw, w2) = step_text(t, "command"@, label);
    match raw {
        None => (None, w1 + w2),
        Some(raw) => if command_of(raw).len() == 0 {
            (
                None,
                (w1 + w2).push(
                    key_warning(dotted(label, "command"@), "' cannot be empty; ignoring step"@),
                ),
            )
        } else {
            (Some(command_of(raw)), w1 + w2)
        },
    }
}

/// Parses a step of the form `{ command = "..." }`.
pub fn parse_shorthand_command(step_table: &Vec<TomlEntry>, label: &str, warnings: &mut Vec<String>) -> (r: Option<MacroStep>)
    ensures
        match r {
            Some(s) => shorthand_step(step_table@, label@).0 == Some(s@),
            None => shorthand_step(step_table@, label@).0 is None,
        },
        views(final(warnings)@) == views(old(warnings)@) + shorthand_step(step_table@, label@).1,
{
    let ghost w0 = views(warnings@);
    let known: [&str; 1] = ["command"];
    assert(str_views(known@) =~= seq!["command"@]);
    let head = unknown_head_text(label);
    warn_unknown_keys(step_table, &known, head.as_str(), warnings);
    let raw = match require_nonempty_step_string(step_table, "command", label, warnings) {
        Some(raw) => raw,
        None => {
            assert(views(warnings@) =~= w0 + shorthand_step(step_table@, label@).1);
            return None;
        },
    };
    let cmd = command_text_of(raw.as_str());
    if cmd.len() == 0 {
        let l = dotted_text(label, "command");
        push_text(warnings, key_warning_text(l.as_str(), "' cannot be empty; ignoring step"));
        assert(views(warnings@) =~= w0 + shorthand_step(step_table@, label@).1);
        return None;
    }
    assert(views(warnings@) =~= w0 + shorthand_step(step_table@, label@).1);
    Some(MacroStep::command(string_of(&cmd).as_str()))
}

/// The command of a step given as `{ action = "command", cmd = "..." }`.
pub open spec fn explicit_command(t: Seq<TomlEntry>, label: Seq<char>) -> (Option<Seq<char>>, Seq<Seq<char>>) {
    let w1 = unknown_key_warnings(t, seq!["action"@, "cmd"@], unknown_head(label));
    let (raw, w2) = step_text(t, "cmd"@, label);
    match raw {
        None => (None, w1 + w2),
        Some(raw) => if command_of(raw).len() == 0 {
            (
                None,
                (w1 + w2).push(key_warning(dotted(label, "cmd"@), "' cannot be empty; ignoring step"@)),
            )
        } else {
            (Some(command_of(raw)), w1 + w2)
        },
    }
}

/// Parses the `cmd` of an explicit `command` action.
pub fn parse_explicit_command(step_table: &Vec<TomlEntry>, label: &str, warnings: &mut Vec<String>) -> (r: Option<MacroStep>)
    ensures
        match r {
            Some(s) => explicit_command(step_table@, label@).0 == Some(s@),
            None => explicit_command(step_table@, label@).0 is None,
        },
        views(final(warnings)@) == views(old(warnings)@) + explicit_command(step_table@, label@).1,
{
    let ghost w0 = views(warnings@);
    let known: [&str; 2] = ["action", "cmd"];
    assert(str_views(known@) =~= seq!["action"@, "cmd"@]);
    let head = unknown_head_text(label);
    warn_unknown_keys(step_table, &known, head.as_str(), warnings);
    let raw = match require_nonempty_step_string(step_table, "cmd", label, warnings) {
        Some(raw) => raw,
        None => {
            assert(views(warnings@) =~= w0 + explicit_command(step_table@, label@).1);
            return None;
        },
    };
    let command = command_text_of(raw.as_str());
    if command.len() == 0 {
        let l = dotted_text(label, "cmd");
        push_text(warnings, key_warning_text(l.as_str(), "' cannot be empty; ignoring step"));
        assert(views(warnings@) =~= w0 + explicit_command(step_table@, label@).1);
        None
    } else {
        assert(views(warnings@) =~= w0 + explicit_command(step_table@, label@).1);
        Some(MacroStep::command(string_of(&command).as_str()))
    }
}

/// The step given by an explicit `action = ...` form.
pub open spec fn explicit_step(t: Seq<TomlEntry>, label: Seq<char>) -> (Option<Seq<char>>, Seq<Seq<char>>) {
    let (action, w1) = step_text(t, "action"@, label);
    match action {
        None => (None, w1),
        Some(a) => match action_kind(a) {
            None => (
                None,
                w1.push(
                    key_warning(
                        dotted(label, "action"@),
                        "' unknown value \""@ + a + "\"; ignoring step"@,
                    ),
                ),
            ),
            Some(MacroActionKind::Command) => {
                let (c, w2) = explicit_command(t, label);
                (c, w1 + w2)
            },
        },
    }
}

/// Parses a step of the explicit `action = ...` form.
pub fn parse_explicit_macro_action(step_table: &Vec<TomlEntry>, label: &str, warnings: &mut Vec<String>) -> (r: Option<MacroStep>)
    ensures
        match r {
            Some(s) => explicit_step(step_table@, label@).0 == Some(s@),
            None => explicit_step(step_table@, label@).0 is None,
        },
        views(final(warnings)@) == views(old(warnings)@) + explicit_step(step_table@, label@).1,
{
    let ghost w0 = views(warnings@);
    let action = match require_nonempty_step_string(step_table, "action", label, warnings) {
        Some(a) => a,
        None => return None,
    };
    match MacroActionKind::parse_kind(action.as_str()) {
        None => {
            let l = dotted_text(label, "action");
            let tail = cat(cat(owned("' unknown value \""), action.as_str()), "\"; ignoring step");
            push_text(warnings, key_warning_text(l.as_str(), tail.as_str()));
            assert(views(warnings@) =~= w0 + explicit_step(step_table@, label@).1);
            None
        },
        Some(MacroActionKind::Command) => {
            let r = parse_explicit_command(step_table, label, warnings);
            assert(views(warnings@) =~= w0 + explicit_step(step_table@, label@).1);
            r
        },
    }
}

/// One step table: exactly one of the `action = ...` and `command = ...`
/// forms must be present.
pub open spec fn one_step(t: Seq<TomlEntry>, label: Seq<char>) -> (Option<Seq<char>>, Seq<Seq<char>>) {
    if has_key(t, "action"@) {
        explicit_step(t, label)
    } else if has_key(t, "command"@) {
        shorthand_step(t, label)
    } else {
        (
            None,
            seq![
                key_warning(
                    label,
                    "' must be exactly one of action=… or command=…; ignoring step"@,
                ),
            ],
        )
    }
}

/// Parses one step table.
pub fn parse_one_macro_step(step_table: &Vec<TomlEntry>, label: &str, warnings: &mut Vec<String>) -> (r: Option<MacroStep>)
    ensures
        match r {
            Some(s) => one_step(step_table@, label@).0 == Some(s@),
            None => one_step(step_table@, label@).0 is None,
        },
        views(final(warnings)@) == views(old(warnings)@) + one_step(step_table@, label@).1,
{
    let ghost w0 = views(warnings@);
    let has_shorthand_command = contains_key(step_table, "command") && !contains_key(step_table, "action");
    let has_action = contains_key(step_table, "action");
    let form_count: usize = (if has_shorthand_command { 1 } else { 0 }) + (if has_action { 1 } else { 0 });
    if form_count != 1 {
        push_text(warnings, key_warning_text(label, "' must be exactly one of action=… or command=…; ignoring step"));
        assert(views(warnings@) =~= w0 + one_step(step_table@, label@).1);
        return None;
    }
    if has_shorthand_command {
        return parse_shorthand_command(step_table, label, warnings);
    }
    parse_explicit_macro_action(step_table, label, warnings)
}

/// The steps defined by `items` (the `steps` array of macro `index`), in
/// order, and the warnings.
pub open spec fn steps_fold(items: Seq<TomlValue>, index: nat) -> (Seq<Seq<char>>, Seq<Seq<char>>)
    decreases items.len(),
{
    if items.len() == 0 {
        (seq![], seq![])
    } else {
        let (steps, w) = steps_fold(items.drop_last(), index);
        let si = (items.len() - 1) as nat;
        match items.last() {
            TomlValue::Table(t) => {
                let (s, ws) = one_step(t@, step_label(index, si));
                (
                    match s {
                        Some(s) => steps.push(s),
                        None => steps,
                    },
                    w + ws,
                )
            },
            _ => (steps, w.push(key_warning(step_label(index, si), "' must be a table; ignoring step"@))),
        }
    }
}

/// The `steps` of macro entry `t` at position `index`: the steps (none where
/// the key is missing or not an array) and the warnings.
pub open spec fn macro_steps(t: Seq<TomlEntry>, index: nat) -> (Option<Seq<Seq<char>>>, Seq<Seq<char>>) {
    match lookup(t, "steps"@) {
        None => (
            None,
            seq![key_warning(dotted(macro_label(index), "steps"@), "' is required; ignoring entry"@)],
        ),
        Some(e) => match e.value {
            TomlValue::Array(items) => {
                let (steps, w) = steps_fold(items@, index);
                (Some(steps), w)
            },
            _ => (
                None,
                seq![
                    key_warning(
                        dotted(macro_label(index), "steps"@),
                        "' must be an array; ignoring entry"@,
                    ),
                ],
            ),
        },
    }
}

/// Parses the `steps` of macro entry `index`.
pub fn parse_macro_steps(entry: &Vec<TomlEntry>, index: usize, warnings: &mut Vec<String>) -> (r: Option<Vec<MacroStep>>)
    ensures
        match r {
            Some(v) => macro_steps(entry@, index as nat).0 == Some(step_views(v@)),
            None => macro_steps(entry@, index as nat).0 is None,
        },
        views(final(warnings)@) == views(old(warnings)@) + macro_steps(entry@, index as nat).1,
{
    let ghost w0 = views(warnings@);
    let raw_steps = match find_entry(entry, "steps") {
        Some(e) => e,
        None => {
            let l = dotted_text(macro_label_text(index).as_str(), "steps");
            push_text(warnings, key_warning_text(l.as_str(), "' is required; ignoring entry"));
            assert(views(warnings@) =~= w0 + macro_steps(entry@, index as nat).1);
            return None;
        },
    };
    let items = match &raw_steps.value {
        TomlValue::Array(items) => items,
        _ => {
            let l = dotted_text(macro_label_text(index).as_str(), "steps");
            push_text(warnings, key_warning_text(l.as_str(), "' must be an array; ignoring entry"));
            assert(views(warnings@) =~= w0 + macro_steps(entry@, index as nat).1);
            return None;
        },
    };
    let mut steps: Vec<MacroStep> = Vec::new();
    let mut k: usize = 0;
    assert(items@.subrange(0, 0) =~= Seq::<TomlValue>::empty());
    assert(step_views(steps@) =~= Seq::<Seq<char>>::empty());
    assert(views(warnings@) =~= w0 + seq![]);
    while k < items.len()
        invariant
            k <= items@.len(),
            step_views(steps@) == steps_fold(items@.subrange(0, k as int), index as nat).0,
            views(warnings@) == w0 + steps_fold(items@.subrange(0, k as int), index as nat).1,
        decreases items@.len() - k,
    {
        let ghost prev = items@.subrange(0, k as int);
        let ghost s0 = step_views(steps@);
        let label = step_label_text(index, k);
        match &items[k] {
            TomlValue::Table(step_table) => {
                match parse_one_macro_step(step_table, label.as_str(), warnings) {
                    Some(step) => {
                        steps.push(step);
                        assert(step_views(steps@) =~= s0.push(step@));
                    },
                    None => {},
                }
            },
            _ => {
                push_text(warnings, key_warning_text(label.as_str(), "' must be a table; ignoring step"));
            },
        }
        k = k + 1;
        proof {
            let cur = items@.subrange(0, k as int);
            assert(cur.drop_last() =~= prev);
            assert(cur.last() == items@[k - 1]);
            assert(views(warnings@) =~= w0 + steps_fold(cur, index as nat).1);
        }
    }
    assert(items@.subrange(0, k as int) =~= items@);
    Some(steps)
}

/// The register of macro entry `t` at position `index`: a single character
/// other than `@`.
pub open spec fn macro_key(t: Seq<TomlEntry>, index: nat) -> (Option<char>, Seq<Seq<char>>) {
    let label = dotted(macro_label(index), "key"@);
    match lookup(t, "key"@) {
        None => (None, seq![key_warning(label, "' is required; ignoring entry"@)]),
        Some(e) => match as_str(e.value) {
            None => (None, seq![key_warning(label, "' must be a string; ignoring entry"@)]),
            Some(text) => if text.len() == 1 && text[0] == '@' {
                (
                    None,
                    seq![key_warning(label, "' cannot be '@' (reserved for @@); ignoring entry"@)],
                )
            } else if text.len() == 1 {
                (Some(text[0]), seq![])
            } else {
                (None, seq![key_warning(label, "' must be a single character; ignoring entry"@)])
            },
        },
    }
}

/// Parses the register of macro entry `index`.
pub fn parse_macro_key(entry: &Vec<TomlEntry>, index: usize, warnings: &mut Vec<String>) -> (r: Option<char>)
    ensures
        r == macro_key(entry@, index as nat).0,
        views(final(warnings)@) == views(old(warnings)@) + macro_key(entry@, index as nat).1,
{
    let ghost w0 = views(warnings@);
    let label = dotted_text(macro_label_text(index).as_str(), "key");
    let raw = match find_entry(entry, "key") {
        Some(e) => e,
        None => {
            push_text(warnings, key_warning_text(label.as_str(), "' is required; ignoring entry"));
            assert(views(warnings@) =~= w0 + macro_key(entry@, index as nat).1);
            return None;
        },
    };
    let text = match &raw.value {
        TomlValue::String(s) => s,
        _ => {
            push_text(warnings, key_warning_text(label.as_str(), "' must be a string; ignoring entry"));
            assert(views(warnings@) =~= w0 + macro_key(entry@, index as nat).1);
            return None;
        },
    };
    let chars = chars_of(text.as_str());
    if chars.len() == 1 && chars[0] == '@' {
        push_text(warnings, key_warning_text(label.as_str(), "' cannot be '@' (reserved for @@); ignoring entry"));
        assert(views(warnings@) =~= w0 + macro_key(entry@, index as nat).1);
        None
    } else if chars.len() == 1 {
        assert(views(warnings@) =~= w0 + seq![]);
        Some(chars[0])
    } else {
        push_text(warnings, key_warning_text(label.as_str(), "' must be a single character; ignoring entry"));
        assert(views(warnings@) =~= w0 + macro_key(entry@, index as nat).1);
        None
    }
}


/// The registers of a list of macros.
pub open spec fn keys_of(ms: Seq<(char, Seq<Seq<char>>)>) -> Seq<char> {
    ms.map_values(|e: (char, Seq<Seq<char>>)| e.0)
}

/// `ms` with the macro bound to `k` given `steps` where `k` is bound, and
/// with `(k, steps)` appended otherwise.
pub open spec fn upsert(ms: Seq<(char, Seq<Seq<char>>)>, k: char, steps: Seq<Seq<char>>) -> Seq<(char, Seq<Seq<char>>)> {
    if keys_of(ms).contains(k) {
        ms.map_values(|e: (char, Seq<Seq<char>>)| if e.0 == k { (k, steps) } else { e })
    } else {
        ms.push((k, steps))
    }
}

/// The warning for a register bound again.
pub open spec fn duplicate_key_warning(k: char) -> Seq<char> {
    "Warning: Duplicate macro key '"@ + seq![k] + "'; later entry overrides earlier one"@
}

/// One entry of `macros` at position `index`, given the macros defined by the
/// entries before it: the macros after it and its warnings.
pub open spec fn macro_entry(item: TomlValue, index: nat, ms: Seq<(char, Seq<Seq<char>>)>) -> (
    Seq<(char, Seq<Seq<char>>)>,
    Seq<Seq<char>>,
) {
    match item {
        TomlValue::Table(t) => {
            let w1 = unknown_key_warnings(t@, seq!["key"@, "steps"@], unknown_head(macro_label(index)));
            let (k, w2) = macro_key(t@, index);
            match k {
                None => (ms, w1 + w2),
                Some(k) => {
                    let (steps, w3) = macro_steps(t@, index);
                    match steps {
                        None => (ms, w1 + w2 + w3),
                        Some(steps) => if steps.len() == 0 {
                            (
                                ms,
                                (w1 + w2 + w3).push(
                                    key_warning(
                                        dotted(macro_label(index), "steps"@),
                                        "' cannot be empty; ignoring entry"@,
                                    ),
                                ),
                            )
                        } else if keys_of(ms).contains(k) {
                            (upsert(ms, k, steps), (w1 + w2 + w3).push(duplicate_key_warning(k)))
                        } else {
                            (upsert(ms, k, steps), w1 + w2 + w3)
                        },
                    }
                },
            }
        },
        _ => (ms, seq![key_warning(macro_label(index), "' must be a table; ignoring entry"@)]),
    }
}

/// The macros defined by `items`, and the warnings.
pub open spec fn macros_fold(items: Seq<TomlValue>) -> (Seq<(char, Seq<Seq<char>>)>, Seq<Seq<char>>)
    decreases items.len(),
{
    if items.len() == 0 {
        (seq![], seq![])
    } else {
        let (ms, w) = macros_fold(items.drop_last());
        let (ms2, we) = macro_entry(items.last(), (items.len() - 1) as nat, ms);
        (ms2, w + we)
    }
}

/// The `macros` setting: the macros and the warnings.
pub open spec fn macros_setting(v: TomlValue) -> (Seq<(char, Seq<Seq<char>>)>, Seq<Seq<char>>) {
    match v {
        TomlValue::Array(items) => macros_fold(items@),
        _ => (seq![], seq!["Warning: Config key 'macros' must be an array of tables; ignoring value"@]),
    }
}

/// No register occurs twice in `ks`.
pub open spec fn distinct(ks: Seq<char>) -> bool {
    forall|i: int, j: int| 0 <= i < j < ks.len() ==> ks[i] != ks[j]
}

/// Binding a register keeps the registers distinct and binds it.
pub proof fn lemma_upsert_distinct(ms: Seq<(char, Seq<Seq<char>>)>, k: char, steps: Seq<Seq<char>>)
    requires
        distinct(keys_of(ms)),
    ensures
        distinct(keys_of(upsert(ms, k, steps))),
        keys_of(upsert(ms, k, steps)).contains(k),
{
    let u = upsert(ms, k, steps);
    if keys_of(ms).contains(k) {
        assert(keys_of(u) =~= keys_of(ms));
        let i = choose|i: int| 0 <= i < keys_of(ms).len() && keys_of(ms)[i] == k;
        assert(keys_of(u)[i] == k);
    } else {
        assert(keys_of(u) =~= keys_of(ms).push(k));
        assert(keys_of(u)[keys_of(ms).len() as int] == k);
    }
}

/// Every step list kept is non-empty and no register occurs twice.
pub proof fn lemma_macros_fold_wf(items: Seq<TomlValue>)
    ensures
        distinct(keys_of(macros_fold(items).0)),
        forall|i: int| 0 <= i < macros_fold(items).0.len() ==> #[trigger] macros_fold(items).0[i].1.len() > 0,
    decreases items.len(),
{
    if items.len() > 0 {
        lemma_macros_fold_wf(items.drop_last());
        let (ms, w) = macros_fold(items.drop_last());
        match items.last() {
            TomlValue::Table(t) => {
                let index = (items.len() - 1) as nat;
                let (k, w2) = macro_key(t@, index);
                if let Some(k) = k {
                    let (steps, w3) = macro_steps(t@, index);
                    if let Some(steps) = steps {
                        if steps.len() > 0 {
                            lemma_upsert_distinct(ms, k, steps);
                            let u = upsert(ms, k, steps);
                            assert forall|i: int| 0 <= i < u.len() implies #[trigger] u[i].1.len() > 0 by {
                                if keys_of(ms).contains(k) {
                                    assert(u[i] == (if ms[i].0 == k { (k, steps) } else { ms[i] }));
                                } else if i < ms.len() {
                                    assert(u[i] == ms[i]);
                                }
                            }
                        }
                    }
                }
            },
            _ => {},
        }
    }
}

/// A macro's key is the one character the entry writes under `key`, unless
/// that character is `@`; any other value gives no key.
pub proof fn lemma_macro_key_is_the_written_character(t: Seq<TomlEntry>, index: nat)
    ensures
        macro_key(t, index).0 is Some <==> (written_string(t, "key"@) is Some && written_string(t, "key"@).unwrap().len()
            == 1 && written_string(t, "key"@).unwrap()[0] != '@'),
        macro_key(t, index).0 is Some ==> macro_key(t, index).0.unwrap() == written_string(t, "key"@).unwrap()[0],
{
}

/// A step written as `{ command = text }` runs `text` with surrounding
/// whitespace and then leading colons removed, and with whitespace trimmed
/// again; the step is dropped exactly when nothing is left.
pub proof fn lemma_shorthand_step_runs_the_written_command(t: Seq<TomlEntry>, label: Seq<char>)
    requires
        !has_key(t, "action"@),
        written_string(t, "command"@) is Some,
    ensures
        ({
            let c = trim(strip_leading(trim(written_string(t, "command"@).unwrap()), ':'));
            &&& c.len() > 0 ==> one_step(t, label).0 == Some(c)
            &&& c.len() == 0 ==> one_step(t, label).0 is None
        }),
{
    let raw = written_string(t, "command"@).unwrap();
    assert(has_key(t, "command"@));
    if trim(raw).len() == 0 {
        assert(strip_leading(trim(raw), ':') =~= trim(raw));
        assert(trim_start(trim(raw)) =~= trim(raw));
    }
}

/// A step written as `{ action = "command", cmd = text }` runs `text` the way
/// the shorthand form does, and is dropped exactly when nothing is left.
pub proof fn lemma_explicit_step_runs_the_written_command(t: Seq<TomlEntry>, label: Seq<char>)
    requires
        written_string(t, "action"@) is Some,
        trim(written_string(t, "action"@).unwrap()) == "command"@,
        written_string(t, "cmd"@) is Some,
    ensures
        ({
            let c = trim(strip_leading(trim(written_string(t, "cmd"@).unwrap()), ':'));
            &&& c.len() > 0 ==> one_step(t, label).0 == Some(c)
            &&& c.len() == 0 ==> one_step(t, label).0 is None
        }),
{
    reveal_strlit("command");
    let action = written_string(t, "action"@).unwrap();
    assert(has_key(t, "action"@));
    assert(trim(action).len() > 0);
    let raw = written_string(t, "cmd"@).unwrap();
    if trim(raw).len() == 0 {
        assert(strip_leading(trim(raw), ':') =~= trim(raw));
        assert(trim_start(trim(raw)) =~= trim(raw));
    }
}

/// The macro that entry `item` at position `index` of `macros` defines when
/// it is valid: a register and a non-empty list of commands.
pub open spec fn entry_binding(item: TomlValue, index: nat) -> Option<(char, Seq<Seq<char>>)> {
    match item {
        TomlValue::Table(t) => match macro_key(t@, index).0 {
            Some(k) => match macro_steps(t@, index).0 {
                Some(steps) => if steps.len() > 0 {
                    Some((k, steps))
                } else {
                    None
                },
                None => None,
            },
            None => None,
        },
        _ => None,
    }
}

/// The macros that the valid entries of `items` define, in order.
pub open spec fn valid_bindings(items: Seq<TomlValue>) -> Seq<(char, Seq<Seq<char>>)>
    decreases items.len(),
{
    if items.len() == 0 {
        seq![]
    } else {
        let rest = valid_bindings(items.drop_last());
        match entry_binding(items.last(), (items.len() - 1) as nat) {
            Some(b) => rest.push(b),
            None => rest,
        }
    }
}

/// Parsing `macros` keeps exactly the valid entries, each register bound to
/// the last valid entry that names it.
pub proof fn lemma_parsed_macros_last_wins(items: Seq<TomlValue>)
    ensures
        macros_fold(items).0 == loaded(valid_bindings(items)),
        forall|k: char| #[trigger] macro_lookup(macros_fold(items).0, k) == last_binding(valid_bindings(items), k),
    decreases items.len(),
{
    if items.len() > 0 {
        lemma_parsed_macros_last_wins(items.drop_last());
        let rest = valid_bindings(items.drop_last());
        match entry_binding(items.last(), (items.len() - 1) as nat) {
            Some(b) => {
                assert(rest.push(b).drop_last() =~= rest);
            },
            None => {},
        }
    }
    lemma_load_macros_last_wins(valid_bindings(items));
}

proof fn lemma_macro_views_push(s: Seq<MacroConfig>, x: MacroConfig)
    ensures
        macro_views(s.push(x)) == macro_views(s).push(macro_view(x)),
{
    assert(macro_views(s.push(x)) =~= macro_views(s).push(macro_view(x)));
}

/// The position of the macro bound to `k` in `ms`, if any.
fn find_macro(ms: &Vec<MacroConfig>, k: char) -> (r: Option<usize>)
    ensures
        match r {
            Some(i) => i < ms@.len() && ms@[i as int].key == k,
            None => !keys_of(macro_views(ms@)).contains(k),
        },
{
    let mut i: usize = 0;
    while i < ms.len()
        invariant
            i <= ms@.len(),
            forall|j: int| 0 <= j < i ==> ms@[j].key != k,
        decreases ms@.len() - i,
    {
        if ms[i].key == k {
            return Some(i);
        }
        i = i + 1;
    }
    assert forall|j: int| 0 <= j < keys_of(macro_views(ms@)).len() implies keys_of(macro_views(ms@))[j] != k by {
        assert(keys_of(macro_views(ms@))[j] == ms@[j].key);
    }
    None
}

/// Parses one entry of `macros`, updating `parsed`.
fn parse_macro_entry(item: &TomlValue, index: usize, parsed: &mut Vec<MacroConfig>, warnings: &mut Vec<String>)
    requires
        distinct(keys_of(macro_views(old(parsed)@))),
    ensures
        ({
            let (ms, we) = macro_entry(*item, index as nat, macro_views(old(parsed)@));
            &&& macro_views(final(parsed)@) == ms
            &&& views(final(warnings)@) == views(old(warnings)@) + we
        }),
{
    let ghost w0 = views(warnings@);
    let ghost m0 = macro_views(parsed@);
    let entry = match item {
        TomlValue::Table(entry) => entry,
        _ => {
            let label = macro_label_text(index);
            push_text(warnings, key_warning_text(label.as_str(), "' must be a table; ignoring entry"));
            assert(views(warnings@) =~= w0 + macro_entry(*item, index as nat, m0).1);
            return;
        },
    };
    let known: [&str; 2] = ["key", "steps"];
    assert(str_views(known@) =~= seq!["key"@, "steps"@]);
    let head = unknown_head_text(macro_label_text(index).as_str());
    warn_unknown_keys(entry, &known, head.as_str(), warnings);
    let key_char = match parse_macro_key(entry, index, warnings) {
        Some(c) => c,
        None => {
            assert(views(warnings@) =~= w0 + macro_entry(*item, index as nat, m0).1);
            return;
        },
    };
    let steps = match parse_macro_steps(entry, index, warnings) {
        Some(s) => s,
        None => {
            assert(views(warnings@) =~= w0 + macro_entry(*item, index as nat, m0).1);
            return;
        },
    };
    if steps.len() == 0 {
        let l = dotted_text(macro_label_text(index).as_str(), "steps");
        push_text(warnings, key_warning_text(l.as_str(), "' cannot be empty; ignoring entry"));
        assert(views(warnings@) =~= w0 + macro_entry(*item, index as nat, m0).1);
        return;
    }
    let ghost sv = step_views(steps@);
    match find_macro(parsed, key_char) {
        Some(i) => {
            let m = cat(cat(owned("Warning: Duplicate macro key '"), char_text(key_char).as_str()), "'; later entry overrides earlier one");
            push_text(warnings, m);
            assert(keys_of(m0)[i as int] == key_char);
            parsed.set(i, MacroConfig { key: key_char, steps });
            proof {
                let u = upsert(m0, key_char, sv);
                assert forall|j: int| 0 <= j < u.len() implies macro_views(parsed@)[j] == u[j] by {
                    if j != i {
                        assert(keys_of(m0)[j] == m0[j].0);
                        assert(m0[j].0 != key_char);
                    }
                }
                assert(macro_views(parsed@) =~= u);
            }
            assert(views(warnings@) =~= w0 + macro_entry(*item, index as nat, m0).1);
        },
        None => {
            let mc = MacroConfig { key: key_char, steps };
            assert(macro_view(mc) == (key_char, sv));
            let ghost p0 = parsed@;
            proof {
                lemma_macro_views_push(p0, mc);
            }
            parsed.push(mc);
            assert(macro_views(parsed@) =~= m0.push((key_char, sv)));
            assert(macro_views(parsed@) =~= upsert(m0, key_char, sv));
            assert(views(warnings@) =~= w0 + macro_entry(*item, index as nat, m0).1);
        },
    }
}

/// Parse `[[macros]]` / `macros = [...]`. Invalid entries are warned and
/// skipped. Duplicate keys: the last valid entry wins, with a warning, and
/// keeps the place where the key was first seen.
pub fn parse_macros(value: &TomlValue, warnings: &mut Vec<String>) -> (r: Vec<MacroConfig>)
    ensures
        macro_views(r@) == macros_setting(*value).0,
        views(final(warnings)@) == views(old(warnings)@) + macros_setting(*value).1,
{
    let ghost w0 = views(warnings@);
    let items = match value {
        TomlValue::Array(items) => items,
        _ => {
            push_text(warnings, owned("Warning: Config key 'macros' must be an array of tables; ignoring value"));
            assert(views(warnings@) =~= w0 + macros_setting(*value).1);
            let r: Vec<MacroConfig> = Vec::new();
            assert(macro_views(r@) =~= macros_setting(*value).0);
            return r;
        },
    };
    let mut parsed: Vec<MacroConfig> = Vec::new();
    let mut k: usize = 0;
    assert(items@.subrange(0, 0) =~= Seq::<TomlValue>::empty());
    assert(macro_views(parsed@) =~= Seq::<(char, Seq<Seq<char>>)>::empty());
    assert(views(warnings@) =~= w0 + seq![]);
    while k < items.len()
        invariant
            k <= items@.len(),
            macro_views(parsed@) == macros_fold(items@.subrange(0, k as int)).0,
            views(warnings@) == w0 + macros_fold(items@.subrange(0, k as int)).1,
        decreases items@.len() - k,
    {
        let ghost prev = items@.subrange(0, k as int);
        proof {
            lemma_macros_fold_wf(prev);
        }
        parse_macro_entry(&items[k], k, &mut parsed, warnings);
        k = k + 1;
        proof {
            let cur = items@.subrange(0, k as int);
            assert(cur.drop_last() =~= prev);
            assert(cur.last() == items@[k - 1]);
            assert(views(warnings@) =~= w0 + macros_fold(cur).1);
        }
    }
    assert(items@.subrange(0, k as int) =~= items@);
    parsed
}

} // verus!
