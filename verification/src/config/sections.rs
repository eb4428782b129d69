//! The `[forge]` and `[export]` sections.

use vstd::prelude::*;
use crate::config::read::{
    bool_setting, key_warning, qualified, read_section_bool, read_section_string, str_views,
    string_setting, unknown_key_warnings, warn_unknown_keys,
};
use crate::config::{unset_export, ExportConfig, ExportView, ForgeConfig};
use crate::text::{push_text, views};
use crate::toml_doc::{written_bool, written_string, TomlEntry, TomlValue};

verus! {

/// The keys the `[forge]` section knows.
pub open spec fn forge_keys() -> Seq<Seq<char>> {
    seq!["comment_type_prefix"@]
}

/// The keys the `[export]` section knows.
pub open spec fn export_keys() -> Seq<Seq<char>> {
    seq![
        "intro"@,
        "scope_line"@,
        "pr_metadata"@,
        "comments_header"@,
        "remote_comments_header"@,
        "legend"@,
    ]
}

/// The warning for a section that is not a table.
pub open spec fn not_table_warning(section: Seq<char>) -> Seq<char> {
    key_warning(section, "' must be a table; ignoring value"@)
}

/// The `[forge]` section: the overrides it makes (none where it sets no
/// recognized key) and its warnings.
pub open spec fn forge_section(v: TomlValue) -> (Option<ForgeConfig>, Seq<Seq<char>>) {
    match v {
        TomlValue::Table(t) => {
            let w1 = unknown_key_warnings(t@, forge_keys(), "Warning: Unknown config key 'forge."@);
            let (b, w2) = bool_setting(
                t@,
                "comment_type_prefix"@,
                qualified("forge"@, "comment_type_prefix"@),
            );
            (
                match b {
                    Some(b) => Some(ForgeConfig { comment_type_prefix: b }),
                    None => None,
                },
                w1 + w2,
            )
        },
        _ => (None, seq![not_table_warning("forge"@)]),
    }
}

/// Parse the `[forge]` section, returning `Some` with overridden values when
/// any of the recognized keys are set and `None` when the section sets none.
pub fn parse_forge(value: &TomlValue, warnings: &mut Vec<String>) -> (r: Option<ForgeConfig>)
    ensures
        r == forge_section(*value).0,
        views(final(warnings)@) == views(old(warnings)@) + forge_section(*value).1,
{
    let ghost w0 = views(warnings@);
    match value {
        TomlValue::Table(table) => {
            let known: [&str; 1] = ["comment_type_prefix"];
            assert(str_views(known@) =~= forge_keys());
            warn_unknown_keys(table, &known, "Warning: Unknown config key 'forge.", warnings);
            let b = read_section_bool(table, "forge", "comment_type_prefix", warnings);
            assert(views(warnings@) =~= w0 + forge_section(*value).1);
            match b {
                Some(b) => Some(ForgeConfig { comment_type_prefix: b }),
                None => None,
            }
        },
        _ => {
            push_text(warnings, crate::config::read::key_warning_text("forge", "' must be a table; ignoring value"));
            assert(views(warnings@) =~= w0 + forge_section(*value).1);
            None
        },
    }
}

/// The settings the `[export]` table `t` names.
pub open spec fn export_settings(t: Seq<TomlEntry>) -> ExportView {
    ExportView {
        intro: string_setting(t, "intro"@, qualified("export"@, "intro"@)).0,
        scope_line: bool_setting(t, "scope_line"@, qualified("export"@, "scope_line"@)).0,
        pr_metadata: bool_setting(t, "pr_metadata"@, qualified("export"@, "pr_metadata"@)).0,
        comments_header: string_setting(
            t,
            "comments_header"@,
            qualified("export"@, "comments_header"@),
        ).0,
        remote_comments_header: string_setting(
            t,
            "remote_comments_header"@,
            qualified("export"@, "remote_comments_header"@),
        ).0,
        legend: bool_setting(t, "legend"@, qualified("export"@, "legend"@)).0,
    }
}

/// The warnings the `[export]` table `t` adds.
pub open spec fn export_warnings(t: Seq<TomlEntry>) -> Seq<Seq<char>> {
    unknown_key_warnings(t, export_keys(), "Warning: Unknown config key 'export."@)
        + string_setting(t, "intro"@, qualified("export"@, "intro"@)).1
        + bool_setting(t, "scope_line"@, qualified("export"@, "scope_line"@)).1
        + bool_setting(t, "pr_metadata"@, qualified("export"@, "pr_metadata"@)).1
        + string_setting(t, "comments_header"@, qualified("export"@, "comments_header"@)).1
        + string_setting(
        t,
        "remote_comments_header"@,
        qualified("export"@, "remote_comments_header"@),
    ).1 + bool_setting(t, "legend"@, qualified("export"@, "legend"@)).1
}

/// The `[export]` section: the settings it names (none where it names no
/// recognized key) and its warnings.
pub open spec fn export_section(v: TomlValue) -> (Option<ExportView>, Seq<Seq<char>>) {
    match v {
        TomlValue::Table(t) => (
            if export_settings(t@) == unset_export() {
                None
            } else {
                Some(export_settings(t@))
            },
            export_warnings(t@),
        ),
        _ => (None, seq![not_table_warning("export"@)]),
    }
}

/// The `[export]` section holds, for each key it knows, the value the table
/// writes there when it has the key's type (unset otherwise), and is present
/// exactly when one of its keys holds such a value.
pub proof fn lemma_export_holds_written_values(v: TomlValue)
    requires
        v is Table,
    ensures
        ({
            let t = v->Table_0;
            &&& export_section(v).0 is Some <==> (written_string(t@, "intro"@) is Some || written_bool(t@, "scope_line"@) is Some || written_bool(t@, "pr_metadata"@) is Some || written_string(t@, "comments_header"@) is Some || written_string(t@, "remote_comments_header"@) is Some || written_bool(t@, "legend"@) is Some)
            &&& export_section(v).0 is Some ==> export_section(v).0.unwrap().intro == written_string(t@, "intro"@)
            &&& export_section(v).0 is Some ==> export_section(v).0.unwrap().scope_line == written_bool(t@, "scope_line"@)
            &&& export_section(v).0 is Some ==> export_section(v).0.unwrap().pr_metadata == written_bool(t@, "pr_metadata"@)
            &&& export_section(v).0 is Some ==> export_section(v).0.unwrap().comments_header == written_string(t@, "comments_header"@)
            &&& export_section(v).0 is Some ==> export_section(v).0.unwrap().remote_comments_header == written_string(t@, "remote_comments_header"@)
            &&& export_section(v).0 is Some ==> export_section(v).0.unwrap().legend == written_bool(t@, "legend"@)
        }),
{
}

/// The `[forge]` section holds the boolean the table writes under
/// `comment_type_prefix`, and is absent when the table writes none there.
pub proof fn lemma_forge_holds_written_value(v: TomlValue)
    requires
        v is Table,
    ensures
        forge_section(v).0 is Some <==> written_bool(v->Table_0@, "comment_type_prefix"@) is Some,
        forge_section(v).0 is Some ==> forge_section(v).0.unwrap().comment_type_prefix == written_bool(
            v->Table_0@,
            "comment_type_prefix"@,
        ).unwrap(),
{
}

/// Parse the `[export]` section. Returns `Some` only when at least one
/// recognized key is set, so an absent or empty section leaves every default
/// (and the older top-level `export_legend`) untouched.
pub fn parse_export(value: &TomlValue, warnings: &mut Vec<String>) -> (r: Option<ExportConfig>)
    ensures
        match r {
            Some(e) => export_section(*value).0 == Some(e@),
            None => export_section(*value).0 is None,
        },
        views(final(warnings)@) == views(old(warnings)@) + export_section(*value).1,
{
    let ghost w0 = views(warnings@);
    match value {
        TomlValue::Table(table) => {
            let known: [&str; 6] = [
                "intro",
                "scope_line",
                "pr_metadata",
                "comments_header",
                "remote_comments_header",
                "legend",
            ];
            assert(str_views(known@) =~= export_keys());
            warn_unknown_keys(table, &known, "Warning: Unknown config key 'export.", warnings);
            let cfg = ExportConfig {
                intro: read_section_string(table, "export", "intro", warnings),
                scope_line: read_section_bool(table, "export", "scope_line", warnings),
                pr_metadata: read_section_bool(table, "export", "pr_metadata", warnings),
                comments_header: read_section_string(table, "export", "comments_header", warnings),
                remote_comments_header: read_section_string(
                    table,
                    "export",
                    "remote_comments_header",
                    warnings,
                ),
                legend: read_section_bool(table, "export", "legend", warnings),
            };
            assert(cfg@ == export_settings(table@));
            assert(views(warnings@) =~= w0 + export_warnings(table@));
            if cfg.intro.is_none() && cfg.scope_line.is_none() && cfg.pr_metadata.is_none()
                && cfg.comments_header.is_none() && cfg.remote_comments_header.is_none()
                && cfg.legend.is_none() {
                None
            } else {
                Some(cfg)
            }
        },
        _ => {
            push_text(warnings, crate::config::read::key_warning_text("export", "' must be a table; ignoring value"));
            assert(views(warnings@) =~= w0 + export_section(*value).1);
            None
        },
    }
}

} // verus!
