//! Building the whole configuration from a parsed TOML document.

use vstd::prelude::*;
use crate::config::comment_types::{comment_types_setting, parse_comment_types};
use crate::config::macros::{macros_setting, parse_macros};
use crate::config::read::{
    bool_setting, enum_setting, leader_setting, read_bool, read_enum, read_leader, read_string,
    read_usize, str_views, string_setting, unknown_key_warnings, usize_setting, warn_unknown_keys,
};
use crate::config::sections::{export_section, forge_section, parse_export, parse_forge};
use crate::config::{
    comment_type_views, macro_views, AppConfig, AppConfigView, CommentTypeView, ConfigLoadOutcome,
    ExportView, ForgeConfig,
};
use crate::text::views;
use crate::toml_doc::{
    find_entry, lookup, parse_toml, toml_document, written_bool, written_integer, written_string, TomlEntry,
    TomlValue,
};

verus! {

/// Why a config file could not be loaded at all.
#[derive(Debug)]
pub enum ConfigError {
    /// The file is not valid TOML.
    Syntax(toml::de::Error),
    /// The document's root is not a table.
    RootNotTable,
}

/// The keys the top level of the config knows.
pub open spec fn top_level_keys() -> Seq<Seq<char>> {
    seq![
        "theme"@, "theme_dark"@, "theme_light"@, "appearance"@, "backend"@, "comment_types"@,
        "show_file_list"@, "show_pr_checks"@, "show_pr_comments"@, "show_commits"@,
        "show_reviewed"@, "diff_view"@, "commit_order"@, "initial_commit_selection"@,
        "ignore_whitespace"@, "wrap"@, "relative_line_numbers"@, "export_legend"@,
        "cursor_line"@, "search_highlight"@, "mouse"@, "comment_vim"@, "comment_tab_width"@,
        "leader"@, "transparent_background"@, "scroll_offset"@, "review_watch_interval_ms"@,
        "diff_watch_interval_ms"@, "no_update_check"@, "single_file_view"@, "username"@,
        "forge"@, "export"@, "macros"@,
    ]
}

/// The values `backend` may take.
pub open spec fn backends() -> Seq<Seq<char>> {
    seq!["libgit2"@, "cli"@]
}

/// The values `diff_view` may take.
pub open spec fn diff_views() -> Seq<Seq<char>> {
    seq!["unified"@, "side-by-side"@]
}

/// The values `commit_order` may take.
pub open spec fn commit_orders() -> Seq<Seq<char>> {
    seq!["descending"@, "ascending"@]
}

/// The values `initial_commit_selection` may take.
pub open spec fn commit_selections() -> Seq<Seq<char>> {
    seq!["all"@, "oldest"@]
}

/// The `comment_types` setting of table `t` (absent: nothing, no warning).
pub open spec fn comment_types_of(t: Seq<TomlEntry>) -> (Option<Seq<CommentTypeView>>, Seq<Seq<char>>) {
    match lookup(t, "comment_types"@) {
        Some(e) => comment_types_setting(e.value),
        None => (None, seq![]),
    }
}

/// The `[forge]` section of table `t` (absent: nothing, no warning).
pub open spec fn forge_of(t: Seq<TomlEntry>) -> (Option<ForgeConfig>, Seq<Seq<char>>) {
    match lookup(t, "forge"@) {
        Some(e) => forge_section(e.value),
        None => (None, seq![]),
    }
}

/// The `[export]` section of table `t` (absent: nothing, no warning).
pub open spec fn export_of(t: Seq<TomlEntry>) -> (Option<ExportView>, Seq<Seq<char>>) {
    match lookup(t, "export"@) {
        Some(e) => export_section(e.value),
        None => (None, seq![]),
    }
}

/// The `macros` of table `t` (absent: none, no warning).
pub open spec fn macros_of(t: Seq<TomlEntry>) -> (Seq<(char, Seq<Seq<char>>)>, Seq<Seq<char>>) {
    match lookup(t, "macros"@) {
        Some(e) => macros_setting(e.value),
        None => (seq![], seq![]),
    }
}

/// The settings that the top-level table `t` makes.
pub open spec fn config_view(t: Seq<TomlEntry>) -> AppConfigView {
    AppConfigView {
        theme: string_setting(t, "theme"@, "theme"@).0,
        theme_dark: string_setting(t, "theme_dark"@, "theme_dark"@).0,
        theme_light: string_setting(t, "theme_light"@, "theme_light"@).0,
        appearance: string_setting(t, "appearance"@, "appearance"@).0,
        backend: enum_setting(t, "backend"@, backends()).0,
        comment_types: comment_types_of(t).0,
        show_file_list: bool_setting(t, "show_file_list"@, "show_file_list"@).0,
        show_pr_checks: bool_setting(t, "show_pr_checks"@, "show_pr_checks"@).0,
        show_pr_comments: bool_setting(t, "show_pr_comments"@, "show_pr_comments"@).0,
        show_commits: bool_setting(t, "show_commits"@, "show_commits"@).0,
        show_reviewed: bool_setting(t, "show_reviewed"@, "show_reviewed"@).0,
        diff_view: enum_setting(t, "diff_view"@, diff_views()).0,
        relative_line_numbers: bool_setting(t, "relative_line_numbers"@, "relative_line_numbers"@).0,
        commit_order: enum_setting(t, "commit_order"@, commit_orders()).0,
        initial_commit_selection: enum_setting(t, "initial_commit_selection"@, commit_selections()).0,
        ignore_whitespace: bool_setting(t, "ignore_whitespace"@, "ignore_whitespace"@).0,
        wrap: bool_setting(t, "wrap"@, "wrap"@).0,
        export_legend: bool_setting(t, "export_legend"@, "export_legend"@).0,
        cursor_line: bool_setting(t, "cursor_line"@, "cursor_line"@).0,
        search_highlight: bool_setting(t, "search_highlight"@, "search_highlight"@).0,
        mouse: bool_setting(t, "mouse"@, "mouse"@).0,
        comment_vim: bool_setting(t, "comment_vim"@, "comment_vim"@).0,
        comment_tab_width: usize_setting(t, "comment_tab_width"@).0,
        leader: leader_setting(t).0,
        transparent_background: bool_setting(t, "transparent_background"@, "transparent_background"@).0,
        scroll_offset: usize_setting(t, "scroll_offset"@).0,
        review_watch_interval_ms: usize_setting(t, "review_watch_interval_ms"@).0,
        diff_watch_interval_ms: usize_setting(t, "diff_watch_interval_ms"@).0,
        no_update_check: bool_setting(t, "no_update_check"@, "no_update_check"@).0,
        single_file_view: bool_setting(t, "single_file_view"@, "single_file_view"@).0,
        username: string_setting(t, "username"@, "username"@).0,
        forge: forge_of(t).0,
        export: export_of(t).0,
        macros: macros_of(t).0,
    }
}

/// The warnings of the first settings, read in this order.
pub open spec fn early_warnings(t: Seq<TomlEntry>) -> Seq<Seq<char>> {
    string_setting(t, "theme"@, "theme"@).1
        + string_setting(t, "theme_dark"@, "theme_dark"@).1
        + string_setting(t, "theme_light"@, "theme_light"@).1
        + string_setting(t, "appearance"@, "appearance"@).1
        + enum_setting(t, "backend"@, backends()).1
        + comment_types_of(t).1
        + bool_setting(t, "show_file_list"@, "show_file_list"@).1
        + bool_setting(t, "show_pr_checks"@, "show_pr_checks"@).1
        + bool_setting(t, "show_pr_comments"@, "show_pr_comments"@).1
        + bool_setting(t, "show_commits"@, "show_commits"@).1
        + bool_setting(t, "show_reviewed"@, "show_reviewed"@).1
}

/// The warnings of the middle settings, read in this order.
pub open spec fn middle_warnings(t: Seq<TomlEntry>) -> Seq<Seq<char>> {
    enum_setting(t, "diff_view"@, diff_views()).1
        + bool_setting(t, "relative_line_numbers"@, "relative_line_numbers"@).1
        + enum_setting(t, "commit_order"@, commit_orders()).1
        + enum_setting(t, "initial_commit_selection"@, commit_selections()).1
        + bool_setting(t, "ignore_whitespace"@, "ignore_whitespace"@).1
        + bool_setting(t, "wrap"@, "wrap"@).1
        + bool_setting(t, "export_legend"@, "export_legend"@).1
        + bool_setting(t, "cursor_line"@, "cursor_line"@).1
        + bool_setting(t, "search_highlight"@, "search_highlight"@).1
        + bool_setting(t, "mouse"@, "mouse"@).1
        + bool_setting(t, "comment_vim"@, "comment_vim"@).1
}

/// The warnings of the last settings, read in this order.
pub open spec fn late_warnings(t: Seq<TomlEntry>) -> Seq<Seq<char>> {
    usize_setting(t, "comment_tab_width"@).1
        + leader_setting(t).1
        + bool_setting(t, "transparent_background"@, "transparent_background"@).1
        + usize_setting(t, "scroll_offset"@).1
        + usize_setting(t, "review_watch_interval_ms"@).1
        + usize_setting(t, "diff_watch_interval_ms"@).1
        + bool_setting(t, "no_update_check"@, "no_update_check"@).1
        + bool_setting(t, "single_file_view"@, "single_file_view"@).1
        + string_setting(t, "username"@, "username"@).1
        + forge_of(t).1
        + export_of(t).1
        + macros_of(t).1
}

/// Every warning the top-level table `t` gives, in order: those of each
/// setting in turn, then one for each unknown key.
pub open spec fn config_warnings(t: Seq<TomlEntry>) -> Seq<Seq<char>> {
    early_warnings(t) + middle_warnings(t) + late_warnings(t) + unknown_key_warnings(
        t,
        top_level_keys(),
        "Warning: Unknown config key '"@,
    )
}

/// What loading the document `doc` yields.
pub open spec fn document_outcome(doc: TomlValue) -> Option<(AppConfigView, Seq<Seq<char>>)> {
    match doc {
        TomlValue::Table(t) => Some((config_view(t@), config_warnings(t@))),
        _ => None,
    }
}

/// Each boolean setting holds the boolean the file writes under its key, and
/// is unset where the key is absent or holds something else.
pub proof fn lemma_boolean_settings_hold_written_values(t: Seq<TomlEntry>)
    ensures
        config_view(t).show_file_list == written_bool(t, "show_file_list"@),
        config_view(t).show_pr_checks == written_bool(t, "show_pr_checks"@),
        config_view(t).show_pr_comments == written_bool(t, "show_pr_comments"@),
        config_view(t).show_commits == written_bool(t, "show_commits"@),
        config_view(t).show_reviewed == written_bool(t, "show_reviewed"@),
        config_view(t).relative_line_numbers == written_bool(t, "relative_line_numbers"@),
        config_view(t).ignore_whitespace == written_bool(t, "ignore_whitespace"@),
        config_view(t).wrap == written_bool(t, "wrap"@),
        config_view(t).export_legend == written_bool(t, "export_legend"@),
        config_view(t).cursor_line == written_bool(t, "cursor_line"@),
        config_view(t).search_highlight == written_bool(t, "search_highlight"@),
        config_view(t).mouse == written_bool(t, "mouse"@),
        config_view(t).comment_vim == written_bool(t, "comment_vim"@),
        config_view(t).transparent_background == written_bool(t, "transparent_background"@),
        config_view(t).no_update_check == written_bool(t, "no_update_check"@),
        config_view(t).single_file_view == written_bool(t, "single_file_view"@),
{
}

/// Each free-text setting holds the string the file writes under its key,
/// and is unset where the key is absent or holds something else.
pub proof fn lemma_text_settings_hold_written_values(t: Seq<TomlEntry>)
    ensures
        config_view(t).theme == written_string(t, "theme"@),
        config_view(t).theme_dark == written_string(t, "theme_dark"@),
        config_view(t).theme_light == written_string(t, "theme_light"@),
        config_view(t).appearance == written_string(t, "appearance"@),
        config_view(t).username == written_string(t, "username"@),
{
}

/// Each count setting holds the non-negative integer the file writes under
/// its key, and is unset otherwise.
pub proof fn lemma_count_settings_hold_written_values(t: Seq<TomlEntry>)
    ensures
        written_integer(t, "comment_tab_width"@) is Some && written_integer(t, "comment_tab_width"@).unwrap() >= 0 ==> config_view(t).comment_tab_width == Some(written_integer(t, "comment_tab_width"@).unwrap() as usize),
        !(written_integer(t, "comment_tab_width"@) is Some && written_integer(t, "comment_tab_width"@).unwrap() >= 0) ==> config_view(t).comment_tab_width is None,
        written_integer(t, "scroll_offset"@) is Some && written_integer(t, "scroll_offset"@).unwrap() >= 0 ==> config_view(t).scroll_offset == Some(written_integer(t, "scroll_offset"@).unwrap() as usize),
        !(written_integer(t, "scroll_offset"@) is Some && written_integer(t, "scroll_offset"@).unwrap() >= 0) ==> config_view(t).scroll_offset is None,
        written_integer(t, "review_watch_interval_ms"@) is Some && written_integer(t, "review_watch_interval_ms"@).unwrap() >= 0 ==> config_view(t).review_watch_interval_ms == Some(written_integer(t, "review_watch_interval_ms"@).unwrap() as usize),
        !(written_integer(t, "review_watch_interval_ms"@) is Some && written_integer(t, "review_watch_interval_ms"@).unwrap() >= 0) ==> config_view(t).review_watch_interval_ms is None,
        written_integer(t, "diff_watch_interval_ms"@) is Some && written_integer(t, "diff_watch_interval_ms"@).unwrap() >= 0 ==> config_view(t).diff_watch_interval_ms == Some(written_integer(t, "diff_watch_interval_ms"@).unwrap() as usize),
        !(written_integer(t, "diff_watch_interval_ms"@) is Some && written_integer(t, "diff_watch_interval_ms"@).unwrap() >= 0) ==> config_view(t).diff_watch_interval_ms is None,
{
}

/// Each setting with a fixed set of values holds the string the file writes
/// under its key when that string is one of them, and is unset otherwise; the
/// leader holds the one character the file writes, and is unset otherwise.
pub proof fn lemma_choice_settings_hold_written_values(t: Seq<TomlEntry>)
    ensures
        written_string(t, "backend"@) is Some && (written_string(t, "backend"@).unwrap() == "libgit2"@ || written_string(t, "backend"@).unwrap() == "cli"@) ==> config_view(t).backend == written_string(t, "backend"@),
        !(written_string(t, "backend"@) is Some && (written_string(t, "backend"@).unwrap() == "libgit2"@ || written_string(t, "backend"@).unwrap() == "cli"@)) ==> config_view(t).backend is None,
        written_string(t, "diff_view"@) is Some && (written_string(t, "diff_view"@).unwrap() == "unified"@ || written_string(t, "diff_view"@).unwrap() == "side-by-side"@) ==> config_view(t).diff_view == written_string(t, "diff_view"@),
        !(written_string(t, "diff_view"@) is Some && (written_string(t, "diff_view"@).unwrap() == "unified"@ || written_string(t, "diff_view"@).unwrap() == "side-by-side"@)) ==> config_view(t).diff_view is None,
        written_string(t, "commit_order"@) is Some && (written_string(t, "commit_order"@).unwrap() == "descending"@ || written_string(t, "commit_order"@).unwrap() == "ascending"@) ==> config_view(t).commit_order == written_string(t, "commit_order"@),
        !(written_string(t, "commit_order"@) is Some && (written_string(t, "commit_order"@).unwrap() == "descending"@ || written_string(t, "commit_order"@).unwrap() == "ascending"@)) ==> config_view(t).commit_order is None,
        written_string(t, "initial_commit_selection"@) is Some && (written_string(t, "initial_commit_selection"@).unwrap() == "all"@ || written_string(t, "initial_commit_selection"@).unwrap() == "oldest"@) ==> config_view(t).initial_commit_selection == written_string(t, "initial_commit_selection"@),
        !(written_string(t, "initial_commit_selection"@) is Some && (written_string(t, "initial_commit_selection"@).unwrap() == "all"@ || written_string(t, "initial_commit_selection"@).unwrap() == "oldest"@)) ==> config_view(t).initial_commit_selection is None,
        written_string(t, "leader"@) is Some && written_string(t, "leader"@).unwrap().len() == 1 ==> config_view(t).leader == Some(written_string(t, "leader"@).unwrap()[0]),
        !(written_string(t, "leader"@) is Some && written_string(t, "leader"@).unwrap().len() == 1) ==> config_view(t).leader is None,
{
    reveal_strlit("libgit2");
    reveal_strlit("cli");
    reveal_strlit("unified");
    reveal_strlit("side-by-side");
    reveal_strlit("descending");
    reveal_strlit("ascending");
    reveal_strlit("all");
    reveal_strlit("oldest");
}

/// The `[forge]` and `[export]` sections, the comment types and the macros of
/// a config are read from the values the file writes under `forge`,
/// `export`, `comment_types` and `macros`; a key the file does not write
/// leaves that part unset (no macros).
pub proof fn lemma_sections_read_their_own_keys(t: Seq<TomlEntry>)
    ensures
        lookup(t, "forge"@) matches Some(e) ==> config_view(t).forge == forge_section(e.value).0,
        lookup(t, "forge"@) is None ==> config_view(t).forge is None,
        lookup(t, "export"@) matches Some(e) ==> config_view(t).export == export_section(e.value).0,
        lookup(t, "export"@) is None ==> config_view(t).export is None,
        lookup(t, "comment_types"@) matches Some(e) ==> config_view(t).comment_types == comment_types_setting(e.value).0,
        lookup(t, "comment_types"@) is None ==> config_view(t).comment_types is None,
        lookup(t, "macros"@) matches Some(e) ==> config_view(t).macros == macros_setting(e.value).0,
        lookup(t, "macros"@) is None ==> config_view(t).macros.len() == 0,
{
}

proof fn lemma_lookup_insert_other(t: Seq<TomlEntry>, p: int, e: TomlEntry, key: Seq<char>)
    requires
        0 <= p <= t.len(),
        e.key@ != key,
    ensures
        lookup(t.insert(p, e), key) == lookup(t, key),
    decreases t.len(),
{
    let u = t.insert(p, e);
    if p == 0 {
        assert(u.drop_first() =~= t);
    } else {
        assert(u[0] == t[0]);
        assert(u.drop_first() =~= t.drop_first().insert(p - 1, e));
        lemma_lookup_insert_other(t.drop_first(), p - 1, e, key);
    }
}

/// A top-level key the config does not know changes no setting: the table
/// with it reads as the table without it.
pub proof fn lemma_unknown_key_changes_no_setting(t: Seq<TomlEntry>, p: int, e: TomlEntry)
    requires
        0 <= p <= t.len(),
        !top_level_keys().contains(e.key@),
    ensures
        config_view(t.insert(p, e)) == config_view(t),
{
    broadcast use vstd::seq_lib::group_seq_properties;
    assert forall|key: Seq<char>| key != e.key@ implies #[trigger] lookup(t.insert(p, e), key) == lookup(t, key) by {
        lemma_lookup_insert_other(t, p, e, key);
    }
}

fn read_comment_types(table: &Vec<TomlEntry>, warnings: &mut Vec<String>) -> (r: Option<Vec<crate::config::CommentTypeConfig>>)
    ensures
        match r {
            Some(v) => comment_types_of(table@).0 == Some(comment_type_views(v@)),
            None => comment_types_of(table@).0 is None,
        },
        views(final(warnings)@) == views(old(warnings)@) + comment_types_of(table@).1,
{
    match find_entry(table, "comment_types") {
        Some(e) => parse_comment_types(&e.value, warnings),
        None => {
            assert(views(warnings@) =~= views(old(warnings)@) + seq![]);
            None
        },
    }
}

fn read_forge(table: &Vec<TomlEntry>, warnings: &mut Vec<String>) -> (r: Option<ForgeConfig>)
    ensures
        r == forge_of(table@).0,
        views(final(warnings)@) == views(old(warnings)@) + forge_of(table@).1,
{
    match find_entry(table, "forge") {
        Some(e) => parse_forge(&e.value, warnings),
        None => {
            assert(views(warnings@) =~= views(old(warnings)@) + seq![]);
            None
        },
    }
}

fn read_export(table: &Vec<TomlEntry>, warnings: &mut Vec<String>) -> (r: Option<crate::config::ExportConfig>)
    ensures
        match r {
            Some(e) => export_of(table@).0 == Some(e@),
            None => export_of(table@).0 is None,
        },
        views(final(warnings)@) == views(old(warnings)@) + export_of(table@).1,
{
    match find_entry(table, "export") {
        Some(e) => parse_export(&e.value, warnings),
        None => {
            assert(views(warnings@) =~= views(old(warnings)@) + seq![]);
            None
        },
    }
}

fn read_macros(table: &Vec<TomlEntry>, warnings: &mut Vec<String>) -> (r: Vec<crate::config::MacroConfig>)
    ensures
        macro_views(r@) == macros_of(table@).0,
        views(final(warnings)@) == views(old(warnings)@) + macros_of(table@).1,
{
    match find_entry(table, "macros") {
        Some(e) => parse_macros(&e.value, warnings),
        None => {
            assert(views(warnings@) =~= views(old(warnings)@) + seq![]);
            let r: Vec<crate::config::MacroConfig> = Vec::new();
            assert(macro_views(r@) =~= seq![]);
            r
        },
    }
}

/// The first settings, in reading order.
pub struct EarlySettings {
    pub theme: Option<String>,
    pub theme_dark: Option<String>,
    pub theme_light: Option<String>,
    pub appearance: Option<String>,
    pub backend: Option<String>,
    pub comment_types: Option<Vec<crate::config::CommentTypeConfig>>,
    pub show_file_list: Option<bool>,
    pub show_pr_checks: Option<bool>,
    pub show_pr_comments: Option<bool>,
    pub show_commits: Option<bool>,
    pub show_reviewed: Option<bool>,
}

/// The middle settings, in reading order.
pub struct MiddleSettings {
    pub diff_view: Option<String>,
    pub relative_line_numbers: Option<bool>,
    pub commit_order: Option<String>,
    pub initial_commit_selection: Option<String>,
    pub ignore_whitespace: Option<bool>,
    pub wrap: Option<bool>,
    pub export_legend: Option<bool>,
    pub cursor_line: Option<bool>,
    pub search_highlight: Option<bool>,
    pub mouse: Option<bool>,
    pub comment_vim: Option<bool>,
}

/// The last settings, in reading order.
pub struct LateSettings {
    pub comment_tab_width: Option<usize>,
    pub leader: Option<char>,
    pub transparent_background: Option<bool>,
    pub scroll_offset: Option<usize>,
    pub review_watch_interval_ms: Option<usize>,
    pub diff_watch_interval_ms: Option<usize>,
    pub no_update_check: Option<bool>,
    pub single_file_view: Option<bool>,
    pub username: Option<String>,
    pub forge: Option<ForgeConfig>,
    pub export: Option<crate::config::ExportConfig>,
    pub macros: Vec<crate::config::MacroConfig>,
}

#[verifier::spinoff_prover]
#[verifier::rlimit(40)]
fn read_early(table: &Vec<TomlEntry>, warnings: &mut Vec<String>) -> (r: EarlySettings)
    ensures
        views(final(warnings)@) == views(old(warnings)@) + early_warnings(table@),
        crate::config::opt_view(r.theme) == config_view(table@).theme,
        crate::config::opt_view(r.theme_dark) == config_view(table@).theme_dark,
        crate::config::opt_view(r.theme_light) == config_view(table@).theme_light,
        crate::config::opt_view(r.appearance) == config_view(table@).appearance,
        crate::config::opt_view(r.backend) == config_view(table@).backend,
        match r.comment_types {
            Some(v) => config_view(table@).comment_types == Some(comment_type_views(v@)),
            None => config_view(table@).comment_types is None,
        },
        r.show_file_list == config_view(table@).show_file_list,
        r.show_pr_checks == config_view(table@).show_pr_checks,
        r.show_pr_comments == config_view(table@).show_pr_comments,
        r.show_commits == config_view(table@).show_commits,
        r.show_reviewed == config_view(table@).show_reviewed,
{
    let backend_values: [&str; 2] = ["libgit2", "cli"];
    assert(str_views(backend_values@) =~= backends());
    let ghost w0 = views(warnings@);
    let r = EarlySettings {
        theme: read_string(table, "theme", warnings),
        theme_dark: read_string(table, "theme_dark", warnings),
        theme_light: read_string(table, "theme_light", warnings),
        appearance: read_string(table, "appearance", warnings),
        backend: read_enum(table, "backend", &backend_values, warnings),
        comment_types: read_comment_types(table, warnings),
        show_file_list: read_bool(table, "show_file_list", warnings),
        show_pr_checks: read_bool(table, "show_pr_checks", warnings),
        show_pr_comments: read_bool(table, "show_pr_comments", warnings),
        show_commits: read_bool(table, "show_commits", warnings),
        show_reviewed: read_bool(table, "show_reviewed", warnings),
    };
    assert(views(warnings@) =~= w0 + early_warnings(table@));
    r
}

#[verifier::spinoff_prover]
fn read_middle(table: &Vec<TomlEntry>, warnings: &mut Vec<String>) -> (r: MiddleSettings)
    ensures
        views(final(warnings)@) == views(old(warnings)@) + middle_warnings(table@),
        crate::config::opt_view(r.diff_view) == config_view(table@).diff_view,
        r.relative_line_numbers == config_view(table@).relative_line_numbers,
        crate::config::opt_view(r.commit_order) == config_view(table@).commit_order,
        crate::config::opt_view(r.initial_commit_selection) == config_view(table@).initial_commit_selection,
        r.ignore_whitespace == config_view(table@).ignore_whitespace,
        r.wrap == config_view(table@).wrap,
        r.export_legend == config_view(table@).export_legend,
        r.cursor_line == config_view(table@).cursor_line,
        r.search_highlight == config_view(table@).search_highlight,
        r.mouse == config_view(table@).mouse,
        r.comment_vim == config_view(table@).comment_vim,
{
    let diff_view_values: [&str; 2] = ["unified", "side-by-side"];
    let commit_order_values: [&str; 2] = ["descending", "ascending"];
    let selection_values: [&str; 2] = ["all", "oldest"];
    assert(str_views(diff_view_values@) =~= diff_views());
    assert(str_views(commit_order_values@) =~= commit_orders());
    assert(str_views(selection_values@) =~= commit_selections());
    let ghost w0 = views(warnings@);
    let r = MiddleSettings {
        diff_view: read_enum(table, "diff_view", &diff_view_values, warnings),
        relative_line_numbers: read_bool(table, "relative_line_numbers", warnings),
        commit_order: read_enum(table, "commit_order", &commit_order_values, warnings),
        initial_commit_selection: read_enum(table, "initial_commit_selection", &selection_values, warnings),
        ignore_whitespace: read_bool(table, "ignore_whitespace", warnings),
        wrap: read_bool(table, "wrap", warnings),
        export_legend: read_bool(table, "export_legend", warnings),
        cursor_line: read_bool(table, "cursor_line", warnings),
        search_highlight: read_bool(table, "search_highlight", warnings),
        mouse: read_bool(table, "mouse", warnings),
        comment_vim: read_bool(table, "comment_vim", warnings),
    };
    assert(views(warnings@) =~= w0 + middle_warnings(table@));
    r
}

#[verifier::spinoff_prover]
fn read_late(table: &Vec<TomlEntry>, warnings: &mut Vec<String>) -> (r: LateSettings)
    ensures
        views(final(warnings)@) == views(old(warnings)@) + late_warnings(table@),
        r.comment_tab_width == config_view(table@).comment_tab_width,
        r.leader == config_view(table@).leader,
        r.transparent_background == config_view(table@).transparent_background,
        r.scroll_offset == config_view(table@).scroll_offset,
        r.review_watch_interval_ms == config_view(table@).review_watch_interval_ms,
        r.diff_watch_interval_ms == config_view(table@).diff_watch_interval_ms,
        r.no_update_check == config_view(table@).no_update_check,
        r.single_file_view == config_view(table@).single_file_view,
        crate::config::opt_view(r.username) == config_view(table@).username,
        r.forge == config_view(table@).forge,
        match r.export {
            Some(e) => config_view(table@).export == Some(e@),
            None => config_view(table@).export is None,
        },
        macro_views(r.macros@) == config_view(table@).macros,
{
    let ghost w0 = views(warnings@);
    let r = LateSettings {
        comment_tab_width: read_usize(table, "comment_tab_width", warnings),
        leader: read_leader(table, warnings),
        transparent_background: read_bool(table, "transparent_background", warnings),
        scroll_offset: read_usize(table, "scroll_offset", warnings),
        review_watch_interval_ms: read_usize(table, "review_watch_interval_ms", warnings),
        diff_watch_interval_ms: read_usize(table, "diff_watch_interval_ms", warnings),
        no_update_check: read_bool(table, "no_update_check", warnings),
        single_file_view: read_bool(table, "single_file_view", warnings),
        username: read_string(table, "username", warnings),
        forge: read_forge(table, warnings),
        export: read_export(table, warnings),
        macros: read_macros(table, warnings),
    };
    assert(views(warnings@) =~= w0 + late_warnings(table@));
    r
}

/// Reads every setting of the top-level table `table`, warning about each
/// unusable value and each unknown key.
pub fn config_from_table(table: &Vec<TomlEntry>) -> (r: ConfigLoadOutcome)
    ensures
        r.config is Some,
        r.config.unwrap()@ == config_view(table@),
        views(r.warnings@) == config_warnings(table@),
{
    let mut warnings: Vec<String> = Vec::new();
    let ghost w0 = views(warnings@);
    let a = read_early(table, &mut warnings);
    let b = read_middle(table, &mut warnings);
    let c = read_late(table, &mut warnings);
    let config = AppConfig {
        theme: a.theme,
        theme_dark: a.theme_dark,
        theme_light: a.theme_light,
        appearance: a.appearance,
        backend: a.backend,
        comment_types: a.comment_types,
        show_file_list: a.show_file_list,
        show_pr_checks: a.show_pr_checks,
        show_pr_comments: a.show_pr_comments,
        show_commits: a.show_commits,
        show_reviewed: a.show_reviewed,
        diff_view: b.diff_view,
        commit_order: b.commit_order,
        initial_commit_selection: b.initial_commit_selection,
        ignore_whitespace: b.ignore_whitespace,
        wrap: b.wrap,
        relative_line_numbers: b.relative_line_numbers,
        export_legend: b.export_legend,
        cursor_line: b.cursor_line,
        search_highlight: b.search_highlight,
        mouse: b.mouse,
        comment_vim: b.comment_vim,
        comment_tab_width: c.comment_tab_width,
        leader: c.leader,
        transparent_background: c.transparent_background,
        scroll_offset: c.scroll_offset,
        review_watch_interval_ms: c.review_watch_interval_ms,
        diff_watch_interval_ms: c.diff_watch_interval_ms,
        no_update_check: c.no_update_check,
        single_file_view: c.single_file_view,
        username: c.username,
        forge: c.forge,
        export: c.export,
        macros: c.macros,
    };
    let known: [&str; 34] = [
        "theme", "theme_dark", "theme_light", "appearance", "backend", "comment_types",
        "show_file_list", "show_pr_checks", "show_pr_comments", "show_commits", "show_reviewed",
        "diff_view", "commit_order", "initial_commit_selection", "ignore_whitespace", "wrap",
        "relative_line_numbers", "export_legend", "cursor_line", "search_highlight", "mouse",
        "comment_vim", "comment_tab_width", "leader", "transparent_background", "scroll_offset",
        "review_watch_interval_ms", "diff_watch_interval_ms", "no_update_check",
        "single_file_view", "username", "forge", "export", "macros",
    ];
    assert(str_views(known@) =~= top_level_keys());
    warn_unknown_keys(table, &known, "Warning: Unknown config key '", &mut warnings);
    assert(views(warnings@) =~= config_warnings(table@));
    assert(config@ == config_view(table@));
    ConfigLoadOutcome { config: Some(config), warnings }
}

/// Builds the configuration from a parsed document, whose root must be a
/// table.
pub fn config_from_document(doc: &TomlValue) -> (r: Result<ConfigLoadOutcome, ConfigError>)
    ensures
        match document_outcome(*doc) {
            Some((cfg, w)) => r matches Ok(out) && out.config matches Some(c) && c@ == cfg && views(
                out.warnings@,
            ) == w,
            None => r matches Err(ConfigError::RootNotTable),
        },
{
    match doc {
        TomlValue::Table(table) => Ok(config_from_table(table)),
        _ => Err(ConfigError::RootNotTable),
    }
}

/// Loads the configuration from the text of a config file: the text must be
/// TOML whose root is a table; each unusable setting is ignored with a
/// warning.
pub fn load_config_from_str(contents: &str) -> (r: Result<ConfigLoadOutcome, ConfigError>)
    ensures
        match toml_document(contents@) {
            None => r matches Err(ConfigError::Syntax(_)),
            Some(doc) => match document_outcome(doc) {
                Some((cfg, w)) => r matches Ok(out) && out.config matches Some(c) && c@ == cfg
                    && views(out.warnings@) == w,
                None => r matches Err(ConfigError::RootNotTable),
            },
        },
{
    match parse_toml(contents) {
        Ok(doc) => config_from_document(&doc),
        Err(e) => Err(ConfigError::Syntax(e)),
    }
}

} // verus!
