use tuicr::config::load::load_config_from_str;
use tuicr::config::{AppConfig, ConfigLoadOutcome, ExportConfig, ForgeConfig, MacroStep};

/// Parses the text of a config file that must be valid TOML.
fn parse_config(toml_content: &str) -> ConfigLoadOutcome {
    load_config_from_str(toml_content).expect("config should parse")
}

#[test]
fn should_load_theme_from_valid_toml() {
    let outcome = parse_config("theme = \"light\"\n");
    assert_eq!(
        outcome.config.as_ref().and_then(|cfg| cfg.theme.as_deref()),
        Some("light")
    );
    assert!(outcome.warnings.is_empty());
}

#[test]
fn should_load_theme_variants_and_appearance_from_valid_toml() {
    let outcome = parse_config(
        "theme_dark = \"gruvbox-dark\"\ntheme_light = \"gruvbox-light\"\nappearance = \"system\"\n",
    );
    let cfg = outcome.config.as_ref().unwrap();
    assert_eq!(cfg.theme_dark.as_deref(), Some("gruvbox-dark"));
    assert_eq!(cfg.theme_light.as_deref(), Some("gruvbox-light"));
    assert_eq!(cfg.appearance.as_deref(), Some("system"));
    assert!(outcome.warnings.is_empty());
}

#[test]
fn should_parse_backend_option() {
    let cli = parse_config("backend = \"cli\"\n");
    assert_eq!(
        cli.config.as_ref().and_then(|cfg| cfg.backend.as_deref()),
        Some("cli")
    );
    assert!(cli.warnings.is_empty());

    let libgit2 = parse_config("backend = \"libgit2\"\n");
    assert_eq!(
        libgit2
            .config
            .as_ref()
            .and_then(|cfg| cfg.backend.as_deref()),
        Some("libgit2")
    );
    assert!(libgit2.warnings.is_empty());
}

#[test]
fn should_warn_and_ignore_invalid_backend_option() {
    let outcome = parse_config("backend = \"gitoxide\"\n");
    assert_eq!(outcome.config, Some(AppConfig::default()));
    assert_eq!(outcome.warnings.len(), 1);
    assert_eq!(
        outcome.warnings[0],
        "Warning: Config key 'backend' must be \"libgit2\" or \"cli\"; got \"gitoxide\", ignoring"
    );
}

#[test]
fn should_warn_and_ignore_backend_with_invalid_type() {
    let outcome = parse_config("backend = true\n");
    assert_eq!(outcome.config, Some(AppConfig::default()));
    assert_eq!(outcome.warnings.len(), 1);
    assert_eq!(
        outcome.warnings[0],
        "Warning: Config key 'backend' must be a string; ignoring value"
    );
}

#[test]
fn should_parse_empty_config_as_defaults() {
    let outcome = parse_config("");
    assert_eq!(outcome.config, Some(AppConfig::default()));
    assert!(outcome.warnings.is_empty());
}

#[test]
fn should_error_on_invalid_toml() {
    let result = load_config_from_str("theme =\n");
    assert!(result.is_err(), "invalid TOML should return error");
}

#[test]
fn should_warn_on_unknown_keys_and_keep_known_values() {
    let outcome = parse_config("theme = \"light\"\nthemes = \"typo\"\n");
    assert_eq!(
        outcome.config.as_ref().and_then(|cfg| cfg.theme.as_deref()),
        Some("light")
    );
    assert_eq!(outcome.warnings.len(), 1);
    assert_eq!(
        outcome.warnings[0],
        "Warning: Unknown config key 'themes', ignoring"
    );
}

#[test]
fn should_warn_on_unknown_keys_only_and_use_defaults() {
    let outcome = parse_config("themes = \"typo\"\n");
    assert_eq!(outcome.config, Some(AppConfig::default()));
    assert_eq!(outcome.warnings.len(), 1);
    assert_eq!(
        outcome.warnings[0],
        "Warning: Unknown config key 'themes', ignoring"
    );
}

#[test]
fn should_warn_and_ignore_theme_with_invalid_type() {
    let outcome = parse_config("theme = 123\n");
    assert_eq!(outcome.config, Some(AppConfig::default()));
    assert_eq!(outcome.warnings.len(), 1);
    assert_eq!(
        outcome.warnings[0],
        "Warning: Config key 'theme' must be a string; ignoring value"
    );
}

#[test]
fn should_warn_and_ignore_theme_dark_with_invalid_type() {
    let outcome = parse_config("theme_dark = 123\n");
    assert_eq!(outcome.config, Some(AppConfig::default()));
    assert_eq!(outcome.warnings.len(), 1);
    assert_eq!(
        outcome.warnings[0],
        "Warning: Config key 'theme_dark' must be a string; ignoring value"
    );
}

// show_file_list

#[test]
fn should_parse_show_file_list_false() {
    let outcome = parse_config("show_file_list = false\n");
    assert_eq!(
        outcome.config.as_ref().and_then(|cfg| cfg.show_file_list),
        Some(false)
    );
    assert!(outcome.warnings.is_empty());
}

#[test]
fn should_warn_and_ignore_show_file_list_with_invalid_type() {
    let outcome = parse_config("show_file_list = \"no\"\n");
    assert_eq!(
        outcome.config.as_ref().and_then(|cfg| cfg.show_file_list),
        None
    );
    assert_eq!(outcome.warnings.len(), 1);
}

// show_pr_checks

#[test]
fn should_parse_show_pr_checks_false() {
    let outcome = parse_config("show_pr_checks = false\n");
    assert_eq!(
        outcome.config.as_ref().and_then(|cfg| cfg.show_pr_checks),
        Some(false)
    );
    assert!(outcome.warnings.is_empty());
}

#[test]
fn should_warn_and_ignore_show_pr_checks_with_invalid_type() {
    let outcome = parse_config("show_pr_checks = \"no\"\n");
    assert_eq!(
        outcome.config.as_ref().and_then(|cfg| cfg.show_pr_checks),
        None
    );
    assert_eq!(
        outcome.warnings,
        vec!["Warning: Config key 'show_pr_checks' must be a boolean; ignoring value"]
    );
}

// show_pr_comments

#[test]
fn should_parse_show_pr_comments_false() {
    let outcome = parse_config("show_pr_comments = false\n");
    assert_eq!(
        outcome.config.as_ref().and_then(|cfg| cfg.show_pr_comments),
        Some(false)
    );
    assert!(outcome.warnings.is_empty());
}

#[test]
fn should_warn_and_ignore_show_pr_comments_with_invalid_type() {
    let outcome = parse_config("show_pr_comments = \"no\"\n");
    assert_eq!(
        outcome.config.as_ref().and_then(|cfg| cfg.show_pr_comments),
        None
    );
    assert_eq!(
        outcome.warnings,
        vec!["Warning: Config key 'show_pr_comments' must be a boolean; ignoring value"]
    );
}

// show_commits

#[test]
fn should_parse_show_commits_false() {
    let outcome = parse_config("show_commits = false\n");
    assert_eq!(
        outcome.config.as_ref().and_then(|cfg| cfg.show_commits),
        Some(false)
    );
    assert!(outcome.warnings.is_empty());
}

#[test]
fn should_warn_and_ignore_show_commits_with_invalid_type() {
    let outcome = parse_config("show_commits = \"no\"\n");
    assert_eq!(
        outcome.config.as_ref().and_then(|cfg| cfg.show_commits),
        None
    );
    assert_eq!(outcome.warnings.len(), 1);
}

// show_reviewed

#[test]
fn should_parse_show_reviewed_false() {
    let outcome = parse_config("show_reviewed = false\n");
    assert_eq!(
        outcome.config.as_ref().and_then(|cfg| cfg.show_reviewed),
        Some(false)
    );
    assert!(outcome.warnings.is_empty());
}

#[test]
fn should_warn_and_ignore_show_reviewed_with_invalid_type() {
    let outcome = parse_config("show_reviewed = \"no\"\n");
    assert_eq!(
        outcome.config.as_ref().and_then(|cfg| cfg.show_reviewed),
        None
    );
    assert_eq!(outcome.warnings.len(), 1);
}

#[test]
fn should_parse_relative_line_numbers() {
    let outcome = parse_config("relative_line_numbers = true\n");
    assert_eq!(
        outcome
            .config
            .as_ref()
            .and_then(|cfg| cfg.relative_line_numbers),
        Some(true)
    );
    assert!(outcome.warnings.is_empty());
}

// diff_view

#[test]
fn should_parse_diff_view_side_by_side() {
    let outcome = parse_config("diff_view = \"side-by-side\"\n");
    assert_eq!(
        outcome
            .config
            .as_ref()
            .and_then(|cfg| cfg.diff_view.as_deref()),
        Some("side-by-side")
    );
    assert!(outcome.warnings.is_empty());
}

#[test]
fn should_parse_diff_view_unified() {
    let outcome = parse_config("diff_view = \"unified\"\n");
    assert_eq!(
        outcome
            .config
            .as_ref()
            .and_then(|cfg| cfg.diff_view.as_deref()),
        Some("unified")
    );
    assert!(outcome.warnings.is_empty());
}

// commit_order / initial_commit_selection

#[test]
fn should_parse_commit_order_ascending() {
    let outcome = parse_config("commit_order = \"ascending\"\n");
    assert_eq!(
        outcome
            .config
            .as_ref()
            .and_then(|cfg| cfg.commit_order.as_deref()),
        Some("ascending")
    );
    assert!(outcome.warnings.is_empty());
}

#[test]
fn should_warn_and_ignore_commit_order_with_invalid_value() {
    let outcome = parse_config("commit_order = \"sideways\"\n");
    assert_eq!(
        outcome
            .config
            .as_ref()
            .and_then(|cfg| cfg.commit_order.as_deref()),
        None
    );
    assert_eq!(outcome.warnings.len(), 1);
    assert!(outcome.warnings[0].contains("\"descending\" or \"ascending\""));
}

#[test]
fn should_parse_initial_commit_selection_oldest() {
    let outcome = parse_config("initial_commit_selection = \"oldest\"\n");
    assert_eq!(
        outcome
            .config
            .as_ref()
            .and_then(|cfg| cfg.initial_commit_selection.as_deref()),
        Some("oldest")
    );
    assert!(outcome.warnings.is_empty());
}

#[test]
fn should_warn_and_ignore_initial_commit_selection_with_invalid_value() {
    let outcome = parse_config("initial_commit_selection = \"newest\"\n");
    assert_eq!(
        outcome
            .config
            .as_ref()
            .and_then(|cfg| cfg.initial_commit_selection.as_deref()),
        None
    );
    assert_eq!(outcome.warnings.len(), 1);
    assert!(outcome.warnings[0].contains("\"all\" or \"oldest\""));
}

#[test]
fn should_warn_and_ignore_diff_view_with_invalid_value() {
    let outcome = parse_config("diff_view = \"split\"\n");
    assert_eq!(
        outcome
            .config
            .as_ref()
            .and_then(|cfg| cfg.diff_view.as_deref()),
        None
    );
    assert_eq!(outcome.warnings.len(), 1);
    assert!(outcome.warnings[0].contains("\"unified\" or \"side-by-side\""));
}

#[test]
fn should_warn_and_ignore_diff_view_with_invalid_type() {
    let outcome = parse_config("diff_view = true\n");
    assert_eq!(
        outcome
            .config
            .as_ref()
            .and_then(|cfg| cfg.diff_view.as_deref()),
        None
    );
    assert_eq!(outcome.warnings.len(), 1);
    assert_eq!(
        outcome.warnings[0],
        "Warning: Config key 'diff_view' must be a string; ignoring value"
    );
}

// ignore_whitespace

#[test]
fn should_parse_ignore_whitespace_true() {
    let outcome = parse_config("ignore_whitespace = true\n");
    assert_eq!(
        outcome
            .config
            .as_ref()
            .and_then(|cfg| cfg.ignore_whitespace),
        Some(true)
    );
    assert!(outcome.warnings.is_empty());
}

#[test]
fn should_parse_ignore_whitespace_false() {
    let outcome = parse_config("ignore_whitespace = false\n");
    assert_eq!(
        outcome
            .config
            .as_ref()
            .and_then(|cfg| cfg.ignore_whitespace),
        Some(false)
    );
    assert!(outcome.warnings.is_empty());
}

#[test]
fn should_warn_and_ignore_ignore_whitespace_with_invalid_type() {
    let outcome = parse_config("ignore_whitespace = \"yes\"\n");
    assert_eq!(
        outcome
            .config
            .as_ref()
            .and_then(|cfg| cfg.ignore_whitespace),
        None
    );
    assert_eq!(outcome.warnings.len(), 1);
    assert_eq!(
        outcome.warnings[0],
        "Warning: Config key 'ignore_whitespace' must be a boolean; ignoring value"
    );
}

// wrap

#[test]
fn should_parse_wrap_true() {
    let outcome = parse_config("wrap = true\n");
    assert_eq!(outcome.config.as_ref().and_then(|cfg| cfg.wrap), Some(true));
    assert!(outcome.warnings.is_empty());
}

#[test]
fn should_parse_wrap_false() {
    let outcome = parse_config("wrap = false\n");
    assert_eq!(
        outcome.config.as_ref().and_then(|cfg| cfg.wrap),
        Some(false)
    );
    assert!(outcome.warnings.is_empty());
}

#[test]
fn should_warn_and_ignore_wrap_with_invalid_type() {
    let outcome = parse_config("wrap = \"yes\"\n");
    assert_eq!(outcome.config.as_ref().and_then(|cfg| cfg.wrap), None);
    assert_eq!(outcome.warnings.len(), 1);
    assert_eq!(
        outcome.warnings[0],
        "Warning: Config key 'wrap' must be a boolean; ignoring value"
    );
}

// review_watch_interval_ms

#[test]
fn should_parse_review_watch_interval_ms() {
    let outcome = parse_config("review_watch_interval_ms = 250\n");
    assert_eq!(
        outcome
            .config
            .as_ref()
            .and_then(|cfg| cfg.review_watch_interval_ms),
        Some(250)
    );
    assert!(outcome.warnings.is_empty());
}

#[test]
fn should_parse_zero_review_watch_interval_ms_to_allow_disable() {
    let outcome = parse_config("review_watch_interval_ms = 0\n");
    assert_eq!(
        outcome
            .config
            .as_ref()
            .and_then(|cfg| cfg.review_watch_interval_ms),
        Some(0)
    );
    assert!(outcome.warnings.is_empty());
}

#[test]
fn should_warn_and_ignore_negative_review_watch_interval_ms() {
    let outcome = parse_config("review_watch_interval_ms = -1\n");
    assert_eq!(
        outcome
            .config
            .as_ref()
            .and_then(|cfg| cfg.review_watch_interval_ms),
        None
    );
    assert_eq!(outcome.warnings.len(), 1);
    assert_eq!(
        outcome.warnings[0],
        "Warning: Config key 'review_watch_interval_ms' must be a non-negative integer; ignoring value"
    );
}

// diff_watch_interval_ms

#[test]
fn should_parse_diff_watch_interval_ms() {
    let outcome = parse_config("diff_watch_interval_ms = 250\n");
    assert_eq!(
        outcome
            .config
            .as_ref()
            .and_then(|cfg| cfg.diff_watch_interval_ms),
        Some(250)
    );
    assert!(outcome.warnings.is_empty());
}

/// Unlike `review_watch_interval_ms`, this feature must default to off:
/// an absent key must parse to `None`, not a positive interval.
#[test]
fn should_default_diff_watch_interval_ms_to_none_when_absent() {
    let outcome = parse_config("theme = \"dark\"\n");
    assert_eq!(
        outcome
            .config
            .as_ref()
            .and_then(|cfg| cfg.diff_watch_interval_ms),
        None
    );
}

#[test]
fn should_parse_zero_diff_watch_interval_ms_to_allow_disable() {
    let outcome = parse_config("diff_watch_interval_ms = 0\n");
    assert_eq!(
        outcome
            .config
            .as_ref()
            .and_then(|cfg| cfg.diff_watch_interval_ms),
        Some(0)
    );
    assert!(outcome.warnings.is_empty());
}

#[test]
fn should_warn_and_ignore_negative_diff_watch_interval_ms() {
    let outcome = parse_config("diff_watch_interval_ms = -1\n");
    assert_eq!(
        outcome
            .config
            .as_ref()
            .and_then(|cfg| cfg.diff_watch_interval_ms),
        None
    );
    assert_eq!(outcome.warnings.len(), 1);
    assert_eq!(
        outcome.warnings[0],
        "Warning: Config key 'diff_watch_interval_ms' must be a non-negative integer; ignoring value"
    );
}

// mouse

#[test]
fn should_parse_mouse_true() {
    let outcome = parse_config("mouse = true\n");
    assert_eq!(
        outcome.config.as_ref().and_then(|cfg| cfg.mouse),
        Some(true)
    );
    assert!(outcome.warnings.is_empty());
}

#[test]
fn should_default_mouse_to_none() {
    let outcome = parse_config("\n");
    assert_eq!(outcome.config.as_ref().and_then(|cfg| cfg.mouse), None);
}

#[test]
fn should_warn_and_ignore_mouse_with_invalid_type() {
    let outcome = parse_config("mouse = \"on\"\n");
    assert_eq!(outcome.config.as_ref().and_then(|cfg| cfg.mouse), None);
    assert_eq!(outcome.warnings.len(), 1);
    assert_eq!(
        outcome.warnings[0],
        "Warning: Config key 'mouse' must be a boolean; ignoring value"
    );
}

// leader

#[test]
fn should_parse_single_character_leader() {
    let outcome = parse_config("leader = \",\"\n");
    assert_eq!(
        outcome.config.as_ref().and_then(|cfg| cfg.leader),
        Some(',')
    );
    assert!(outcome.warnings.is_empty());
}

#[test]
fn should_warn_and_ignore_multi_character_leader() {
    let outcome = parse_config("leader = \",,\"\n");
    assert_eq!(outcome.config.as_ref().and_then(|cfg| cfg.leader), None);
    assert_eq!(outcome.warnings.len(), 1);
    assert_eq!(
        outcome.warnings[0],
        "Warning: Config key 'leader' must be a single character; ignoring value"
    );
}

#[test]
fn should_warn_and_ignore_leader_with_invalid_type() {
    let outcome = parse_config("leader = true\n");
    assert_eq!(outcome.config.as_ref().and_then(|cfg| cfg.leader), None);
    assert_eq!(outcome.warnings.len(), 1);
    assert_eq!(
        outcome.warnings[0],
        "Warning: Config key 'leader' must be a string; ignoring value"
    );
}

// no_update_check

#[test]
fn should_parse_no_update_check_true() {
    let outcome = parse_config("no_update_check = true\n");
    assert_eq!(
        outcome.config.as_ref().and_then(|cfg| cfg.no_update_check),
        Some(true)
    );
    assert!(outcome.warnings.is_empty());
}

#[test]
fn should_parse_no_update_check_false() {
    let outcome = parse_config("no_update_check = false\n");
    assert_eq!(
        outcome.config.as_ref().and_then(|cfg| cfg.no_update_check),
        Some(false)
    );
    assert!(outcome.warnings.is_empty());
}

#[test]
fn should_default_no_update_check_to_none() {
    let outcome = parse_config("\n");
    assert_eq!(
        outcome.config.as_ref().and_then(|cfg| cfg.no_update_check),
        None
    );
    assert!(outcome.warnings.is_empty());
}

#[test]
fn should_warn_and_ignore_no_update_check_with_invalid_type() {
    let outcome = parse_config("no_update_check = \"yes\"\n");
    assert_eq!(
        outcome.config.as_ref().and_then(|cfg| cfg.no_update_check),
        None
    );
    assert_eq!(outcome.warnings.len(), 1);
    assert_eq!(
        outcome.warnings[0],
        "Warning: Config key 'no_update_check' must be a boolean; ignoring value"
    );
}

// export_legend

#[test]
fn should_parse_export_legend_false() {
    let outcome = parse_config("export_legend = false\n");
    assert_eq!(
        outcome.config.as_ref().and_then(|cfg| cfg.export_legend),
        Some(false)
    );
    assert!(outcome.warnings.is_empty());
}

#[test]
fn should_default_export_legend_to_none() {
    let outcome = parse_config("\n");
    assert_eq!(
        outcome.config.as_ref().and_then(|cfg| cfg.export_legend),
        None
    );
}

// scroll_offset

#[test]
fn should_parse_scroll_offset() {
    let outcome = parse_config("scroll_offset = 4\n");
    assert_eq!(
        outcome.config.as_ref().and_then(|cfg| cfg.scroll_offset),
        Some(4)
    );
    assert!(outcome.warnings.is_empty());
}

#[test]
fn should_warn_and_ignore_scroll_offset_with_invalid_type() {
    let outcome = parse_config("scroll_offset = \"four\"\n");
    assert_eq!(
        outcome.config.as_ref().and_then(|cfg| cfg.scroll_offset),
        None
    );
    assert_eq!(outcome.warnings.len(), 1);
}

// comment_types

#[test]
fn should_parse_comment_types_from_array_of_objects() {
    let outcome = parse_config(
        r#"comment_types = [
  { id = "note", label = "question", definition = "ask for clarification", color = "yellow" },
  { id = "issue" }
]"#,
    );
    let comment_types = outcome
        .config
        .as_ref()
        .and_then(|cfg| cfg.comment_types.as_ref())
        .expect("comment types should be set");

    assert_eq!(comment_types.len(), 2);
    assert_eq!(comment_types[0].id, "note");
    assert_eq!(comment_types[0].label.as_deref(), Some("question"));
    assert_eq!(
        comment_types[0].definition.as_deref(),
        Some("ask for clarification")
    );
    assert_eq!(comment_types[0].color.as_deref(), Some("yellow"));
    assert_eq!(comment_types[1].id, "issue");
    assert!(outcome.warnings.is_empty());
}

#[test]
fn should_warn_and_ignore_invalid_comment_type_entries() {
    let outcome = parse_config(
        r#"comment_types = [
  { id = "" },
  { id = "note" },
  { id = "NOTE" },
  42
]"#,
    );
    let comment_types = outcome
        .config
        .as_ref()
        .and_then(|cfg| cfg.comment_types.as_ref())
        .expect("comment types should be set");

    assert_eq!(comment_types.len(), 1);
    assert_eq!(comment_types[0].id, "note");
    assert_eq!(outcome.warnings.len(), 3);
}

// forge

#[test]
fn should_default_forge_to_none_when_section_missing() {
    let outcome = parse_config("");
    assert_eq!(
        outcome.config.as_ref().and_then(|cfg| cfg.forge.clone()),
        None
    );
    assert!(outcome.warnings.is_empty());
}

#[test]
fn should_parse_forge_section_overriding_defaults() {
    let outcome = parse_config(
        r#"[forge]
comment_type_prefix = false
"#,
    );
    let forge = outcome
        .config
        .as_ref()
        .and_then(|cfg| cfg.forge.clone())
        .expect("forge section should parse");
    assert!(!forge.comment_type_prefix);
    assert!(outcome.warnings.is_empty());
}

#[test]
fn should_default_forge_to_none_when_section_is_empty_table() {
    // An empty `[forge]` block does not override anything; downstream
    // consumers fall back to defaults.
    let outcome = parse_config("[forge]\n");
    assert_eq!(
        outcome.config.as_ref().and_then(|cfg| cfg.forge.clone()),
        None
    );
    assert!(outcome.warnings.is_empty());
}

#[test]
fn should_warn_on_unknown_forge_keys() {
    let outcome = parse_config(
        r#"[forge]
comment_type_prefix = false
foo = "bar"
"#,
    );
    let forge = outcome
        .config
        .as_ref()
        .and_then(|cfg| cfg.forge.clone())
        .expect("forge section should parse");
    assert!(!forge.comment_type_prefix);
    assert_eq!(outcome.warnings.len(), 1);
    assert_eq!(
        outcome.warnings[0],
        "Warning: Unknown config key 'forge.foo', ignoring"
    );
}

#[test]
fn should_warn_and_ignore_forge_value_with_wrong_type() {
    let outcome = parse_config(
        r#"[forge]
comment_type_prefix = "yes"
"#,
    );
    // Wrong-type fields fall back to defaults; with no other overrides
    // the section is `None`.
    assert!(
        outcome
            .config
            .as_ref()
            .and_then(|cfg| cfg.forge.clone())
            .is_none()
    );
    assert_eq!(outcome.warnings.len(), 1);
    assert!(
        outcome.warnings[0].contains("forge.comment_type_prefix"),
        "warning should be qualified, got {:?}",
        outcome.warnings[0]
    );
}

#[test]
fn should_warn_when_forge_is_not_a_table() {
    let outcome = parse_config("forge = true\n");
    assert!(
        outcome
            .config
            .as_ref()
            .and_then(|cfg| cfg.forge.clone())
            .is_none()
    );
    assert_eq!(
        outcome.warnings,
        vec!["Warning: Config key 'forge' must be a table; ignoring value".to_string()]
    );
}

#[test]
fn forge_defaults_enable_comment_type_prefix() {
    let cfg = ForgeConfig::default();
    assert!(cfg.comment_type_prefix);
}

#[test]
fn should_warn_and_ignore_invalid_comment_type_color() {
    let outcome = parse_config(
        r#"comment_types = [
  { id = "note", color = "not-a-color" }
]"#,
    );
    let comment_types = outcome
        .config
        .as_ref()
        .and_then(|cfg| cfg.comment_types.as_ref())
        .expect("comment types should be set");

    assert_eq!(comment_types.len(), 1);
    assert_eq!(comment_types[0].id, "note");
    assert_eq!(comment_types[0].color, None);
    assert_eq!(outcome.warnings.len(), 1);
}

// export

#[test]
fn export_accessors_fall_back_to_shipped_defaults() {
    // Locks the defaults to the strings tuicr has always emitted, so a
    // config-layer change cannot silently alter existing exports.
    let cfg = ExportConfig::default();
    assert_eq!(
        cfg.intro(),
        "I reviewed your code and have the following comments. Please address them."
    );
    assert!(cfg.scope_line());
    assert!(cfg.pr_metadata());
    assert_eq!(cfg.comments_header(), "## Local tuicr Comments");
    assert_eq!(cfg.remote_comments_header(), "## Existing GitHub Comments");
    assert!(cfg.legend());
}

#[test]
fn should_default_export_to_none_when_section_missing() {
    let outcome = parse_config("");
    assert_eq!(
        outcome.config.as_ref().and_then(|cfg| cfg.export.clone()),
        None
    );
    assert!(outcome.warnings.is_empty());
}

#[test]
fn should_default_export_to_none_when_section_is_empty_table() {
    let outcome = parse_config("[export]\n");
    assert_eq!(
        outcome.config.as_ref().and_then(|cfg| cfg.export.clone()),
        None
    );
    assert!(outcome.warnings.is_empty());
}

#[test]
fn should_parse_export_section_overriding_defaults() {
    // `r###` because the TOML contains `"##`, which would close `r#"…"#`.
    let outcome = parse_config(
        r###"[export]
intro = "Code review comments:"
scope_line = false
pr_metadata = false
comments_header = "## Comments"
remote_comments_header = "## Upstream"
legend = false
"###,
    );
    let export = outcome
        .config
        .as_ref()
        .and_then(|cfg| cfg.export.clone())
        .expect("export section should parse");
    assert_eq!(export.intro(), "Code review comments:");
    assert!(!export.scope_line());
    assert!(!export.pr_metadata());
    assert_eq!(export.comments_header(), "## Comments");
    assert_eq!(export.remote_comments_header(), "## Upstream");
    assert!(!export.legend());
    assert!(outcome.warnings.is_empty());
}

#[test]
fn should_treat_empty_export_strings_as_explicit_overrides() {
    // An empty string means "omit this line", which is distinct from the
    // key being absent. The accessor must not fall back to the default.
    let outcome = parse_config(
        r#"[export]
intro = ""
comments_header = ""
"#,
    );
    let export = outcome
        .config
        .as_ref()
        .and_then(|cfg| cfg.export.clone())
        .expect("export section should parse");
    assert_eq!(export.intro(), "");
    assert_eq!(export.comments_header(), "");
    assert!(outcome.warnings.is_empty());
}

#[test]
fn should_leave_unset_export_keys_as_none_for_legacy_precedence() {
    // Setting only `intro` must not materialize a `legend` value, or the
    // top-level `export_legend` key would be silently overridden.
    let outcome = parse_config(
        r#"export_legend = false

[export]
intro = "Notes:"
"#,
    );
    let cfg = outcome.config.as_ref().expect("config should parse");
    let export = cfg.export.clone().expect("export section should parse");
    assert_eq!(export.legend, None);
    assert_eq!(cfg.export_legend, Some(false));
    assert!(outcome.warnings.is_empty());
}

#[test]
fn should_warn_on_unknown_export_keys() {
    let outcome = parse_config(
        r#"[export]
intro = "Notes:"
preamble = "typo"
"#,
    );
    let export = outcome
        .config
        .as_ref()
        .and_then(|cfg| cfg.export.clone())
        .expect("export section should parse");
    assert_eq!(export.intro(), "Notes:");
    assert_eq!(
        outcome.warnings,
        vec!["Warning: Unknown config key 'export.preamble', ignoring".to_string()]
    );
}

#[test]
fn should_warn_and_ignore_export_string_with_invalid_type() {
    let outcome = parse_config(
        r#"[export]
intro = 42
"#,
    );
    assert_eq!(
        outcome.config.as_ref().and_then(|cfg| cfg.export.clone()),
        None
    );
    assert_eq!(
        outcome.warnings,
        vec!["Warning: Config key 'export.intro' must be a string; ignoring value".to_string()]
    );
}

#[test]
fn should_warn_and_ignore_export_bool_with_invalid_type() {
    let outcome = parse_config(
        r#"[export]
scope_line = "no"
"#,
    );
    assert_eq!(
        outcome.config.as_ref().and_then(|cfg| cfg.export.clone()),
        None
    );
    assert_eq!(
        outcome.warnings,
        vec![
            "Warning: Config key 'export.scope_line' must be a boolean; ignoring value"
                .to_string()
        ]
    );
}

#[test]
fn should_warn_when_export_is_not_a_table() {
    let outcome = parse_config("export = true\n");
    assert_eq!(
        outcome.config.as_ref().and_then(|cfg| cfg.export.clone()),
        None
    );
    assert_eq!(
        outcome.warnings,
        vec!["Warning: Config key 'export' must be a table; ignoring value".to_string()]
    );
}

// resolved export precedence

#[test]
fn should_default_resolved_export_to_shipped_behavior() {
    let cfg = parse_config("").config.expect("config should parse");
    let export = cfg.resolved_export();
    assert!(export.legend());
    assert!(export.scope_line());
    assert!(export.pr_metadata());
}

#[test]
fn should_resolve_export_legend_from_the_legacy_flat_key() {
    let cfg = parse_config("export_legend = false\n")
        .config
        .expect("config should parse");
    assert!(!cfg.resolved_export().legend());
}

#[test]
fn should_let_export_section_override_the_legacy_legend_key() {
    let cfg = parse_config("export_legend = false\n\n[export]\nlegend = true\n")
        .config
        .expect("config should parse");
    assert!(cfg.resolved_export().legend());
}

#[test]
fn should_keep_legacy_legend_when_export_section_omits_it() {
    // Guards the regression a fully-populated overrides struct would
    // cause: adding `[export]` just to trim the intro must not switch
    // the legend back on.
    let cfg = parse_config("export_legend = false\n\n[export]\nintro = \"\"\n")
        .config
        .expect("config should parse");
    let export = cfg.resolved_export();
    assert!(!export.legend());
    assert_eq!(export.intro(), "");
}

// macros

#[test]
fn should_parse_valid_macro() {
    let outcome = parse_config(
        r#"
[[macros]]
key = "c"
steps = [
  { command = "comment review looks good" },
  { command = "submit approve" },
]
"#,
    );
    let macros = &outcome.config.as_ref().expect("config").macros;
    assert_eq!(macros.len(), 1);
    assert_eq!(macros[0].key, 'c');
    assert_eq!(
        macros[0].steps,
        vec![
            MacroStep::command("comment review looks good"),
            MacroStep::command("submit approve"),
        ]
    );
    assert!(outcome.warnings.is_empty());
}

#[test]
fn should_strip_leading_colon_from_macro_command() {
    let outcome = parse_config(
        r#"
[[macros]]
key = "a"
steps = [{ command = ":submit approve" }]
"#,
    );
    let macros = &outcome.config.as_ref().expect("config").macros;
    assert_eq!(macros[0].steps, vec![MacroStep::command("submit approve")]);
    assert!(outcome.warnings.is_empty());
}

#[test]
fn should_warn_and_ignore_multi_character_macro_key() {
    let outcome = parse_config(
        r#"
[[macros]]
key = "ca"
steps = [{ command = "help" }]
"#,
    );
    assert!(outcome.config.as_ref().expect("config").macros.is_empty());
    assert!(
        outcome
            .warnings
            .iter()
            .any(|w| w.contains("must be a single character"))
    );
}

#[test]
fn should_warn_and_ignore_reserved_at_macro_key() {
    let outcome = parse_config(
        r#"
[[macros]]
key = "@"
steps = [{ command = "help" }]
"#,
    );
    assert!(outcome.config.as_ref().expect("config").macros.is_empty());
    assert!(
        outcome
            .warnings
            .iter()
            .any(|w| w.contains("cannot be '@'"))
    );
}

#[test]
fn should_let_later_duplicate_macro_key_win() {
    let outcome = parse_config(
        r#"
[[macros]]
key = "c"
steps = [{ command = "comment review first" }]

[[macros]]
key = "c"
steps = [{ command = "comment review second" }]
"#,
    );
    let macros = &outcome.config.as_ref().expect("config").macros;
    assert_eq!(macros.len(), 1);
    assert_eq!(
        macros[0].steps,
        vec![MacroStep::command("comment review second")]
    );
    assert!(
        outcome
            .warnings
            .iter()
            .any(|w| w.contains("Duplicate macro key 'c'"))
    );
}

#[test]
fn should_warn_on_unknown_macro_step_field_and_keep_known() {
    let outcome = parse_config(
        r#"
[[macros]]
key = "x"
steps = [{ command = "help", typo = true }]
"#,
    );
    let macros = &outcome.config.as_ref().expect("config").macros;
    assert_eq!(macros[0].steps, vec![MacroStep::command("help")]);
    assert!(
        outcome
            .warnings
            .iter()
            .any(|w| w.contains("Unknown key 'macros[0].steps[0].typo'"))
    );
}

#[test]
fn should_parse_explicit_action_form() {
    let outcome = parse_config(
        r#"
[[macros]]
key = "c"
steps = [
  { action = "command", cmd = "comment review looks good" },
  { action = "command", cmd = "submit approve" },
]
"#,
    );
    let macros = &outcome.config.as_ref().expect("config").macros;
    assert_eq!(
        macros[0].steps,
        vec![
            MacroStep::command("comment review looks good"),
            MacroStep::command("submit approve"),
        ]
    );
    assert!(outcome.warnings.is_empty());
}

#[test]
fn should_warn_on_unknown_macro_action() {
    let outcome = parse_config(
        r#"
[[macros]]
key = "c"
steps = [{ action = "fly_to_moon", fuel = "lots" }]
"#,
    );
    assert!(outcome.config.as_ref().expect("config").macros.is_empty());
    assert!(
        outcome
            .warnings
            .iter()
            .any(|w| w.contains("unknown value \"fly_to_moon\""))
    );
}

#[test]
fn should_warn_on_removed_add_review_comment_step() {
    let outcome = parse_config(
        r#"
[[macros]]
key = "c"
steps = [{ add_review_comment = "looks good" }]
"#,
    );
    assert!(outcome.config.as_ref().expect("config").macros.is_empty());
    assert!(
        outcome
            .warnings
            .iter()
            .any(|w| w.contains("must be exactly one of action=… or command=…"))
    );
}

#[test]
fn should_default_macros_to_empty() {
    let outcome = parse_config("theme = \"dark\"\n");
    assert!(outcome.config.as_ref().expect("config").macros.is_empty());
}

#[test]
fn should_keep_case_sensitive_macro_keys_distinct() {
    let outcome = parse_config(
        r#"
[[macros]]
key = "c"
steps = [{ command = "help" }]

[[macros]]
key = "C"
steps = [{ command = "version" }]
"#,
    );
    let macros = &outcome.config.as_ref().expect("config").macros;
    assert_eq!(macros.len(), 2);
    assert_eq!(macros[0].key, 'c');
    assert_eq!(macros[1].key, 'C');
    assert!(outcome.warnings.is_empty());
}
