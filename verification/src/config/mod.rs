//! The configuration model: what a config file can set, its defaults, and
//! how the `[export]` section layers over the older top-level key.

use vstd::prelude::*;

pub mod read;
pub mod sections;
pub mod comment_types;
pub mod macros;
pub mod load;

verus! {

/// The leader key used when the config sets none.
pub const DEFAULT_LEADER_KEY: char = ';';

/// The view of an optional string.
pub open spec fn opt_view(o: Option<String>) -> Option<Seq<char>> {
    match o {
        Some(s) => Some(s@),
        None => None,
    }
}

/// A copy of an optional string.
pub fn copy_opt(o: &Option<String>) -> (r: Option<String>)
    ensures
        r == *o,
{
    match o {
        Some(s) => Some(s.clone()),
        None => None,
    }
}

/// A user-defined comment classification.
#[derive(Debug, Clone, Default, PartialEq, Eq)]
pub struct CommentTypeConfig {
    pub id: String,
    pub label: Option<String>,
    pub definition: Option<String>,
    pub color: Option<String>,
}

pub struct CommentTypeView {
    pub id: Seq<char>,
    pub label: Option<Seq<char>>,
    pub definition: Option<Seq<char>>,
    pub color: Option<Seq<char>>,
}

impl View for CommentTypeConfig {
    type V = CommentTypeView;

    open spec fn view(&self) -> CommentTypeView {
        CommentTypeView {
            id: self.id@,
            label: opt_view(self.label),
            definition: opt_view(self.definition),
            color: opt_view(self.color),
        }
    }
}

/// The closed set of actions supported by config-defined macros.
///
/// Each variant owns its required, typed parameters so malformed actions
/// cannot reach the runner.
#[derive(Debug, PartialEq, Eq)]
pub enum MacroAction {
    Command { command: String },
}

/// The action name of a macro step, parsed from the `action` config key.
#[derive(Debug, Clone, Copy, PartialEq, Eq)]
pub enum MacroActionKind {
    Command,
}

/// One step in a config-defined `@` macro.
#[derive(Debug, PartialEq, Eq)]
pub struct MacroStep {
    pub action: MacroAction,
}

impl View for MacroStep {
    /// The colon command the step runs.
    type V = Seq<char>;

    open spec fn view(&self) -> Seq<char> {
        match self.action {
            MacroAction::Command { command } => command@,
        }
    }
}

impl Clone for MacroStep {
    fn clone(&self) -> (r: Self)
        ensures
            r == *self,
    {
        match &self.action {
            MacroAction::Command { command } => MacroStep {
                action: MacroAction::Command { command: command.clone() },
            },
        }
    }
}

impl MacroStep {
    /// A step that runs the colon command `cmd`.
    pub fn command(cmd: &str) -> (r: MacroStep)
        ensures
            r@ == cmd@,
    {
        MacroStep { action: MacroAction::Command { command: crate::text::owned(cmd) } }
    }

    /// The colon command this step runs.
    pub fn command_text(&self) -> (r: &str)
        ensures
            r@ == self@,
    {
        match &self.action {
            MacroAction::Command { command } => command.as_str(),
        }
    }
}

/// The commands of a sequence of steps.
pub open spec fn step_views(steps: Seq<MacroStep>) -> Seq<Seq<char>> {
    steps.map_values(|s: MacroStep| s@)
}

/// A copy of a sequence of steps.
pub fn copy_steps(steps: &Vec<MacroStep>) -> (r: Vec<MacroStep>)
    ensures
        r@ == steps@,
{
    let mut r: Vec<MacroStep> = Vec::new();
    let mut k: usize = 0;
    while k < steps.len()
        invariant
            k <= steps@.len(),
            r@ == steps@.subrange(0, k as int),
        decreases steps@.len() - k,
    {
        r.push(steps[k].clone());
        k = k + 1;
        assert(r@ =~= steps@.subrange(0, k as int));
    }
    assert(steps@.subrange(0, k as int) =~= steps@);
    r
}

/// A user-defined macro bound to a single-character register (`@c`).
#[derive(Debug, PartialEq, Eq)]
pub struct MacroConfig {
    pub key: char,
    pub steps: Vec<MacroStep>,
}

impl Clone for MacroConfig {
    fn clone(&self) -> (r: Self)
        ensures
            r.key == self.key,
            r.steps@ == self.steps@,
    {
        MacroConfig { key: self.key, steps: copy_steps(&self.steps) }
    }
}

/// `[forge]` section settings.
#[derive(Debug, Clone, Copy, PartialEq, Eq)]
pub struct ForgeConfig {
    /// Prepend `[TYPE] ` to inline review comment bodies on submit.
    pub comment_type_prefix: bool,
}

impl Default for ForgeConfig {
    fn default() -> (r: Self)
        ensures
            r.comment_type_prefix,
    {
        ForgeConfig { comment_type_prefix: true }
    }
}

/// The intro line used when `[export]` sets none.
pub const DEFAULT_EXPORT_INTRO: &'static str =
    "I reviewed your code and have the following comments. Please address them.";

/// The heading above local comments used when `[export]` sets none.
pub const DEFAULT_EXPORT_COMMENTS_HEADER: &'static str = "## Local tuicr Comments";

/// The heading above remote threads used when `[export]` sets none.
pub const DEFAULT_EXPORT_REMOTE_COMMENTS_HEADER: &'static str = "## Existing GitHub Comments";

/// `[export]` section settings shaping the generated review markdown.
///
/// Every field is optional so "unset" stays distinguishable from "set to the
/// default".
#[derive(Debug, PartialEq, Eq)]
pub struct ExportConfig {
    /// Intro line above the comment list. An empty string omits it.
    pub intro: Option<String>,
    /// Whether to emit the `Reviewing <scope>` line.
    pub scope_line: Option<bool>,
    /// Whether to emit the `URL:`/`Head:` lines in pull request mode.
    pub pr_metadata: Option<bool>,
    /// Heading above locally authored comments. An empty string omits it.
    pub comments_header: Option<String>,
    /// Heading above unresolved remote threads. An empty string omits it.
    pub remote_comments_header: Option<String>,
    /// Whether to emit the `Comment types:` legend.
    pub legend: Option<bool>,
}

pub struct ExportView {
    pub intro: Option<Seq<char>>,
    pub scope_line: Option<bool>,
    pub pr_metadata: Option<bool>,
    pub comments_header: Option<Seq<char>>,
    pub remote_comments_header: Option<Seq<char>>,
    pub legend: Option<bool>,
}

impl View for ExportConfig {
    type V = ExportView;

    open spec fn view(&self) -> ExportView {
        ExportView {
            intro: opt_view(self.intro),
            scope_line: self.scope_line,
            pr_metadata: self.pr_metadata,
            comments_header: opt_view(self.comments_header),
            remote_comments_header: opt_view(self.remote_comments_header),
            legend: self.legend,
        }
    }
}

/// The export settings with nothing set.
pub open spec fn unset_export() -> ExportView {
    ExportView {
        intro: None,
        scope_line: None,
        pr_metadata: None,
        comments_header: None,
        remote_comments_header: None,
        legend: None,
    }
}

impl Default for ExportConfig {
    fn default() -> (r: Self)
        ensures
            r@ == unset_export(),
    {
        ExportConfig {
            intro: None,
            scope_line: None,
            pr_metadata: None,
            comments_header: None,
            remote_comments_header: None,
            legend: None,
        }
    }
}

impl Clone for ExportConfig {
    fn clone(&self) -> (r: Self)
        ensures
            r == *self,
    {
        ExportConfig {
            intro: copy_opt(&self.intro),
            scope_line: self.scope_line,
            pr_metadata: self.pr_metadata,
            comments_header: copy_opt(&self.comments_header),
            remote_comments_header: copy_opt(&self.remote_comments_header),
            legend: self.legend,
        }
    }
}

/// A string setting, or `default` where it is unset.
pub open spec fn or_default(o: Option<Seq<char>>, default: Seq<char>) -> Seq<char> {
    match o {
        Some(s) => s,
        None => default,
    }
}

/// A flag setting, or `true` where it is unset.
pub open spec fn or_true(o: Option<bool>) -> bool {
    match o {
        Some(b) => b,
        None => true,
    }
}

impl ExportConfig {
    /// The intro line; the shipped default where unset.
    pub fn intro(&self) -> (r: &str)
        ensures
            r@ == or_default(self@.intro, DEFAULT_EXPORT_INTRO@),
    {
        match &self.intro {
            Some(s) => s.as_str(),
            None => DEFAULT_EXPORT_INTRO,
        }
    }

    /// Whether to emit the scope line; `true` where unset.
    pub fn scope_line(&self) -> (r: bool)
        ensures
            r == or_true(self.scope_line),
    {
        match self.scope_line {
            Some(b) => b,
            None => true,
        }
    }

    /// Whether to emit pull request metadata; `true` where unset.
    pub fn pr_metadata(&self) -> (r: bool)
        ensures
            r == or_true(self.pr_metadata),
    {
        match self.pr_metadata {
            Some(b) => b,
            None => true,
        }
    }

    /// The local comments heading; the shipped default where unset.
    pub fn comments_header(&self) -> (r: &str)
        ensures
            r@ == or_default(self@.comments_header, DEFAULT_EXPORT_COMMENTS_HEADER@),
    {
        match &self.comments_header {
            Some(s) => s.as_str(),
            None => DEFAULT_EXPORT_COMMENTS_HEADER,
        }
    }

    /// The remote threads heading; the shipped default where unset.
    pub fn remote_comments_header(&self) -> (r: &str)
        ensures
            r@ == or_default(self@.remote_comments_header, DEFAULT_EXPORT_REMOTE_COMMENTS_HEADER@),
    {
        match &self.remote_comments_header {
            Some(s) => s.as_str(),
            None => DEFAULT_EXPORT_REMOTE_COMMENTS_HEADER,
        }
    }

    /// Whether to emit the comment type legend; `true` where unset.
    pub fn legend(&self) -> (r: bool)
        ensures
            r == or_true(self.legend),
    {
        match self.legend {
            Some(b) => b,
            None => true,
        }
    }
}


/// The views of a list of comment types.
pub open spec fn comment_type_views(v: Seq<CommentTypeConfig>) -> Seq<CommentTypeView> {
    v.map_values(|c: CommentTypeConfig| c@)
}

/// The view of a macro: its register and the commands of its steps.
pub open spec fn macro_view(m: MacroConfig) -> (char, Seq<Seq<char>>) {
    (m.key, step_views(m.steps@))
}

/// The views of a list of macros.
pub open spec fn macro_views(v: Seq<MacroConfig>) -> Seq<(char, Seq<Seq<char>>)> {
    v.map_values(|m: MacroConfig| macro_view(m))
}

/// Everything a config file can set.
#[derive(Debug, Clone, Default, PartialEq, Eq)]
pub struct AppConfig {
    pub theme: Option<String>,
    pub theme_dark: Option<String>,
    pub theme_light: Option<String>,
    pub appearance: Option<String>,
    pub backend: Option<String>,
    pub comment_types: Option<Vec<CommentTypeConfig>>,
    pub show_file_list: Option<bool>,
    /// Whether pull-request CI checks are fetched and shown.
    pub show_pr_checks: Option<bool>,
    /// Whether pull-request conversation comments are fetched and shown.
    pub show_pr_comments: Option<bool>,
    /// Whether the inline commit selector pane is visible on startup.
    pub show_commits: Option<bool>,
    /// Whether files already marked reviewed appear in the file tree.
    pub show_reviewed: Option<bool>,
    pub diff_view: Option<String>,
    /// Inline commit selector display order: `"descending"` or `"ascending"`.
    pub commit_order: Option<String>,
    /// Which commits are selected when a multi-commit review first opens:
    /// `"all"` or `"oldest"`.
    pub initial_commit_selection: Option<String>,
    pub ignore_whitespace: Option<bool>,
    pub wrap: Option<bool>,
    pub relative_line_numbers: Option<bool>,
    pub export_legend: Option<bool>,
    pub cursor_line: Option<bool>,
    pub search_highlight: Option<bool>,
    pub mouse: Option<bool>,
    /// Vim-style modal editing in the review comment text box.
    pub comment_vim: Option<bool>,
    /// Number of spaces inserted by Tab in the vim comment box.
    pub comment_tab_width: Option<usize>,
    pub leader: Option<char>,
    pub transparent_background: Option<bool>,
    pub scroll_offset: Option<usize>,
    pub review_watch_interval_ms: Option<usize>,
    /// Off when unset or `0`.
    pub diff_watch_interval_ms: Option<usize>,
    pub no_update_check: Option<bool>,
    /// Render single-file and pristine views in full-width mode by default.
    pub single_file_view: Option<bool>,
    /// Display name stamped on comments authored locally.
    pub username: Option<String>,
    /// `[forge]` section settings; `None` means "no override".
    pub forge: Option<ForgeConfig>,
    /// `[export]` section settings; `None` means "no override".
    pub export: Option<ExportConfig>,
    /// Config-defined macros executed with `@` + register.
    pub macros: Vec<MacroConfig>,
}

pub struct AppConfigView {
    pub theme: Option<Seq<char>>,
    pub theme_dark: Option<Seq<char>>,
    pub theme_light: Option<Seq<char>>,
    pub appearance: Option<Seq<char>>,
    pub backend: Option<Seq<char>>,
    pub comment_types: Option<Seq<CommentTypeView>>,
    pub show_file_list: Option<bool>,
    pub show_pr_checks: Option<bool>,
    pub show_pr_comments: Option<bool>,
    pub show_commits: Option<bool>,
    pub show_reviewed: Option<bool>,
    pub diff_view: Option<Seq<char>>,
    pub commit_order: Option<Seq<char>>,
    pub initial_commit_selection: Option<Seq<char>>,
    pub ignore_whitespace: Option<bool>,
    pub wrap: Option<bool>,
    pub relative_line_numbers: Option<bool>,
    pub export_legend: Option<bool>,
    pub cursor_line: Option<bool>,
    pub search_highlight: Option<bool>,
    pub mouse: Option<bool>,
    pub comment_vim: Option<bool>,
    pub comment_tab_width: Option<usize>,
    pub leader: Option<char>,
    pub transparent_background: Option<bool>,
    pub scroll_offset: Option<usize>,
    pub review_watch_interval_ms: Option<usize>,
    pub diff_watch_interval_ms: Option<usize>,
    pub no_update_check: Option<bool>,
    pub single_file_view: Option<bool>,
    pub username: Option<Seq<char>>,
    pub forge: Option<ForgeConfig>,
    pub export: Option<ExportView>,
    pub macros: Seq<(char, Seq<Seq<char>>)>,
}

impl View for AppConfig {
    type V = AppConfigView;

    open spec fn view(&self) -> AppConfigView {
        AppConfigView {
            theme: opt_view(self.theme),
            theme_dark: opt_view(self.theme_dark),
            theme_light: opt_view(self.theme_light),
            appearance: opt_view(self.appearance),
            backend: opt_view(self.backend),
            comment_types: match self.comment_types {
                Some(v) => Some(comment_type_views(v@)),
                None => None,
            },
            show_file_list: self.show_file_list,
            show_pr_checks: self.show_pr_checks,
            show_pr_comments: self.show_pr_comments,
            show_commits: self.show_commits,
            show_reviewed: self.show_reviewed,
            diff_view: opt_view(self.diff_view),
            commit_order: opt_view(self.commit_order),
            initial_commit_selection: opt_view(self.initial_commit_selection),
            ignore_whitespace: self.ignore_whitespace,
            wrap: self.wrap,
            relative_line_numbers: self.relative_line_numbers,
            export_legend: self.export_legend,
            cursor_line: self.cursor_line,
            search_highlight: self.search_highlight,
            mouse: self.mouse,
            comment_vim: self.comment_vim,
            comment_tab_width: self.comment_tab_width,
            leader: self.leader,
            transparent_background: self.transparent_background,
            scroll_offset: self.scroll_offset,
            review_watch_interval_ms: self.review_watch_interval_ms,
            diff_watch_interval_ms: self.diff_watch_interval_ms,
            no_update_check: self.no_update_check,
            single_file_view: self.single_file_view,
            username: opt_view(self.username),
            forge: self.forge,
            export: match self.export {
                Some(e) => Some(e@),
                None => None,
            },
            macros: macro_views(self.macros@),
        }
    }
}

/// The effective export settings: `[export]` where it names a key, the
/// shipped default otherwise, with the legend falling back to the older
/// top-level `export_legend` where `[export]` does not name it.
pub open spec fn resolved_export_view(c: AppConfigView) -> ExportView {
    let e = match c.export {
        Some(e) => e,
        None => unset_export(),
    };
    ExportView {
        legend: match e.legend {
            Some(b) => Some(b),
            None => c.export_legend,
        },
        ..e
    }
}

/// The effective export settings take each key from `[export]` where the
/// section sets it and leave it unset otherwise, except the legend, which
/// falls back to the top-level `export_legend` where `[export]` does not set
/// it.
pub proof fn lemma_resolved_export_precedence(c: AppConfigView)
    ensures
        ({
            let r = resolved_export_view(c);
            &&& c.export matches Some(e) ==> r.intro == e.intro && r.scope_line == e.scope_line
                && r.pr_metadata == e.pr_metadata && r.comments_header == e.comments_header
                && r.remote_comments_header == e.remote_comments_header
            &&& c.export is None ==> r.intro is None && r.scope_line is None && r.pr_metadata is None
                && r.comments_header is None && r.remote_comments_header is None
            &&& (c.export matches Some(e) && e.legend is Some) ==> r.legend == c.export.unwrap().legend
            &&& !(c.export matches Some(e) && e.legend is Some) ==> r.legend == c.export_legend
        }),
{
}

/// An unset export setting reads as the shipped default: the standard intro
/// and headings, and every line switched on; a set one reads as set.
pub proof fn lemma_export_defaults(e: ExportView)
    ensures
        e.intro is None ==> or_default(e.intro, DEFAULT_EXPORT_INTRO@)
            == "I reviewed your code and have the following comments. Please address them."@,
        e.comments_header is None ==> or_default(e.comments_header, DEFAULT_EXPORT_COMMENTS_HEADER@)
            == "## Local tuicr Comments"@,
        e.remote_comments_header is None ==> or_default(
            e.remote_comments_header,
            DEFAULT_EXPORT_REMOTE_COMMENTS_HEADER@,
        ) == "## Existing GitHub Comments"@,
        e.intro is Some ==> or_default(e.intro, DEFAULT_EXPORT_INTRO@) == e.intro.unwrap(),
        e.comments_header is Some ==> or_default(e.comments_header, DEFAULT_EXPORT_COMMENTS_HEADER@)
            == e.comments_header.unwrap(),
        e.remote_comments_header is Some ==> or_default(
            e.remote_comments_header,
            DEFAULT_EXPORT_REMOTE_COMMENTS_HEADER@,
        ) == e.remote_comments_header.unwrap(),
        or_true(e.scope_line) == (e.scope_line != Some(false)),
        or_true(e.pr_metadata) == (e.pr_metadata != Some(false)),
        or_true(e.legend) == (e.legend != Some(false)),
{
}

impl AppConfig {
    /// Effective export settings, layering `[export]` over the older
    /// top-level `export_legend`.
    ///
    /// `[export]` wins only for keys it actually names.
    pub fn resolved_export(&self) -> (r: ExportConfig)
        ensures
            r@ == resolved_export_view(self@),
    {
        let mut export = match &self.export {
            Some(e) => e.clone(),
            None => ExportConfig::default(),
        };
        if export.legend.is_none() {
            export.legend = self.export_legend;
        }
        export
    }
}

/// What loading a config yields: the settings (none where no file exists)
/// and the warnings about everything that was ignored.
#[derive(Debug, Clone, Default, PartialEq, Eq)]
pub struct ConfigLoadOutcome {
    pub config: Option<AppConfig>,
    pub warnings: Vec<String>,
}

} // verus!
