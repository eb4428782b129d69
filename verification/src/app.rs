//! Config-defined `@` macros on the running review session.
//!
//! A macro is a list of colon commands bound to a one-character register.
//! Running it runs the commands in order and stops at the first one that
//! fails or that leaves normal mode. The commands themselves are carried out
//! by a [`ColonCommandRunner`].

use vstd::prelude::*;
use crate::config::macros::{distinct, keys_of, upsert};
use crate::config::read::cat;
use crate::config::{copy_steps, macro_views, step_views, MacroConfig, MacroStep};
use crate::text::{char_text, owned};

verus! {

/// What the keyboard currently drives.
#[derive(Debug, Clone, Copy, PartialEq, Eq, Structural)]
pub enum InputMode {
    Normal,
    Help,
    SubmitConfirm,
}

/// How a status message is shown.
#[derive(Debug, Clone, Copy, PartialEq, Eq, Structural)]
pub enum MessageKind {
    Info,
    Warning,
    Error,
}

/// A status message.
#[derive(Debug, Clone, PartialEq, Eq)]
pub struct Message {
    pub kind: MessageKind,
    pub text: String,
}

/// The review session's macro state.
pub struct App {
    macros: Vec<MacroConfig>,
    pending_at: bool,
    last_macro_register: Option<char>,
    input_mode: InputMode,
    message: Option<Message>,
}

/// The abstract state of an [`App`].
pub struct AppView {
    /// The loaded macros, each register once.
    pub macros: Seq<(char, Seq<Seq<char>>)>,
    /// Whether `@` was pressed and a register is awaited.
    pub pending_at: bool,
    pub last_macro_register: Option<char>,
    pub input_mode: InputMode,
    pub message: Option<(MessageKind, Seq<char>)>,
}

impl View for App {
    type V = AppView;

    closed spec fn view(&self) -> AppView {
        AppView {
            macros: macro_views(self.macros@),
            pending_at: self.pending_at,
            last_macro_register: self.last_macro_register,
            input_mode: self.input_mode,
            message: match self.message {
                Some(m) => Some((m.kind, m.text@)),
                None => None,
            },
        }
    }
}

/// The commands of the macro bound to `k` in `ms`, if any.
pub open spec fn macro_lookup(ms: Seq<(char, Seq<Seq<char>>)>, k: char) -> Option<Seq<Seq<char>>>
    decreases ms.len(),
{
    if ms.len() == 0 {
        None
    } else if ms[0].0 == k {
        Some(ms[0].1)
    } else {
        macro_lookup(ms.drop_first(), k)
    }
}

/// The macros that loading `ms` in order leaves: each register bound to its
/// last definition, at the place of its first.
pub open spec fn loaded(ms: Seq<(char, Seq<Seq<char>>)>) -> Seq<(char, Seq<Seq<char>>)>
    decreases ms.len(),
{
    if ms.len() == 0 {
        seq![]
    } else {
        upsert(loaded(ms.drop_last()), ms.last().0, ms.last().1)
    }
}

/// The commands of the last macro in `ms` bound to `k`, if any.
pub open spec fn last_binding(ms: Seq<(char, Seq<Seq<char>>)>, k: char) -> Option<Seq<Seq<char>>>
    decreases ms.len(),
{
    if ms.len() == 0 {
        None
    } else if ms.last().0 == k {
        Some(ms.last().1)
    } else {
        last_binding(ms.drop_last(), k)
    }
}

/// The warning for a register with no macro.
pub open spec fn no_macro_warning(register: char) -> Seq<char> {
    "No macro defined for @"@ + seq![register]
}

/// `app` with `message` shown as a warning.
pub open spec fn with_warning(app: AppView, text: Seq<char>) -> AppView {
    AppView { message: Some((MessageKind::Warning, text)), ..app }
}

/// Whether a macro goes on after a step that returned `succeeded` and left
/// the session in `mode`.
pub open spec fn continues(succeeded: bool, mode: InputMode) -> bool {
    succeeded && mode == InputMode::Normal
}

/// Decides whether a macro goes on after a step: only a step that succeeded
/// and left normal mode lets the next one run.
pub fn macro_continues(succeeded: bool, mode: InputMode) -> (r: bool)
    ensures
        r == continues(succeeded, mode),
{
    succeeded && mode == InputMode::Normal
}

/// What one step of a macro did.
pub struct StepOutcome {
    /// The colon command handed to the runner.
    pub command: String,
    /// What the runner returned.
    pub succeeded: bool,
    /// The input mode after the command.
    pub mode_after: InputMode,
}

/// What running a macro did.
pub struct MacroRun {
    /// Whether a macro was bound to the register.
    pub started: bool,
    /// The steps that ran, in order.
    pub steps: Vec<StepOutcome>,
}

/// One call of a [`ColonCommandRunner`]: the session it was handed, the
/// command, what it answered, and the session it left.
pub struct CommandCall {
    pub before: AppView,
    pub command: Seq<char>,
    pub succeeded: bool,
    pub after: AppView,
}

/// Carries out colon commands on the session.
///
/// An implementation keeps a log of its calls; each call adds itself to the
/// log and leaves the runner's fixed part as it was, which is all this
/// library asks of it.
pub trait ColonCommandRunner {
    /// The part of a runner that its calls leave as it is.
    type Fixed;

    /// That part of this runner.
    spec fn fixed(&self) -> Self::Fixed;

    /// Every call made so far, in order.
    spec fn calls(&self) -> Seq<CommandCall>;

    /// Runs the colon command `command`; `false` where it failed.
    fn run_colon_command(&mut self, app: &mut App, command: &str) -> (r: bool)
        ensures
            final(self).calls() == old(self).calls().push(
                CommandCall { before: old(app)@, command: command@, succeeded: r, after: final(app)@ },
            ),
            final(self).fixed() == old(self).fixed(),
    ;
}

/// A [`ColonCommandRunner`] made of a function that carries out one colon
/// command: it takes the session and the command and gives back the session
/// and whether the command succeeded. It keeps the log of its calls itself.
pub struct CommandFn<F: Fn(App, &str) -> (App, bool)> {
    run: F,
    log: Ghost<Seq<CommandCall>>,
}

impl<F: Fn(App, &str) -> (App, bool)> CommandFn<F> {
    /// A runner that hands each command to `run`, with no calls yet.
    pub fn new(run: F) -> (r: Self)
        requires
            forall|app: App, command: &str| #[trigger] run.requires((app, command)),
        ensures
            r.calls() == Seq::<CommandCall>::empty(),
            r.fixed() == run,
    {
        CommandFn { run, log: Ghost(Seq::empty()) }
    }

    /// Every call of `run` may be made, and each logged call is one that
    /// `run` can make.
    #[verifier::type_invariant]
    spec fn well_formed(&self) -> bool {
        &&& forall|app: App, command: &str| #[trigger] self.run.requires((app, command))
        &&& forall|i: int| 0 <= i < self.log@.len() ==> call_by(self.run, #[trigger] self.log@[i])
    }

    /// Each call in the log is one that the runner's function can make: its
    /// answer and the session it left are an outcome that the function's
    /// contract allows for the session and command it was handed.
    pub fn calls_follow_run(&self)
        ensures
            forall|i: int| 0 <= i < self.calls().len() ==> call_by(self.fixed(), #[trigger] self.calls()[i]),
    {
        proof {
            use_type_invariant(self);
        }
    }
}

/// `call` is an outcome of `run`: some session and command with the views
/// `call` records, handed to `run`, may give back a session with the view
/// `call.after` and the answer `call.succeeded`.
pub open spec fn call_by<F: Fn(App, &str) -> (App, bool)>(run: F, call: CommandCall) -> bool {
    exists|a: App, b: App, command: &str|
        #![trigger call_ensures(run, (a, command), (b, call.succeeded))]
        a@ == call.before && b@ == call.after && command@ == call.command && call_ensures(
            run,
            (a, command),
            (b, call.succeeded),
        )
}

impl<F: Fn(App, &str) -> (App, bool)> ColonCommandRunner for CommandFn<F> {
    /// The function that carries out the commands.
    type Fixed = F;

    closed spec fn fixed(&self) -> F {
        self.run
    }

    closed spec fn calls(&self) -> Seq<CommandCall> {
        self.log@
    }

    fn run_colon_command(&mut self, app: &mut App, command: &str) -> (r: bool)
        ensures
            call_ensures(old(self).fixed(), (*old(app), command), (*final(app), r)),
    {
        proof {
            use_type_invariant(&*self);
        }
        let mut taken = App::new();
        std::mem::swap(&mut taken, app);
        let ghost before = taken@;
        let ghost handed = taken;
        let (back, r) = (self.run)(taken, command);
        *app = back;
        proof {
            let call = CommandCall { before, command: command@, succeeded: r, after: app@ };
            assert(call_by(self.run, call)) by {
                assert(call_ensures(self.run, (handed, command), (*app, r)));
            }
            let old_log = self.log@;
            self.log@ = self.log@.push(call);
            assert forall|i: int| 0 <= i < self.log@.len() implies call_by(self.run, #[trigger] self.log@[i]) by {
                if i < old_log.len() {
                    assert(self.log@[i] == old_log[i]);
                }
            }
        }
        r
    }
}

/// `log` is `earlier` with more calls after it.
pub open spec fn extends(log: Seq<CommandCall>, earlier: Seq<CommandCall>) -> bool {
    earlier.len() <= log.len() && log.subrange(0, earlier.len() as int) == earlier
}

/// The calls of `log` made after those of `earlier`.
pub open spec fn calls_since(log: Seq<CommandCall>, earlier: Seq<CommandCall>) -> Seq<CommandCall> {
    log.subrange(earlier.len() as int, log.len() as int)
}

/// The steps `run` took are those a macro with `steps` takes: a prefix of
/// `steps`, non-empty where `steps` is, each but the last letting the macro
/// go on, and the last stopping it unless it was the last step.
pub open spec fn run_follows(run: Seq<StepOutcome>, steps: Seq<Seq<char>>) -> bool {
    &&& run.len() <= steps.len()
    &&& steps.len() > 0 ==> run.len() > 0
    &&& forall|i: int| 0 <= i < run.len() ==> (#[trigger] run[i]).command@ == steps[i]
    &&& forall|i: int| 0 <= i < run.len() - 1 ==> continues(#[trigger] run[i].succeeded, run[i].mode_after)
    &&& run.len() < steps.len() ==> !continues(run.last().succeeded, run.last().mode_after)
}

/// The session once the macro bound to `register` has started: it is the
/// last macro and no `@` is pending.
pub open spec fn started_state(before: AppView, register: char) -> AppView {
    AppView { last_macro_register: Some(register), pending_at: false, ..before }
}

/// `run` is the record of `calls`: the same commands, each step's answer
/// the call's answer and its mode the mode the call left; the first call
/// was handed `start`, each later one the session the one before left, and
/// the session ends as the last call left it (`start` where none was made).
pub open spec fn calls_match(run: Seq<StepOutcome>, calls: Seq<CommandCall>, start: AppView, after: AppView) -> bool {
    &&& calls.len() == run.len()
    &&& forall|i: int|
        0 <= i < calls.len() ==> {
            &&& (#[trigger] calls[i]).command == run[i].command@
            &&& calls[i].succeeded == run[i].succeeded
            &&& calls[i].after.input_mode == run[i].mode_after
        }
    &&& calls.len() > 0 ==> calls[0].before == start
    &&& forall|i: int, j: int|
        #![trigger calls[i], calls[j]]
        0 <= i && j == i + 1 && j < calls.len() ==> calls[j].before == calls[i].after
    &&& after == if calls.len() == 0 {
        start
    } else {
        calls.last().after
    }
}

/// Running the macro bound to `register` from session `before` started
/// (`started`), took the steps `run`, made the runner calls `calls` and left
/// session `after`. Without such a macro: a warning and nothing else. With
/// one: the session is first marked as running it, then its commands go to
/// the runner in order until one fails or leaves normal mode.
pub open spec fn macro_run(
    before: AppView,
    register: char,
    started: bool,
    run: Seq<StepOutcome>,
    calls: Seq<CommandCall>,
    after: AppView,
) -> bool {
    match macro_lookup(before.macros, register) {
        None => {
            &&& !started
            &&& run.len() == 0
            &&& calls.len() == 0
            &&& after == with_warning(before, no_macro_warning(register))
        },
        Some(steps) => {
            &&& started
            &&& run_follows(run, steps)
            &&& calls_match(run, calls, started_state(before, register), after)
        },
    }
}

impl App {
    #[verifier::type_invariant]
    spec fn wf(self) -> bool {
        distinct(keys_of(macro_views(self.macros@)))
    }

    /// A session in normal mode with no macros and no message.
    pub fn new() -> (r: App)
        ensures
            r@ == (AppView {
                macros: seq![],
                pending_at: false,
                last_macro_register: None,
                input_mode: InputMode::Normal,
                message: None,
            }),
    {
        let r = App {
            macros: Vec::new(),
            pending_at: false,
            last_macro_register: None,
            input_mode: InputMode::Normal,
            message: None,
        };
        assert(r@.macros =~= seq![]);
        r
    }

    /// The current input mode.
    pub fn input_mode(&self) -> (r: InputMode)
        ensures
            r == self@.input_mode,
    {
        self.input_mode
    }

    /// Switches the input mode.
    pub fn set_input_mode(&mut self, mode: InputMode)
        ensures
            final(self)@ == (AppView { input_mode: mode, ..old(self)@ }),
    {
        proof {
            use_type_invariant(&*self);
        }
        self.input_mode = mode;
    }

    /// The register of the macro that last started.
    pub fn last_macro_register(&self) -> (r: Option<char>)
        ensures
            r == self@.last_macro_register,
    {
        self.last_macro_register
    }

    /// Whether `@` was pressed and a register is awaited.
    pub fn pending_at(&self) -> (r: bool)
        ensures
            r == self@.pending_at,
    {
        self.pending_at
    }

    /// The status message, if any.
    pub fn message(&self) -> (r: Option<&Message>)
        ensures
            match r {
                Some(m) => self@.message == Some((m.kind, m.text@)),
                None => self@.message is None,
            },
    {
        match &self.message {
            Some(m) => Some(m),
            None => None,
        }
    }

    /// Shows `text` as a warning.
    pub fn set_warning(&mut self, text: String)
        ensures
            final(self)@ == with_warning(old(self)@, text@),
    {
        proof {
            use_type_invariant(&*self);
        }
        self.message = Some(Message { kind: MessageKind::Warning, text });
    }

    /// Shows `text` as an error.
    pub fn set_error(&mut self, text: String)
        ensures
            final(self)@ == (AppView { message: Some((MessageKind::Error, text@)), ..old(self)@ }),
    {
        proof {
            use_type_invariant(&*self);
        }
        self.message = Some(Message { kind: MessageKind::Error, text });
    }

    /// The commands of the macro bound to `register`, if any.
    pub fn macro_steps(&self, register: char) -> (r: Option<Vec<MacroStep>>)
        ensures
            match r {
                Some(s) => macro_lookup(self@.macros, register) == Some(step_views(s@)),
                None => macro_lookup(self@.macros, register) is None,
            },
    {
        let n = self.macros.len();
        let mut i: usize = 0;
        assert(self@.macros.subrange(0, 0 as int) =~= seq![]);
        assert(self@.macros.subrange(0, n as int) =~= self@.macros);
        while i < n
            invariant
                n == self.macros@.len(),
                i <= n,
                macro_lookup(self@.macros, register) == macro_lookup(
                    self@.macros.subrange(i as int, n as int),
                    register,
                ),
            decreases n - i,
        {
            let ghost sub = self@.macros.subrange(i as int, n as int);
            assert(sub[0] == self@.macros[i as int]);
            if self.macros[i].key == register {
                return Some(copy_steps(&self.macros[i].steps));
            }
            assert(sub.drop_first() =~= self@.macros.subrange(i + 1, n as int));
            i = i + 1;
        }
        None
    }

    /// Install macros from config (replaces any previously loaded set).
    pub fn load_macros(&mut self, macros: &[MacroConfig])
        ensures
            final(self)@ == (AppView { macros: loaded(macro_views(macros@)), ..old(self)@ }),
    {
        let mut installed: Vec<MacroConfig> = Vec::new();
        let mut k: usize = 0;
        assert(macro_views(macros@).subrange(0, 0) =~= seq![]);
        assert(macro_views(installed@) =~= seq![]);
        while k < macros.len()
            invariant
                k <= macros@.len(),
                macro_views(installed@) == loaded(macro_views(macros@).subrange(0, k as int)),
                distinct(keys_of(macro_views(installed@))),
            decreases macros@.len() - k,
        {
            let ghost prev = macro_views(macros@).subrange(0, k as int);
            let ghost m0 = macro_views(installed@);
            let m = macros[k].clone();
            let ghost mv = crate::config::macro_view(m);
            assert(mv == macro_views(macros@)[k as int]);
            proof {
                crate::config::macros::lemma_upsert_distinct(m0, mv.0, mv.1);
            }
            install(&mut installed, m);
            k = k + 1;
            proof {
                let cur = macro_views(macros@).subrange(0, k as int);
                assert(cur.drop_last() =~= prev);
                assert(cur.last() == mv);
            }
        }
        assert(macro_views(macros@).subrange(0, k as int) =~= macro_views(macros@));
        self.macros = installed;
    }

    pub fn begin_pending_at(&mut self)
        ensures
            final(self)@ == (AppView { pending_at: true, ..old(self)@ }),
    {
        proof {
            use_type_invariant(&*self);
        }
        self.pending_at = true;
    }

    pub fn clear_pending_at(&mut self)
        ensures
            final(self)@ == (AppView { pending_at: false, ..old(self)@ }),
    {
        proof {
            use_type_invariant(&*self);
        }
        self.pending_at = false;
    }

    /// Starts the macro bound to `register`: records it as the last macro and
    /// clears the pending `@`, then hands back its steps. Without such a
    /// macro, warns and changes nothing else.
    pub fn begin_macro(&mut self, register: char) -> (r: Option<Vec<MacroStep>>)
        ensures
            match macro_lookup(old(self)@.macros, register) {
                Some(steps) => r matches Some(s) && step_views(s@) == steps && final(self)@ == (AppView {
                    last_macro_register: Some(register),
                    pending_at: false,
                    ..old(self)@
                }),
                None => r is None && final(self)@ == with_warning(old(self)@, no_macro_warning(register)),
            },
    {
        proof {
            use_type_invariant(&*self);
        }
        match self.macro_steps(register) {
            None => {
                let text = cat(owned("No macro defined for @"), char_text(register).as_str());
                self.set_warning(text);
                None
            },
            Some(steps) => {
                self.last_macro_register = Some(register);
                self.clear_pending_at();
                Some(steps)
            },
        }
    }

    /// Run the macro bound to `register`, if any, handing its commands to
    /// `runner` in order until one fails or leaves normal mode.
    /// Sets `last_macro_register` when the macro starts (before steps run).
    pub fn run_macro<R: ColonCommandRunner>(&mut self, register: char, runner: &mut R) -> (r: MacroRun)
        ensures
            extends(final(runner).calls(), old(runner).calls()),
            final(runner).fixed() == old(runner).fixed(),
            macro_run(
                old(self)@,
                register,
                r.started,
                r.steps@,
                calls_since(final(runner).calls(), old(runner).calls()),
                final(self)@,
            ),
    {
        let ghost log0 = runner.calls();
        let ghost start = started_state(self@, register);
        let steps = match self.begin_macro(register) {
            Some(s) => s,
            None => {
                assert(calls_since(runner.calls(), log0) =~= Seq::<CommandCall>::empty());
                assert(runner.calls().subrange(0, log0.len() as int) =~= log0);
                return MacroRun { started: false, steps: Vec::new() };
            },
        };
        let ghost sv = step_views(steps@);
        let mut outcomes: Vec<StepOutcome> = Vec::new();
        let mut i: usize = 0;
        assert(runner.calls().subrange(0, log0.len() as int) =~= log0);
        assert(calls_since(runner.calls(), log0) =~= Seq::<CommandCall>::empty());
        while i < steps.len()
            invariant
                sv == step_views(steps@),
                macro_lookup(old(self)@.macros, register) == Some(sv),
                start == started_state(old(self)@, register),
                i <= steps@.len(),
                outcomes@.len() == i,
                forall|j: int| 0 <= j < i ==> (#[trigger] outcomes@[j]).command@ == sv[j],
                forall|j: int| 0 <= j < i ==> continues(#[trigger] outcomes@[j].succeeded, outcomes@[j].mode_after),
                log0 == old(runner).calls(),
                runner.fixed() == old(runner).fixed(),
                extends(runner.calls(), log0),
                calls_match(outcomes@, calls_since(runner.calls(), log0), start, self@),
            decreases steps@.len() - i,
        {
            let command = steps[i].command_text();
            assert(command@ == sv[i as int]);
            let ghost log_before = runner.calls();
            let ghost app_before = self@;
            let ghost out_before = outcomes@;
            let succeeded = runner.run_colon_command(self, command);
            let mode_after = self.input_mode;
            outcomes.push(StepOutcome { command: owned(command), succeeded, mode_after });
            proof {
                let log = runner.calls();
                let prev = calls_since(log_before, log0);
                let cur = calls_since(log, log0);
                assert(log == log_before.push(CommandCall { before: app_before, command: command@, succeeded, after: self@ }));
                assert(log.subrange(0, log0.len() as int) =~= log0) by {
                    assert(log_before.subrange(0, log0.len() as int) =~= log0);
                }
                assert(cur =~= prev.push(CommandCall { before: app_before, command: command@, succeeded, after: self@ }));
                assert(forall|j: int| 0 <= j < i ==> outcomes@[j] == out_before[j]);
                assert(outcomes@[i as int].command@ == command@);
                assert forall|j: int, k: int|
                    #![trigger cur[j], cur[k]]
                    0 <= j && k == j + 1 && k < cur.len() implies cur[k].before == cur[j].after by {
                    if k < prev.len() {
                        assert(cur[k] == prev[k] && cur[j] == prev[j]);
                    } else {
                        assert(cur[j] == prev[j]);
                        assert(prev.len() > 0 ==> prev[j].after == prev.last().after);
                    }
                }
                assert forall|j: int| 0 <= j < cur.len() implies {
                    &&& (#[trigger] cur[j]).command == outcomes@[j].command@
                    &&& cur[j].succeeded == outcomes@[j].succeeded
                    &&& cur[j].after.input_mode == outcomes@[j].mode_after
                } by {
                    if j < prev.len() {
                        assert(cur[j] == prev[j]);
                    }
                }
                if prev.len() > 0 {
                    assert(cur[0] == prev[0]);
                }
                assert(extends(log, log0));
                assert(calls_match(outcomes@, cur, start, self@));
            }
            if !macro_continues(succeeded, mode_after) {
                assert(outcomes@.last() == outcomes@[i as int]);
                return MacroRun { started: true, steps: outcomes };
            }
            i = i + 1;
        }
        MacroRun { started: true, steps: outcomes }
    }

    /// Short summaries for help / status (register → description), in
    /// ascending register order.
    pub fn macro_help_rows(&self) -> (r: Vec<(char, String)>)
        ensures
            help_rows_of(self@.macros, row_views(r@)),
    {
        proof {
            use_type_invariant(&*self);
        }
        let ghost ms = self@.macros;
        let mut rows: Vec<(char, String)> = Vec::new();
        let mut j: usize = 0;
        proof {
            lemma_help_rows_empty(ms);
            assert(row_views(rows@) =~= Seq::<(char, Seq<char>)>::empty());
        }
        while j < self.macros.len()
            invariant
                ms == macro_views(self.macros@),
                distinct(keys_of(ms)),
                j <= ms.len(),
                help_rows_of(ms.subrange(0, j as int), row_views(rows@)),
            decreases ms.len() - j,
        {
            let k = self.macros[j].key;
            let summary_text = summarize_macro_steps(self.macros[j].steps.as_slice());
            let mut p: usize = 0;
            let ghost rv = row_views(rows@);
            assert(ms[j as int].0 == k);
            proof {
                lemma_row_keys_differ(ms, rv, j as int);
            }
            while p < rows.len() && rows[p].0 < k
                invariant
                    rv == row_views(rows@),
                    p <= rows@.len(),
                    forall|i: int| 0 <= i < p ==> rv[i].0 < k,
                decreases rows@.len() - p,
            {
                p = p + 1;
            }
            let ghost new_row = (k, summary_text@);
            assert(summary_text@ == summary(ms[j as int].1));
            rows.insert(p, (k, summary_text));
            proof {
                lemma_insert_sorted(rv, p as int, new_row);
                lemma_insert_from(rv, p as int, new_row, ms, j as int);
                lemma_insert_cover(rv, p as int, new_row, ms, j as int);
                assert(row_views(rows@) =~= rv.insert(p as int, new_row));
            }
            j = j + 1;
        }
        assert(ms.subrange(0, j as int) =~= ms);
        rows
    }

    /// Replay the last macro register (`@@`): clear the pending `@`, then run
    /// that macro as `run_macro` does.
    pub fn run_last_macro<R: ColonCommandRunner>(&mut self, runner: &mut R) -> (r: MacroRun)
        ensures
            extends(final(runner).calls(), old(runner).calls()),
            final(runner).fixed() == old(runner).fixed(),
            match old(self)@.last_macro_register {
                None => !r.started && r.steps@.len() == 0 && final(runner).calls() == old(runner).calls()
                    && final(self)@ == with_warning(
                    AppView { pending_at: false, ..old(self)@ },
                    "No previous macro to replay"@,
                ),
                Some(register) => macro_run(
                    AppView { pending_at: false, ..old(self)@ },
                    register,
                    r.started,
                    r.steps@,
                    calls_since(final(runner).calls(), old(runner).calls()),
                    final(self)@,
                ),
            },
    {
        self.clear_pending_at();
        match self.last_macro_register {
            Some(register) => self.run_macro(register, runner),
            None => {
                self.set_warning(owned("No previous macro to replay"));
                assert(runner.calls().subrange(0, runner.calls().len() as int) =~= runner.calls());
                MacroRun { started: false, steps: Vec::new() }
            },
        }
    }
}

/// A run of a macro goes on exactly while its steps succeed and leave the
/// session in normal mode: after a step that succeeded and left normal mode
/// the next step of the macro runs, a step that failed or left another mode
/// is the last one run, and a run that ends before the macro's last step
/// ended on such a step.
pub proof fn lemma_macro_stops_only_on_failure_or_mode_change(
    before: AppView,
    register: char,
    started: bool,
    run: Seq<StepOutcome>,
    calls: Seq<CommandCall>,
    after: AppView,
)
    requires
        macro_run(before, register, started, run, calls, after),
        macro_lookup(before.macros, register) is Some,
    ensures
        ({
            let steps = macro_lookup(before.macros, register).unwrap();
            &&& forall|i: int|
                0 <= i < run.len() && i + 1 < steps.len() && (#[trigger] run[i]).succeeded
                    && run[i].mode_after == InputMode::Normal ==> i + 1 < run.len()
            &&& forall|i: int|
                0 <= i < run.len() && (!(#[trigger] run[i]).succeeded || run[i].mode_after != InputMode::Normal)
                    ==> i == run.len() - 1
            &&& run.len() < steps.len() ==> !run.last().succeeded || run.last().mode_after != InputMode::Normal
            &&& steps.len() > 0 ==> run.len() > 0
            &&& forall|i: int| 0 <= i < run.len() ==> (#[trigger] run[i]).command@ == steps[i]
        }),
{
    let steps = macro_lookup(before.macros, register).unwrap();
    assert forall|i: int|
        0 <= i < run.len() && i + 1 < steps.len() && (#[trigger] run[i]).succeeded
            && run[i].mode_after == InputMode::Normal implies i + 1 < run.len() by {
        if i + 1 >= run.len() {
            assert(run.last() == run[i]);
        }
    }
    assert forall|i: int|
        0 <= i < run.len() && (!(#[trigger] run[i]).succeeded || run[i].mode_after != InputMode::Normal)
            implies i == run.len() - 1 by {
        if i < run.len() - 1 {
            assert(continues(run[i].succeeded, run[i].mode_after));
        }
    }
}

proof fn lemma_lookup_at(ms: Seq<(char, Seq<Seq<char>>)>, k: char, i: int)
    requires
        0 <= i < ms.len(),
        ms[i].0 == k,
        forall|j: int| 0 <= j < i ==> ms[j].0 != k,
    ensures
        macro_lookup(ms, k) == Some(ms[i].1),
    decreases i,
{
    if i > 0 {
        assert(ms[0].0 != k);
        lemma_lookup_at(ms.drop_first(), k, i - 1);
    }
}

proof fn lemma_lookup_absent(ms: Seq<(char, Seq<Seq<char>>)>, k: char)
    requires
        forall|j: int| 0 <= j < ms.len() ==> ms[j].0 != k,
    ensures
        macro_lookup(ms, k) is None,
    decreases ms.len(),
{
    if ms.len() > 0 {
        assert(ms[0].0 != k);
        lemma_lookup_absent(ms.drop_first(), k);
    }
}

/// The lookup of `k` in `ms` (whose registers are distinct) is the steps at
/// the one place `k` is bound, or nothing where it is not bound.
proof fn lemma_lookup_distinct(ms: Seq<(char, Seq<Seq<char>>)>, k: char)
    requires
        distinct(keys_of(ms)),
    ensures
        keys_of(ms).contains(k) ==> exists|i: int|
            0 <= i < ms.len() && ms[i].0 == k && #[trigger] macro_lookup(ms, k) == Some(ms[i].1),
        !keys_of(ms).contains(k) ==> macro_lookup(ms, k) is None,
{
    if keys_of(ms).contains(k) {
        let i = choose|i: int| 0 <= i < keys_of(ms).len() && keys_of(ms)[i] == k;
        assert forall|j: int| 0 <= j < i implies ms[j].0 != k by {
            assert(keys_of(ms)[j] == ms[j].0);
        }
        lemma_lookup_at(ms, k, i);
    } else {
        assert forall|j: int| 0 <= j < ms.len() implies ms[j].0 != k by {
            assert(keys_of(ms)[j] == ms[j].0);
        }
        lemma_lookup_absent(ms, k);
    }
}

proof fn lemma_lookup_upsert(ms: Seq<(char, Seq<Seq<char>>)>, k: char, steps: Seq<Seq<char>>, j: char)
    requires
        distinct(keys_of(ms)),
    ensures
        macro_lookup(upsert(ms, k, steps), j) == if j == k {
            Some(steps)
        } else {
            macro_lookup(ms, j)
        },
{
    let u = upsert(ms, k, steps);
    crate::config::macros::lemma_upsert_distinct(ms, k, steps);
    assert forall|i: int| 0 <= i < ms.len() implies #[trigger] u[i].0 == ms[i].0 && (ms[i].0 != k ==> u[i] == ms[i]) by {
        if !keys_of(ms).contains(k) {
            assert(u[i] == ms[i]);
        }
    }
    if j == k {
        let i = choose|i: int| 0 <= i < keys_of(u).len() && keys_of(u)[i] == k;
        assert(u[i].0 == k);
        assert forall|jj: int| 0 <= jj < i implies u[jj].0 != k by {
            assert(keys_of(u)[jj] == u[jj].0);
            assert(keys_of(u)[i] == u[i].0);
        }
        if keys_of(ms).contains(k) {
            assert(u[i] == (k, steps));
        } else {
            if i < ms.len() {
                assert(keys_of(ms)[i] == ms[i].0);
            }
            assert(i == ms.len());
        }
        lemma_lookup_at(u, k, i);
    } else {
        lemma_lookup_distinct(ms, j);
        if keys_of(ms).contains(j) {
            let i = choose|i: int| 0 <= i < ms.len() && ms[i].0 == j && #[trigger] macro_lookup(ms, j) == Some(ms[i].1);
            assert forall|jj: int| 0 <= jj < i implies u[jj].0 != j by {
                assert(keys_of(ms)[jj] == ms[jj].0);
                assert(keys_of(ms)[i] == ms[i].0);
            }
            lemma_lookup_at(u, j, i);
        } else {
            assert forall|jj: int| 0 <= jj < u.len() implies u[jj].0 != j by {
                if jj < ms.len() {
                    assert(keys_of(ms)[jj] == ms[jj].0);
                }
            }
            lemma_lookup_absent(u, j);
        }
    }
}

/// Loading a list of macros binds each register to the last macro of the
/// list that names it, whatever was loaded before; a register that no macro
/// of the list names has no macro.
pub proof fn lemma_load_macros_last_wins(ms: Seq<(char, Seq<Seq<char>>)>)
    ensures
        distinct(keys_of(loaded(ms))),
        forall|k: char| #[trigger] macro_lookup(loaded(ms), k) == last_binding(ms, k),
    decreases ms.len(),
{
    if ms.len() > 0 {
        lemma_load_macros_last_wins(ms.drop_last());
        let prev = loaded(ms.drop_last());
        crate::config::macros::lemma_upsert_distinct(prev, ms.last().0, ms.last().1);
        assert forall|k: char| #[trigger] macro_lookup(loaded(ms), k) == last_binding(ms, k) by {
            lemma_lookup_upsert(prev, ms.last().0, ms.last().1, k);
        }
    }
}

proof fn lemma_macro_views_update(s: Seq<MacroConfig>, i: int, x: MacroConfig)
    requires
        0 <= i < s.len(),
    ensures
        macro_views(s.update(i, x)) == macro_views(s).update(i, crate::config::macro_view(x)),
{
    assert(macro_views(s.update(i, x)) =~= macro_views(s).update(i, crate::config::macro_view(x)));
}

proof fn lemma_upsert_at(ms: Seq<(char, Seq<Seq<char>>)>, i: int, k: char, steps: Seq<Seq<char>>)
    requires
        0 <= i < ms.len(),
        ms[i].0 == k,
        distinct(keys_of(ms)),
    ensures
        upsert(ms, k, steps) == ms.update(i, (k, steps)),
{
    assert(keys_of(ms)[i] == k);
    let u = upsert(ms, k, steps);
    assert forall|j: int| 0 <= j < ms.len() implies u[j] == ms.update(i, (k, steps))[j] by {
        if j != i {
            assert(keys_of(ms)[j] == ms[j].0);
            assert(keys_of(ms)[i] == ms[i].0);
        }
    }
    assert(u =~= ms.update(i, (k, steps)));
}

proof fn lemma_macro_views_push(s: Seq<MacroConfig>, x: MacroConfig)
    ensures
        macro_views(s.push(x)) == macro_views(s).push(crate::config::macro_view(x)),
{
    assert(macro_views(s.push(x)) =~= macro_views(s).push(crate::config::macro_view(x)));
}

/// `:c1 → :c2 → ...`: the commands of a macro, each behind a colon, joined
/// by ` → `.
pub open spec fn summary(cmds: Seq<Seq<char>>) -> Seq<char>
    decreases cmds.len(),
{
    if cmds.len() == 0 {
        seq![]
    } else if cmds.len() == 1 {
        ":"@ + cmds[0]
    } else {
        summary(cmds.drop_last()) + " → "@ + ":"@ + cmds.last()
    }
}

/// Short summary of a macro's steps for help and status lines.
pub fn summarize_macro_steps(steps: &[MacroStep]) -> (r: String)
    ensures
        r@ == summary(step_views(steps@)),
{
    let mut r = String::new();
    let mut k: usize = 0;
    while k < steps.len()
        invariant
            k <= steps@.len(),
            r@ == summary(step_views(steps@).subrange(0, k as int)),
        decreases steps@.len() - k,
    {
        let ghost prev = step_views(steps@).subrange(0, k as int);
        if k == 0 {
            r = cat(owned(":"), steps[k].command_text());
        } else {
            r = cat(cat(cat(r, " → "), ":"), steps[k].command_text());
        }
        k = k + 1;
        proof {
            let cur = step_views(steps@).subrange(0, k as int);
            assert(cur.drop_last() =~= prev);
            assert(cur.last() == steps@[k - 1]@);
            if k == 1 {
                assert(cur[0] == steps@[0]@);
            }
            assert(r@ =~= summary(cur));
        }
    }
    assert(step_views(steps@).subrange(0, k as int) =~= step_views(steps@));
    r
}

/// The help rows of a list of rows.
pub open spec fn row_views(rows: Seq<(char, String)>) -> Seq<(char, Seq<char>)> {
    rows.map_values(|r: (char, String)| (r.0, r.1@))
}

/// The registers of `rows` ascend strictly.
#[verifier::opaque]
pub open spec fn rows_sorted(rows: Seq<(char, Seq<char>)>) -> bool {
    forall|a: int, b: int| #![trigger rows[a], rows[b]] 0 <= a < b < rows.len() ==> rows[a].0 < rows[b].0
}

/// `row` is a macro of `ms`, given by its register and the summary of its
/// steps.
pub open spec fn row_in(ms: Seq<(char, Seq<Seq<char>>)>, row: (char, Seq<char>)) -> bool {
    exists|j: int| 0 <= j < ms.len() && #[trigger] ms[j].0 == row.0 && row.1 == summary(ms[j].1)
}

/// Some row of `rows` has register `k`.
pub open spec fn has_row(rows: Seq<(char, Seq<char>)>, k: char) -> bool {
    exists|i: int| 0 <= i < rows.len() && #[trigger] rows[i].0 == k
}

/// Each row of `rows` is a macro of `ms` with the summary of its steps.
pub open spec fn rows_from(ms: Seq<(char, Seq<Seq<char>>)>, rows: Seq<(char, Seq<char>)>) -> bool {
    forall|i: int| 0 <= i < rows.len() ==> #[trigger] row_in(ms, rows[i])
}

/// Each macro of `ms` has a row in `rows`.
pub open spec fn rows_cover(ms: Seq<(char, Seq<Seq<char>>)>, rows: Seq<(char, Seq<char>)>) -> bool {
    forall|j: int| 0 <= j < ms.len() ==> #[trigger] has_row(rows, ms[j].0)
}

/// `rows` lists the macros `ms` (whose registers are distinct) by register,
/// in ascending order, each with the summary of its steps.
pub open spec fn help_rows_of(ms: Seq<(char, Seq<Seq<char>>)>, rows: Seq<(char, Seq<char>)>) -> bool {
    &&& rows.len() == ms.len()
    &&& rows_sorted(rows)
    &&& rows_from(ms, rows)
    &&& rows_cover(ms, rows)
}

proof fn lemma_row_keys_differ(ms: Seq<(char, Seq<Seq<char>>)>, rows: Seq<(char, Seq<char>)>, j: int)
    requires
        0 <= j < ms.len(),
        distinct(keys_of(ms)),
        rows_from(ms.subrange(0, j), rows),
    ensures
        forall|i: int| 0 <= i < rows.len() ==> rows[i].0 != ms[j].0,
{
    let done = ms.subrange(0, j);
    assert forall|i: int| 0 <= i < rows.len() implies rows[i].0 != ms[j].0 by {
        assert(row_in(done, rows[i]));
        let jj = choose|jj: int| 0 <= jj < done.len() && #[trigger] done[jj].0 == rows[i].0 && rows[i].1 == summary(done[jj].1);
        assert(done[jj] == ms[jj]);
        assert(keys_of(ms)[jj] == ms[jj].0);
        assert(keys_of(ms)[j] == ms[j].0);
    }
}

proof fn lemma_insert_sorted(rv: Seq<(char, Seq<char>)>, p: int, new_row: (char, Seq<char>))
    requires
        0 <= p <= rv.len(),
        rows_sorted(rv),
        forall|i: int| 0 <= i < p ==> rv[i].0 < new_row.0,
        p < rv.len() ==> new_row.0 <= rv[p].0,
        forall|i: int| 0 <= i < rv.len() ==> rv[i].0 != new_row.0,
    ensures
        rows_sorted(rv.insert(p, new_row)),
{
    reveal(rows_sorted);
    let u = rv.insert(p, new_row);
    assert forall|a: int, b: int| #![trigger u[a], u[b]] 0 <= a < b < u.len() implies u[a].0 < u[b].0 by {
        if b < p {
            assert(u[a] == rv[a] && u[b] == rv[b]);
        } else if b == p {
            assert(u[a] == rv[a]);
        } else if a < p {
            assert(u[a] == rv[a]);
            assert(u[b] == rv[b - 1]);
            if p < b - 1 {
                assert(rv[p].0 < rv[b - 1].0);
            }
        } else if a == p {
            assert(u[b] == rv[b - 1]);
            if p < b - 1 {
                assert(rv[p].0 < rv[b - 1].0);
            }
            assert(rv[b - 1].0 != new_row.0);
            assert(new_row.0 != rv[b - 1].0);
        } else {
            assert(u[a] == rv[a - 1]);
            assert(u[b] == rv[b - 1]);
        }
    }
}

proof fn lemma_insert_from(
    rv: Seq<(char, Seq<char>)>,
    p: int,
    new_row: (char, Seq<char>),
    ms: Seq<(char, Seq<Seq<char>>)>,
    j: int,
)
    requires
        0 <= j < ms.len(),
        0 <= p <= rv.len(),
        rows_from(ms.subrange(0, j), rv),
        new_row.0 == ms[j].0,
        new_row.1 == summary(ms[j].1),
    ensures
        rows_from(ms.subrange(0, j + 1), rv.insert(p, new_row)),
{
    let done = ms.subrange(0, j);
    let next = ms.subrange(0, j + 1);
    let u = rv.insert(p, new_row);
    assert forall|i: int| 0 <= i < u.len() implies #[trigger] row_in(next, u[i]) by {
        if i == p {
            assert(next[j] == ms[j]);
            assert(next[j].0 == u[i].0);
        } else {
            let ii = if i < p { i } else { i - 1 };
            assert(u[i] == rv[ii]);
            assert(row_in(done, rv[ii]));
            let jj = choose|jj: int| 0 <= jj < done.len() && #[trigger] done[jj].0 == rv[ii].0 && rv[ii].1 == summary(done[jj].1);
            assert(next[jj] == done[jj]);
            assert(next[jj].0 == u[i].0);
        }
    }
}

proof fn lemma_insert_cover(
    rv: Seq<(char, Seq<char>)>,
    p: int,
    new_row: (char, Seq<char>),
    ms: Seq<(char, Seq<Seq<char>>)>,
    j: int,
)
    requires
        0 <= j < ms.len(),
        0 <= p <= rv.len(),
        rows_cover(ms.subrange(0, j), rv),
        new_row.0 == ms[j].0,
    ensures
        rows_cover(ms.subrange(0, j + 1), rv.insert(p, new_row)),
{
    let done = ms.subrange(0, j);
    let next = ms.subrange(0, j + 1);
    let u = rv.insert(p, new_row);
    assert forall|jj: int| 0 <= jj < next.len() implies #[trigger] has_row(u, next[jj].0) by {
        if jj == j {
            assert(u[p].0 == next[jj].0);
        } else {
            assert(next[jj] == done[jj]);
            assert(has_row(rv, done[jj].0));
            let i = choose|i: int| 0 <= i < rv.len() && #[trigger] rv[i].0 == done[jj].0;
            let ui = if i < p { i } else { i + 1 };
            assert(u[ui] == rv[i]);
            assert(u[ui].0 == next[jj].0);
        }
    }
}

proof fn lemma_help_rows_empty(ms: Seq<(char, Seq<Seq<char>>)>)
    ensures
        help_rows_of(ms.subrange(0, 0), Seq::<(char, Seq<char>)>::empty()),
{
    reveal(rows_sorted);
}

/// Installs `m` into `installed`, replacing the macro with the same register.
fn install(installed: &mut Vec<MacroConfig>, m: MacroConfig)
    requires
        distinct(keys_of(macro_views(old(installed)@))),
    ensures
        macro_views(final(installed)@) == upsert(macro_views(old(installed)@), m.key, step_views(m.steps@)),
        distinct(keys_of(macro_views(final(installed)@))),
{
    let ghost m0 = macro_views(installed@);
    let ghost mv = crate::config::macro_view(m);
    proof {
        crate::config::macros::lemma_upsert_distinct(m0, mv.0, mv.1);
    }
    let mut i: usize = 0;
    while i < installed.len()
        invariant
            installed@ == old(installed)@,
            m0 == macro_views(installed@),
            mv == crate::config::macro_view(m),
            distinct(keys_of(m0)),
            distinct(keys_of(upsert(m0, mv.0, mv.1))),
            i <= installed@.len(),
            forall|j: int| 0 <= j < i ==> installed@[j].key != m.key,
        decreases installed@.len() - i,
    {
        if installed[i].key == m.key {
            assert(keys_of(m0)[i as int] == m.key);
            assert(m0[i as int] == crate::config::macro_view(installed@[i as int]));
            let ghost p0 = installed@;
            proof {
                lemma_macro_views_update(p0, i as int, m);
                lemma_upsert_at(m0, i as int, mv.0, mv.1);
            }
            installed.set(i, m);
            return;
        }
        i = i + 1;
    }
    assert forall|j: int| 0 <= j < keys_of(m0).len() implies keys_of(m0)[j] != mv.0 by {
        assert(keys_of(m0)[j] == installed@[j].key);
    }
    let ghost p0 = installed@;
    proof {
        lemma_macro_views_push(p0, m);
    }
    installed.push(m);
}

} // verus!
